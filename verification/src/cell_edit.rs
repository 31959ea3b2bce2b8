//! The cell-entry seam both stages author through: build the universal
//! entry intent for one explicit cell, read the host's three-way outcome off
//! the receipt, and seed and gate the editor from the authored record.
//! The skin never classifies the text itself; every outcome is read from the
//! receipt.
use vstd::prelude::*;

use crate::intent::{
    copy_diagnostics, GridEntryDiagnosticProjection, GridEntryOutcomeProjection, IntentErrorKind,
    IntentReceipt, WorkspaceDeltaChange, WorkspaceIntent,
};
use crate::projection::{value_display, value_display_text, NodeId, NodeValueProjection};
use crate::text::push_str;
use crate::workspace::{
    copy_strings, find_cell, find_grid, first_cell_position, grid_position, has_cell, has_grid,
    workspace_wf, GridAuthoredCellProjection, GridEditabilityProjection, WorkspaceState,
};

verus! {

/// The entry intent for one specific cell, always built from the caller's
/// own `grid`, `row` and `col`.
pub fn enter_cell_intent(grid: NodeId, row: u32, col: u32, text: String) -> (i: WorkspaceIntent)
    ensures
        i == (WorkspaceIntent::EnterGridCell { grid, row, col, text }),
{
    WorkspaceIntent::EnterGridCell { grid, row, col, text }
}

/// The result of one commit through the entry verb, as the receipt reports
/// it.
#[derive(Debug, Clone, PartialEq, Eq)]
pub enum CellOutcome {
    /// The text was a literal; the rendered value.
    Literal { value: String },
    /// The text was a formula; the rendered value and the names it
    /// references that are not defined yet.
    Formula { value: String, unresolved: Vec<String> },
    /// The commit emptied the cell.
    Cleared,
    /// The entry verb refused the text; the diagnostics to underline.
    Rejected(Vec<GridEntryDiagnosticProjection>),
    /// An accepted receipt that reported no cell entry.
    NoChange,
}

/// The stable label of an outcome (the `data-outcome` attribute).
pub open spec fn outcome_label(o: CellOutcome) -> Seq<char> {
    match o {
        CellOutcome::Literal { .. } => "literal"@,
        CellOutcome::Formula { .. } => "formula"@,
        CellOutcome::Cleared => "cleared"@,
        CellOutcome::Rejected(_) => "rejected"@,
        CellOutcome::NoChange => "no-change"@,
    }
}

impl CellOutcome {
    /// A short, stable label for the outcome.
    pub fn label(&self) -> (s: &'static str)
        ensures
            s@ == outcome_label(*self),
    {
        match self {
            CellOutcome::Literal { .. } => "literal",
            CellOutcome::Formula { .. } => "formula",
            CellOutcome::Cleared => "cleared",
            CellOutcome::Rejected(_) => "rejected",
            CellOutcome::NoChange => "no-change",
        }
    }
}

/// The compact display text of an outcome's value: the display text of a
/// scalar, an error as `Error("message")`, and an array by its shape alone.
pub open spec fn node_value_display_text(v: NodeValueProjection) -> Seq<char> {
    match v {
        NodeValueProjection::Error(message) => "Error(\""@ + message@ + "\")"@,
        _ => value_display_text(v),
    }
}

/// A compact display string for a projected cell value (the outcome's
/// value text).
pub fn node_value_display(value: &NodeValueProjection) -> (s: String)
    ensures
        s@ == node_value_display_text(*value),
{
    match value {
        NodeValueProjection::Error(message) => {
            let mut s = String::from_str("Error(\"");
            push_str(&mut s, message.as_str());
            push_str(&mut s, "\")");
            s
        },
        _ => value_display(value),
    }
}

/// Whether the change reports a cell entry.
pub open spec fn is_cell_entered(c: WorkspaceDeltaChange) -> bool {
    c is GridCellEntered
}

/// Whether any change of the list reports a cell entry.
pub open spec fn has_cell_entered(changes: Seq<WorkspaceDeltaChange>) -> bool {
    exists|k: int| 0 <= k < changes.len() && is_cell_entered(#[trigger] changes[k])
}

/// The position of the first change that reports a cell entry.
pub open spec fn first_cell_entered(changes: Seq<WorkspaceDeltaChange>) -> int {
    choose|k: int|
        0 <= k < changes.len() && is_cell_entered(#[trigger] changes[k]) && forall|m: int|
            0 <= m < k ==> !is_cell_entered(#[trigger] changes[m])
}

/// The position of the first change that reports a cell entry, or `None`.
fn find_cell_entered(changes: &Vec<WorkspaceDeltaChange>) -> (r: Option<usize>)
    ensures
        r is None <==> !has_cell_entered(changes@),
        r matches Some(k) ==> k == first_cell_entered(changes@) && k < changes@.len()
            && is_cell_entered(changes@[k as int]),
{
    let mut k: usize = 0;
    while k < changes.len()
        invariant
            k <= changes@.len(),
            forall|m: int| 0 <= m < k ==> !is_cell_entered(#[trigger] changes@[m]),
        decreases changes@.len() - k,
    {
        if let WorkspaceDeltaChange::GridCellEntered { .. } = &changes[k] {
            proof {
                assert(is_cell_entered(changes@[k as int]));
                let p = first_cell_entered(changes@);
                if p < k {
                    assert(!is_cell_entered(changes@[p]));
                } else if p > k {
                    assert(!is_cell_entered(changes@[k as int]));
                }
            }
            return Some(k);
        }
        k += 1;
    }
    None
}

/// `diags` is the single diagnostic `message` with no span.
pub open spec fn single_diagnostic(diags: Seq<GridEntryDiagnosticProjection>, message: Seq<char>) -> bool {
    diags.len() == 1 && diags[0].message@ == message && diags[0].span is None
}

/// `o` is what [`interpret_receipt`] reads off `receipt`.
pub open spec fn interprets(receipt: IntentReceipt, o: CellOutcome) -> bool {
    if !receipt.accepted {
        match receipt.error {
            Some(e) => match e.kind {
                IntentErrorKind::GridEntryRejected { diagnostics } => o matches CellOutcome::Rejected(
                    d,
                ) && d@ == diagnostics@,
                _ => o matches CellOutcome::Rejected(d) && single_diagnostic(d@, e.debug_text@),
            },
            None => o matches CellOutcome::Rejected(d) && single_diagnostic(
                d@,
                "rejected without a diagnostic"@,
            ),
        }
    } else if !has_cell_entered(receipt.delta.changes@) {
        o is NoChange
    } else {
        match receipt.delta.changes@[first_cell_entered(receipt.delta.changes@)] {
            WorkspaceDeltaChange::GridCellEntered { outcome, .. } => match outcome {
                GridEntryOutcomeProjection::Literal { value } => o matches CellOutcome::Literal {
                    value: v,
                } && v@ == node_value_display_text(value),
                GridEntryOutcomeProjection::Formula { unresolved_names, value } => o matches CellOutcome::Formula {
                    value: v,
                    unresolved: u,
                } && v@ == node_value_display_text(value) && u@ == unresolved_names@,
                GridEntryOutcomeProjection::Cleared => o is Cleared,
            },
            _ => false,
        }
    }
}

/// The message-only diagnostic list for a rejection the entry verb did not
/// diagnose itself.
fn lone_diagnostic(message: String) -> (d: Vec<GridEntryDiagnosticProjection>)
    ensures
        single_diagnostic(d@, message@),
{
    let mut d: Vec<GridEntryDiagnosticProjection> = Vec::new();
    d.push(GridEntryDiagnosticProjection { message, span: None });
    d
}

/// Interpret a dispatcher receipt for an entry commit into the three-way
/// outcome (plus rejection). Reads host truth only.
pub fn interpret_receipt(receipt: &IntentReceipt) -> (o: CellOutcome)
    ensures
        interprets(*receipt, o),
{
    if !receipt.accepted {
        return match &receipt.error {
            Some(e) => match &e.kind {
                IntentErrorKind::GridEntryRejected { diagnostics } => CellOutcome::Rejected(
                    copy_diagnostics(diagnostics),
                ),
                _ => CellOutcome::Rejected(lone_diagnostic(e.debug_text.clone())),
            },
            None => CellOutcome::Rejected(
                lone_diagnostic(String::from_str("rejected without a diagnostic")),
            ),
        };
    }
    match find_cell_entered(&receipt.delta.changes) {
        None => CellOutcome::NoChange,
        Some(k) => match &receipt.delta.changes[k] {
            WorkspaceDeltaChange::GridCellEntered { outcome, .. } => match outcome {
                GridEntryOutcomeProjection::Literal { value } => CellOutcome::Literal {
                    value: node_value_display(value),
                },
                GridEntryOutcomeProjection::Formula { unresolved_names, value } => {
                    CellOutcome::Formula {
                        value: node_value_display(value),
                        unresolved: copy_strings(unresolved_names),
                    }
                },
                GridEntryOutcomeProjection::Cleared => CellOutcome::Cleared,
            },
            _ => CellOutcome::NoChange,
        },
    }
}

/// The grid address the receipt's first cell-entry change targeted, if any.
pub fn entered_cell(receipt: &IntentReceipt) -> (r: Option<(NodeId, u32, u32)>)
    ensures
        r is None <==> !has_cell_entered(receipt.delta.changes@),
        r matches Some(t) ==> receipt.delta.changes@[first_cell_entered(
            receipt.delta.changes@,
        )] matches WorkspaceDeltaChange::GridCellEntered { grid_node_id, row, col, .. } && t == (
            grid_node_id,
            row,
            col,
        ),
{
    match find_cell_entered(&receipt.delta.changes) {
        None => None,
        Some(k) => match &receipt.delta.changes[k] {
            WorkspaceDeltaChange::GridCellEntered { grid_node_id, row, col, .. } => Some(
                (grid_node_id.copy(), *row, *col),
            ),
            _ => None,
        },
    }
}

/// The editor seed of an authored record: its formula source, else its
/// literal text, else empty.
pub open spec fn seed_text(a: GridAuthoredCellProjection) -> Seq<char> {
    match a.source_text {
        Some(t) => t@,
        None => match a.literal_text {
            Some(t) => t@,
            None => Seq::empty(),
        },
    }
}

/// The editor seed for a cell: its formula source text, else its literal
/// text, else empty; never a computed value.
pub fn authored_seed_text(authored: &GridAuthoredCellProjection) -> (s: String)
    ensures
        s@ == seed_text(*authored),
{
    match &authored.source_text {
        Some(t) => t.clone(),
        None => match &authored.literal_text {
            Some(t) => t.clone(),
            None => String::new(),
        },
    }
}

/// The authored seed of `(grid, row, col)` in the workspace: the seed of
/// the first windowed cell there, or empty when the grid, the cell or its
/// authored record is absent.
pub open spec fn workspace_seed(ws: WorkspaceState, grid: Seq<char>, row: u32, col: u32) -> Seq<
    char,
> {
    if has_grid(ws, grid) {
        let g = ws.grids@[grid_position(ws, grid)];
        if has_cell(g, row, col) {
            match g.cells@[first_cell_position(g, row, col)].authored {
                Some(a) => seed_text(a),
                None => Seq::empty(),
            }
        } else {
            Seq::empty()
        }
    } else {
        Seq::empty()
    }
}

/// The current authored seed text for `(grid, row, col)`, read live from
/// the workspace; empty for a blank cell.
pub fn current_authored_seed(ws: &WorkspaceState, grid: &NodeId, row: u32, col: u32) -> (s: String)
    requires
        workspace_wf(*ws),
    ensures
        s@ == workspace_seed(*ws, grid.id@, row, col),
{
    match find_grid(ws, grid) {
        None => String::new(),
        Some(gi) => {
            let g = &ws.grids[gi];
            match find_cell(g, row, col) {
                None => String::new(),
                Some(k) => match &g.cells[k].authored {
                    Some(a) => authored_seed_text(a),
                    None => String::new(),
                },
            }
        },
    }
}

/// Why a cell admits no editor, or nothing when it is editable.
pub open spec fn editability_reason(e: GridEditabilityProjection) -> Option<Seq<char>> {
    match e {
        GridEditabilityProjection::Editable => None,
        GridEditabilityProjection::RepeatedRegionMember => Some(
            "read-only \u{2014} part of a repeated-formula region"@,
        ),
        GridEditabilityProjection::MergedFollower => Some(
            "read-only \u{2014} follower of a merged region"@,
        ),
        GridEditabilityProjection::SpillDisplay { .. } => Some(
            "read-only \u{2014} spilled from an array formula"@,
        ),
        GridEditabilityProjection::TableStructural => Some(
            "read-only \u{2014} structural table cell"@,
        ),
    }
}

/// Whether a cell's editability admits an editor (`None`), and if not, the
/// honest reason to show instead.
pub fn editability_note(editability: &GridEditabilityProjection) -> (r: Option<&'static str>)
    ensures
        r matches Some(t) ==> editability_reason(*editability) == Some(t@),
        r is None <==> editability_reason(*editability) is None,
{
    match editability {
        GridEditabilityProjection::Editable => None,
        GridEditabilityProjection::RepeatedRegionMember => Some(
            "read-only \u{2014} part of a repeated-formula region",
        ),
        GridEditabilityProjection::MergedFollower => Some(
            "read-only \u{2014} follower of a merged region",
        ),
        GridEditabilityProjection::SpillDisplay { .. } => Some(
            "read-only \u{2014} spilled from an array formula",
        ),
        GridEditabilityProjection::TableStructural => Some("read-only \u{2014} structural table cell"),
    }
}

} // verus!
