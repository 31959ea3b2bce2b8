//! Intents the skin dispatches to the host, the receipts that come back,
//! the host's typed rejections, and the dispatcher seam between them.
use vstd::prelude::*;

use crate::projection::{value_copy, NodeId, NodeValueProjection};
use crate::workspace::{copy_strings, DefinedNameScopeProjection, GridRectProjection};

verus! {

/// One typed entry diagnostic: a message and, when the parser has one, the
/// character span it underlines.
#[derive(Debug, Clone, PartialEq, Eq)]
pub struct GridEntryDiagnosticProjection {
    pub message: String,
    pub span: Option<(u32, u32)>,
}

impl GridEntryDiagnosticProjection {
    /// A copy of the diagnostic.
    pub fn copy(&self) -> (r: Self)
        ensures
            r == *self,
    {
        GridEntryDiagnosticProjection { message: self.message.clone(), span: self.span }
    }
}

/// A copy of a diagnostics list.
pub fn copy_diagnostics(v: &Vec<GridEntryDiagnosticProjection>) -> (r: Vec<
    GridEntryDiagnosticProjection,
>)
    ensures
        r@ == v@,
{
    let mut r: Vec<GridEntryDiagnosticProjection> = Vec::new();
    let mut i: usize = 0;
    while i < v.len()
        invariant
            i <= v@.len(),
            r@ == v@.subrange(0, i as int),
        decreases v@.len() - i,
    {
        r.push(v[i].copy());
        i += 1;
        assert(r@ =~= v@.subrange(0, i as int));
    }
    assert(v@.subrange(0, v@.len() as int) =~= v@);
    r
}

/// The engine's three-way classification of an accepted cell entry.
#[derive(Debug, PartialEq)]
pub enum GridEntryOutcomeProjection {
    /// The text was a literal; the cell's new value.
    Literal { value: NodeValueProjection },
    /// The text was a formula; the names it references that are not yet
    /// defined, and its value.
    Formula { unresolved_names: Vec<String>, value: NodeValueProjection },
    /// The entry emptied the cell.
    Cleared,
}

/// `b` is a faithful copy of the outcome `a`.
pub open spec fn outcome_copy(a: GridEntryOutcomeProjection, b: GridEntryOutcomeProjection) -> bool {
    match a {
        GridEntryOutcomeProjection::Literal { value } => b matches GridEntryOutcomeProjection::Literal {
            value: v2,
        } && value_copy(value, v2),
        GridEntryOutcomeProjection::Formula { unresolved_names, value } => b matches GridEntryOutcomeProjection::Formula {
            unresolved_names: n2,
            value: v2,
        } && n2@ == unresolved_names@ && value_copy(value, v2),
        GridEntryOutcomeProjection::Cleared => b is Cleared,
    }
}

impl GridEntryOutcomeProjection {
    /// A deep copy of the outcome.
    pub fn copy(&self) -> (r: Self)
        ensures
            outcome_copy(*self, r),
    {
        match self {
            GridEntryOutcomeProjection::Literal { value } => GridEntryOutcomeProjection::Literal {
                value: value.copy(),
            },
            GridEntryOutcomeProjection::Formula { unresolved_names, value } => {
                GridEntryOutcomeProjection::Formula {
                    unresolved_names: copy_strings(unresolved_names),
                    value: value.copy(),
                }
            },
            GridEntryOutcomeProjection::Cleared => GridEntryOutcomeProjection::Cleared,
        }
    }
}

/// Which rejection the host raised, as far as the skin tells them apart.
#[derive(Debug, Clone, PartialEq, Eq)]
pub enum IntentErrorKind {
    /// The entry verb refused the text, with typed diagnostics; nothing was
    /// written.
    GridEntryRejected { diagnostics: Vec<GridEntryDiagnosticProjection> },
    /// A defined name collided with an existing name or node.
    DefinedNameCollision { name: String },
    /// Any other rejection (unsupported intent, non-editable cell, ...).
    Other,
}

/// A host rejection: its kind, and the host's own debug rendering and
/// human-readable message for it.
#[derive(Debug, Clone, PartialEq, Eq)]
pub struct IntentError {
    pub kind: IntentErrorKind,
    pub debug_text: String,
    pub message: String,
}

/// One change a receipt's delta reports.
#[derive(Debug, PartialEq)]
pub enum WorkspaceDeltaChange {
    /// A cell entry landed at `(row, col)` of `grid_node_id`, with the
    /// engine's three-way outcome.
    GridCellEntered {
        grid_node_id: NodeId,
        row: u32,
        col: u32,
        outcome: GridEntryOutcomeProjection,
    },
    /// A grid's computed values changed.
    GridChanged { grid_node_id: NodeId },
    /// A grid's authored records changed.
    GridAuthoredChanged { grid_node_id: NodeId },
}

/// The changes one dispatch produced.
#[derive(Debug, PartialEq)]
pub struct WorkspaceDelta {
    pub changes: Vec<WorkspaceDeltaChange>,
}

/// What the host answers to one dispatched intent.
#[derive(Debug, PartialEq)]
pub struct IntentReceipt {
    pub accepted: bool,
    pub error: Option<IntentError>,
    pub delta: WorkspaceDelta,
}

impl IntentReceipt {
    /// An accepted receipt with an unchanged delta.
    pub fn accepted() -> (r: Self)
        ensures
            r.accepted,
            r.error is None,
            r.delta.changes@.len() == 0,
    {
        IntentReceipt { accepted: true, error: None, delta: WorkspaceDelta { changes: Vec::new() } }
    }

    /// The same receipt with `delta` as its delta.
    pub fn with_delta(self, delta: WorkspaceDelta) -> (r: Self)
        ensures
            r.accepted == self.accepted,
            r.error == self.error,
            r.delta == delta,
    {
        IntentReceipt { accepted: self.accepted, error: self.error, delta }
    }

    /// A rejected receipt carrying `error`, with an unchanged delta.
    pub fn rejected(error: IntentError) -> (r: Self)
        ensures
            !r.accepted,
            r.error == Some(error),
            r.delta.changes@.len() == 0,
    {
        IntentReceipt {
            accepted: false,
            error: Some(error),
            delta: WorkspaceDelta { changes: Vec::new() },
        }
    }
}

/// What a `SetDefinedName` intent points the name at.
#[derive(Debug, Clone, PartialEq, Eq)]
pub enum DefinedNameTargetIntent {
    Static(GridRectProjection),
    Dynamic { source_text: String },
}

/// A selected cell of a structured table.
#[derive(Debug, Clone, PartialEq, Eq)]
pub struct TableCellSelection {
    pub table: NodeId,
    pub row_id: String,
    pub column_id: String,
}

/// A request from the skin to the host.
#[derive(Debug, Clone, PartialEq, Eq)]
pub enum WorkspaceIntent {
    /// Select a node (or clear the selection).
    SelectNode(Option<NodeId>),
    /// Select one cell of a structured table.
    SelectTableCell { table: NodeId, row_id: String, column_id: String },
    /// Replace a node's formula.
    EditFormula { node: NodeId, content: String },
    /// Replace a node's content.
    EditContent { node: NodeId, content: String },
    /// The universal entry verb: author `text` into one grid cell.
    EnterGridCell { grid: NodeId, row: u32, col: u32, text: String },
    /// Define (or redefine) a name.
    SetDefinedName {
        scope: DefinedNameScopeProjection,
        name: String,
        target: DefinedNameTargetIntent,
    },
    /// Create a workbook-scoped name holding a value, in one step.
    CreateNamedValue { name: String, value_text: String },
    /// Rename a defined name in place.
    RenameDefinedName { scope: DefinedNameScopeProjection, old_name: String, new_name: String },
    /// Recalculate the workbook.
    Recalculate,
    /// Undo the last change.
    Undo,
    /// Redo the last undone change.
    Redo,
}

/// A copy of an optional node id.
pub fn copy_opt_node(o: &Option<NodeId>) -> (r: Option<NodeId>)
    ensures
        r == *o,
{
    match o {
        Some(id) => Some(id.copy()),
        None => None,
    }
}

/// A copy of a defined-name scope.
pub fn copy_scope(s: &DefinedNameScopeProjection) -> (r: DefinedNameScopeProjection)
    ensures
        r == *s,
{
    match s {
        DefinedNameScopeProjection::Workbook => DefinedNameScopeProjection::Workbook,
        DefinedNameScopeProjection::Sheet(id) => DefinedNameScopeProjection::Sheet(id.copy()),
    }
}

impl WorkspaceIntent {
    /// A copy of the intent.
    pub fn copy(&self) -> (r: Self)
        ensures
            r == *self,
    {
        match self {
            WorkspaceIntent::SelectNode(target) => WorkspaceIntent::SelectNode(copy_opt_node(target)),
            WorkspaceIntent::SelectTableCell { table, row_id, column_id } => {
                WorkspaceIntent::SelectTableCell {
                    table: table.copy(),
                    row_id: row_id.clone(),
                    column_id: column_id.clone(),
                }
            },
            WorkspaceIntent::EditFormula { node, content } => WorkspaceIntent::EditFormula {
                node: node.copy(),
                content: content.clone(),
            },
            WorkspaceIntent::EditContent { node, content } => WorkspaceIntent::EditContent {
                node: node.copy(),
                content: content.clone(),
            },
            WorkspaceIntent::EnterGridCell { grid, row, col, text } => {
                WorkspaceIntent::EnterGridCell {
                    grid: grid.copy(),
                    row: *row,
                    col: *col,
                    text: text.clone(),
                }
            },
            WorkspaceIntent::SetDefinedName { scope, name, target } => {
                let target = match target {
                    DefinedNameTargetIntent::Static(rect) => DefinedNameTargetIntent::Static(*rect),
                    DefinedNameTargetIntent::Dynamic { source_text } => {
                        DefinedNameTargetIntent::Dynamic { source_text: source_text.clone() }
                    },
                };
                WorkspaceIntent::SetDefinedName { scope: copy_scope(scope), name: name.clone(), target }
            },
            WorkspaceIntent::CreateNamedValue { name, value_text } => {
                WorkspaceIntent::CreateNamedValue { name: name.clone(), value_text: value_text.clone() }
            },
            WorkspaceIntent::RenameDefinedName { scope, old_name, new_name } => {
                WorkspaceIntent::RenameDefinedName {
                    scope: copy_scope(scope),
                    old_name: old_name.clone(),
                    new_name: new_name.clone(),
                }
            },
            WorkspaceIntent::Recalculate => WorkspaceIntent::Recalculate,
            WorkspaceIntent::Undo => WorkspaceIntent::Undo,
            WorkspaceIntent::Redo => WorkspaceIntent::Redo,
        }
    }
}

/// The seam the skin dispatches through. `dispatched` is every intent sent
/// so far, in order; `answered` is every receipt handed back, in order.
pub trait Dispatcher {
    spec fn dispatched(&self) -> Seq<WorkspaceIntent>;

    spec fn answered(&self) -> Seq<IntentReceipt>;

    /// Dispatch one intent and return the host's receipt.
    fn dispatch(&mut self, intent: WorkspaceIntent) -> (r: IntentReceipt)
        ensures
            final(self).dispatched() == old(self).dispatched().push(intent),
            final(self).answered() == old(self).answered().push(r),
    ;
}

/// The current selection: a primary node, or one table cell.
#[derive(Debug, Clone, PartialEq, Eq, Default)]
pub struct SelectionState {
    pub primary: Option<NodeId>,
    pub table_cell: Option<TableCellSelection>,
}

impl SelectionState {
    /// A selection whose primary is `target` (and no table cell).
    pub fn with_primary(target: Option<NodeId>) -> (s: Self)
        ensures
            s.primary == target,
            s.table_cell is None,
    {
        SelectionState { primary: target, table_cell: None }
    }

    /// A selection of one table cell (and no primary node).
    pub fn with_table_cell(cell: TableCellSelection) -> (s: Self)
        ensures
            s.primary is None,
            s.table_cell == Some(cell),
    {
        SelectionState { primary: None, table_cell: Some(cell) }
    }
}

/// An in-memory dispatcher for tests and for a host that has not attached
/// its live dispatcher yet: selection intents update `selection`, every
/// intent is logged and accepted.
pub struct InMemoryDispatcher {
    selection: SelectionState,
    log: Vec<WorkspaceIntent>,
    receipts: Ghost<Seq<IntentReceipt>>,
}

/// Every receipt of `receipts` accepts its intent, with no error and no
/// change.
pub open spec fn all_acceptances(receipts: Seq<IntentReceipt>) -> bool {
    forall|i: int|
        0 <= i < receipts.len() ==> {
            &&& #[trigger] receipts[i].accepted
            &&& receipts[i].error is None
            &&& receipts[i].delta.changes@.len() == 0
        }
}

impl InMemoryDispatcher {
    /// Invariant: every receipt this dispatcher has answered is an
    /// acceptance with no error and no change.
    #[verifier::type_invariant]
    pub open spec fn answers_are_acceptances(self) -> bool {
        all_acceptances(self.receipts_view())
    }

    /// The current selection.
    pub closed spec fn selection_view(&self) -> SelectionState {
        self.selection
    }

    /// The log of dispatched intents.
    pub closed spec fn log_view(&self) -> Seq<WorkspaceIntent> {
        self.log@
    }

    /// The receipts handed back so far.
    pub closed spec fn receipts_view(&self) -> Seq<IntentReceipt> {
        self.receipts@
    }

    /// A dispatcher over `selection`, with an empty log.
    pub fn new(selection: SelectionState) -> (d: Self)
        ensures
            d.selection_view() == selection,
            d.log_view() == Seq::<WorkspaceIntent>::empty(),
            d.receipts_view() == Seq::<IntentReceipt>::empty(),
            all_acceptances(d.receipts_view()),
    {
        InMemoryDispatcher { selection, log: Vec::new(), receipts: Ghost(Seq::empty()) }
    }

    /// The current selection.
    pub fn selection(&self) -> (s: &SelectionState)
        ensures
            *s == self.selection_view(),
    {
        &self.selection
    }

    /// The intents dispatched since the last reset, in order.
    pub fn intents(&self) -> (v: Vec<WorkspaceIntent>)
        ensures
            v@ == self.log_view(),
    {
        let mut v: Vec<WorkspaceIntent> = Vec::new();
        let mut i: usize = 0;
        while i < self.log.len()
            invariant
                i <= self.log@.len(),
                v@ == self.log@.subrange(0, i as int),
            decreases self.log@.len() - i,
        {
            v.push(self.log[i].copy());
            i += 1;
            assert(v@ =~= self.log@.subrange(0, i as int));
        }
        assert(self.log@.subrange(0, self.log@.len() as int) =~= self.log@);
        v
    }

    /// Empties the log.
    pub fn clear_log(&mut self)
        ensures
            final(self).log_view() == Seq::<WorkspaceIntent>::empty(),
            final(self).selection_view() == old(self).selection_view(),
            final(self).receipts_view() == old(self).receipts_view(),
    {
        proof {
            use_type_invariant(&*self);
        }
        self.log = Vec::new();
    }
}

/// The selection a dispatch of `intent` leaves behind, from `current`.
pub open spec fn selection_after(current: SelectionState, intent: WorkspaceIntent) -> SelectionState {
    match intent {
        WorkspaceIntent::SelectNode(target) => SelectionState { primary: target, table_cell: None },
        WorkspaceIntent::SelectTableCell { table, row_id, column_id } => SelectionState {
            primary: None,
            table_cell: Some(TableCellSelection { table, row_id, column_id }),
        },
        _ => current,
    }
}

impl Dispatcher for InMemoryDispatcher {
    open spec fn dispatched(&self) -> Seq<WorkspaceIntent> {
        self.log_view()
    }

    open spec fn answered(&self) -> Seq<IntentReceipt> {
        self.receipts_view()
    }

    fn dispatch(&mut self, intent: WorkspaceIntent) -> (r: IntentReceipt)
        ensures
            final(self).selection_view() == selection_after(old(self).selection_view(), intent),
            r.accepted,
            r.error is None,
            r.delta.changes@.len() == 0,
            all_acceptances(final(self).answered()),
    {
        proof {
            use_type_invariant(&*self);
        }
        let mut log: Vec<WorkspaceIntent> = Vec::new();
        std::mem::swap(&mut log, &mut self.log);
        log.push(intent.copy());
        self.log = log;
        match intent {
            WorkspaceIntent::SelectNode(target) => {
                self.selection = SelectionState::with_primary(target);
            },
            WorkspaceIntent::SelectTableCell { table, row_id, column_id } => {
                self.selection = SelectionState::with_table_cell(
                    TableCellSelection { table, row_id, column_id },
                );
            },
            _ => {},
        }
        let r = IntentReceipt::accepted();
        proof {
            self.receipts@ = self.receipts@.push(r);
            assert(all_acceptances(self.receipts@));
        }
        r
    }
}

} // verus!
