//! The Notebook stage's block logic: what each block shows (kind id, glyph,
//! classification chip, liveness, value text, outcome detail), the persona
//! gate, the block addresses the editors are keyed by, the delete seam
//! (ghost preview or receipt fallback), and the per-block edit state a
//! commit or a clear updates.
use vstd::prelude::*;

use crate::cell_edit::{
    current_authored_seed, editability_note, editability_reason, enter_cell_intent, interpret_receipt,
    interprets, workspace_seed, CellOutcome,
};
use crate::intent::{copy_diagnostics, Dispatcher, GridEntryDiagnosticProjection, WorkspaceIntent};
use crate::key_chord::{chord_view, first_action, KeyChord};
use crate::notebook_keyboard::{
    action_availability, availability_of as notebook_availability_of,
    binding_view as notebook_binding_view, resolve_action, ActionAvailability, KeyBinding,
    NotebookAction,
};
use crate::notebook_model::{
    derive_entries, derives, listed_cells, NodeClassification, NotebookEntry, NotebookEntryKind,
};
use crate::projection::{value_display, value_display_text, NodeId, NodeValueProjection};
use crate::text::{
    chars_of, decimal_text, join_strings, joined, push_char, push_decimal, push_str, str_equal,
    string_of_chars, trim_chars, trimmed,
};
use crate::workspace::{
    workspace_wf, DefinedNameProjection, DefinedNameTargetProjection, GridCellProjection,
    GridEditabilityProjection, GridTableOverlayDescriptor, WorkspaceState,
};

verus! {

/// Who is working in the workspace.
#[derive(Debug, Clone, Copy, PartialEq, Eq, Structural)]
pub enum Persona {
    Author,
    Reviewer,
    ReadOnly,
}

impl Persona {
    /// Whether the persona may change the workbook: only an author.
    pub fn can_mutate(self) -> (b: bool)
        ensures
            b == (self is Author),
    {
        match self {
            Persona::Author => true,
            Persona::Reviewer => false,
            Persona::ReadOnly => false,
        }
    }
}

/// The single persona gate every mutation control reads: authoring is
/// offered only to a persona that may mutate.
pub fn persona_allows_authoring(persona: Persona) -> (b: bool)
    ensures
        b == (persona is Author),
{
    persona.can_mutate()
}

/// The note shown where a non-authoring persona would reach a mutation
/// control.
pub const READ_ONLY_PERSONA_NOTE: &'static str = "read-only persona \u{2014} editing disabled";

/// Whether the host produced any reference resolution to build a reference
/// X-ray on.
pub fn reference_xray_available(ws: &WorkspaceState) -> (b: bool)
    ensures
        b == (ws.dependencies.reference_resolutions@.len() > 0),
{
    ws.dependencies.reference_resolutions.len() > 0
}

/// The disabled-with-reason text shown while no reference X-ray substrate
/// exists.
pub const REFERENCE_XRAY_DEGRADE_NOTE: &'static str =
    "reference X-ray unavailable \u{2014} the workbook dependency projection is not produced (ask #7 / G9)";

/// One character escaped for a double-quoted CSS attribute value.
pub open spec fn css_escape_char(c: char) -> Seq<char> {
    if c == '\\' {
        seq!['\\', '\\']
    } else if c == '"' {
        seq!['\\', '"']
    } else {
        seq![c]
    }
}

/// `s` escaped for a double-quoted CSS attribute value: every backslash and
/// double quote gains a leading backslash.
pub open spec fn css_escaped(s: Seq<char>) -> Seq<char>
    decreases s.len(),
{
    if s.len() == 0 {
        Seq::empty()
    } else {
        css_escaped(s.drop_last()) + css_escape_char(s.last())
    }
}

/// Escape a string for use inside a double-quoted CSS attribute-selector
/// value: backslash and double quote, the only characters that escape or
/// end the value, each gain a leading backslash.
pub fn css_escape_attr_value(value: &str) -> (s: String)
    ensures
        s@ == css_escaped(value@),
{
    let chars = chars_of(value);
    let mut s = String::new();
    let mut i: usize = 0;
    while i < chars.len()
        invariant
            i <= chars@.len(),
            chars@ == value@,
            s@ == css_escaped(chars@.subrange(0, i as int)),
        decreases chars@.len() - i,
    {
        let c = chars[i];
        if c == '\\' {
            push_char(&mut s, '\\');
            push_char(&mut s, '\\');
        } else if c == '"' {
            push_char(&mut s, '\\');
            push_char(&mut s, '"');
        } else {
            push_char(&mut s, c);
        }
        proof {
            let next = chars@.subrange(0, i + 1);
            assert(next.drop_last() =~= chars@.subrange(0, i as int));
            assert(s@ =~= css_escaped(next));
        }
        i += 1;
    }
    assert(chars@.subrange(0, chars@.len() as int) =~= chars@);
    s
}

/// How CSS reads the inside of a double-quoted string: a backslash makes
/// the next character literal, an unescaped double quote ends the string
/// early (`None`), anything else stands for itself.
pub open spec fn css_read_quoted(t: Seq<char>) -> Option<Seq<char>>
    decreases t.len(),
{
    if t.len() == 0 {
        Some(Seq::empty())
    } else if t[0] == '"' {
        None
    } else if t[0] == '\\' {
        if t.len() < 2 {
            None
        } else {
            match css_read_quoted(t.subrange(2, t.len() as int)) {
                Some(r) => Some(seq![t[1]] + r),
                None => None,
            }
        }
    } else {
        match css_read_quoted(t.drop_first()) {
            Some(r) => Some(seq![t[0]] + r),
            None => None,
        }
    }
}

/// Escaping a text that starts with `c` escapes `c`, then the rest.
proof fn lemma_css_escaped_front(c: char, rest: Seq<char>)
    ensures
        css_escaped(seq![c] + rest) == css_escape_char(c) + css_escaped(rest),
    decreases rest.len(),
{
    let whole = seq![c] + rest;
    if rest.len() == 0 {
        assert(whole =~= seq![c]);
        assert(whole.drop_last() =~= Seq::<char>::empty());
        assert(css_escaped(whole) == css_escaped(whole.drop_last()) + css_escape_char(whole.last()));
        assert(css_escaped(Seq::<char>::empty()) == Seq::<char>::empty());
        assert(css_escaped(whole) =~= css_escape_char(c));
        assert(css_escape_char(c) + css_escaped(rest) =~= css_escape_char(c));
    } else {
        assert(whole.drop_last() =~= seq![c] + rest.drop_last());
        assert(whole.last() == rest.last());
        lemma_css_escaped_front(c, rest.drop_last());
        assert(css_escaped(whole) == css_escaped(whole.drop_last()) + css_escape_char(whole.last()));
        assert(css_escaped(rest) == css_escaped(rest.drop_last()) + css_escape_char(rest.last()));
        assert(css_escaped(whole) =~= css_escape_char(c) + css_escaped(rest));
    }
}

/// Law: an escaped id, placed inside double quotes, reads back as exactly
/// the id and never ends the quoted value early, so no node id can break
/// out of an attribute selector.
pub proof fn lemma_css_escape_reads_back(s: Seq<char>)
    ensures
        css_read_quoted(css_escaped(s)) == Some(s),
    decreases s.len(),
{
    if s.len() == 0 {
    } else {
        let c = s[0];
        let rest = s.drop_first();
        assert(s =~= seq![c] + rest);
        lemma_css_escaped_front(c, rest);
        lemma_css_escape_reads_back(rest);
        let t = css_escaped(s);
        let e = css_escape_char(c);
        assert(t == e + css_escaped(rest));
        if c == '\\' || c == '"' {
            assert(t.subrange(2, t.len() as int) =~= css_escaped(rest));
            assert(seq![t[1]] + rest =~= s);
        } else {
            assert(t.drop_first() =~= css_escaped(rest));
            assert(seq![t[0]] + rest =~= s);
        }
    }
}

/// The focus-routing address of a cell block: `grid|row|col`.
pub open spec fn block_dom_text(grid: Seq<char>, row: u32, col: u32) -> Seq<char> {
    grid + "|"@ + decimal_text(row as nat) + "|"@ + decimal_text(col as nat)
}

/// The stable DOM address a cell block carries: its grid id plus numeric
/// row and column, pipe-joined.
pub fn block_dom_key(key: &(NodeId, u32, u32)) -> (s: String)
    ensures
        s@ == block_dom_text(key.0.id@, key.1, key.2),
{
    let mut s = key.0.id.clone();
    push_str(&mut s, "|");
    push_decimal(&mut s, key.1 as u64);
    push_str(&mut s, "|");
    push_decimal(&mut s, key.2 as u64);
    s
}

/// The stable `data-block-kind` id of an entry kind.
pub open spec fn kind_id(kind: NotebookEntryKind) -> Seq<char> {
    match kind {
        NotebookEntryKind::Name { .. } => "name"@,
        NotebookEntryKind::Cell { .. } => "cell"@,
        NotebookEntryKind::Table { .. } => "table"@,
    }
}

/// The stable `data-block-kind` id for an entry.
pub fn entry_kind_id(kind: &NotebookEntryKind) -> (s: &'static str)
    ensures
        s@ == kind_id(*kind),
{
    match kind {
        NotebookEntryKind::Name { .. } => "name",
        NotebookEntryKind::Cell { .. } => "cell",
        NotebookEntryKind::Table { .. } => "table",
    }
}

/// The gutter glyph of an entry kind.
pub open spec fn kind_glyph(kind: NotebookEntryKind) -> Seq<char> {
    match kind {
        NotebookEntryKind::Name { .. } => "\u{25c8}"@,
        NotebookEntryKind::Cell { .. } => "\u{25a6}"@,
        NotebookEntryKind::Table { .. } => "\u{25a4}"@,
    }
}

/// The gutter kind glyph of an entry.
pub fn entry_kind_glyph(kind: &NotebookEntryKind) -> (s: &'static str)
    ensures
        s@ == kind_glyph(*kind),
{
    match kind {
        NotebookEntryKind::Name { .. } => "\u{25c8}",
        NotebookEntryKind::Cell { .. } => "\u{25a6}",
        NotebookEntryKind::Table { .. } => "\u{25a4}",
    }
}

/// The classification chip label.
pub open spec fn chip_label(c: NodeClassification) -> Seq<char> {
    match c {
        NodeClassification::Input => "input"@,
        NodeClassification::FreeValue => "free value"@,
        NodeClassification::Intermediate => "intermediate"@,
        NodeClassification::Output => "output"@,
        NodeClassification::Empty => "empty"@,
    }
}

/// The human-readable classification chip label.
pub fn classification_label(classification: NodeClassification) -> (s: &'static str)
    ensures
        s@ == chip_label(classification),
{
    match classification {
        NodeClassification::Input => "input",
        NodeClassification::FreeValue => "free value",
        NodeClassification::Intermediate => "intermediate",
        NodeClassification::Output => "output",
        NodeClassification::Empty => "empty",
    }
}

/// The liveness state of a classification: formula-backed entries are
/// live, literal-backed ones static, empty ones inert.
pub open spec fn liveness(c: NodeClassification) -> Seq<char> {
    match c {
        NodeClassification::Intermediate => "live"@,
        NodeClassification::Output => "live"@,
        NodeClassification::Input => "static"@,
        NodeClassification::FreeValue => "static"@,
        NodeClassification::Empty => "inert"@,
    }
}

/// The liveness-dot state derived from the classification.
pub fn liveness_id(classification: NodeClassification) -> (s: &'static str)
    ensures
        s@ == liveness(classification),
{
    match classification {
        NodeClassification::Intermediate | NodeClassification::Output => "live",
        NodeClassification::Input | NodeClassification::FreeValue => "static",
        NodeClassification::Empty => "inert",
    }
}

/// A value's display text: every scalar as honest text, the marker
/// variants as parenthesized notes, and an array as its shape summary.
pub fn scalar_value_text(value: &NodeValueProjection) -> (s: String)
    ensures
        s@ == value_display_text(*value),
{
    value_display(value)
}

/// The note an array result shows in place of a full render.
pub const ARRAY_DEGRADE_NOTE: &'static str = "array result \u{2014} open in Sheet (not yet available in S2)";

/// What a block's result region shows for a value: an array's shape
/// summary (never its cells), or a scalar's display text.
#[derive(Debug, Clone, PartialEq, Eq)]
pub enum ValueRegion {
    ArrayShape { summary: String },
    Scalar { text: String },
}

/// The result region of a value: an array by its shape summary (shown with
/// [`ARRAY_DEGRADE_NOTE`]), anything else by its display text.
pub fn value_region(value: &NodeValueProjection) -> (r: ValueRegion)
    ensures
        value is Array ==> (r matches ValueRegion::ArrayShape { summary } && summary@
            == value_display_text(*value)),
        !(value is Array) ==> (r matches ValueRegion::Scalar { text } && text@ == value_display_text(
            *value,
        )),
{
    match value {
        NodeValueProjection::Array { .. } => ValueRegion::ArrayShape { summary: value_display(value) },
        _ => ValueRegion::Scalar { text: value_display(value) },
    }
}

/// The note a static name shows when its backing cell is outside the
/// window.
pub const NAME_NOT_IN_WINDOW_NOTE: &'static str = "value not in the current window";

/// What a name block's result region shows.
#[derive(Debug, Clone, PartialEq, Eq)]
pub enum NameValueRegion {
    /// The backing cell's value.
    Value(ValueRegion),
    /// A dynamic name's formula text.
    Formula { text: String },
    /// A static name whose backing cell the window does not cover.
    NotInWindow,
}

/// A name's result region: its backing cell's value when the window
/// resolved one, else a dynamic name's formula, else the not-in-window note;
/// never a fabricated value.
pub fn name_value_region(
    name: &DefinedNameProjection,
    backing: &Option<GridCellProjection>,
) -> (r: NameValueRegion)
    ensures
        backing matches Some(cell) ==> (r matches NameValueRegion::Value(v) && match v {
            ValueRegion::ArrayShape { summary } => cell.value is Array && summary@
                == value_display_text(cell.value),
            ValueRegion::Scalar { text } => !(cell.value is Array) && text@ == value_display_text(
                cell.value,
            ),
        }),
        backing is None ==> match name.target {
            DefinedNameTargetProjection::Dynamic { source_text } => r matches NameValueRegion::Formula {
                text,
            } && text@ == source_text@,
            DefinedNameTargetProjection::Static(_) => r is NotInWindow,
        },
{
    if let Some(cell) = backing {
        return NameValueRegion::Value(value_region(&cell.value));
    }
    match &name.target {
        DefinedNameTargetProjection::Dynamic { source_text } => NameValueRegion::Formula {
            text: source_text.clone(),
        },
        DefinedNameTargetProjection::Static(_) => NameValueRegion::NotInWindow,
    }
}

/// The outcome chip's detail text.
pub open spec fn outcome_detail_text(o: CellOutcome) -> Seq<char> {
    match o {
        CellOutcome::Literal { value } => "literal value "@ + value@,
        CellOutcome::Formula { value, unresolved } => if unresolved@.len() == 0 {
            "formula \u{2192} "@ + value@
        } else {
            "formula \u{2192} "@ + value@ + " (unresolved: "@ + joined(unresolved@, ", "@) + ")"@
        },
        CellOutcome::Cleared => "cell cleared"@,
        CellOutcome::Rejected(d) => if d@.len() > 0 {
            d@[0].message@
        } else {
            "rejected"@
        },
        CellOutcome::NoChange => "no change"@,
    }
}

/// The outcome chip's detail text: the three-way readout, the first
/// rejection message, or a note.
pub fn outcome_detail(outcome: &CellOutcome) -> (s: String)
    ensures
        s@ == outcome_detail_text(*outcome),
{
    match outcome {
        CellOutcome::Literal { value } => {
            let mut s = String::from_str("literal value ");
            push_str(&mut s, value.as_str());
            s
        },
        CellOutcome::Formula { value, unresolved } => {
            let mut s = String::from_str("formula \u{2192} ");
            push_str(&mut s, value.as_str());
            if unresolved.len() > 0 {
                push_str(&mut s, " (unresolved: ");
                let names = join_strings(unresolved, ", ");
                push_str(&mut s, names.as_str());
                push_str(&mut s, ")");
            }
            s
        },
        CellOutcome::Cleared => String::from_str("cell cleared"),
        CellOutcome::Rejected(diagnostics) => {
            if diagnostics.len() > 0 {
                diagnostics[0].message.clone()
            } else {
                String::from_str("rejected")
            }
        },
        CellOutcome::NoChange => String::from_str("no change"),
    }
}

/// The row count of a table block's summary.
pub open spec fn table_rows(table: GridTableOverlayDescriptor) -> int {
    if table.table_range.bottom_row >= table.table_range.top_row {
        table.table_range.bottom_row - table.table_range.top_row + 1
    } else {
        1
    }
}

/// The column count of a table block's summary: its declared columns, or
/// the width of its range when it declares none.
pub open spec fn table_cols(table: GridTableOverlayDescriptor) -> int {
    if table.columns@.len() == 0 {
        if table.table_range.right_col >= table.table_range.left_col {
            table.table_range.right_col - table.table_range.left_col + 1
        } else {
            1
        }
    } else {
        (table.columns@.len() as u32) as int
    }
}

/// A table block's structural summary: `table — {rows}×{cols}`.
pub open spec fn table_summary(table: GridTableOverlayDescriptor) -> Seq<char> {
    "table \u{2014} "@ + decimal_text(table_rows(table) as nat) + seq!['\u{00d7}'] + decimal_text(
        table_cols(table) as nat,
    )
}

/// A table block's structural summary of its range and column count (a
/// table is shown by its shape, never as a fabricated value). A range that
/// spans every row index (or, with no declared columns, every column index)
/// has a count past `u32` and is left out.
pub fn table_shape_summary(table: &GridTableOverlayDescriptor) -> (s: String)
    requires
        table.table_range.bottom_row - table.table_range.top_row < u32::MAX,
        table.columns@.len() == 0 ==> table.table_range.right_col - table.table_range.left_col
            < u32::MAX,
    ensures
        s@ == table_summary(*table),
{
    let rect = &table.table_range;
    let rows: u32 = if rect.bottom_row >= rect.top_row {
        rect.bottom_row - rect.top_row + 1
    } else {
        1
    };
    let cols: u32 = if table.columns.len() == 0 {
        if rect.right_col >= rect.left_col {
            rect.right_col - rect.left_col + 1
        } else {
            1
        }
    } else {
        table.columns.len() as u32
    };
    let mut s = String::from_str("table \u{2014} ");
    push_decimal(&mut s, rows as u64);
    push_char(&mut s, '\u{00d7}');
    push_decimal(&mut s, cols as u64);
    s
}

/// The address of a block's cell: grid, row, column.
pub open spec fn same_key(a: (NodeId, u32, u32), b: (NodeId, u32, u32)) -> bool {
    a.0.id@ == b.0.id@ && a.1 == b.1 && a.2 == b.2
}

/// The addresses of the cell entries among `entries`, in order.
pub open spec fn cell_keys_of(entries: Seq<NotebookEntry>) -> Seq<(NodeId, u32, u32)>
    decreases entries.len(),
{
    if entries.len() == 0 {
        Seq::empty()
    } else {
        let rest = cell_keys_of(entries.drop_last());
        match entries.last().kind {
            NotebookEntryKind::Cell { grid, authored, .. } => rest.push((grid, authored.row, authored.col)),
            _ => rest,
        }
    }
}

/// The cell-block addresses present in a derivation, in entry order: the
/// blocks whose edit state stays alive. Name and table entries contribute
/// none.
pub fn live_block_keys(entries: &Vec<NotebookEntry>) -> (keys: Vec<(NodeId, u32, u32)>)
    ensures
        keys@ == cell_keys_of(entries@),
{
    let mut keys: Vec<(NodeId, u32, u32)> = Vec::new();
    let mut i: usize = 0;
    while i < entries.len()
        invariant
            i <= entries@.len(),
            keys@ == cell_keys_of(entries@.subrange(0, i as int)),
        decreases entries@.len() - i,
    {
        proof {
            assert(entries@.subrange(0, i + 1).drop_last() =~= entries@.subrange(0, i as int));
        }
        match &entries[i].kind {
            NotebookEntryKind::Cell { grid, authored, .. } => {
                keys.push((grid.copy(), authored.row, authored.col));
            },
            _ => {},
        }
        i += 1;
    }
    assert(entries@.subrange(0, entries@.len() as int) =~= entries@);
    keys
}

/// The cell-block addresses of the workspace's derivation, in derived
/// order.
pub open spec fn derived_cell_keys(ws: WorkspaceState) -> Seq<(NodeId, u32, u32)> {
    listed_cells(ws, ws.grids@.len() as int).map(
        |j: int, p: (int, int)|
            (
                ws.grids@[p.0].grid_node_id,
                ws.grids@[p.0].cells@[p.1].authored->0.row,
                ws.grids@[p.0].cells@[p.1].authored->0.col,
            ),
    )
}

/// Whether `current` is among `keys`.
pub open spec fn key_present(keys: Seq<(NodeId, u32, u32)>, current: (NodeId, u32, u32)) -> bool {
    exists|i: int| 0 <= i < keys.len() && same_key(#[trigger] keys[i], current)
}

/// The position of the first key equal to `current`.
pub open spec fn key_position(keys: Seq<(NodeId, u32, u32)>, current: (NodeId, u32, u32)) -> int {
    choose|i: int|
        0 <= i < keys.len() && same_key(#[trigger] keys[i], current) && forall|m: int|
            0 <= m < i ==> !same_key(#[trigger] keys[m], current)
}

/// The key after `current` in `keys`: none when `current` is absent or
/// last.
pub open spec fn key_after(keys: Seq<(NodeId, u32, u32)>, current: (NodeId, u32, u32)) -> Option<
    (NodeId, u32, u32),
> {
    if key_present(keys, current) && key_position(keys, current) + 1 < keys.len() {
        Some(keys[key_position(keys, current) + 1])
    } else {
        None
    }
}

/// The next cell block after `current` in derived order (the block a
/// commit-and-advance focuses): none when `current` is the last cell block
/// or is absent, so focus never wraps.
#[verifier::loop_isolation(false)]
pub fn next_cell_key(ws: &WorkspaceState, current: &(NodeId, u32, u32)) -> (r: Option<
    (NodeId, u32, u32),
>)
    requires
        workspace_wf(*ws),
    ensures
        r == key_after(derived_cell_keys(*ws), *current),
{
    let entries = derive_entries(ws);
    let ghost n = ws.defined_names.entries@.len() as int;
    let ghost cells = listed_cells(*ws, ws.grids@.len() as int);
    let ghost all = derived_cell_keys(*ws);
    let mut keys: Vec<(NodeId, u32, u32)> = Vec::new();
    let mut i: usize = 0;
    while i < entries.len()
        invariant
            i <= entries@.len(),
            derives(*ws, entries@),
            all.len() == cells.len(),
            keys@ == all.subrange(0, if i <= n { 0 } else if i <= n + cells.len() { i - n } else { cells.len() as int }),
        decreases entries@.len() - i,
    {
        match &entries[i].kind {
            NotebookEntryKind::Cell { grid, authored, .. } => {
                keys.push((grid.copy(), authored.row, authored.col));
                proof {
                    assert(n <= i < n + cells.len());
                    assert(keys@ =~= all.subrange(0, i + 1 - n));
                }
            },
            _ => {
                proof {
                    assert(!(n <= i < n + cells.len()));
                }
            },
        }
        i += 1;
    }
    assert(keys@ =~= all);
    let mut k: usize = 0;
    while k < keys.len()
        invariant
            keys@ == all,
            k <= keys@.len(),
            forall|m: int| 0 <= m < k ==> !same_key(#[trigger] keys@[m], *current),
        decreases keys@.len() - k,
    {
        if str_equal(keys[k].0.id.as_str(), current.0.id.as_str()) && keys[k].1 == current.1
            && keys[k].2 == current.2 {
            proof {
                assert(same_key(keys@[k as int], *current));
                let p = key_position(all, *current);
                if p < k {
                    assert(!same_key(keys@[p], *current));
                } else if p > k {
                    assert(!same_key(keys@[k as int], *current));
                }
            }
            if k + 1 < keys.len() {
                let next = &keys[k + 1];
                return Some((next.0.copy(), next.1, next.2));
            } else {
                return None;
            }
        }
        k += 1;
    }
    None
}

/// The typed reason the host blocks a prospective mutation.
#[derive(Debug, Clone, PartialEq, Eq)]
pub enum MutationImpactBlockedReasonProjection {
    /// The mutation would make two names collide.
    NameCollision,
    /// Any other typed reason, by its stable id.
    Other { id: String },
}

/// The stable id of a blocked reason.
pub open spec fn blocked_reason_id(r: MutationImpactBlockedReasonProjection) -> Seq<char> {
    match r {
        MutationImpactBlockedReasonProjection::NameCollision => "name_collision"@,
        MutationImpactBlockedReasonProjection::Other { id } => id@,
    }
}

impl MutationImpactBlockedReasonProjection {
    /// The stable id of the reason.
    pub fn stable_id(&self) -> (s: &str)
        ensures
            s@ == blocked_reason_id(*self),
    {
        match self {
            MutationImpactBlockedReasonProjection::NameCollision => "name_collision",
            MutationImpactBlockedReasonProjection::Other { id } => id.as_str(),
        }
    }
}

/// A prospective mutation offered to the preview seam.
#[derive(Debug, Clone, PartialEq, Eq)]
pub enum MutationImpactIntentProjection {
    /// Replace a node's content.
    EditContent { node: NodeId, content: String },
    /// Remove a node entirely.
    DeleteNode { node: NodeId },
}

/// The host's non-mutating impact of a prospective mutation.
#[derive(Debug, Clone, PartialEq, Eq)]
pub struct MutationImpactProjection {
    pub intent: MutationImpactIntentProjection,
    pub legal: bool,
    pub blocked_reason: Option<MutationImpactBlockedReasonProjection>,
    pub affected_refs: Vec<NodeId>,
    pub orphaned_dependents: Vec<NodeId>,
}

/// The preview intent for deleting (clearing) a cell block: its grid's
/// content edited to empty, never a node removal.
pub fn delete_impact_intent(grid: &NodeId) -> (i: MutationImpactIntentProjection)
    ensures
        i matches MutationImpactIntentProjection::EditContent { node, content } && node == *grid
            && content@.len() == 0,
{
    MutationImpactIntentProjection::EditContent { node: grid.copy(), content: String::new() }
}

/// The ghost summary of a delete's impact: its legality (with the typed
/// reason when blocked) and the exact counts the host computed.
pub open spec fn impact_summary(impact: MutationImpactProjection) -> Seq<char> {
    let legality = if impact.legal {
        "clears this cell"@
    } else {
        "blocked ("@ + match impact.blocked_reason {
            Some(r) => blocked_reason_id(r),
            None => "unknown"@,
        } + ")"@
    };
    legality + " \u{2014} "@ + decimal_text(impact.orphaned_dependents@.len()) + " dependent(s) orphaned, "@
        + decimal_text(impact.affected_refs@.len()) + " reference(s) affected"@
}

/// Summarize a delete's ghost-preview impact from the real projection
/// fields, never a fabricated number.
pub fn describe_delete_impact(impact: &MutationImpactProjection) -> (s: String)
    ensures
        s@ == impact_summary(*impact),
{
    let mut s = if impact.legal {
        String::from_str("clears this cell")
    } else {
        let mut b = String::from_str("blocked (");
        match &impact.blocked_reason {
            Some(reason) => push_str(&mut b, reason.stable_id()),
            None => push_str(&mut b, "unknown"),
        }
        push_str(&mut b, ")");
        b
    };
    push_str(&mut s, " \u{2014} ");
    push_decimal(&mut s, impact.orphaned_dependents.len() as u64);
    push_str(&mut s, " dependent(s) orphaned, ");
    push_decimal(&mut s, impact.affected_refs.len() as u64);
    push_str(&mut s, " reference(s) affected");
    s
}

/// Why a preview could not answer.
#[derive(Debug, Clone, Copy, PartialEq, Eq, Structural)]
pub enum PreviewError {
    Unavailable,
}

/// A service that previews a mutation's impact without applying it.
pub trait PreviewService {
    /// The impact `intent` would have, or why no preview is available.
    fn preview_mutation_impact(&self, intent: &MutationImpactIntentProjection) -> Result<
        MutationImpactProjection,
        PreviewError,
    >;
}

/// How a block's delete proceeds: show a ghost of the previewed impact
/// first, or dispatch the clear and read the receipt.
#[derive(Debug, Clone, PartialEq, Eq)]
pub enum DeletePreview {
    GhostImpact(MutationImpactProjection),
    ReceiptFallback,
}

/// The delete decision for a preview answer: a ghost for an impact, the
/// receipt fallback for an error (a failed preview is never escalated).
pub fn delete_preview_of(answer: Result<MutationImpactProjection, PreviewError>) -> (d: DeletePreview)
    ensures
        answer matches Ok(impact) ==> d == DeletePreview::GhostImpact(impact),
        answer is Err ==> d is ReceiptFallback,
{
    match answer {
        Ok(impact) => DeletePreview::GhostImpact(impact),
        Err(_) => DeletePreview::ReceiptFallback,
    }
}

/// Decide how a block's delete behaves, without mutating anything: with a
/// preview service, the service is asked about exactly `intent` and its
/// answer decides (an impact gives a ghost carrying that impact, an error
/// the receipt fallback; see [`delete_preview_of`]); without one, the
/// receipt fallback.
pub fn preview_block_delete<P: PreviewService>(
    preview: Option<&P>,
    intent: &MutationImpactIntentProjection,
) -> (d: DeletePreview)
    ensures
        preview is None ==> d is ReceiptFallback,
        preview matches Some(s) ==> exists|a: Result<MutationImpactProjection, PreviewError>|
            call_ensures(P::preview_mutation_impact, (s, intent), a) && d == match a {
                Ok(impact) => DeletePreview::GhostImpact(impact),
                Err(_) => DeletePreview::ReceiptFallback,
            },
{
    match preview {
        Some(service) => delete_preview_of(service.preview_mutation_impact(intent)),
        None => DeletePreview::ReceiptFallback,
    }
}

/// One cell block's edit state: the live buffer, the typed rejections of
/// its last commit, its last outcome, a remount counter, and the impact of
/// a pending delete ghost.
#[derive(Debug, Clone, PartialEq, Eq)]
pub struct BlockEditState {
    pub edit_text: String,
    pub rejections: Vec<GridEntryDiagnosticProjection>,
    pub outcome: Option<CellOutcome>,
    pub revision: usize,
    pub pending_ghost: Option<MutationImpactProjection>,
}

impl BlockEditState {
    /// Fresh state seeded from the cell's authored text.
    pub fn new(seed: &str) -> (s: Self)
        ensures
            s.edit_text@ == seed@,
            s.rejections@.len() == 0,
            s.outcome is None,
            s.revision == 0,
            s.pending_ghost is None,
    {
        BlockEditState {
            edit_text: String::from_str(seed),
            rejections: Vec::new(),
            outcome: None,
            revision: 0,
            pending_ghost: None,
        }
    }
}

/// `after` is `before` updated with the interpreted outcome `o` of a
/// commit: the outcome recorded, the rejections its diagnostics (or none),
/// the editor remounted, the buffer and any ghost untouched.
pub open spec fn recorded(before: BlockEditState, after: BlockEditState, o: CellOutcome) -> bool {
    &&& after.outcome == Some(o)
    &&& match o {
        CellOutcome::Rejected(d) => after.rejections@ == d@,
        _ => after.rejections@.len() == 0,
    }
    &&& after.revision == before.revision + 1
    &&& after.pending_ghost == before.pending_ghost
}

/// Commit a block's in-progress text through the entry seam: build the
/// intent from the block's own address, dispatch it, interpret the receipt,
/// and record the outcome on the block's own state.
pub fn commit_block<D: Dispatcher>(
    dispatch: &mut D,
    key: &(NodeId, u32, u32),
    state: &mut BlockEditState,
)
    requires
        old(state).revision < usize::MAX,
    ensures
        final(dispatch).dispatched() == old(dispatch).dispatched().push(
            WorkspaceIntent::EnterGridCell {
                grid: key.0,
                row: key.1,
                col: key.2,
                text: old(state).edit_text,
            },
        ),
        final(dispatch).answered().len() == old(dispatch).answered().len() + 1,
        final(state).outcome matches Some(o) && interprets(final(dispatch).answered().last(), o),
        recorded(*old(state), *final(state), final(state).outcome->0),
        final(state).edit_text == old(state).edit_text,
{
    let text = state.edit_text.clone();
    let receipt = dispatch.dispatch(enter_cell_intent(key.0.copy(), key.1, key.2, text));
    let resolved = interpret_receipt(&receipt);
    match &resolved {
        CellOutcome::Rejected(diagnostics) => {
            state.rejections = copy_diagnostics(diagnostics);
        },
        _ => {
            state.rejections = Vec::new();
        },
    }
    state.outcome = Some(resolved);
    state.revision = state.revision + 1;
}

/// Dispatch the delete-as-clear write for a block (an empty entry at its
/// own address) and record the receipt on its own state; a successful clear
/// also empties the buffer.
pub fn dispatch_cell_clear<D: Dispatcher>(
    dispatch: &mut D,
    grid: &NodeId,
    row: u32,
    col: u32,
    state: &mut BlockEditState,
)
    requires
        old(state).revision < usize::MAX,
    ensures
        final(dispatch).dispatched().len() == old(dispatch).dispatched().len() + 1,
        final(dispatch).dispatched().last() matches WorkspaceIntent::EnterGridCell {
            grid: g,
            row: r,
            col: c,
            text,
        } && g == *grid && r == row && c == col && text@.len() == 0,
        final(dispatch).dispatched().drop_last() == old(dispatch).dispatched(),
        final(dispatch).answered().len() == old(dispatch).answered().len() + 1,
        final(state).outcome matches Some(o) && interprets(final(dispatch).answered().last(), o),
        recorded(*old(state), *final(state), final(state).outcome->0),
        final(state).outcome->0 is Rejected ==> final(state).edit_text == old(state).edit_text,
        !(final(state).outcome->0 is Rejected) ==> final(state).edit_text@.len() == 0,
{
    let receipt = dispatch.dispatch(enter_cell_intent(grid.copy(), row, col, String::new()));
    let resolved = interpret_receipt(&receipt);
    match &resolved {
        CellOutcome::Rejected(diagnostics) => {
            state.rejections = copy_diagnostics(diagnostics);
        },
        _ => {
            state.rejections = Vec::new();
            state.edit_text = String::new();
        },
    }
    state.outcome = Some(resolved);
    state.revision = state.revision + 1;
}

/// Commit-and-advance (Enter in a focused block): commit the block through
/// its own address, then hand back the next cell block in derived order to
/// focus, or `None` at the last one.
pub fn commit_and_advance<D: Dispatcher>(
    dispatch: &mut D,
    ws: &WorkspaceState,
    key: &(NodeId, u32, u32),
    state: &mut BlockEditState,
) -> (next: Option<(NodeId, u32, u32)>)
    requires
        workspace_wf(*ws),
        old(state).revision < usize::MAX,
    ensures
        final(dispatch).dispatched() == old(dispatch).dispatched().push(
            WorkspaceIntent::EnterGridCell {
                grid: key.0,
                row: key.1,
                col: key.2,
                text: old(state).edit_text,
            },
        ),
        final(dispatch).answered().len() == old(dispatch).answered().len() + 1,
        final(state).outcome matches Some(o) && interprets(final(dispatch).answered().last(), o),
        recorded(*old(state), *final(state), final(state).outcome->0),
        final(state).edit_text == old(state).edit_text,
        next == key_after(derived_cell_keys(*ws), *key),
{
    commit_block(dispatch, key, state);
    next_cell_key(ws, key)
}

/// One event a Cell block's edit region handles.
pub enum BlockEvent {
    /// The editor's text changed.
    TextEdited(String),
    /// The editor asked to commit its text.
    CommitRequested,
    /// The editor asked to revert (Esc in the editor).
    RevertRequested,
    /// The delete control was activated, with the decision
    /// [`preview_block_delete`] took.
    DeleteRequested(DeletePreview),
    /// The pending ghost's confirm control.
    ConfirmDelete,
    /// The pending ghost's cancel control.
    CancelDelete,
    /// Escape over the edit region.
    Escape,
}

/// `i` is a cell entry at exactly the block's own address.
pub open spec fn targets_block(i: WorkspaceIntent, key: (NodeId, u32, u32)) -> bool {
    i matches WorkspaceIntent::EnterGridCell { grid, row, col, .. } && grid == key.0 && row == key.1
        && col == key.2
}

/// After a delete-as-clear recorded on `before` giving `after`: a rejected
/// clear keeps the buffer; any other outcome empties it.
pub open spec fn cleared_text(before: BlockEditState, after: BlockEditState) -> bool {
    &&& (after.outcome matches Some(o) && o is Rejected) ==> after.edit_text == before.edit_text
    &&& (after.outcome matches Some(o) && !(o is Rejected)) ==> after.edit_text@.len() == 0
}

/// Handle one event of a Cell block's edit region: a commit enters the
/// buffer at the block's own cell; a delete either stashes its ghost or
/// clears the cell at once; a confirm clears the cell when a ghost is
/// pending; a revert reseeds the buffer; cancel and Escape drop the ghost.
pub fn handle_block_event<D: Dispatcher>(
    dispatch: &mut D,
    ws: &WorkspaceState,
    key: &(NodeId, u32, u32),
    state: &mut BlockEditState,
    event: BlockEvent,
)
    requires
        workspace_wf(*ws),
        old(state).revision < usize::MAX,
    ensures
        final(state).revision <= old(state).revision + 1,
        old(dispatch).dispatched().len() <= final(dispatch).dispatched().len(),
        final(dispatch).dispatched().len() <= old(dispatch).dispatched().len() + 1,
        final(dispatch).dispatched().subrange(0, old(dispatch).dispatched().len() as int)
            == old(dispatch).dispatched(),
        final(dispatch).dispatched().len() > old(dispatch).dispatched().len() ==> targets_block(
            final(dispatch).dispatched().last(),
            *key,
        ),
        match event {
            BlockEvent::TextEdited(t) => {
                &&& *final(state) == BlockEditState { edit_text: t, ..*old(state) }
                &&& final(dispatch).dispatched() == old(dispatch).dispatched()
                &&& final(dispatch).answered() == old(dispatch).answered()
            },
            BlockEvent::CommitRequested => {
                &&& final(dispatch).dispatched() == old(dispatch).dispatched().push(
                    WorkspaceIntent::EnterGridCell {
                        grid: key.0,
                        row: key.1,
                        col: key.2,
                        text: old(state).edit_text,
                    },
                )
                &&& final(dispatch).answered().len() == old(dispatch).answered().len() + 1
                &&& final(state).outcome matches Some(o) && interprets(
                    final(dispatch).answered().last(),
                    o,
                )
                &&& recorded(*old(state), *final(state), final(state).outcome->0)
                &&& final(state).edit_text == old(state).edit_text
            },
            BlockEvent::DeleteRequested(DeletePreview::GhostImpact(impact)) => {
                &&& *final(state) == BlockEditState { pending_ghost: Some(impact), ..*old(state) }
                &&& final(dispatch).dispatched() == old(dispatch).dispatched()
                &&& final(dispatch).answered() == old(dispatch).answered()
            },
            BlockEvent::DeleteRequested(DeletePreview::ReceiptFallback) => {
                &&& final(dispatch).dispatched().len() == old(dispatch).dispatched().len() + 1
                &&& final(dispatch).dispatched().last() matches WorkspaceIntent::EnterGridCell {
                    text,
                    ..
                } && text@.len() == 0
                &&& final(dispatch).answered().len() == old(dispatch).answered().len() + 1
                &&& final(state).outcome matches Some(o) && interprets(
                    final(dispatch).answered().last(),
                    o,
                )
                &&& recorded(*old(state), *final(state), final(state).outcome->0)
                &&& cleared_text(*old(state), *final(state))
            },
            BlockEvent::ConfirmDelete => if old(state).pending_ghost is Some {
                &&& final(dispatch).dispatched().len() == old(dispatch).dispatched().len() + 1
                &&& final(dispatch).dispatched().last() matches WorkspaceIntent::EnterGridCell {
                    text,
                    ..
                } && text@.len() == 0
                &&& final(dispatch).answered().len() == old(dispatch).answered().len() + 1
                &&& final(state).outcome matches Some(o) && interprets(
                    final(dispatch).answered().last(),
                    o,
                )
                &&& recorded(
                    *old(state),
                    BlockEditState { pending_ghost: old(state).pending_ghost, ..*final(state) },
                    final(state).outcome->0,
                )
                &&& cleared_text(*old(state), *final(state))
                &&& final(state).pending_ghost is None
            } else {
                &&& *final(state) == *old(state)
                &&& final(dispatch).dispatched() == old(dispatch).dispatched()
                &&& final(dispatch).answered() == old(dispatch).answered()
            },
            BlockEvent::RevertRequested => {
                &&& final(state).edit_text@ == workspace_seed(*ws, key.0.id@, key.1, key.2)
                &&& final(state).rejections@.len() == 0
                &&& final(state).outcome is None
                &&& final(state).revision == old(state).revision + 1
                &&& final(state).pending_ghost == old(state).pending_ghost
                &&& final(dispatch).dispatched() == old(dispatch).dispatched()
                &&& final(dispatch).answered() == old(dispatch).answered()
            },
            BlockEvent::CancelDelete | BlockEvent::Escape => {
                &&& *final(state) == BlockEditState { pending_ghost: None, ..*old(state) }
                &&& final(dispatch).dispatched() == old(dispatch).dispatched()
                &&& final(dispatch).answered() == old(dispatch).answered()
            },
        },
{
    let ghost d0 = dispatch.dispatched();
    match event {
        BlockEvent::TextEdited(t) => {
            state.edit_text = t;
        },
        BlockEvent::CommitRequested => {
            commit_block(dispatch, key, state);
        },
        BlockEvent::RevertRequested => {
            revert_block(ws, key, state);
        },
        BlockEvent::DeleteRequested(decision) => {
            start_block_delete(dispatch, decision, key, state);
        },
        BlockEvent::ConfirmDelete => {
            if state.pending_ghost.is_some() {
                confirm_block_delete(dispatch, key, state);
            }
        },
        BlockEvent::CancelDelete => {
            state.pending_ghost = None;
        },
        BlockEvent::Escape => {
            escape_block_ghost(state);
        },
    }
    proof {
        if dispatch.dispatched().len() > d0.len() {
            assert(dispatch.dispatched().subrange(0, d0.len() as int) =~= dispatch.dispatched().drop_last());
        } else {
            assert(dispatch.dispatched().subrange(0, d0.len() as int) =~= d0);
        }
    }
}

/// Law: whatever sequence of events a Cell block handles, every intent it
/// dispatches is a cell entry at exactly the block's own address — no
/// other cell is ever targeted — and it dispatches at most one intent per
/// event (none for edits, reverts, ghosts, cancels and Escapes).
pub fn handle_block_events<D: Dispatcher>(
    dispatch: &mut D,
    ws: &WorkspaceState,
    key: &(NodeId, u32, u32),
    state: &mut BlockEditState,
    events: Vec<BlockEvent>,
)
    requires
        workspace_wf(*ws),
        old(state).revision + events@.len() < usize::MAX,
    ensures
        final(dispatch).dispatched().len() <= old(dispatch).dispatched().len() + events@.len(),
        final(dispatch).dispatched().subrange(0, old(dispatch).dispatched().len() as int)
            == old(dispatch).dispatched(),
        forall|i: int|
            old(dispatch).dispatched().len() <= i < final(dispatch).dispatched().len()
                ==> targets_block(#[trigger] final(dispatch).dispatched()[i], *key),
{
    let ghost d0 = dispatch.dispatched();
    let ghost r0 = state.revision;
    let ghost n = events@.len();
    let mut events = events;
    while events.len() > 0
        invariant
            workspace_wf(*ws),
            events@.len() <= n,
            state.revision <= r0 + (n - events@.len()),
            r0 + n < usize::MAX,
            d0.len() <= dispatch.dispatched().len(),
            dispatch.dispatched().len() <= d0.len() + (n - events@.len()),
            dispatch.dispatched().subrange(0, d0.len() as int) == d0,
            forall|i: int|
                d0.len() <= i < dispatch.dispatched().len() ==> targets_block(
                    #[trigger] dispatch.dispatched()[i],
                    *key,
                ),
        decreases events@.len(),
    {
        let ghost before = dispatch.dispatched();
        let event = events.remove(0);
        handle_block_event(dispatch, ws, key, state, event);
        proof {
            let after = dispatch.dispatched();
            assert(after.subrange(0, d0.len() as int) =~= before.subrange(0, d0.len() as int)) by {
                assert forall|i: int| 0 <= i < d0.len() implies after[i] == before[i] by {
                    assert(after.subrange(0, before.len() as int)[i] == after[i]);
                }
            }
            assert forall|i: int| d0.len() <= i < after.len() implies targets_block(
                #[trigger] after[i],
                *key,
            ) by {
                if i < before.len() {
                    assert(after.subrange(0, before.len() as int)[i] == after[i]);
                } else {
                    assert(i == after.len() - 1);
                }
            }
        }
    }
}

/// The read-only note of a name block, which is edited through its backing
/// cell: an authoring persona is pointed at that cell; a persona that cannot
/// author sees the plain label.
pub fn name_block_note(authoring: bool) -> (t: &'static str)
    ensures
        t@ == (if authoring {
            "defined name \u{2014} edit its backing cell"@
        } else {
            "defined name"@
        }),
{
    if authoring {
        "defined name \u{2014} edit its backing cell"
    } else {
        "defined name"
    }
}

/// The read-only note a Cell block shows in place of its editor, if any:
/// a non-authoring persona is refused first, then a cell whose editability
/// admits no editor; `None` offers the editor.
pub fn cell_editor_gate(authoring: bool, editability: &GridEditabilityProjection) -> (r: Option<
    &'static str,
>)
    ensures
        !authoring ==> (r matches Some(t) && t@ == READ_ONLY_PERSONA_NOTE@),
        authoring ==> (r is None <==> editability_reason(*editability) is None),
        authoring ==> (r matches Some(t) ==> editability_reason(*editability) == Some(t@)),
{
    if !authoring {
        return Some(READ_ONLY_PERSONA_NOTE);
    }
    editability_note(editability)
}

/// Revert a block's in-progress edit (Esc): the buffer goes back to the
/// cell's current authored text, read live from the workspace; rejections
/// and the outcome clear and the editor remounts. A pending ghost is left
/// to its own controls.
pub fn revert_block(ws: &WorkspaceState, key: &(NodeId, u32, u32), state: &mut BlockEditState)
    requires
        workspace_wf(*ws),
        old(state).revision < usize::MAX,
    ensures
        final(state).edit_text@ == workspace_seed(*ws, key.0.id@, key.1, key.2),
        final(state).rejections@.len() == 0,
        final(state).outcome is None,
        final(state).revision == old(state).revision + 1,
        final(state).pending_ghost == old(state).pending_ghost,
{
    state.edit_text = current_authored_seed(ws, &key.0, key.1, key.2);
    state.rejections = Vec::new();
    state.outcome = None;
    state.revision = state.revision + 1;
}

/// Activate a block's delete control: with a ghost, stash the previewed
/// impact and dispatch nothing; on the receipt fallback, clear the cell now
/// (see [`dispatch_cell_clear`]).
pub fn start_block_delete<D: Dispatcher>(
    dispatch: &mut D,
    decision: DeletePreview,
    key: &(NodeId, u32, u32),
    state: &mut BlockEditState,
)
    requires
        old(state).revision < usize::MAX,
    ensures
        decision matches DeletePreview::GhostImpact(impact) ==> {
            &&& final(state).pending_ghost == Some(impact)
            &&& final(state).edit_text == old(state).edit_text
            &&& final(state).rejections == old(state).rejections
            &&& final(state).outcome == old(state).outcome
            &&& final(state).revision == old(state).revision
            &&& final(dispatch).dispatched() == old(dispatch).dispatched()
            &&& final(dispatch).answered() == old(dispatch).answered()
        },
        decision is ReceiptFallback ==> {
            &&& final(dispatch).dispatched().len() == old(dispatch).dispatched().len() + 1
            &&& final(dispatch).dispatched().drop_last() == old(dispatch).dispatched()
            &&& final(dispatch).dispatched().last() matches WorkspaceIntent::EnterGridCell {
                grid: g,
                row: r,
                col: c,
                text,
            } && g == key.0 && r == key.1 && c == key.2 && text@.len() == 0
            &&& final(dispatch).answered().len() == old(dispatch).answered().len() + 1
            &&& final(state).outcome matches Some(o) && interprets(final(dispatch).answered().last(), o)
            &&& recorded(*old(state), *final(state), final(state).outcome->0)
            &&& cleared_text(*old(state), *final(state))
        },
{
    match decision {
        DeletePreview::GhostImpact(impact) => {
            state.pending_ghost = Some(impact);
        },
        DeletePreview::ReceiptFallback => {
            dispatch_cell_clear(dispatch, &key.0, key.1, key.2, state);
        },
    }
}

/// Confirm a pending ghost: the confirm is the mutation, so the clear is
/// dispatched and recorded, then the ghost drops.
pub fn confirm_block_delete<D: Dispatcher>(
    dispatch: &mut D,
    key: &(NodeId, u32, u32),
    state: &mut BlockEditState,
)
    requires
        old(state).revision < usize::MAX,
    ensures
        final(dispatch).dispatched().len() == old(dispatch).dispatched().len() + 1,
        final(dispatch).dispatched().drop_last() == old(dispatch).dispatched(),
        final(dispatch).dispatched().last() matches WorkspaceIntent::EnterGridCell {
            grid: g,
            row: r,
            col: c,
            text,
        } && g == key.0 && r == key.1 && c == key.2 && text@.len() == 0,
        final(dispatch).answered().len() == old(dispatch).answered().len() + 1,
        final(state).outcome matches Some(o) && interprets(final(dispatch).answered().last(), o),
        recorded(
            *old(state),
            BlockEditState { pending_ghost: old(state).pending_ghost, ..*final(state) },
            final(state).outcome->0,
        ),
        cleared_text(*old(state), *final(state)),
        final(state).pending_ghost is None,
{
    dispatch_cell_clear(dispatch, &key.0, key.1, key.2, state);
    state.pending_ghost = None;
}

/// Escape over a block's edit region: a pending ghost drops with nothing
/// dispatched and the key is consumed (`true`); without a ghost the key is
/// left to the editor (`false`) and nothing changes.
pub fn escape_block_ghost(state: &mut BlockEditState) -> (consumed: bool)
    ensures
        consumed == old(state).pending_ghost is Some,
        final(state).pending_ghost is None,
        final(state).edit_text == old(state).edit_text,
        final(state).rejections == old(state).rejections,
        final(state).outcome == old(state).outcome,
        final(state).revision == old(state).revision,
{
    if state.pending_ghost.is_some() {
        state.pending_ghost = None;
        true
    } else {
        false
    }
}

/// How many of the derived cell keys the first `i` entries of a
/// derivation hold: none among the names, one per cell entry, all of them
/// once the tables begin.
pub open spec fn cell_keys_seen(ws: WorkspaceState, i: int) -> int {
    let n = ws.defined_names.entries@.len() as int;
    let c = listed_cells(ws, ws.grids@.len() as int).len() as int;
    if i <= n {
        0
    } else if i <= n + c {
        i - n
    } else {
        c
    }
}

/// The cell keys of a derivation's first `i` entries are the first
/// [`cell_keys_seen`] derived cell keys.
proof fn lemma_cell_keys_of_prefix(ws: WorkspaceState, entries: Seq<NotebookEntry>, i: int)
    requires
        derives(ws, entries),
        0 <= i <= entries.len(),
    ensures
        cell_keys_of(entries.subrange(0, i)) == derived_cell_keys(ws).subrange(
            0,
            cell_keys_seen(ws, i),
        ),
    decreases i,
{
    let all = derived_cell_keys(ws);
    let n = ws.defined_names.entries@.len() as int;
    let c = listed_cells(ws, ws.grids@.len() as int).len() as int;
    if i == 0 {
        assert(entries.subrange(0, 0) =~= Seq::<NotebookEntry>::empty());
        assert(all.subrange(0, 0) =~= Seq::<(NodeId, u32, u32)>::empty());
    } else {
        lemma_cell_keys_of_prefix(ws, entries, i - 1);
        let pre = entries.subrange(0, i);
        assert(pre.drop_last() =~= entries.subrange(0, i - 1));
        assert(pre.last() == entries[i - 1]);
        if n <= i - 1 < n + c {
            assert(all.subrange(0, i - n) =~= all.subrange(0, i - 1 - n).push(all[i - 1 - n]));
        } else {
            assert(!(entries[i - 1].kind is Cell));
        }
    }
}

/// Law: the live block keys of a derivation are exactly the derived cell
/// keys, so evicting edit state outside them drops only vanished cells, and
/// commit-and-advance walks the same order the block list paints.
pub proof fn lemma_live_keys_are_the_derived_cell_keys(ws: WorkspaceState, entries: Seq<NotebookEntry>)
    requires
        derives(ws, entries),
    ensures
        cell_keys_of(entries) == derived_cell_keys(ws),
{
    lemma_cell_keys_of_prefix(ws, entries, entries.len() as int);
    assert(entries.subrange(0, entries.len() as int) =~= entries);
    assert(derived_cell_keys(ws).subrange(0, cell_keys_seen(ws, entries.len() as int))
        =~= derived_cell_keys(ws));
}

/// The per-block edit states, keyed by block address. No address occurs
/// twice (see [`editors_wf`]).
#[derive(Debug, Clone, PartialEq, Eq)]
pub struct BlockEditors {
    pub entries: Vec<((NodeId, u32, u32), BlockEditState)>,
}

/// No block address occurs twice among the editors.
pub open spec fn editors_wf(e: BlockEditors) -> bool {
    forall|i: int, j: int|
        0 <= i < j < e.entries@.len() ==> !same_key(#[trigger] e.entries@[i].0, #[trigger] e.entries@[j].0)
}

/// Whether the editors hold a state for `key`.
pub open spec fn has_editor(e: BlockEditors, key: (NodeId, u32, u32)) -> bool {
    exists|i: int| 0 <= i < e.entries@.len() && same_key(#[trigger] e.entries@[i].0, key)
}

impl BlockEditors {
    /// No edit state yet.
    pub fn new() -> (e: Self)
        ensures
            e.entries@.len() == 0,
            editors_wf(e),
    {
        BlockEditors { entries: Vec::new() }
    }

    /// The position of the state for `key`, creating it from `seed` on
    /// first sight; an existing state is returned untouched, so a
    /// re-derivation never resets in-progress typing.
    pub fn state_for(&mut self, key: &(NodeId, u32, u32), seed: &str) -> (i: usize)
        requires
            editors_wf(*old(self)),
        ensures
            editors_wf(*final(self)),
            i < final(self).entries@.len(),
            same_key(final(self).entries@[i as int].0, *key),
            has_editor(*old(self), *key) ==> *final(self) == *old(self),
            !has_editor(*old(self), *key) ==> {
                &&& final(self).entries@.len() == old(self).entries@.len() + 1
                &&& final(self).entries@.drop_last() == old(self).entries@
                &&& final(self).entries@.last().1.edit_text@ == seed@
                &&& final(self).entries@.last().1.revision == 0
                &&& final(self).entries@.last().1.outcome is None
            },
    {
        let mut i: usize = 0;
        while i < self.entries.len()
            invariant
                i <= self.entries@.len(),
                *self == *old(self),
                editors_wf(*self),
                forall|m: int| 0 <= m < i ==> !same_key(#[trigger] self.entries@[m].0, *key),
            decreases self.entries@.len() - i,
        {
            let k = &self.entries[i].0;
            if str_equal(k.0.id.as_str(), key.0.id.as_str()) && k.1 == key.1 && k.2 == key.2 {
                assert(same_key(self.entries@[i as int].0, *key));
                return i;
            }
            i += 1;
        }
        let ghost before = self.entries@;
        self.entries.push(((key.0.copy(), key.1, key.2), BlockEditState::new(seed)));
        proof {
            assert(self.entries@.drop_last() =~= before);
            assert forall|a: int, b: int|
                0 <= a < b < self.entries@.len() implies !same_key(
                #[trigger] self.entries@[a].0,
                #[trigger] self.entries@[b].0,
            ) by {
                if b == self.entries@.len() - 1 {
                    assert(!same_key(before[a].0, *key));
                } else {
                    assert(self.entries@[a] == before[a] && self.entries@[b] == before[b]);
                }
            }
        }
        self.entries.len() - 1
    }

    /// Drop the states of blocks that vanished from the derivation: keep,
    /// in order, exactly those whose address is among `live`.
    pub fn retain_live(&mut self, live: &Vec<(NodeId, u32, u32)>)
        requires
            editors_wf(*old(self)),
        ensures
            editors_wf(*final(self)),
            final(self).entries@ == old(self).entries@.filter(
                |p: ((NodeId, u32, u32), BlockEditState)| key_present(live@, p.0),
            ),
    {
        let ghost keep = |p: ((NodeId, u32, u32), BlockEditState)| key_present(live@, p.0);
        let ghost before = self.entries@;
        let ghost mut j: int = 0;
        let mut i: usize = 0;
        while i < self.entries.len()
            invariant
                keep == (|p: ((NodeId, u32, u32), BlockEditState)| key_present(live@, p.0)),
                0 <= j <= before.len(),
                i == before.subrange(0, j).filter(keep).len(),
                self.entries@ == before.subrange(0, j).filter(keep) + before.subrange(j, before.len() as int),
                editors_wf(*self),
            decreases self.entries@.len() - i,
        {
            let ghost cur = before[j];
            proof {
                assert(self.entries@[i as int] == cur);
            }
            let mut found = false;
            let mut m: usize = 0;
            while m < live.len()
                invariant
                    m <= live@.len(),
                    i < self.entries@.len(),
                    self.entries@[i as int] == cur,
                    found == (exists|n: int| 0 <= n < m && same_key(#[trigger] live@[n], cur.0)),
                decreases live@.len() - m,
            {
                let l = &live[m];
                let k = &self.entries[i].0;
                if str_equal(l.0.id.as_str(), k.0.id.as_str()) && l.1 == k.1 && l.2 == k.2 {
                    assert(same_key(live@[m as int], cur.0));
                    found = true;
                }
                m += 1;
            }
            proof {
                assert(found == key_present(live@, cur.0));
                assert(keep(before[j]) == key_present(live@, cur.0));
                assert(before.subrange(0, j + 1) =~= before.subrange(0, j).push(before[j]));
                before.subrange(0, j).lemma_filter_push(before[j], keep);
                assert(before.subrange(j, before.len() as int) =~= seq![before[j]] + before.subrange(j + 1, before.len() as int));
            }
            if found {
                proof {
                    assert(self.entries@ =~= before.subrange(0, j + 1).filter(keep) + before.subrange(j + 1, before.len() as int));
                    j = j + 1;
                }
                i += 1;
            } else {
                let ghost prev = self.entries@;
                let _dropped = self.entries.remove(i);
                proof {
                    assert(self.entries@ =~= before.subrange(0, j + 1).filter(keep) + before.subrange(j + 1, before.len() as int));
                    j = j + 1;
                    assert forall|a: int, b: int|
                        0 <= a < b < self.entries@.len() implies !same_key(
                        #[trigger] self.entries@[a].0,
                        #[trigger] self.entries@[b].0,
                    ) by {
                        let a2 = if a < i { a } else { a + 1 };
                        let b2 = if b < i { b } else { b + 1 };
                        assert(self.entries@[a] == prev[a2]);
                        assert(self.entries@[b] == prev[b2]);
                        assert(!same_key(prev[a2].0, prev[b2].0));
                    }
                }
            }
        }
        proof {
            assert(j == before.len()) by {
                if j < before.len() {
                    assert(self.entries@.len() > i);
                }
            }
            assert(before.subrange(0, j) =~= before);
            assert(before.subrange(j, before.len() as int) =~= Seq::<((NodeId, u32, u32), BlockEditState)>::empty());
            assert(self.entries@ =~= before.filter(keep));
        }
    }
}

/// The `+ name` affordance: whether its form is open, and its name and
/// value buffers.
#[derive(Debug, Clone, PartialEq, Eq)]
pub struct AddNameAffordance {
    pub open: bool,
    pub name_buffer: String,
    pub value_buffer: String,
}

/// The hint the affordance shows while the name is blank.
pub const ADD_NAME_HINT: &'static str = "enter a name to create";

impl AddNameAffordance {
    /// A closed affordance with empty buffers.
    pub fn new() -> (a: Self)
        ensures
            !a.open,
            a.name_buffer@.len() == 0,
            a.value_buffer@.len() == 0,
    {
        AddNameAffordance { open: false, name_buffer: String::new(), value_buffer: String::new() }
    }

    /// The `+ name` button: open or close the form, keeping the buffers.
    pub fn toggle(&mut self)
        ensures
            final(self).open == !old(self).open,
            final(self).name_buffer == old(self).name_buffer,
            final(self).value_buffer == old(self).value_buffer,
    {
        self.open = !self.open;
    }

    /// Whether Create is enabled: the name is not blank.
    pub fn can_create(&self) -> (b: bool)
        ensures
            b == (trimmed(self.name_buffer@).len() > 0),
    {
        let chars = chars_of(self.name_buffer.as_str());
        trim_chars(&chars).len() > 0
    }

    /// The hint under the form: a prompt while the name is blank, else
    /// nothing.
    pub fn hint(&self) -> (s: &'static str)
        ensures
            trimmed(self.name_buffer@).len() == 0 ==> s@ == ADD_NAME_HINT@,
            trimmed(self.name_buffer@).len() > 0 ==> s@.len() == 0,
    {
        proof {
            reveal_strlit("");
        }
        if self.can_create() {
            ""
        } else {
            ADD_NAME_HINT
        }
    }

    /// Create: a blank name dispatches nothing; otherwise one
    /// `CreateNamedValue` with the trimmed name and the value text goes out
    /// and both buffers clear.
    pub fn create<D: Dispatcher>(&mut self, dispatch: &mut D)
        ensures
            trimmed(old(self).name_buffer@).len() == 0 ==> {
                &&& final(dispatch).dispatched() == old(dispatch).dispatched()
                &&& *final(self) == *old(self)
            },
            trimmed(old(self).name_buffer@).len() > 0 ==> {
                &&& final(dispatch).dispatched().len() == old(dispatch).dispatched().len() + 1
                &&& final(dispatch).dispatched().drop_last() == old(dispatch).dispatched()
                &&& final(dispatch).dispatched().last() matches WorkspaceIntent::CreateNamedValue {
                    name,
                    value_text,
                } && name@ == trimmed(old(self).name_buffer@) && value_text == old(self).value_buffer
                &&& final(self).name_buffer@.len() == 0
                &&& final(self).value_buffer@.len() == 0
                &&& final(self).open == old(self).open
            },
    {
        let chars = chars_of(self.name_buffer.as_str());
        let trimmed_name = trim_chars(&chars);
        if trimmed_name.len() == 0 {
            return;
        }
        let name = string_of_chars(&trimmed_name);
        let value_text = self.value_buffer.clone();
        let _receipt = dispatch.dispatch(WorkspaceIntent::CreateNamedValue { name, value_text });
        self.name_buffer = String::new();
        self.value_buffer = String::new();
    }
}

/// What a Notebook keydown does.
#[derive(Debug, PartialEq, Eq)]
pub enum NotebookKeyDecision {
    /// Leave the key alone (unbound, or nothing to act on).
    Bubble,
    /// Consume the chord and show this status (a degrade reason or the
    /// read-only note); change nothing else.
    ShowStatus { text: &'static str },
    /// Consume; clear the status and open the `+ name` form.
    OpenNameForm,
    /// Consume; clear the status and focus this block's editor.
    FocusEditor { key: (NodeId, u32, u32) },
    /// Consume; clear the status, commit this block and advance focus.
    CommitAndAdvance { key: (NodeId, u32, u32) },
}

/// `d` is the decision for `chord` against `keymap`, given the persona,
/// whether the key came from inside a block and from a text field, the
/// focused block, and whether that block has edit state.
pub open spec fn notebook_decides(
    keymap: Seq<KeyBinding>,
    chord: KeyChord,
    persona: Persona,
    in_block: bool,
    in_text_entry: bool,
    focused: Option<(NodeId, u32, u32)>,
    has_edit_state: bool,
    d: NotebookKeyDecision,
) -> bool {
    match first_action(keymap.map_values(|b: KeyBinding| notebook_binding_view(b)), chord_view(chord)) {
        None => d is Bubble,
        Some(action) => match notebook_availability_of(action) {
            Some(reason) => d matches NotebookKeyDecision::ShowStatus { text } && text@ == reason,
            None => if !(persona is Author) {
                d matches NotebookKeyDecision::ShowStatus { text } && text@ == READ_ONLY_PERSONA_NOTE@
            } else {
                match action {
                    NotebookAction::NewName => d is OpenNameForm,
                    NotebookAction::OpenEditor => if !in_block || in_text_entry || focused is None {
                        d is Bubble
                    } else {
                        d == NotebookKeyDecision::FocusEditor { key: focused->0 }
                    },
                    NotebookAction::CommitAndAdvance => if !in_block || focused is None
                        || !has_edit_state {
                        d is Bubble
                    } else {
                        d == NotebookKeyDecision::CommitAndAdvance { key: focused->0 }
                    },
                    _ => d is Bubble,
                }
            },
        },
    }
}

/// Decide what a Notebook keydown does: an unbound chord bubbles; a
/// disabled action shows its reason; a non-authoring persona gets the
/// read-only note for every live (authoring) action; otherwise the action
/// runs where its guards allow.
pub fn notebook_key_decision(
    keymap: &[KeyBinding],
    chord: &KeyChord,
    persona: Persona,
    in_block: bool,
    in_text_entry: bool,
    focused: Option<&(NodeId, u32, u32)>,
    has_edit_state: bool,
) -> (d: NotebookKeyDecision)
    ensures
        notebook_decides(
            keymap@,
            *chord,
            persona,
            in_block,
            in_text_entry,
            match focused {
                Some(k) => Some(*k),
                None => None,
            },
            has_edit_state,
            d,
        ),
{
    let action = match resolve_action(keymap, chord) {
        Some(a) => a,
        None => return NotebookKeyDecision::Bubble,
    };
    match action_availability(action) {
        ActionAvailability::DisabledWithReason(reason) => NotebookKeyDecision::ShowStatus { text: reason },
        ActionAvailability::Live => {
            if !persona_allows_authoring(persona) {
                return NotebookKeyDecision::ShowStatus { text: READ_ONLY_PERSONA_NOTE };
            }
            match action {
                NotebookAction::NewName => NotebookKeyDecision::OpenNameForm,
                NotebookAction::OpenEditor => {
                    if !in_block || in_text_entry {
                        return NotebookKeyDecision::Bubble;
                    }
                    match focused {
                        Some(key) => NotebookKeyDecision::FocusEditor {
                            key: (key.0.copy(), key.1, key.2),
                        },
                        None => NotebookKeyDecision::Bubble,
                    }
                },
                NotebookAction::CommitAndAdvance => {
                    if !in_block || !has_edit_state {
                        return NotebookKeyDecision::Bubble;
                    }
                    match focused {
                        Some(key) => NotebookKeyDecision::CommitAndAdvance {
                            key: (key.0.copy(), key.1, key.2),
                        },
                        None => NotebookKeyDecision::Bubble,
                    }
                },
                _ => NotebookKeyDecision::Bubble,
            }
        },
    }
}

/// The Notebook stage's scoped stylesheet: Strand `--dna-*` tokens only,
/// with one gutter tint class per classification.
pub const NOTEBOOK_CSS: &'static str = "\
.dna-notebook{display:flex;flex-direction:column;gap:var(--dna-gap-4);max-width:68ch;line-height:1.6;padding:var(--dna-gap-5);color:var(--dna-ink)}
.dna-notebook__empty{margin:0;color:var(--dna-ink-3);font-style:italic}
.dna-notebook__add-name{display:flex;flex-direction:column;gap:var(--dna-gap-2);align-items:flex-start}
.dna-notebook__add-name-toggle{align-self:flex-start;font:inherit;font-size:12px;font-weight:600;color:var(--dna-accent-ink);background:var(--dna-accent-soft);border:1px solid var(--dna-line);border-radius:var(--dna-radius-chip);padding:var(--dna-gap-1) var(--dna-gap-3);cursor:pointer}
.dna-notebook__add-name-form{display:flex;align-items:center;gap:var(--dna-gap-2);flex-wrap:wrap;padding:var(--dna-gap-3);border:1px solid var(--dna-line);border-radius:var(--dna-radius-card);background:var(--dna-paper-2);width:100%}
.dna-notebook__add-name-input,.dna-notebook__add-name-value{font:inherit;font-family:'Recursive Mono','Cascadia Code',Consolas,ui-monospace,monospace;font-size:12px;color:var(--dna-ink);background:var(--dna-paper);border:1px solid var(--dna-line);border-radius:var(--dna-radius-chip);padding:var(--dna-gap-1) var(--dna-gap-2)}
.dna-notebook__add-name-eq{color:var(--dna-ink-3)}
.dna-notebook__add-name-create{font:inherit;font-size:11px;font-weight:600;color:var(--dna-ink);background:var(--dna-paper);border:1px solid var(--dna-line);border-radius:var(--dna-radius-chip);padding:var(--dna-gap-1) var(--dna-gap-3);cursor:pointer}
.dna-notebook__add-name-create:disabled{color:var(--dna-ink-3);cursor:not-allowed}
.dna-notebook__add-name-hint{font-size:11px;color:var(--dna-ink-3);font-style:italic}
.dna-notebook__kbd-status{margin:0;min-height:1em;font-size:11px;color:var(--dna-ink-3);font-style:italic}
.dna-notebook__xray-degrade{margin:0;font-size:11px;color:var(--dna-ink-3);font-style:italic}
.dna-notebook__block{display:flex;align-items:stretch;border:1px solid var(--dna-line);border-radius:var(--dna-radius-card);background:var(--dna-paper);overflow:hidden}
.dna-notebook__block:focus-visible{outline:2px solid var(--dna-accent-ink);outline-offset:1px}
.dna-notebook__gutter{display:flex;align-items:flex-start;justify-content:center;padding:var(--dna-gap-3) var(--dna-gap-2);min-width:1.9rem;border-right:1px solid var(--dna-line);background:var(--dna-paper-2)}
.dna-notebook__gutter--input{background:var(--dna-green-soft)}
.dna-notebook__gutter--free_value{background:var(--dna-amber-soft)}
.dna-notebook__gutter--intermediate{background:var(--dna-accent-soft)}
.dna-notebook__gutter--output{background:var(--dna-signal-soft)}
.dna-notebook__gutter--empty{background:var(--dna-paper-2)}
.dna-notebook__glyph{font-size:13px;line-height:1;color:var(--dna-ink-2)}
.dna-notebook__body{display:flex;flex-direction:column;gap:var(--dna-gap-2);padding:var(--dna-gap-3) var(--dna-gap-4);flex:1;min-width:0}
.dna-notebook__name-row{display:flex;align-items:baseline;gap:var(--dna-gap-2);flex-wrap:wrap}
.dna-notebook__name{font-weight:600;color:var(--dna-ink);font-family:'Recursive Mono','Cascadia Code',Consolas,ui-monospace,monospace;font-size:12px;word-break:break-word}
.dna-notebook__chip{font-size:10px;text-transform:uppercase;letter-spacing:0.04em;color:var(--dna-accent-ink);background:var(--dna-accent-soft);border-radius:var(--dna-radius-chip);padding:0 var(--dna-gap-2)}
.dna-notebook__dot{width:6px;height:6px;border-radius:50%;display:inline-block;align-self:center;background:var(--dna-ink-3)}
.dna-notebook__dot[data-liveness=\"live\"]{background:var(--dna-value-ink)}
.dna-notebook__dot[data-liveness=\"static\"]{background:var(--dna-prov-const)}
.dna-notebook__dot[data-liveness=\"inert\"]{background:var(--dna-ink-3)}
.dna-notebook__result{line-height:1.35;display:flex;align-items:baseline;gap:var(--dna-gap-2);flex-wrap:wrap;font-family:'Recursive Mono','Cascadia Code',Consolas,ui-monospace,monospace;font-size:12px}
.dna-notebook__value{color:var(--dna-value-ink);font-weight:600;word-break:break-word}
.dna-notebook__formula{color:var(--dna-ink-2)}
.dna-notebook__shape{color:var(--dna-value-ink);font-weight:600}
.dna-notebook__degrade{color:var(--dna-ink-3);font-style:italic;font-family:inherit;font-size:11px}
.dna-notebook__note{color:var(--dna-ink-3);font-style:italic;font-family:inherit}
.dna-notebook__edit{display:flex;flex-direction:column;gap:var(--dna-gap-2);margin-top:var(--dna-gap-2)}
.dna-notebook__readonly{margin:var(--dna-gap-2) 0 0;color:var(--dna-ink-3);font-style:italic;font-size:11px}
.dna-notebook__outcome{display:flex;gap:var(--dna-gap-2);align-items:baseline;padding:var(--dna-gap-1) var(--dna-gap-3);border-radius:var(--dna-radius-chip);background:var(--dna-paper-2);font-family:'Recursive Mono','Cascadia Code',Consolas,ui-monospace,monospace}
.dna-notebook__outcome-label{font-weight:600;text-transform:uppercase;letter-spacing:0.05em;font-size:10px;color:var(--dna-accent-ink)}
.dna-notebook__outcome-detail{font-size:11px;color:var(--dna-ink-2)}
.dna-notebook__delete{align-self:flex-start;font:inherit;font-size:11px;font-weight:600;color:var(--dna-signal-ink);background:var(--dna-signal-soft);border:1px solid var(--dna-line);border-radius:var(--dna-radius-chip);padding:var(--dna-gap-1) var(--dna-gap-3);cursor:pointer}
.dna-notebook__delete-ghost{display:flex;align-items:center;gap:var(--dna-gap-2);flex-wrap:wrap;padding:var(--dna-gap-2) var(--dna-gap-3);border:1px dashed var(--dna-line);border-radius:var(--dna-radius-card);background:var(--dna-paper-2)}
.dna-notebook__delete-ghost[data-legal=\"false\"]{border-color:var(--dna-signal-ink)}
.dna-notebook__delete-ghost-summary{font-size:11px;color:var(--dna-ink-2);font-family:'Recursive Mono','Cascadia Code',Consolas,ui-monospace,monospace}
.dna-notebook__delete-confirm{font:inherit;font-size:11px;font-weight:600;color:var(--dna-signal-ink);background:var(--dna-paper);border:1px solid var(--dna-signal-ink);border-radius:var(--dna-radius-chip);padding:var(--dna-gap-1) var(--dna-gap-3);cursor:pointer}
.dna-notebook__delete-cancel{font:inherit;font-size:11px;color:var(--dna-ink-2);background:var(--dna-paper);border:1px solid var(--dna-line);border-radius:var(--dna-radius-chip);padding:var(--dna-gap-1) var(--dna-gap-3);cursor:pointer}
";


/// Law: a persona that cannot author never gets a mutating keyboard
/// decision — every chord either bubbles or shows a status (the read-only
/// note, or a deferred action's reason) — and a deferred action shows its
/// own reason verbatim, whoever presses it. So nothing reaches the
/// dispatcher from the keyboard in either case.
pub proof fn lemma_no_mutation_without_authoring(
    keymap: Seq<KeyBinding>,
    chord: KeyChord,
    persona: Persona,
    in_block: bool,
    in_text_entry: bool,
    focused: Option<(NodeId, u32, u32)>,
    has_edit_state: bool,
    d: NotebookKeyDecision,
)
    requires
        notebook_decides(keymap, chord, persona, in_block, in_text_entry, focused, has_edit_state, d),
    ensures
        !(persona is Author) ==> (d is Bubble || d is ShowStatus),
        (first_action(keymap.map_values(|b: KeyBinding| notebook_binding_view(b)), chord_view(chord))
            matches Some(a) && notebook_availability_of(a) is Some) ==> (d matches NotebookKeyDecision::ShowStatus {
            text,
        } && text@ == notebook_availability_of(
            first_action(keymap.map_values(|b: KeyBinding| notebook_binding_view(b)), chord_view(chord))->0,
        )->0),
{
}


/// Law: a table block's summary counts the rows of the table's whole range
/// (`bottom - top + 1`, header and totals rows included) and its declared
/// columns (or the range's width when none are declared), so two tables
/// over the same range with as many declared columns read the same,
/// whatever header or totals rectangle either carries.
pub proof fn lemma_table_summary_reads_the_range_shape(
    t1: GridTableOverlayDescriptor,
    t2: GridTableOverlayDescriptor,
)
    ensures
        t1.table_range.bottom_row >= t1.table_range.top_row ==> table_summary(t1) == "table \u{2014} "@
            + decimal_text((t1.table_range.bottom_row - t1.table_range.top_row + 1) as nat) + seq![
            '\u{00d7}',
        ] + decimal_text(table_cols(t1) as nat),
        t1.columns@.len() == 0 && t1.table_range.right_col >= t1.table_range.left_col
            ==> table_cols(t1) == t1.table_range.right_col - t1.table_range.left_col + 1,
        t1.columns@.len() > 0 && t1.columns@.len() <= u32::MAX ==> table_cols(t1)
            == t1.columns@.len(),
        (t1.table_range == t2.table_range && t1.columns@.len() == t2.columns@.len()) ==> table_summary(
            t1,
        ) == table_summary(t2),
{
}

/// Law: a keydown commits only what can be committed — a commit-and-advance
/// decision comes only from the commit chord, for an author, inside a block,
/// on the focused block, and only when that block has edit state (a
/// read-only cell is an honest no-op); an editor focus likewise needs the
/// focused block and a key from outside a text field.
pub proof fn lemma_commit_needs_an_editable_focused_block(
    keymap: Seq<KeyBinding>,
    chord: KeyChord,
    persona: Persona,
    in_block: bool,
    in_text_entry: bool,
    focused: Option<(NodeId, u32, u32)>,
    has_edit_state: bool,
    d: NotebookKeyDecision,
)
    requires
        notebook_decides(keymap, chord, persona, in_block, in_text_entry, focused, has_edit_state, d),
    ensures
        d matches NotebookKeyDecision::CommitAndAdvance { key } ==> {
            &&& has_edit_state
            &&& in_block
            &&& focused == Some(key)
            &&& persona is Author
            &&& first_action(keymap.map_values(|b: KeyBinding| notebook_binding_view(b)), chord_view(chord))
                == Some(NotebookAction::CommitAndAdvance)
        },
        !has_edit_state ==> !(d is CommitAndAdvance),
        d matches NotebookKeyDecision::FocusEditor { key } ==> {
            &&& in_block
            &&& !in_text_entry
            &&& focused == Some(key)
            &&& persona is Author
        },
{
}
} // verus!
