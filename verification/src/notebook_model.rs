//! The Notebook's entry list, derived from the workspace alone: every defined
//! name in catalog order, then every authored cell that no name and no table
//! covers (grid, then window order), then every table overlay (grid, then
//! declaration order). Each entry is badged from its own authored metadata.
use vstd::prelude::*;

use crate::projection::{value_copy, NodeId, NodeValueProjection};
use crate::text::{decimal_text, push_decimal, push_str, str_equal};
use crate::workspace::{
    cell_copy, find_cell, find_grid, first_cell_position, grid_position, has_cell, has_grid,
    overlay_contains, rect_contains, table_copy, workspace_wf, DefinedNameProjection, DefinedNameScopeProjection,
    DefinedNameTargetProjection, GridAuthoredCellProjection, GridAuthoredKindProjection,
    GridCellProjection, GridTableOverlayDescriptor, WorkspaceState,
};

verus! {

/// The structural role of an entry: an input, a free value, an
/// intermediate, an output, or empty.
#[derive(Debug, Clone, Copy, PartialEq, Eq, Structural)]
pub enum NodeClassification {
    Input,
    FreeValue,
    Intermediate,
    Output,
    Empty,
}

/// The stable id of a classification (the tint modifier class).
pub open spec fn classification_stable_id(c: NodeClassification) -> Seq<char> {
    match c {
        NodeClassification::Input => "input"@,
        NodeClassification::FreeValue => "free_value"@,
        NodeClassification::Intermediate => "intermediate"@,
        NodeClassification::Output => "output"@,
        NodeClassification::Empty => "empty"@,
    }
}

impl NodeClassification {
    /// The stable id of the classification.
    pub fn stable_id(self) -> (s: &'static str)
        ensures
            s@ == classification_stable_id(self),
    {
        match self {
            NodeClassification::Input => "input",
            NodeClassification::FreeValue => "free_value",
            NodeClassification::Intermediate => "intermediate",
            NodeClassification::Output => "output",
            NodeClassification::Empty => "empty",
        }
    }
}

/// The classification of an authored kind, given whether a name covers it
/// and, if so, whether that name is dynamic: a name's literal is an input,
/// its formula (when the name is dynamic) an intermediate; an unnamed
/// literal is a free value and an unnamed formula an output.
pub open spec fn classify(kind: GridAuthoredKindProjection, name: Option<DefinedNameProjection>) -> NodeClassification {
    match kind {
        GridAuthoredKindProjection::Empty => NodeClassification::Empty,
        GridAuthoredKindProjection::RichStub => NodeClassification::Empty,
        GridAuthoredKindProjection::Literal => if name is Some {
            NodeClassification::Input
        } else {
            NodeClassification::FreeValue
        },
        GridAuthoredKindProjection::Formula => match name {
            Some(n) => if n.is_dynamic {
                NodeClassification::Intermediate
            } else {
                NodeClassification::Output
            },
            None => NodeClassification::Output,
        },
    }
}

/// Classify one entry's authored metadata, without any dependency-graph
/// lookup.
pub fn entry_classification(
    authored: &GridAuthoredCellProjection,
    name: Option<&DefinedNameProjection>,
) -> (c: NodeClassification)
    ensures
        c == classify(
            authored.kind,
            match name {
                Some(n) => Some(*n),
                None => None,
            },
        ),
{
    match authored.kind {
        GridAuthoredKindProjection::Empty | GridAuthoredKindProjection::RichStub => {
            NodeClassification::Empty
        },
        GridAuthoredKindProjection::Literal => {
            if name.is_some() {
                NodeClassification::Input
            } else {
                NodeClassification::FreeValue
            }
        },
        GridAuthoredKindProjection::Formula => {
            match name {
                Some(n) => if n.is_dynamic {
                    NodeClassification::Intermediate
                } else {
                    NodeClassification::Output
                },
                None => NodeClassification::Output,
            }
        },
    }
}

/// The grid a name resolves against: the sheet its scope names, or, for a
/// workbook-scoped name, the only grid of a single-grid workspace.
pub open spec fn scope_grid(ws: WorkspaceState, name: DefinedNameProjection) -> Option<Seq<char>> {
    match name.scope {
        DefinedNameScopeProjection::Sheet(id) => Some(id.id@),
        DefinedNameScopeProjection::Workbook => if ws.grids@.len() == 1 {
            Some(ws.grids@[0].grid_node_id.id@)
        } else {
            None
        },
    }
}

/// The grid a name's static target resolves against (see [`scope_grid`]).
fn name_scope_grid(ws: &WorkspaceState, name: &DefinedNameProjection) -> (r: Option<NodeId>)
    ensures
        r matches Some(id) ==> scope_grid(*ws, *name) == Some(id.id@),
        r is None <==> scope_grid(*ws, *name) is None,
{
    match &name.scope {
        DefinedNameScopeProjection::Sheet(id) => Some(id.copy()),
        DefinedNameScopeProjection::Workbook => {
            if ws.grids.len() == 1 {
                Some(ws.grids[0].grid_node_id.copy())
            } else {
                None
            }
        },
    }
}

/// Where a name's backing cell sits in the current window: a static
/// name's anchor (top-left) cell on its scope grid, when that grid and that
/// cell are both present.
pub open spec fn backing_position(ws: WorkspaceState, name: DefinedNameProjection) -> Option<(int, int)> {
    match name.target {
        DefinedNameTargetProjection::Static(rect) => match scope_grid(ws, name) {
            Some(id) => if has_grid(ws, id) && has_cell(
                ws.grids@[grid_position(ws, id)],
                rect.top_row,
                rect.left_col,
            ) {
                Some(
                    (
                        grid_position(ws, id),
                        first_cell_position(
                            ws.grids@[grid_position(ws, id)],
                            rect.top_row,
                            rect.left_col,
                        ),
                    ),
                )
            } else {
                None
            },
            None => None,
        },
        DefinedNameTargetProjection::Dynamic { .. } => None,
    }
}

/// The position (grid, cell) of a name's backing cell in the window.
fn resolve_backing_cell(ws: &WorkspaceState, name: &DefinedNameProjection) -> (r: Option<(usize, usize)>)
    requires
        workspace_wf(*ws),
    ensures
        r matches Some(p) ==> backing_position(*ws, *name) == Some((p.0 as int, p.1 as int))
            && p.0 < ws.grids@.len() && p.1 < ws.grids@[p.0 as int].cells@.len(),
        r is None <==> backing_position(*ws, *name) is None,
{
    let rect = match &name.target {
        DefinedNameTargetProjection::Static(rect) => *rect,
        DefinedNameTargetProjection::Dynamic { .. } => return None,
    };
    let id = match name_scope_grid(ws, name) {
        Some(id) => id,
        None => return None,
    };
    let gi = match find_grid(ws, &id) {
        Some(gi) => gi,
        None => return None,
    };
    match find_cell(&ws.grids[gi], rect.top_row, rect.left_col) {
        Some(k) => Some((gi, k)),
        None => None,
    }
}

/// Whether `name` is a static name whose target covers `(row, col)` on its
/// own resolvable grid `grid`.
pub open spec fn name_covers(
    ws: WorkspaceState,
    name: DefinedNameProjection,
    grid: Seq<char>,
    row: u32,
    col: u32,
) -> bool {
    match name.target {
        DefinedNameTargetProjection::Static(rect) => match scope_grid(ws, name) {
            Some(id) => id == grid && rect_contains(rect, row, col),
            None => false,
        },
        DefinedNameTargetProjection::Dynamic { .. } => false,
    }
}

/// True when static `name` covers the cell at `(grid, row, col)`; a name
/// whose grid cannot be resolved covers nothing.
fn name_covers_cell(
    ws: &WorkspaceState,
    name: &DefinedNameProjection,
    grid: &NodeId,
    row: u32,
    col: u32,
) -> (b: bool)
    ensures
        b == name_covers(*ws, *name, grid.id@, row, col),
{
    let rect = match &name.target {
        DefinedNameTargetProjection::Static(rect) => *rect,
        DefinedNameTargetProjection::Dynamic { .. } => return false,
    };
    let scope = match name_scope_grid(ws, name) {
        Some(id) => id,
        None => return false,
    };
    str_equal(scope.id.as_str(), grid.id.as_str()) && row >= rect.top_row && row <= rect.bottom_row
        && col >= rect.left_col && col <= rect.right_col
}

/// The display name of the hidden defined-name backing sheet.
pub const NAMES_BACKING_SHEET: &'static str = "_names";

/// Whether some sheet backed by `grid` is the hidden `_names` sheet.
pub open spec fn is_backing_grid(ws: WorkspaceState, grid: Seq<char>) -> bool {
    exists|s: int|
        0 <= s < ws.sheets@.len() && #[trigger] ws.sheets@[s].grid_node_id.id@ == grid
            && ws.sheets@[s].display_name@ == NAMES_BACKING_SHEET@
}

/// Whether `grid` is the hidden `_names` defined-name backing sheet.
fn is_names_backing_grid(ws: &WorkspaceState, grid: &NodeId) -> (b: bool)
    ensures
        b == is_backing_grid(*ws, grid.id@),
{
    let mut s: usize = 0;
    while s < ws.sheets.len()
        invariant
            s <= ws.sheets@.len(),
            forall|m: int|
                0 <= m < s ==> !(#[trigger] ws.sheets@[m].grid_node_id.id@ == grid.id@
                    && ws.sheets@[m].display_name@ == NAMES_BACKING_SHEET@),
        decreases ws.sheets@.len() - s,
    {
        let sheet = &ws.sheets[s];
        if str_equal(sheet.grid_node_id.id.as_str(), grid.id.as_str()) && str_equal(
            sheet.display_name.as_str(),
            NAMES_BACKING_SHEET,
        ) {
            return true;
        }
        s += 1;
    }
    false
}

/// True when `(row, col)` falls inside a table overlay's range.
fn cell_in_any_table(table: &GridTableOverlayDescriptor, row: u32, col: u32) -> (b: bool)
    ensures
        b == overlay_contains(table.table_range, row, col),
{
    let rect = &table.table_range;
    row >= rect.top_row && row <= rect.bottom_row && col >= rect.left_col && col <= rect.right_col
}

/// The label of an uncovered cell entry: `grid!R{row}C{col}`.
pub open spec fn cell_label(grid: Seq<char>, row: u32, col: u32) -> Seq<char> {
    grid + "!R"@ + decimal_text(row as nat) + "C"@ + decimal_text(col as nat)
}

/// A stable, human-readable label for an uncovered cell entry: the grid id
/// plus its numeric R{row}C{col} address.
fn cell_display_name(grid: &NodeId, row: u32, col: u32) -> (s: String)
    ensures
        s@ == cell_label(grid.id@, row, col),
{
    let mut s = grid.id.clone();
    push_str(&mut s, "!R");
    push_decimal(&mut s, row as u64);
    push_str(&mut s, "C");
    push_decimal(&mut s, col as u64);
    s
}

/// One row of the notebook's entry list.
#[derive(Debug, PartialEq)]
pub enum NotebookEntryKind {
    /// A defined name, with the windowed cell at its static target's anchor
    /// when the window covers it.
    Name { name: DefinedNameProjection, backing_cell: Option<GridCellProjection> },
    /// An authored cell that no name and no table covers.
    Cell { grid: NodeId, authored: GridAuthoredCellProjection, value: NodeValueProjection },
    /// A structured-table overlay.
    Table { grid: NodeId, table: GridTableOverlayDescriptor },
}

/// One derived entry: its label, its kind, and its classification badge.
#[derive(Debug, PartialEq)]
pub struct NotebookEntry {
    pub display_name: String,
    pub kind: NotebookEntryKind,
    pub classification: NodeClassification,
}

/// The badge of a name entry: from its backing cell's authored kind when
/// the window resolves one, else from the name's own dynamic-ness.
pub open spec fn name_classification(ws: WorkspaceState, name: DefinedNameProjection) -> NodeClassification {
    let fallback = if name.is_dynamic {
        NodeClassification::Intermediate
    } else {
        NodeClassification::Input
    };
    match backing_position(ws, name) {
        Some(p) => match ws.grids@[p.0].cells@[p.1].authored {
            Some(a) => classify(a.kind, Some(name)),
            None => fallback,
        },
        None => fallback,
    }
}

/// `e` is the entry for the defined name `name`.
pub open spec fn name_entry(ws: WorkspaceState, name: DefinedNameProjection, e: NotebookEntry) -> bool {
    &&& e.display_name@ == name.name@
    &&& e.classification == name_classification(ws, name)
    &&& e.kind matches NotebookEntryKind::Name { name: n, backing_cell: b }
    &&& n == name
    &&& match backing_position(ws, name) {
        Some(p) => b matches Some(c) && cell_copy(ws.grids@[p.0].cells@[p.1], c),
        None => b is None,
    }
}

/// Whether some catalog name covers `(row, col)` on grid `grid`.
pub open spec fn covered_by_name(ws: WorkspaceState, grid: Seq<char>, row: u32, col: u32) -> bool {
    exists|m: int|
        0 <= m < ws.defined_names.entries@.len() && name_covers(
            ws,
            #[trigger] ws.defined_names.entries@[m],
            grid,
            row,
            col,
        )
}

/// Whether some table of grid `g` covers `(row, col)`.
pub open spec fn covered_by_table(ws: WorkspaceState, g: int, row: u32, col: u32) -> bool {
    exists|t: int|
        0 <= t < ws.grids@[g].overlays.tables@.len() && overlay_contains(
            #[trigger] ws.grids@[g].overlays.tables@[t].table_range,
            row,
            col,
        )
}

/// Whether cell `k` of grid `g` gets an entry of its own: it is authored
/// with content, and neither a name nor a table of its grid covers it.
pub open spec fn cell_listed(ws: WorkspaceState, g: int, k: int) -> bool {
    let cell = ws.grids@[g].cells@[k];
    match cell.authored {
        Some(a) => a.kind != GridAuthoredKindProjection::Empty && !covered_by_name(
            ws,
            ws.grids@[g].grid_node_id.id@,
            cell.row,
            cell.col,
        ) && !covered_by_table(ws, g, cell.row, cell.col),
        None => false,
    }
}

/// The listed cells among the first `n` cells of grid `g`, in window order.
pub open spec fn listed_in_grid(ws: WorkspaceState, g: int, n: int) -> Seq<(int, int)>
    decreases n,
{
    if n <= 0 {
        Seq::empty()
    } else if cell_listed(ws, g, n - 1) {
        listed_in_grid(ws, g, n - 1).push((g, n - 1))
    } else {
        listed_in_grid(ws, g, n - 1)
    }
}

/// The cells of grid `g` that get entries: none on the hidden `_names`
/// sheet, else its listed cells.
pub open spec fn grid_cells_listed(ws: WorkspaceState, g: int) -> Seq<(int, int)> {
    if is_backing_grid(ws, ws.grids@[g].grid_node_id.id@) {
        Seq::empty()
    } else {
        listed_in_grid(ws, g, ws.grids@[g].cells@.len() as int)
    }
}

/// The listed cells of the first `g` grids, in grid then window order.
pub open spec fn listed_cells(ws: WorkspaceState, g: int) -> Seq<(int, int)>
    decreases g,
{
    if g <= 0 {
        Seq::empty()
    } else {
        listed_cells(ws, g - 1) + grid_cells_listed(ws, g - 1)
    }
}

/// `e` is the entry for cell `k` of grid `g`.
pub open spec fn cell_entry(ws: WorkspaceState, g: int, k: int, e: NotebookEntry) -> bool {
    let grid = ws.grids@[g];
    let cell = grid.cells@[k];
    &&& e.display_name@ == cell_label(grid.grid_node_id.id@, cell.row, cell.col)
    &&& e.kind matches NotebookEntryKind::Cell { grid: id, authored: a, value: v }
    &&& id == grid.grid_node_id
    &&& cell.authored == Some(a)
    &&& value_copy(cell.value, v)
    &&& e.classification == classify(a.kind, None)
}

/// The tables of grid `g` that get entries: none on the hidden sheet, else
/// every table in declaration order.
pub open spec fn grid_tables(ws: WorkspaceState, g: int) -> Seq<(int, int)> {
    if is_backing_grid(ws, ws.grids@[g].grid_node_id.id@) {
        Seq::empty()
    } else {
        Seq::new(ws.grids@[g].overlays.tables@.len(), |t: int| (g, t))
    }
}

/// The listed tables of the first `g` grids, in grid then declaration
/// order.
pub open spec fn listed_tables(ws: WorkspaceState, g: int) -> Seq<(int, int)>
    decreases g,
{
    if g <= 0 {
        Seq::empty()
    } else {
        listed_tables(ws, g - 1) + grid_tables(ws, g - 1)
    }
}

/// `e` is the entry for table `t` of grid `g`.
pub open spec fn table_entry(ws: WorkspaceState, g: int, t: int, e: NotebookEntry) -> bool {
    let grid = ws.grids@[g];
    &&& e.display_name@ == grid.overlays.tables@[t].table_name@
    &&& e.classification == NodeClassification::Intermediate
    &&& e.kind matches NotebookEntryKind::Table { grid: id, table }
    &&& id == grid.grid_node_id
    &&& table_copy(grid.overlays.tables@[t], table)
}

/// The entry list `entries` is the derivation of `ws`: the names, then the
/// listed cells, then the listed tables, each entry matching its source.
pub open spec fn derives(ws: WorkspaceState, entries: Seq<NotebookEntry>) -> bool {
    let names = ws.defined_names.entries@;
    let cells = listed_cells(ws, ws.grids@.len() as int);
    let tables = listed_tables(ws, ws.grids@.len() as int);
    &&& entries.len() == names.len() + cells.len() + tables.len()
    &&& forall|i: int| 0 <= i < names.len() ==> name_entry(ws, names[i], #[trigger] entries[i])
    &&& forall|i: int|
        names.len() <= i < names.len() + cells.len() ==> cell_entry(
            ws,
            cells[i - names.len()].0,
            cells[i - names.len()].1,
            #[trigger] entries[i],
        )
    &&& forall|i: int|
        names.len() + cells.len() <= i < entries.len() ==> table_entry(
            ws,
            tables[i - names.len() - cells.len()].0,
            tables[i - names.len() - cells.len()].1,
            #[trigger] entries[i],
        )
}

/// The entry for one defined name.
fn name_entry_of(ws: &WorkspaceState, name: &DefinedNameProjection) -> (e: NotebookEntry)
    requires
        workspace_wf(*ws),
    ensures
        name_entry(*ws, *name, e),
{
    let backing = resolve_backing_cell(ws, name);
    let fallback = if name.is_dynamic {
        NodeClassification::Intermediate
    } else {
        NodeClassification::Input
    };
    let (classification, backing_cell) = match backing {
        Some((gi, k)) => {
            let cell = &ws.grids[gi].cells[k];
            let classification = match &cell.authored {
                Some(a) => entry_classification(a, Some(name)),
                None => fallback,
            };
            (classification, Some(cell.copy()))
        },
        None => (fallback, None),
    };
    NotebookEntry {
        display_name: name.name.clone(),
        kind: NotebookEntryKind::Name { name: name.copy(), backing_cell },
        classification,
    }
}

/// Whether some catalog name covers `(row, col)` on `grid`.
fn any_name_covers(ws: &WorkspaceState, grid: &NodeId, row: u32, col: u32) -> (b: bool)
    ensures
        b == covered_by_name(*ws, grid.id@, row, col),
{
    let names = &ws.defined_names.entries;
    let mut m: usize = 0;
    while m < names.len()
        invariant
            m <= names@.len(),
            *names == ws.defined_names.entries,
            forall|j: int| 0 <= j < m ==> !name_covers(*ws, #[trigger] names@[j], grid.id@, row, col),
        decreases names@.len() - m,
    {
        if name_covers_cell(ws, &names[m], grid, row, col) {
            assert(name_covers(*ws, names@[m as int], grid.id@, row, col));
            return true;
        }
        m += 1;
    }
    false
}

/// Whether some table of grid `g` covers `(row, col)`.
fn any_table_covers(ws: &WorkspaceState, g: usize, row: u32, col: u32) -> (b: bool)
    requires
        g < ws.grids@.len(),
    ensures
        b == covered_by_table(*ws, g as int, row, col),
{
    let tables = &ws.grids[g].overlays.tables;
    let mut t: usize = 0;
    while t < tables.len()
        invariant
            t <= tables@.len(),
            *tables == ws.grids@[g as int].overlays.tables,
            forall|j: int| 0 <= j < t ==> !overlay_contains(#[trigger] tables@[j].table_range, row, col),
        decreases tables@.len() - t,
    {
        if cell_in_any_table(&tables[t], row, col) {
            assert(overlay_contains(tables@[t as int].table_range, row, col));
            return true;
        }
        t += 1;
    }
    false
}

/// Derive the notebook's ordered entry list from the workspace: every
/// defined name (catalog order), then every authored cell that no name and
/// no table covers (grid order, then window order), then every table overlay
/// (grid order, then declaration order). The hidden `_names` sheet
/// contributes no cells and no tables.
#[verifier::loop_isolation(false)]
#[verifier::rlimit(60)]
pub fn derive_entries(workspace: &WorkspaceState) -> (entries: Vec<NotebookEntry>)
    requires
        workspace_wf(*workspace),
    ensures
        derives(*workspace, entries@),
{
    let ws = workspace;
    let ghost names = ws.defined_names.entries@;
    let ghost total = ws.grids@.len() as int;
    let mut entries: Vec<NotebookEntry> = Vec::new();
    let mut i: usize = 0;
    while i < ws.defined_names.entries.len()
        invariant
            i <= names.len(),
            entries@.len() == i,
            forall|m: int| 0 <= m < i ==> name_entry(*ws, names[m], #[trigger] entries@[m]),
        decreases names.len() - i,
    {
        let e = name_entry_of(ws, &ws.defined_names.entries[i]);
        entries.push(e);
        i += 1;
    }
    let mut g: usize = 0;
    while g < ws.grids.len()
        invariant
            g <= total,
            entries@.len() == names.len() + listed_cells(*ws, g as int).len(),
            forall|m: int| 0 <= m < names.len() ==> name_entry(*ws, names[m], #[trigger] entries@[m]),
            forall|m: int|
                names.len() <= m < entries@.len() ==> cell_entry(
                    *ws,
                    listed_cells(*ws, g as int)[m - names.len()].0,
                    listed_cells(*ws, g as int)[m - names.len()].1,
                    #[trigger] entries@[m],
                ),
        decreases total - g,
    {
        let grid = &ws.grids[g];
        let ghost before = listed_cells(*ws, g as int);
        if !is_names_backing_grid(ws, &grid.grid_node_id) {
            let mut k: usize = 0;
            while k < grid.cells.len()
                invariant
                    k <= grid.cells@.len(),
                    *grid == ws.grids@[g as int],
                    !is_backing_grid(*ws, grid.grid_node_id.id@),
                    entries@.len() == names.len() + before.len() + listed_in_grid(
                        *ws,
                        g as int,
                        k as int,
                    ).len(),
                    forall|m: int|
                        0 <= m < names.len() ==> name_entry(*ws, names[m], #[trigger] entries@[m]),
                    forall|m: int|
                        names.len() <= m < entries@.len() ==> cell_entry(
                            *ws,
                            (before + listed_in_grid(*ws, g as int, k as int))[m - names.len()].0,
                            (before + listed_in_grid(*ws, g as int, k as int))[m - names.len()].1,
                            #[trigger] entries@[m],
                        ),
                decreases grid.cells@.len() - k,
            {
                let cell = &grid.cells[k];
                let ghost old_seq = before + listed_in_grid(*ws, g as int, k as int);
                let listed = match &cell.authored {
                    None => false,
                    Some(authored) => {
                        match authored.kind {
                            GridAuthoredKindProjection::Empty => false,
                            _ => !any_name_covers(ws, &grid.grid_node_id, cell.row, cell.col)
                                && !any_table_covers(ws, g, cell.row, cell.col),
                        }
                    },
                };
                assert(listed == cell_listed(*ws, g as int, k as int));
                if listed {
                    let authored = match &cell.authored {
                        Some(a) => a,
                        None => {
                            assert(false);
                            return entries;
                        },
                    };
                    let e = NotebookEntry {
                        display_name: cell_display_name(&grid.grid_node_id, cell.row, cell.col),
                        classification: entry_classification(authored, None),
                        kind: NotebookEntryKind::Cell {
                            grid: grid.grid_node_id.copy(),
                            authored: authored.copy(),
                            value: cell.value.copy(),
                        },
                    };
                    entries.push(e);
                    assert(before + listed_in_grid(*ws, g as int, k + 1) =~= old_seq.push(
                        (g as int, k as int),
                    ));
                } else {
                    assert(before + listed_in_grid(*ws, g as int, k + 1) =~= old_seq);
                }
                k += 1;
            }
            assert(listed_cells(*ws, g + 1) =~= before + listed_in_grid(
                *ws,
                g as int,
                grid.cells@.len() as int,
            ));
        } else {
            assert(listed_cells(*ws, g + 1) =~= before);
        }
        g += 1;
    }
    let ghost cells = listed_cells(*ws, total);
    let mut g: usize = 0;
    while g < ws.grids.len()
        invariant
            g <= total,
            cells == listed_cells(*ws, total),
            entries@.len() == names.len() + cells.len() + listed_tables(*ws, g as int).len(),
            forall|m: int| 0 <= m < names.len() ==> name_entry(*ws, names[m], #[trigger] entries@[m]),
            forall|m: int|
                names.len() <= m < names.len() + cells.len() ==> cell_entry(
                    *ws,
                    cells[m - names.len()].0,
                    cells[m - names.len()].1,
                    #[trigger] entries@[m],
                ),
            forall|m: int|
                names.len() + cells.len() <= m < entries@.len() ==> table_entry(
                    *ws,
                    listed_tables(*ws, g as int)[m - names.len() - cells.len()].0,
                    listed_tables(*ws, g as int)[m - names.len() - cells.len()].1,
                    #[trigger] entries@[m],
                ),
        decreases total - g,
    {
        let grid = &ws.grids[g];
        let ghost before = listed_tables(*ws, g as int);
        if !is_names_backing_grid(ws, &grid.grid_node_id) {
            let tables = &grid.overlays.tables;
            let mut t: usize = 0;
            while t < tables.len()
                invariant
                    t <= tables@.len(),
                    *grid == ws.grids@[g as int],
                    *tables == grid.overlays.tables,
                    !is_backing_grid(*ws, grid.grid_node_id.id@),
                    entries@.len() == names.len() + cells.len() + before.len() + t,
                    forall|m: int|
                        0 <= m < names.len() ==> name_entry(*ws, names[m], #[trigger] entries@[m]),
                    forall|m: int|
                        names.len() <= m < names.len() + cells.len() ==> cell_entry(
                            *ws,
                            cells[m - names.len()].0,
                            cells[m - names.len()].1,
                            #[trigger] entries@[m],
                        ),
                    forall|m: int|
                        names.len() + cells.len() <= m < entries@.len() ==> table_entry(
                            *ws,
                            (before + grid_tables(*ws, g as int))[m - names.len() - cells.len()].0,
                            (before + grid_tables(*ws, g as int))[m - names.len() - cells.len()].1,
                            #[trigger] entries@[m],
                        ),
                decreases tables@.len() - t,
            {
                let table = &tables[t];
                let e = NotebookEntry {
                    display_name: table.table_name.clone(),
                    classification: NodeClassification::Intermediate,
                    kind: NotebookEntryKind::Table { grid: grid.grid_node_id.copy(), table: table.copy() },
                };
                entries.push(e);
                t += 1;
            }
            assert(listed_tables(*ws, g + 1) =~= before + grid_tables(*ws, g as int));
        } else {
            assert(listed_tables(*ws, g + 1) =~= before);
        }
        g += 1;
    }
    entries
}

/// The listed cells of one grid's first `n` cells are exactly those of its
/// cells below `n` that are listed, each carrying the grid's position.
proof fn lemma_listed_in_grid_members(ws: WorkspaceState, g: int, n: int)
    requires
        0 <= n,
    ensures
        forall|k: int|
            #![trigger listed_in_grid(ws, g, n).contains((g, k))]
            listed_in_grid(ws, g, n).contains((g, k)) <==> 0 <= k < n && cell_listed(ws, g, k),
        forall|p: (int, int)| #[trigger] listed_in_grid(ws, g, n).contains(p) ==> p.0 == g,
    decreases n,
{
    broadcast use vstd::seq_lib::group_seq_properties;

    let s = listed_in_grid(ws, g, n);
    if n == 0 {
        assert(s =~= Seq::<(int, int)>::empty());
    } else {
        lemma_listed_in_grid_members(ws, g, n - 1);
        let prev = listed_in_grid(ws, g, n - 1);
        if cell_listed(ws, g, n - 1) {
            assert(s == prev.push((g, n - 1)));
            assert forall|k: int| s.contains((g, k)) <==> 0 <= k < n && cell_listed(ws, g, k) by {
                if k == n - 1 {
                    assert(s[s.len() - 1] == (g, k));
                }
            }
        } else {
            assert(s == prev);
        }
    }
}

/// Law: across the first `gs` grids, an authored cell gets an entry of its
/// own exactly when it is not on the hidden `_names` sheet, has content, and
/// no name and no table of its grid covers it.
pub proof fn lemma_listed_cells_are_exactly_the_uncovered_cells(ws: WorkspaceState, gs: int, g: int, k: int)
    requires
        0 <= gs <= ws.grids@.len(),
        0 <= g < ws.grids@.len(),
        0 <= k < ws.grids@[g].cells@.len(),
    ensures
        listed_cells(ws, gs).contains((g, k)) <==> g < gs && !is_backing_grid(
            ws,
            ws.grids@[g].grid_node_id.id@,
        ) && cell_listed(ws, g, k),
    decreases gs,
{
    broadcast use vstd::seq_lib::group_seq_properties;

    if gs > 0 {
        lemma_listed_cells_are_exactly_the_uncovered_cells(ws, gs - 1, g, k);
        let last = gs - 1;
        lemma_listed_in_grid_members(ws, last, ws.grids@[last].cells@.len() as int);
        assert(listed_cells(ws, gs) == listed_cells(ws, gs - 1) + grid_cells_listed(ws, last));
        if grid_cells_listed(ws, last).contains((g, k)) {
            assert(g == last);
        }
    }
}

/// Law: a workbook-scoped name in a workspace with several grids (or none)
/// covers no cell at all, so it never hides a same-address cell on another
/// sheet.
pub proof fn lemma_workbook_name_covers_nothing_across_grids(
    ws: WorkspaceState,
    name: DefinedNameProjection,
    grid: Seq<char>,
    row: u32,
    col: u32,
)
    requires
        name.scope is Workbook,
        ws.grids@.len() != 1,
    ensures
        !name_covers(ws, name, grid, row, col),
{
}

/// Law: a name covers cells only on its own resolved grid, and only inside
/// its static target.
pub proof fn lemma_name_covers_only_its_own_grid(
    ws: WorkspaceState,
    name: DefinedNameProjection,
    grid: Seq<char>,
    row: u32,
    col: u32,
)
    requires
        name_covers(ws, name, grid, row, col),
    ensures
        scope_grid(ws, name) == Some(grid),
        name.target matches DefinedNameTargetProjection::Static(rect) && rect_contains(rect, row, col),
{
}


/// Law: with one static name whose target covers a cell's address, and no
/// table over that cell, the authored cell (with content, off the `_names`
/// sheet) is left out of the derivation exactly when the name resolves to
/// the cell's own grid: its sheet scope names that grid, or it is
/// workbook-scoped in a single-grid workspace.
pub proof fn lemma_one_name_hides_a_cell_exactly_on_its_grid(ws: WorkspaceState, g: int, k: int)
    requires
        0 <= g < ws.grids@.len(),
        0 <= k < ws.grids@[g].cells@.len(),
        ws.defined_names.entries@.len() == 1,
        ws.defined_names.entries@[0].target matches DefinedNameTargetProjection::Static(rect)
            && rect_contains(rect, ws.grids@[g].cells@[k].row, ws.grids@[g].cells@[k].col),
        ws.grids@[g].cells@[k].authored matches Some(a) && a.kind != GridAuthoredKindProjection::Empty,
        !covered_by_table(ws, g, ws.grids@[g].cells@[k].row, ws.grids@[g].cells@[k].col),
        !is_backing_grid(ws, ws.grids@[g].grid_node_id.id@),
    ensures
        !listed_cells(ws, ws.grids@.len() as int).contains((g, k)) <==> scope_grid(
            ws,
            ws.defined_names.entries@[0],
        ) == Some(ws.grids@[g].grid_node_id.id@),
{
    lemma_listed_cells_are_exactly_the_uncovered_cells(ws, ws.grids@.len() as int, g, k);
    let cell = ws.grids@[g].cells@[k];
    let n = ws.defined_names.entries@[0];
    let gid = ws.grids@[g].grid_node_id.id@;
    if scope_grid(ws, n) == Some(gid) {
        assert(name_covers(ws, n, gid, cell.row, cell.col));
        assert(covered_by_name(ws, gid, cell.row, cell.col));
    } else {
        assert forall|m: int| 0 <= m < ws.defined_names.entries@.len() implies !name_covers(
            ws,
            #[trigger] ws.defined_names.entries@[m],
            gid,
            cell.row,
            cell.col,
        ) by {
            assert(m == 0);
        }
    }
}

} // verus!
