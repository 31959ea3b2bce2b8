//! The published workspace as the stages read it: sheets, windowed grids with
//! their authored cells and table overlays, the defined-name catalog, and the
//! calc state. Every stage derives its display lists from these values only.
use vstd::prelude::*;

use crate::projection::{value_copy, GridOverlayRect, NodeId, NodeValueProjection};
use crate::text::str_equal;

verus! {

/// A rectangle of 1-based grid cells, corners inclusive.
#[derive(Debug, Clone, Copy, PartialEq, Eq, Structural)]
pub struct GridRectProjection {
    pub top_row: u32,
    pub left_col: u32,
    pub bottom_row: u32,
    pub right_col: u32,
}

/// Whether `(row, col)` lies inside `rect`.
pub open spec fn rect_contains(rect: GridRectProjection, row: u32, col: u32) -> bool {
    rect.top_row <= row <= rect.bottom_row && rect.left_col <= col <= rect.right_col
}

/// A 1-based grid cell address.
#[derive(Debug, Clone, Copy, PartialEq, Eq, Structural)]
pub struct GridCellRefProjection {
    pub row: u32,
    pub col: u32,
}

/// The role a cell plays for authoring: directly editable, or a follower of
/// some other structure that owns its content.
#[derive(Debug, Clone, Copy, PartialEq, Eq, Structural)]
pub enum GridEditabilityProjection {
    Editable,
    RepeatedRegionMember,
    MergedFollower,
    SpillDisplay { anchor: GridCellRefProjection },
    TableStructural,
}

/// What the user authored into a cell.
#[derive(Debug, Clone, Copy, PartialEq, Eq, Structural)]
pub enum GridAuthoredKindProjection {
    Empty,
    Literal,
    Formula,
    RichStub,
}

/// A cell's authored record: what was typed (never the computed value).
#[derive(Debug, Clone, PartialEq, Eq)]
pub struct GridAuthoredCellProjection {
    pub row: u32,
    pub col: u32,
    pub kind: GridAuthoredKindProjection,
    pub literal_text: Option<String>,
    pub source_text: Option<String>,
    pub editability: GridEditabilityProjection,
}

/// A copy of an optional string.
pub fn copy_opt_string(o: &Option<String>) -> (r: Option<String>)
    ensures
        r == *o,
{
    match o {
        Some(t) => Some(t.clone()),
        None => None,
    }
}

impl GridAuthoredCellProjection {
    /// A copy of the record.
    pub fn copy(&self) -> (r: Self)
        ensures
            r == *self,
    {
        GridAuthoredCellProjection {
            row: self.row,
            col: self.col,
            kind: self.kind,
            literal_text: copy_opt_string(&self.literal_text),
            source_text: copy_opt_string(&self.source_text),
            editability: self.editability,
        }
    }
}

/// One windowed cell: its address, computed value and authored record.
#[derive(Debug, PartialEq)]
pub struct GridCellProjection {
    pub row: u32,
    pub col: u32,
    pub value: NodeValueProjection,
    pub authored: Option<GridAuthoredCellProjection>,
}

/// `b` is a faithful copy of the cell `a`.
pub open spec fn cell_copy(a: GridCellProjection, b: GridCellProjection) -> bool {
    &&& b.row == a.row
    &&& b.col == a.col
    &&& value_copy(a.value, b.value)
    &&& b.authored == a.authored
}

impl GridCellProjection {
    /// A deep copy of the cell.
    pub fn copy(&self) -> (r: Self)
        ensures
            cell_copy(*self, r),
    {
        let authored = match &self.authored {
            Some(a) => Some(a.copy()),
            None => None,
        };
        GridCellProjection { row: self.row, col: self.col, value: self.value.copy(), authored }
    }
}

/// Whether `(row, col)` lies inside the overlay rectangle `rect`.
pub open spec fn overlay_contains(rect: GridOverlayRect, row: u32, col: u32) -> bool {
    rect.top_row <= row <= rect.bottom_row && rect.left_col <= col <= rect.right_col
}

/// One column of a structured table: its name and the rectangle of its
/// data cells.
#[derive(Debug, Clone, PartialEq, Eq)]
pub struct GridTableColumnOverlay {
    pub name: String,
    pub data_rect: GridOverlayRect,
}

/// A structured-table overlay: its name, its full range, its header and
/// totals bands when it shows them, and its columns.
#[derive(Debug, Clone, PartialEq, Eq)]
pub struct GridTableOverlayDescriptor {
    pub table_name: String,
    pub table_range: GridOverlayRect,
    pub header_rect: Option<GridOverlayRect>,
    pub totals_rect: Option<GridOverlayRect>,
    pub columns: Vec<GridTableColumnOverlay>,
}

/// `b` is a faithful copy of the table descriptor `a`.
pub open spec fn table_copy(a: GridTableOverlayDescriptor, b: GridTableOverlayDescriptor) -> bool {
    &&& b.table_name == a.table_name
    &&& b.table_range == a.table_range
    &&& b.header_rect == a.header_rect
    &&& b.totals_rect == a.totals_rect
    &&& b.columns@ == a.columns@
}

/// A copy of a list of strings.
pub fn copy_strings(v: &Vec<String>) -> (r: Vec<String>)
    ensures
        r@ == v@,
{
    let mut r: Vec<String> = Vec::new();
    let mut i: usize = 0;
    while i < v.len()
        invariant
            i <= v@.len(),
            r@ == v@.subrange(0, i as int),
        decreases v@.len() - i,
    {
        r.push(v[i].clone());
        i += 1;
        assert(r@ =~= v@.subrange(0, i as int));
    }
    assert(v@.subrange(0, v@.len() as int) =~= v@);
    r
}

/// A copy of a table's columns.
fn copy_columns(v: &Vec<GridTableColumnOverlay>) -> (r: Vec<GridTableColumnOverlay>)
    ensures
        r@ == v@,
{
    let mut r: Vec<GridTableColumnOverlay> = Vec::new();
    let mut i: usize = 0;
    while i < v.len()
        invariant
            i <= v@.len(),
            r@ == v@.subrange(0, i as int),
        decreases v@.len() - i,
    {
        r.push(GridTableColumnOverlay { name: v[i].name.clone(), data_rect: v[i].data_rect });
        i += 1;
        assert(r@ =~= v@.subrange(0, i as int));
    }
    assert(v@.subrange(0, v@.len() as int) =~= v@);
    r
}

impl GridTableOverlayDescriptor {
    /// A copy of the descriptor.
    pub fn copy(&self) -> (r: Self)
        ensures
            table_copy(*self, r),
    {
        GridTableOverlayDescriptor {
            table_name: self.table_name.clone(),
            table_range: self.table_range,
            header_rect: self.header_rect,
            totals_rect: self.totals_rect,
            columns: copy_columns(&self.columns),
        }
    }
}

/// A spilled-array region: its extent, its anchor cell, and whether the
/// spill is blocked (`#SPILL!`).
#[derive(Debug, Clone, Copy, PartialEq, Eq, Structural)]
pub struct GridSpillOverlayDescriptor {
    pub extent: GridOverlayRect,
    pub anchor_row: u32,
    pub anchor_col: u32,
    pub blocked: bool,
}

/// A merged-cell region.
#[derive(Debug, Clone, Copy, PartialEq, Eq, Structural)]
pub struct GridMergedOverlayDescriptor {
    pub rect: GridOverlayRect,
}

/// A grid's read-only overlays: structured tables, spilled arrays and
/// merged regions.
#[derive(Debug, Clone, PartialEq, Eq)]
pub struct GridOverlayBundle {
    pub tables: Vec<GridTableOverlayDescriptor>,
    pub spills: Vec<GridSpillOverlayDescriptor>,
    pub merged: Vec<GridMergedOverlayDescriptor>,
}

impl GridOverlayBundle {
    /// Whether the bundle carries no overlay at all.
    pub fn is_empty(&self) -> (b: bool)
        ensures
            b == (self.tables@.len() == 0 && self.spills@.len() == 0 && self.merged@.len() == 0),
    {
        self.tables.len() == 0 && self.spills.len() == 0 && self.merged.len() == 0
    }
}

/// One grid: its node id, its extent, the cells the current window carries,
/// and its overlays.
#[derive(Debug, PartialEq)]
pub struct GridProjection {
    pub grid_node_id: NodeId,
    pub max_rows: u32,
    pub max_cols: u32,
    pub cells: Vec<GridCellProjection>,
    pub overlays: GridOverlayBundle,
}

/// One sheet of the workbook: the grid that backs it, its display name and
/// its position.
#[derive(Debug, Clone, PartialEq, Eq)]
pub struct SheetProjection {
    pub grid_node_id: NodeId,
    pub display_name: String,
    pub position: u32,
}

/// The scope a defined name is visible in.
#[derive(Debug, Clone, PartialEq, Eq)]
pub enum DefinedNameScopeProjection {
    Workbook,
    Sheet(NodeId),
}

/// What a defined name refers to: a static cell range, or a formula.
#[derive(Debug, Clone, PartialEq, Eq)]
pub enum DefinedNameTargetProjection {
    Static(GridRectProjection),
    Dynamic { source_text: String },
}

/// One entry of the defined-name catalog.
#[derive(Debug, Clone, PartialEq, Eq)]
pub struct DefinedNameProjection {
    pub scope: DefinedNameScopeProjection,
    pub name: String,
    pub target: DefinedNameTargetProjection,
    pub is_dynamic: bool,
}

impl DefinedNameProjection {
    /// A copy of the entry.
    pub fn copy(&self) -> (r: Self)
        ensures
            r == *self,
    {
        let scope = match &self.scope {
            DefinedNameScopeProjection::Workbook => DefinedNameScopeProjection::Workbook,
            DefinedNameScopeProjection::Sheet(id) => DefinedNameScopeProjection::Sheet(id.copy()),
        };
        let target = match &self.target {
            DefinedNameTargetProjection::Static(rect) => DefinedNameTargetProjection::Static(*rect),
            DefinedNameTargetProjection::Dynamic { source_text } => {
                DefinedNameTargetProjection::Dynamic { source_text: source_text.clone() }
            },
        };
        DefinedNameProjection { scope, name: self.name.clone(), target, is_dynamic: self.is_dynamic }
    }
}

/// The defined-name catalog, in catalog order.
#[derive(Debug, Clone, PartialEq, Eq, Default)]
pub struct DefinedNamesProjection {
    pub entries: Vec<DefinedNameProjection>,
}

/// How the workbook recalculates.
#[derive(Debug, Clone, Copy, PartialEq, Eq, Structural)]
pub enum CalcModeProjection {
    Automatic,
    Manual,
}

/// One sheet's calc summary: whether it is dirty.
#[derive(Debug, Clone, PartialEq, Eq)]
pub struct SheetCalcSummaryProjection {
    pub grid_node_id: NodeId,
    pub dirty: bool,
}

/// The workbook's calc state: mode, last recalc tick, per-sheet summaries.
#[derive(Debug, Clone, PartialEq, Eq)]
pub struct WorkbookCalcProjection {
    pub mode: CalcModeProjection,
    pub last_recalc_tick: Option<u64>,
    pub sheets: Vec<SheetCalcSummaryProjection>,
}

/// How the last calc run ended.
#[derive(Debug, Clone, Copy, PartialEq, Eq, Structural)]
pub enum CalcRunStateProjection {
    Published,
    VerifiedClean,
    Rejected,
}

/// The most recent calc run's outcome.
#[derive(Debug, Clone, Copy, PartialEq, Eq, Structural)]
pub struct CalcRunProjection {
    pub run_state: CalcRunStateProjection,
}

/// The dependency projection: the handles of the references the host has
/// resolved to their targets.
#[derive(Debug, Clone, PartialEq, Eq, Default)]
pub struct DependencyGraphProjection {
    pub reference_resolutions: Vec<String>,
}

/// The whole published workspace. `grids` holds the host's grid map in its
/// key order: by grid node id, strictly increasing (see [`workspace_wf`]).
#[derive(Debug, PartialEq)]
pub struct WorkspaceState {
    pub sheets: Vec<SheetProjection>,
    pub grids: Vec<GridProjection>,
    pub defined_names: DefinedNamesProjection,
    pub workbook_calc: Option<WorkbookCalcProjection>,
    pub last_run: Option<CalcRunProjection>,
    pub dependencies: DependencyGraphProjection,
}

impl Default for WorkspaceState {
    /// The empty workspace: no sheets, grids, names, calc state or
    /// resolutions.
    fn default() -> (ws: Self)
        ensures
            ws.sheets@.len() == 0,
            ws.grids@.len() == 0,
            ws.defined_names.entries@.len() == 0,
            ws.workbook_calc is None,
            ws.last_run is None,
            ws.dependencies.reference_resolutions@.len() == 0,
    {
        WorkspaceState {
            sheets: Vec::new(),
            grids: Vec::new(),
            defined_names: DefinedNamesProjection { entries: Vec::new() },
            workbook_calc: None,
            last_run: None,
            dependencies: DependencyGraphProjection { reference_resolutions: Vec::new() },
        }
    }
}

/// Strict lexicographic order on character sequences.
pub open spec fn text_lt(a: Seq<char>, b: Seq<char>) -> bool
    decreases a.len(),
{
    if b.len() == 0 {
        false
    } else if a.len() == 0 {
        true
    } else if a[0] != b[0] {
        (a[0] as u32) < (b[0] as u32)
    } else {
        text_lt(a.drop_first(), b.drop_first())
    }
}

/// No text is below itself.
pub proof fn lemma_text_lt_irreflexive(a: Seq<char>)
    ensures
        !text_lt(a, a),
    decreases a.len(),
{
    if a.len() > 0 {
        lemma_text_lt_irreflexive(a.drop_first());
    }
}

/// The grid map's invariant: grids come in strictly increasing id order, so
/// no id occurs twice.
pub open spec fn workspace_wf(ws: WorkspaceState) -> bool {
    forall|i: int, j: int|
        0 <= i < j < ws.grids@.len() ==> text_lt(
            #[trigger] ws.grids@[i].grid_node_id.id@,
            #[trigger] ws.grids@[j].grid_node_id.id@,
        )
}

/// In a well-formed workspace two grids with the same id are the same grid.
pub proof fn lemma_grid_ids_are_unique(ws: WorkspaceState, i: int, j: int)
    requires
        workspace_wf(ws),
        0 <= i < ws.grids@.len(),
        0 <= j < ws.grids@.len(),
        ws.grids@[i].grid_node_id.id@ == ws.grids@[j].grid_node_id.id@,
    ensures
        i == j,
{
    if i < j {
        lemma_text_lt_irreflexive(ws.grids@[i].grid_node_id.id@);
    } else if j < i {
        lemma_text_lt_irreflexive(ws.grids@[j].grid_node_id.id@);
    }
}

/// Whether the workspace has a grid with this id.
pub open spec fn has_grid(ws: WorkspaceState, id: Seq<char>) -> bool {
    exists|i: int| 0 <= i < ws.grids@.len() && #[trigger] ws.grids@[i].grid_node_id.id@ == id
}

/// The position of the grid with this id (meaningful when [`has_grid`]).
pub open spec fn grid_position(ws: WorkspaceState, id: Seq<char>) -> int {
    choose|i: int| 0 <= i < ws.grids@.len() && #[trigger] ws.grids@[i].grid_node_id.id@ == id
}

/// Looks a grid up by id: its position in `grids`, or `None`.
pub fn find_grid(ws: &WorkspaceState, id: &NodeId) -> (r: Option<usize>)
    requires
        workspace_wf(*ws),
    ensures
        r is None <==> !has_grid(*ws, id.id@),
        r matches Some(i) ==> i == grid_position(*ws, id.id@) && i < ws.grids@.len(),
{
    let mut i: usize = 0;
    while i < ws.grids.len()
        invariant
            workspace_wf(*ws),
            i <= ws.grids@.len(),
            forall|k: int| 0 <= k < i ==> #[trigger] ws.grids@[k].grid_node_id.id@ != id.id@,
        decreases ws.grids@.len() - i,
    {
        if str_equal(ws.grids[i].grid_node_id.id.as_str(), id.id.as_str()) {
            proof {
                assert(has_grid(*ws, id.id@));
                let p = grid_position(*ws, id.id@);
                lemma_grid_ids_are_unique(*ws, i as int, p);
            }
            return Some(i);
        }
        i += 1;
    }
    None
}

/// Whether the grid has a windowed cell at `(row, col)`.
pub open spec fn has_cell(grid: GridProjection, row: u32, col: u32) -> bool {
    exists|k: int|
        0 <= k < grid.cells@.len() && #[trigger] grid.cells@[k].row == row && grid.cells@[k].col
            == col
}

/// The position of the first windowed cell at `(row, col)`.
pub open spec fn first_cell_position(grid: GridProjection, row: u32, col: u32) -> int {
    choose|k: int|
        0 <= k < grid.cells@.len() && #[trigger] grid.cells@[k].row == row && grid.cells@[k].col
            == col && forall|m: int|
            0 <= m < k ==> !(#[trigger] grid.cells@[m].row == row && grid.cells@[m].col == col)
}

/// Looks a windowed cell up by address: the position of the first cell at
/// `(row, col)`, or `None`.
pub fn find_cell(grid: &GridProjection, row: u32, col: u32) -> (r: Option<usize>)
    ensures
        r is None <==> !has_cell(*grid, row, col),
        r matches Some(k) ==> k == first_cell_position(*grid, row, col) && k < grid.cells@.len(),
{
    let mut k: usize = 0;
    while k < grid.cells.len()
        invariant
            k <= grid.cells@.len(),
            forall|m: int|
                0 <= m < k ==> !(#[trigger] grid.cells@[m].row == row && grid.cells@[m].col == col),
        decreases grid.cells@.len() - k,
    {
        if grid.cells[k].row == row && grid.cells[k].col == col {
            proof {
                let p = first_cell_position(*grid, row, col);
                assert(grid.cells@[k as int].row == row && grid.cells@[k as int].col == col);
                if p < k {
                    assert(!(grid.cells@[p].row == row && grid.cells@[p].col == col));
                } else if p > k {
                    assert(!(grid.cells@[k as int].row == row && grid.cells@[k as int].col == col));
                }
            }
            return Some(k);
        }
        k += 1;
    }
    None
}

} // verus!
