//! The Sheet stage's reads of the workspace: the active grid (the first
//! sheet's grid), and the overlay decision for a selected cell (an editor,
//! or an honest read-only note).
use vstd::prelude::*;

use crate::cell_edit::{editability_note, editability_reason};
use crate::projection::NodeId;
use crate::sheet_selection::{RANGE_SELECT_DEFERRED_REASON, ROW_COL_SELECT_DEFERRED_REASON};
use crate::workspace::{
    find_cell, find_grid, first_cell_position, grid_position, has_cell, has_grid, workspace_wf,
    GridEditabilityProjection, GridProjection, WorkspaceState,
};

verus! {

/// The position of the active grid: the grid backing the first sheet, when
/// the workspace has a sheet and that grid.
pub open spec fn active_grid_position(ws: WorkspaceState) -> Option<int> {
    if ws.sheets@.len() > 0 && has_grid(ws, ws.sheets@[0].grid_node_id.id@) {
        Some(grid_position(ws, ws.sheets@[0].grid_node_id.id@))
    } else {
        None
    }
}

/// The active grid: the first sheet's backing grid, or `None` for a
/// workspace with no sheet (or whose first sheet's grid is absent).
pub fn active_grid(ws: &WorkspaceState) -> (g: Option<&GridProjection>)
    requires
        workspace_wf(*ws),
    ensures
        active_grid_position(*ws) is None <==> g is None,
        g matches Some(grid) ==> *grid == ws.grids@[active_grid_position(*ws)->0],
{
    if ws.sheets.len() == 0 {
        return None;
    }
    match find_grid(ws, &ws.sheets[0].grid_node_id) {
        Some(i) => Some(&ws.grids[i]),
        None => None,
    }
}

/// The overlay decision for a selected cell.
#[derive(Debug, Clone, PartialEq, Eq)]
pub enum CellEditTarget {
    /// The cell admits authoring: an editor committing against this grid.
    Editable { grid: NodeId },
    /// The cell follows some other structure: the reason to show.
    ReadOnly { reason: &'static str },
}

/// The editability of `(row, col)` on grid `g`: that of the first windowed
/// cell there with an authored record, or nothing for a blank cell.
pub open spec fn cell_editability(g: GridProjection, row: u32, col: u32) -> Option<
    GridEditabilityProjection,
> {
    if has_cell(g, row, col) {
        match g.cells@[first_cell_position(g, row, col)].authored {
            Some(a) => Some(a.editability),
            None => None,
        }
    } else {
        None
    }
}

/// The overlay decision for the selected `(row, col)` on the active grid:
/// none without a grid; a read-only note for a cell whose authored record is
/// not editable; otherwise an editor (a blank cell is authored from empty).
pub fn resolve_cell_edit_target(ws: &WorkspaceState, row: u32, col: u32) -> (t: Option<CellEditTarget>)
    requires
        workspace_wf(*ws),
    ensures
        active_grid_position(*ws) is None ==> t is None,
        active_grid_position(*ws) matches Some(p) ==> {
            let g = ws.grids@[p];
            match cell_editability(g, row, col) {
                Some(e) => match editability_reason(e) {
                    Some(reason) => t matches Some(CellEditTarget::ReadOnly { reason: r })
                        && r@ == reason,
                    None => t == Some(CellEditTarget::Editable { grid: g.grid_node_id }),
                },
                None => t == Some(CellEditTarget::Editable { grid: g.grid_node_id }),
            }
        },
{
    let grid = match active_grid(ws) {
        Some(g) => g,
        None => return None,
    };
    let grid_id = grid.grid_node_id.copy();
    let editability = match find_cell(grid, row, col) {
        Some(k) => match &grid.cells[k].authored {
            Some(a) => Some(a.editability),
            None => None,
        },
        None => None,
    };
    let note = match &editability {
        Some(e) => editability_note(e),
        None => None,
    };
    match note {
        Some(reason) => Some(CellEditTarget::ReadOnly { reason }),
        None => Some(CellEditTarget::Editable { grid: grid_id }),
    }
}

/// Where a viewport point lands on the sheet: a data cell, a header strip,
/// the corner box, or outside the grid. Rows and columns are 1-based.
#[derive(Debug, Clone, Copy, PartialEq, Eq, Structural)]
pub enum HitTarget {
    /// A data cell at `(row, col)`, inside the grid extent.
    Cell { row: u32, col: u32 },
    /// The column-header strip above data column `col`.
    ColumnHeader { col: u32 },
    /// The row-header strip beside data row `row`.
    RowHeader { row: u32 },
    /// The corner box where the two header strips meet.
    Corner,
    /// Beyond the extent, or a negative or non-finite coordinate.
    Outside,
}

/// What a pointer press on the sheet does.
#[derive(Debug, Clone, Copy, PartialEq, Eq)]
pub enum PointerSelectDecision {
    /// Show this degrade reason; the selection and the editor stay as they
    /// are.
    Degrade { reason: &'static str },
    /// Make `(row, col)` the active cell, close the editor without a
    /// commit, and clear the note.
    Select { row: u32, col: u32 },
    /// Nothing: the press fell outside the grid.
    Ignore,
}

/// A pointer press: Shift asks for a range and a header or the corner for
/// a whole row, column or sheet, all deferred and answered by their reason;
/// a cell selects (never edits); outside the grid nothing happens.
pub fn pointer_select_decision(shift: bool, hit: HitTarget) -> (d: PointerSelectDecision)
    ensures
        shift ==> (d matches PointerSelectDecision::Degrade { reason } && reason@
            == RANGE_SELECT_DEFERRED_REASON@),
        !shift ==> match hit {
            HitTarget::Cell { row, col } => d == (PointerSelectDecision::Select { row, col }),
            HitTarget::Outside => d is Ignore,
            _ => d matches PointerSelectDecision::Degrade { reason } && reason@
                == ROW_COL_SELECT_DEFERRED_REASON@,
        },
{
    if shift {
        return PointerSelectDecision::Degrade { reason: RANGE_SELECT_DEFERRED_REASON };
    }
    match hit {
        HitTarget::Cell { row, col } => PointerSelectDecision::Select { row, col },
        HitTarget::Outside => PointerSelectDecision::Ignore,
        _ => PointerSelectDecision::Degrade { reason: ROW_COL_SELECT_DEFERRED_REASON },
    }
}

/// The cell a double-click (or a double tap) opens the editor at: a data
/// cell under an unshifted press; a shifted press, a header, the corner or
/// outside the grid opens nothing.
pub fn double_click_target(shift: bool, hit: HitTarget) -> (r: Option<(u32, u32)>)
    ensures
        r == (if !shift && hit is Cell {
            Some((hit->Cell_row, hit->Cell_col))
        } else {
            None
        }),
{
    if shift {
        return None;
    }
    match hit {
        HitTarget::Cell { row, col } => Some((row, col)),
        _ => None,
    }
}

} // verus!
