//! The Sheet stage's select/edit session: the active cell, the edit mode
//! bit, the one overlay editor's buffer and rejections, and the transient
//! degrade note, driven by the keydown and pointer decisions and by the
//! editor's commit and revert.
use vstd::prelude::*;

use crate::cell_edit::{
    current_authored_seed, enter_cell_intent, interpret_receipt, interprets, workspace_seed,
    CellOutcome,
};
use crate::intent::{copy_diagnostics, Dispatcher, GridEntryDiagnosticProjection, WorkspaceIntent};
use crate::projection::NodeId;
use crate::sheet_keys::SelectKeyDecision;
use crate::sheet_selection::{next_active, next_active_cell, GridExtent, NavAction};
use crate::sheet_stage::{active_grid, active_grid_position, PointerSelectDecision};
use crate::sheet_viewport::EDGE_JUMP_DEGRADE_REASON;
use crate::text::push_char;
use crate::workspace::{workspace_wf, WorkspaceState};

verus! {

/// Where an accepted commit moves the active cell: Enter moves down, Tab
/// moves right.
#[derive(Debug, Clone, Copy, PartialEq, Eq, Structural)]
pub enum CommitAdvance {
    Down,
    Right,
}

/// The move an accepted commit makes.
pub open spec fn advance_move(a: CommitAdvance) -> NavAction {
    match a {
        CommitAdvance::Down => NavAction::CommitDown,
        CommitAdvance::Right => NavAction::CommitRight,
    }
}

/// The extent a commit advances in: the active grid's, floored at one
/// cell, or a single cell when the workspace has no active grid.
pub open spec fn commit_extent(ws: WorkspaceState) -> GridExtent {
    match active_grid_position(ws) {
        Some(i) => GridExtent {
            rows: if ws.grids@[i].max_rows == 0 { 1 } else { ws.grids@[i].max_rows },
            cols: if ws.grids@[i].max_cols == 0 { 1 } else { ws.grids@[i].max_cols },
        },
        None => GridExtent { rows: 1, cols: 1 },
    }
}

/// The select/edit state of the Sheet stage.
#[derive(Debug, Clone, PartialEq, Eq)]
pub struct SheetSession {
    /// The single selected cell, drawn as the highlight.
    pub active_cell: Option<(u32, u32)>,
    /// Whether the overlay editor is open at the active cell.
    pub editing: bool,
    /// The transient degrade note, if any.
    pub note: Option<&'static str>,
    /// The editor's live buffer.
    pub edit_text: String,
    /// The typed rejections of the last commit, underlined in the editor.
    pub rejections: Vec<GridEntryDiagnosticProjection>,
    /// Bumped whenever the editor must remount (entering EDIT, a rejection).
    pub revision: usize,
}

/// `after` is `before` with the editor opened at `cell` over `seed`: the
/// buffer seeded, rejections cleared, the editor remounted, the cell active,
/// EDIT on and the note cleared.
pub open spec fn opened(before: SheetSession, after: SheetSession, cell: (u32, u32), seed: Seq<char>) -> bool {
    &&& after.edit_text@ == seed
    &&& after.rejections@.len() == 0
    &&& after.revision == before.revision + 1
    &&& after.active_cell == Some(cell)
    &&& after.editing
    &&& after.note is None
}

impl SheetSession {
    /// Nothing selected, no editor, no note.
    pub fn new() -> (s: Self)
        ensures
            s.active_cell is None,
            !s.editing,
            s.note is None,
            s.edit_text@.len() == 0,
            s.rejections@.len() == 0,
            s.revision == 0,
    {
        SheetSession {
            active_cell: None,
            editing: false,
            note: None,
            edit_text: String::new(),
            rejections: Vec::new(),
            revision: 0,
        }
    }

    /// Enter EDIT at `(row, col)` with `seed` in the buffer.
    pub fn open_editor(&mut self, row: u32, col: u32, seed: String)
        requires
            old(self).revision < usize::MAX,
        ensures
            opened(*old(self), *final(self), (row, col), seed@),
    {
        self.edit_text = seed;
        self.rejections = Vec::new();
        self.revision = self.revision + 1;
        self.active_cell = Some((row, col));
        self.editing = true;
        self.note = None;
    }

    /// Act on a select-mode keydown decision. `grid` is the active grid,
    /// whose authored text seeds an F2 edit. Returns whether the key was
    /// consumed (everything but `Bubble`).
    pub fn apply_key(&mut self, decision: SelectKeyDecision, ws: &WorkspaceState, grid: &NodeId) -> (consumed: bool)
        requires
            workspace_wf(*ws),
            old(self).revision < usize::MAX,
        ensures
            consumed == !(decision is Bubble),
            match decision {
                SelectKeyDecision::Degrade { reason } => *final(self) == SheetSession {
                    note: Some(reason),
                    ..*old(self)
                },
                SelectKeyDecision::MoveTo { cell } => *final(self) == SheetSession {
                    active_cell: Some(cell),
                    note: None,
                    ..*old(self)
                },
                SelectKeyDecision::BeginEdit { cell } => opened(
                    *old(self),
                    *final(self),
                    cell,
                    workspace_seed(*ws, grid.id@, cell.0, cell.1),
                ),
                SelectKeyDecision::ClearNote => *final(self) == SheetSession {
                    note: None,
                    ..*old(self)
                },
                SelectKeyDecision::EdgeJump { cell } => *final(self) == SheetSession {
                    active_cell: Some(cell),
                    note: Some(EDGE_JUMP_DEGRADE_REASON),
                    ..*old(self)
                },
                SelectKeyDecision::TypeToReplace { cell, ch } => opened(
                    *old(self),
                    *final(self),
                    cell,
                    seq![ch],
                ),
                SelectKeyDecision::Bubble => *final(self) == *old(self),
            },
    {
        match decision {
            SelectKeyDecision::Degrade { reason } => {
                self.note = Some(reason);
            },
            SelectKeyDecision::MoveTo { cell } => {
                self.note = None;
                self.active_cell = Some(cell);
            },
            SelectKeyDecision::BeginEdit { cell } => {
                let seed = current_authored_seed(ws, grid, cell.0, cell.1);
                self.open_editor(cell.0, cell.1, seed);
            },
            SelectKeyDecision::ClearNote => {
                self.note = None;
            },
            SelectKeyDecision::EdgeJump { cell } => {
                self.active_cell = Some(cell);
                self.note = Some(EDGE_JUMP_DEGRADE_REASON);
            },
            SelectKeyDecision::TypeToReplace { cell, ch } => {
                let mut seed = String::new();
                push_char(&mut seed, ch);
                proof {
                    assert(seed@ =~= seq![ch]);
                }
                self.open_editor(cell.0, cell.1, seed);
            },
            SelectKeyDecision::Bubble => {
                return false;
            },
        }
        true
    }

    /// Act on a pointer press: a degrade shows its reason; a cell selection
    /// moves the highlight and closes any open editor without a commit.
    pub fn apply_pointer(&mut self, decision: PointerSelectDecision)
        ensures
            match decision {
                PointerSelectDecision::Degrade { reason } => *final(self) == SheetSession {
                    note: Some(reason),
                    ..*old(self)
                },
                PointerSelectDecision::Select { row, col } => *final(self) == SheetSession {
                    active_cell: Some((row, col)),
                    editing: false,
                    note: None,
                    ..*old(self)
                },
                PointerSelectDecision::Ignore => *final(self) == *old(self),
            },
    {
        match decision {
            PointerSelectDecision::Degrade { reason } => {
                self.note = Some(reason);
            },
            PointerSelectDecision::Select { row, col } => {
                self.active_cell = Some((row, col));
                self.editing = false;
                self.note = None;
            },
            PointerSelectDecision::Ignore => {},
        }
    }

    /// A double-click (or double tap) on `target`: open the editor there,
    /// seeded with the cell's authored text; no target changes nothing.
    pub fn double_click(&mut self, target: Option<(u32, u32)>, ws: &WorkspaceState, grid: &NodeId)
        requires
            workspace_wf(*ws),
            old(self).revision < usize::MAX,
        ensures
            match target {
                Some(cell) => opened(
                    *old(self),
                    *final(self),
                    cell,
                    workspace_seed(*ws, grid.id@, cell.0, cell.1),
                ),
                None => *final(self) == *old(self),
            },
    {
        if let Some(cell) = target {
            let seed = current_authored_seed(ws, grid, cell.0, cell.1);
            self.open_editor(cell.0, cell.1, seed);
        }
    }

    /// The editor's text changed.
    pub fn text_edited(&mut self, text: String)
        ensures
            *final(self) == (SheetSession { edit_text: text, ..*old(self) }),
    {
        self.edit_text = text;
    }

    /// Commit the editor's buffer at the active cell of `grid`: the entry
    /// intent carries exactly that cell. A rejection keeps EDIT open with the
    /// typed diagnostics and remounts the editor; any other outcome closes
    /// the editor and moves the active cell by `advance`, clamped to the
    /// active grid's extent.
    pub fn commit<D: Dispatcher>(
        &mut self,
        dispatch: &mut D,
        ws: &WorkspaceState,
        grid: &NodeId,
        advance: CommitAdvance,
    )
        requires
            workspace_wf(*ws),
            old(self).active_cell is Some,
            old(self).revision < usize::MAX,
        ensures
            final(dispatch).dispatched() == old(dispatch).dispatched().push(
                WorkspaceIntent::EnterGridCell {
                    grid: *grid,
                    row: old(self).active_cell.unwrap().0,
                    col: old(self).active_cell.unwrap().1,
                    text: old(self).edit_text,
                },
            ),
            final(dispatch).answered().len() == old(dispatch).answered().len() + 1,
            exists|o: CellOutcome|
                #[trigger] interprets(final(dispatch).answered().last(), o) && match o {
                    CellOutcome::Rejected(d) => {
                        &&& final(self).rejections@ == d@
                        &&& final(self).revision == old(self).revision + 1
                        &&& final(self).editing == old(self).editing
                        &&& final(self).active_cell == old(self).active_cell
                    },
                    _ => {
                        &&& final(self).rejections@.len() == 0
                        &&& final(self).revision == old(self).revision
                        &&& !final(self).editing
                        &&& final(self).active_cell == Some(
                            next_active_cell(
                                old(self).active_cell->0,
                                advance_move(advance),
                                commit_extent(*ws),
                            ),
                        )
                    },
                },
            final(self).edit_text == old(self).edit_text,
            final(self).note == old(self).note,
    {
        let (row, col) = match self.active_cell {
            Some(c) => c,
            None => (1, 1),
        };
        let text = self.edit_text.clone();
        let receipt = dispatch.dispatch(enter_cell_intent(grid.copy(), row, col, text));
        let resolved = interpret_receipt(&receipt);
        match &resolved {
            CellOutcome::Rejected(diagnostics) => {
                self.rejections = copy_diagnostics(diagnostics);
                self.revision = self.revision + 1;
            },
            _ => {
                self.rejections = Vec::new();
                self.editing = false;
                let extent = match active_grid(ws) {
                    Some(g) => GridExtent::new(g.max_rows, g.max_cols),
                    None => GridExtent::new(1, 1),
                };
                let nav = match advance {
                    CommitAdvance::Down => NavAction::CommitDown,
                    CommitAdvance::Right => NavAction::CommitRight,
                };
                assert(extent == commit_extent(*ws));
                assert(nav == advance_move(advance));
                self.active_cell = Some(next_active((row, col), nav, extent));
            },
        }
        assert(dispatch.answered().last() == receipt);
        assert(interprets(dispatch.answered().last(), resolved));
    }

    /// Revert (Esc in the editor): drop the rejections and close the editor,
    /// dispatching nothing.
    pub fn revert(&mut self)
        ensures
            final(self).rejections@.len() == 0,
            !final(self).editing,
            final(self).active_cell == old(self).active_cell,
            final(self).edit_text == old(self).edit_text,
            final(self).note == old(self).note,
            final(self).revision == old(self).revision,
    {
        self.rejections = Vec::new();
        self.editing = false;
    }
}

} // verus!
