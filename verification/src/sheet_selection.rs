//! The Sheet stage's select/navigate grammar: the edge-clamped movement
//! function over a grid extent, and the declarative key table that maps a
//! chord to a Sheet action. Range selection, whole-row/column selection,
//! fill and the clipboard are reserved G3 degrades.
use vstd::prelude::*;

pub use crate::key_chord::{chord_view, ChordView, KeyChord};
use crate::key_chord::{
    chords_are_unique, first_action, ids_are_unique, lemma_unique_chords_resolve_to_their_rows,
    same_chord, table_chord,
};
use crate::text::{char_is_control, contains_text, is_control_char};

verus! {

/// The 1-based extent of a grid: a legal cell is any `(r, c)` with
/// `1 <= r <= rows` and `1 <= c <= cols`.
#[derive(Debug, Clone, Copy, PartialEq, Eq, Structural)]
pub struct GridExtent {
    pub rows: u32,
    pub cols: u32,
}

/// An extent with at least one legal cell.
pub open spec fn extent_is_nonempty(e: GridExtent) -> bool {
    e.rows >= 1 && e.cols >= 1
}

/// `cell` lies inside `e`.
pub open spec fn cell_in_extent(cell: (u32, u32), e: GridExtent) -> bool {
    1 <= cell.0 <= e.rows && 1 <= cell.1 <= e.cols
}

/// `v` clamped into `[lo, hi]`.
pub open spec fn clamp_int(v: int, lo: int, hi: int) -> int {
    if v < lo {
        lo
    } else if v > hi {
        hi
    } else {
        v
    }
}

/// A dimension floored at 1: a degenerate `0` extent still has its first
/// row or column.
pub open spec fn floor_one(v: u32) -> int {
    if v == 0 {
        1
    } else {
        v as int
    }
}

/// `(row, col)` clamped into the extent, each axis independently (a zero
/// dimension counts as one, so every extent has the cell `(1, 1)`).
pub open spec fn clamp_cell(e: GridExtent, row: u32, col: u32) -> (u32, u32) {
    (clamp_int(row as int, 1, floor_one(e.rows)) as u32, clamp_int(col as int, 1, floor_one(e.cols)) as u32)
}

fn clamp_u32(v: u32, lo: u32, hi: u32) -> (c: u32)
    requires
        lo <= hi,
    ensures
        c == clamp_int(v as int, lo as int, hi as int),
{
    if v < lo {
        lo
    } else if v > hi {
        hi
    } else {
        v
    }
}

impl GridExtent {
    /// Build an extent, flooring each dimension at 1 so there is always at
    /// least one legal cell.
    pub fn new(rows: u32, cols: u32) -> (e: Self)
        ensures
            e.rows == (if rows == 0 { 1 } else { rows }),
            e.cols == (if cols == 0 { 1 } else { cols }),
            extent_is_nonempty(e),
    {
        GridExtent { rows: if rows == 0 { 1 } else { rows }, cols: if cols == 0 { 1 } else { cols } }
    }

    /// Clamp a candidate `(row, col)` into `[1, rows] x [1, cols]`: an
    /// off-edge cell parks on the nearest edge cell. A zero dimension counts
    /// as one, so the clamp is total.
    pub fn clamp(self, row: u32, col: u32) -> (c: (u32, u32))
        ensures
            c == clamp_cell(self, row, col),
    {
        let rows = if self.rows == 0 { 1 } else { self.rows };
        let cols = if self.cols == 0 { 1 } else { self.cols };
        (clamp_u32(row, 1, rows), clamp_u32(col, 1, cols))
    }

    /// [`GridExtent::clamp`] on a `(row, col)` pair.
    pub fn clamp_pair(self, cell: (u32, u32)) -> (c: (u32, u32))
        ensures
            c == clamp_cell(self, cell.0, cell.1),
    {
        self.clamp(cell.0, cell.1)
    }
}

/// A single-cell move over the grid.
#[derive(Debug, Clone, Copy, PartialEq, Eq, Structural, Hash)]
pub enum NavAction {
    /// One row up (Arrow Up).
    Up,
    /// One row down (Arrow Down).
    Down,
    /// One column left (Arrow Left).
    Left,
    /// One column right (Arrow Right).
    Right,
    /// One column right (Tab).
    NextColumn,
    /// One column left (Shift+Tab).
    PrevColumn,
    /// The first column of the current row (Home).
    RowStart,
    /// The top-left cell `(1, 1)` (Ctrl+Home).
    GridStart,
    /// One row down, keeping the column: the move an accepted Enter-commit makes.
    CommitDown,
    /// One column right, keeping the row: the move an accepted Tab-commit makes.
    CommitRight,
}

/// One step back along an axis, never below 1.
pub open spec fn step_back(v: u32) -> int {
    if v <= 1 {
        1
    } else {
        v - 1
    }
}

/// One step forward along an axis, saturating at `u32::MAX`.
pub open spec fn step_forward(v: u32) -> int {
    if v == u32::MAX {
        v as int
    } else {
        v + 1
    }
}

/// The cell a move aims at before clamping.
pub open spec fn nav_target(current: (u32, u32), action: NavAction) -> (int, int) {
    let (row, col) = current;
    match action {
        NavAction::Up => (step_back(row), col as int),
        NavAction::Down => (step_forward(row), col as int),
        NavAction::Left => (row as int, step_back(col)),
        NavAction::Right => (row as int, step_forward(col)),
        NavAction::NextColumn => (row as int, step_forward(col)),
        NavAction::PrevColumn => (row as int, step_back(col)),
        NavAction::RowStart => (row as int, 1),
        NavAction::GridStart => (1, 1),
        NavAction::CommitDown => (step_forward(row), col as int),
        NavAction::CommitRight => (row as int, step_forward(col)),
    }
}

/// The next active cell: the move's target, clamped into the extent (a
/// zero dimension counting as one).
pub open spec fn next_active_cell(current: (u32, u32), action: NavAction, extent: GridExtent) -> (u32, u32) {
    let t = nav_target(current, action);
    (clamp_int(t.0, 1, floor_one(extent.rows)) as u32, clamp_int(t.1, 1, floor_one(extent.cols)) as u32)
}

/// The next active cell after applying `action` to `current` over `extent`:
/// per-axis clamping with no wrap. Total: defined for every extent.
pub fn next_active(current: (u32, u32), action: NavAction, extent: GridExtent) -> (next: (u32, u32))
    ensures
        next == next_active_cell(current, action, extent),
{
    let (row, col) = current;
    let (next_row, next_col) = match action {
        NavAction::Up => (if row <= 1 { 1 } else { row - 1 }, col),
        NavAction::Down => (row.saturating_add(1), col),
        NavAction::Left => (row, if col <= 1 { 1 } else { col - 1 }),
        NavAction::Right => (row, col.saturating_add(1)),
        NavAction::NextColumn => (row, col.saturating_add(1)),
        NavAction::PrevColumn => (row, if col <= 1 { 1 } else { col - 1 }),
        NavAction::RowStart => (row, 1),
        NavAction::GridStart => (1, 1),
        NavAction::CommitDown => (row.saturating_add(1), col),
        NavAction::CommitRight => (row, col.saturating_add(1)),
    };
    extent.clamp(next_row, next_col)
}

/// Law: whatever the start (even a stale cell outside the extent), the
/// active cell after any move lies inside the extent; over a degenerate
/// extent with a zero dimension it lies in that dimension's first line.
pub proof fn lemma_next_active_stays_in_extent(current: (u32, u32), action: NavAction, extent: GridExtent)
    ensures
        1 <= next_active_cell(current, action, extent).0 <= floor_one(extent.rows),
        1 <= next_active_cell(current, action, extent).1 <= floor_one(extent.cols),
        extent_is_nonempty(extent) ==> cell_in_extent(next_active_cell(current, action, extent), extent),
{
}

/// Law: from a cell inside the extent each move steps exactly one cell or
/// jumps to its anchor, and a move off an edge parks on that edge (no wrap).
pub proof fn lemma_moves_from_inside_the_extent(current: (u32, u32), extent: GridExtent)
    requires
        cell_in_extent(current, extent),
    ensures
        ({
            let (row, col) = current;
            let down = if row < extent.rows { (row + 1) as u32 } else { row };
            let right = if col < extent.cols { (col + 1) as u32 } else { col };
            let left = if col > 1 { (col - 1) as u32 } else { col };
            &&& next_active_cell(current, NavAction::Up, extent) == (if row > 1 { (row - 1) as u32 } else { row }, col)
            &&& next_active_cell(current, NavAction::Down, extent) == (down, col)
            &&& next_active_cell(current, NavAction::CommitDown, extent) == (down, col)
            &&& next_active_cell(current, NavAction::Left, extent) == (row, left)
            &&& next_active_cell(current, NavAction::PrevColumn, extent) == (row, left)
            &&& next_active_cell(current, NavAction::Right, extent) == (row, right)
            &&& next_active_cell(current, NavAction::NextColumn, extent) == (row, right)
            &&& next_active_cell(current, NavAction::CommitRight, extent) == (row, right)
            &&& next_active_cell(current, NavAction::RowStart, extent) == (row, 1u32)
            &&& next_active_cell(current, NavAction::GridStart, extent) == (1u32, 1u32)
        }),
{
}

/// Law: clamping leaves an in-extent cell unchanged, lands every cell
/// inside the extent, and is idempotent.
pub proof fn lemma_clamp_is_a_projection(e: GridExtent, row: u32, col: u32)
    requires
        extent_is_nonempty(e),
    ensures
        cell_in_extent(clamp_cell(e, row, col), e),
        cell_in_extent((row, col), e) ==> clamp_cell(e, row, col) == (row, col),
        clamp_cell(e, clamp_cell(e, row, col).0, clamp_cell(e, row, col).1) == clamp_cell(e, row, col),
{
}

/// The Sheet stage's closed set of keyboard actions.
#[derive(Debug, Clone, Copy, PartialEq, Eq, Structural, Hash)]
pub enum SheetAction {
    /// Move the active cell one step.
    Move(NavAction),
    /// Open the overlay editor at the active cell, seeded with its existing
    /// authored text (F2).
    BeginEdit,
    /// Escape in select mode: clear the transient degrade note.
    Cancel,
    /// Extend the selection into a range (Shift+Arrow): a G3 degrade.
    ExtendSelection,
}

/// Whether an action performs its effect or is an honest disabled-with-
/// reason G3 degrade that must surface its reason and mutate nothing.
#[derive(Debug, Clone, Copy, PartialEq, Eq)]
pub enum ActionAvailability {
    /// The action is wired and performs its effect.
    Live,
    /// The action waits on G3; the reason always cites `G3`.
    DisabledWithReason(&'static str),
}

/// Why a range selection (Shift+Arrow / Shift+click) is unavailable.
pub const RANGE_SELECT_DEFERRED_REASON: &'static str =
    "Range select needs the G3 interaction pack — single cell only for now.";

/// Why whole-row / whole-column (and select-all) selection is unavailable.
pub const ROW_COL_SELECT_DEFERRED_REASON: &'static str =
    "Whole row / column select arrives with the G3 interaction pack.";

/// Why the fill grip is unavailable.
pub const FILL_DEFERRED_REASON: &'static str = "Fill grips arrive with the G3 interaction pack.";

/// Why the grid clipboard is unavailable.
pub const CLIPBOARD_DEFERRED_REASON: &'static str =
    "Grid copy / cut / paste arrives with the G3 interaction pack.";

/// One row of the keymap: a stable id, its chord, its action, and a label.
#[derive(Debug, Clone, PartialEq, Eq)]
pub struct KeyBinding {
    pub id: &'static str,
    pub chord: KeyChord,
    pub action: SheetAction,
    pub label: &'static str,
}

/// A binding as plain values: `((id, chord), (action, label))`.
pub type BindingView = ((Seq<char>, ChordView), (SheetAction, Seq<char>));

/// The plain-value view of a binding.
pub open spec fn binding_view(b: KeyBinding) -> BindingView {
    ((b.id@, chord_view(b.chord)), (b.action, b.label@))
}

/// The Sheet grammar as a table of plain values, in lookup order.
pub open spec fn sheet_keymap_table() -> Seq<BindingView> {
    seq![
        (("sheet.move-up"@, ("ArrowUp"@, false, false, false)), (SheetAction::Move(NavAction::Up), "Move up"@)),
        (("sheet.move-down"@, ("ArrowDown"@, false, false, false)), (SheetAction::Move(NavAction::Down), "Move down"@)),
        (("sheet.move-left"@, ("ArrowLeft"@, false, false, false)), (SheetAction::Move(NavAction::Left), "Move left"@)),
        (("sheet.move-right"@, ("ArrowRight"@, false, false, false)), (SheetAction::Move(NavAction::Right), "Move right"@)),
        (("sheet.move-next-column"@, ("Tab"@, false, false, false)), (SheetAction::Move(NavAction::NextColumn), "Next column"@)),
        (("sheet.move-prev-column"@, ("Tab"@, true, false, false)), (SheetAction::Move(NavAction::PrevColumn), "Previous column"@)),
        (("sheet.move-row-start"@, ("Home"@, false, false, false)), (SheetAction::Move(NavAction::RowStart), "Row start"@)),
        (("sheet.move-grid-start"@, ("Home"@, false, true, false)), (SheetAction::Move(NavAction::GridStart), "Grid start"@)),
        (("sheet.edit-in-place"@, ("F2"@, false, false, false)), (SheetAction::BeginEdit, "Edit in place"@)),
        (("sheet.enter-down"@, ("Enter"@, false, false, false)), (SheetAction::Move(NavAction::Down), "Enter (move down)"@)),
        (("sheet.cancel"@, ("Escape"@, false, false, false)), (SheetAction::Cancel, "Cancel"@)),
        (("sheet.extend-up"@, ("ArrowUp"@, true, false, false)), (SheetAction::ExtendSelection, "Extend selection up"@)),
        (("sheet.extend-down"@, ("ArrowDown"@, true, false, false)), (SheetAction::ExtendSelection, "Extend selection down"@)),
        (("sheet.extend-left"@, ("ArrowLeft"@, true, false, false)), (SheetAction::ExtendSelection, "Extend selection left"@)),
        (("sheet.extend-right"@, ("ArrowRight"@, true, false, false)), (SheetAction::ExtendSelection, "Extend selection right"@)),
    ]
}

fn binding(
    id: &'static str,
    key: &str,
    shift: bool,
    ctrl: bool,
    alt: bool,
    action: SheetAction,
    label: &'static str,
) -> (b: KeyBinding)
    ensures
        binding_view(b) == ((id@, (key@, shift, ctrl, alt)), (action, label@)),
{
    KeyBinding { id, chord: table_chord(key, shift, ctrl, alt), action, label }
}

/// The Sheet stage's whole select/navigate grammar, as one declarative
/// table. F2 opens the editor; Enter moves down in select mode; the four
/// Shift+Arrow chords are reserved G3 degrades.
pub fn sheet_keymap() -> (v: Vec<KeyBinding>)
    ensures
        v@.map_values(|b: KeyBinding| binding_view(b)) == sheet_keymap_table(),
{
    let v = vec![
        binding("sheet.move-up", "ArrowUp", false, false, false, SheetAction::Move(NavAction::Up), "Move up"),
        binding("sheet.move-down", "ArrowDown", false, false, false, SheetAction::Move(NavAction::Down), "Move down"),
        binding("sheet.move-left", "ArrowLeft", false, false, false, SheetAction::Move(NavAction::Left), "Move left"),
        binding("sheet.move-right", "ArrowRight", false, false, false, SheetAction::Move(NavAction::Right), "Move right"),
        binding("sheet.move-next-column", "Tab", false, false, false, SheetAction::Move(NavAction::NextColumn), "Next column"),
        binding("sheet.move-prev-column", "Tab", true, false, false, SheetAction::Move(NavAction::PrevColumn), "Previous column"),
        binding("sheet.move-row-start", "Home", false, false, false, SheetAction::Move(NavAction::RowStart), "Row start"),
        binding("sheet.move-grid-start", "Home", false, true, false, SheetAction::Move(NavAction::GridStart), "Grid start"),
        binding("sheet.edit-in-place", "F2", false, false, false, SheetAction::BeginEdit, "Edit in place"),
        binding("sheet.enter-down", "Enter", false, false, false, SheetAction::Move(NavAction::Down), "Enter (move down)"),
        binding("sheet.cancel", "Escape", false, false, false, SheetAction::Cancel, "Cancel"),
        binding("sheet.extend-up", "ArrowUp", true, false, false, SheetAction::ExtendSelection, "Extend selection up"),
        binding("sheet.extend-down", "ArrowDown", true, false, false, SheetAction::ExtendSelection, "Extend selection down"),
        binding("sheet.extend-left", "ArrowLeft", true, false, false, SheetAction::ExtendSelection, "Extend selection left"),
        binding("sheet.extend-right", "ArrowRight", true, false, false, SheetAction::ExtendSelection, "Extend selection right"),
    ];
    assert(v@.map_values(|b: KeyBinding| binding_view(b)) =~= sheet_keymap_table());
    v
}

/// Resolve a chord to its action against `keymap`: a first-match lookup,
/// `None` for an unbound chord.
pub fn resolve_action(keymap: &[KeyBinding], chord: &KeyChord) -> (a: Option<SheetAction>)
    ensures
        a == first_action(keymap@.map_values(|b: KeyBinding| binding_view(b)), chord_view(*chord)),
{
    let ghost table = keymap@.map_values(|b: KeyBinding| binding_view(b));
    let mut i: usize = 0;
    assert(table.skip(0) =~= table);
    while i < keymap.len()
        invariant
            0 <= i <= keymap@.len(),
            table == keymap@.map_values(|b: KeyBinding| binding_view(b)),
            first_action(table, chord_view(*chord)) == first_action(
                table.skip(i as int),
                chord_view(*chord),
            ),
        decreases keymap@.len() - i,
    {
        proof {
            assert(table.skip(i as int)[0] == binding_view(keymap@[i as int]));
            assert(table.skip(i as int).drop_first() =~= table.skip(i + 1));
        }
        if same_chord(&keymap[i].chord, chord) {
            return Some(keymap[i].action);
        }
        i = i + 1;
    }
    assert(table.skip(i as int).len() == 0);
    None
}

proof fn lemma_index_below_15(i: int)
    requires
        0 <= i < 15,
    ensures
        i == 0 || i == 1 || i == 2 || i == 3 || i == 4 || i == 5 || i == 6 || i == 7 || i == 8 || i == 9 || i == 10 || i == 11 || i == 12 || i == 13 || i == 14,
{
}

/// Law: the Sheet grammar is well formed — no chord and no id is bound
/// twice, F2 is the only begin-edit chord, and so every declared chord
/// resolves to its own row's action.
pub proof fn lemma_sheet_keymap_is_well_formed()
    ensures
        chords_are_unique(sheet_keymap_table()),
        ids_are_unique(sheet_keymap_table()),
        forall|i: int, j: int|
            0 <= i < sheet_keymap_table().len() && 0 <= j < sheet_keymap_table().len()
                && sheet_keymap_table()[i].1.0 == SheetAction::BeginEdit
                && sheet_keymap_table()[j].1.0 == SheetAction::BeginEdit ==> i == j,
        forall|i: int|
            0 <= i < sheet_keymap_table().len() ==> first_action(
                sheet_keymap_table(),
                #[trigger] sheet_keymap_table()[i].0.1,
            ) == Some(sheet_keymap_table()[i].1.0),
{
    reveal_strlit("sheet.move-up");
    reveal_strlit("sheet.move-down");
    reveal_strlit("sheet.move-left");
    reveal_strlit("sheet.move-right");
    reveal_strlit("sheet.move-next-column");
    reveal_strlit("sheet.move-prev-column");
    reveal_strlit("sheet.move-row-start");
    reveal_strlit("sheet.move-grid-start");
    reveal_strlit("sheet.edit-in-place");
    reveal_strlit("sheet.enter-down");
    reveal_strlit("sheet.cancel");
    reveal_strlit("sheet.extend-up");
    reveal_strlit("sheet.extend-down");
    reveal_strlit("sheet.extend-left");
    reveal_strlit("sheet.extend-right");
    reveal_strlit("ArrowDown");
    reveal_strlit("ArrowLeft");
    reveal_strlit("ArrowRight");
    reveal_strlit("ArrowUp");
    reveal_strlit("Enter");
    reveal_strlit("Escape");
    reveal_strlit("F2");
    reveal_strlit("Home");
    reveal_strlit("Tab");
    assert("sheet.move-up"@.len() != "sheet.move-down"@.len());
    assert("sheet.move-up"@.len() != "sheet.move-left"@.len());
    assert("sheet.move-up"@.len() != "sheet.move-right"@.len());
    assert("sheet.move-up"@.len() != "sheet.move-next-column"@.len());
    assert("sheet.move-up"@.len() != "sheet.move-prev-column"@.len());
    assert("sheet.move-up"@.len() != "sheet.move-row-start"@.len());
    assert("sheet.move-up"@.len() != "sheet.move-grid-start"@.len());
    assert("sheet.move-up"@.len() != "sheet.edit-in-place"@.len());
    assert("sheet.move-up"@.len() != "sheet.enter-down"@.len());
    assert("sheet.move-up"@.len() != "sheet.cancel"@.len());
    assert("sheet.move-up"@.len() != "sheet.extend-up"@.len());
    assert("sheet.move-up"@.len() != "sheet.extend-down"@.len());
    assert("sheet.move-up"@.len() != "sheet.extend-left"@.len());
    assert("sheet.move-up"@.len() != "sheet.extend-right"@.len());
    assert("sheet.move-down"@[11] != "sheet.move-left"@[11]);
    assert("sheet.move-down"@.len() != "sheet.move-right"@.len());
    assert("sheet.move-down"@.len() != "sheet.move-next-column"@.len());
    assert("sheet.move-down"@.len() != "sheet.move-prev-column"@.len());
    assert("sheet.move-down"@.len() != "sheet.move-row-start"@.len());
    assert("sheet.move-down"@.len() != "sheet.move-grid-start"@.len());
    assert("sheet.move-down"@.len() != "sheet.edit-in-place"@.len());
    assert("sheet.move-down"@.len() != "sheet.enter-down"@.len());
    assert("sheet.move-down"@.len() != "sheet.cancel"@.len());
    assert("sheet.move-down"@[6] != "sheet.extend-up"@[6]);
    assert("sheet.move-down"@.len() != "sheet.extend-down"@.len());
    assert("sheet.move-down"@.len() != "sheet.extend-left"@.len());
    assert("sheet.move-down"@.len() != "sheet.extend-right"@.len());
    assert("sheet.move-left"@.len() != "sheet.move-right"@.len());
    assert("sheet.move-left"@.len() != "sheet.move-next-column"@.len());
    assert("sheet.move-left"@.len() != "sheet.move-prev-column"@.len());
    assert("sheet.move-left"@.len() != "sheet.move-row-start"@.len());
    assert("sheet.move-left"@.len() != "sheet.move-grid-start"@.len());
    assert("sheet.move-left"@.len() != "sheet.edit-in-place"@.len());
    assert("sheet.move-left"@.len() != "sheet.enter-down"@.len());
    assert("sheet.move-left"@.len() != "sheet.cancel"@.len());
    assert("sheet.move-left"@[6] != "sheet.extend-up"@[6]);
    assert("sheet.move-left"@.len() != "sheet.extend-down"@.len());
    assert("sheet.move-left"@.len() != "sheet.extend-left"@.len());
    assert("sheet.move-left"@.len() != "sheet.extend-right"@.len());
    assert("sheet.move-right"@.len() != "sheet.move-next-column"@.len());
    assert("sheet.move-right"@.len() != "sheet.move-prev-column"@.len());
    assert("sheet.move-right"@.len() != "sheet.move-row-start"@.len());
    assert("sheet.move-right"@.len() != "sheet.move-grid-start"@.len());
    assert("sheet.move-right"@.len() != "sheet.edit-in-place"@.len());
    assert("sheet.move-right"@[6] != "sheet.enter-down"@[6]);
    assert("sheet.move-right"@.len() != "sheet.cancel"@.len());
    assert("sheet.move-right"@.len() != "sheet.extend-up"@.len());
    assert("sheet.move-right"@.len() != "sheet.extend-down"@.len());
    assert("sheet.move-right"@.len() != "sheet.extend-left"@.len());
    assert("sheet.move-right"@.len() != "sheet.extend-right"@.len());
    assert("sheet.move-next-column"@[11] != "sheet.move-prev-column"@[11]);
    assert("sheet.move-next-column"@.len() != "sheet.move-row-start"@.len());
    assert("sheet.move-next-column"@.len() != "sheet.move-grid-start"@.len());
    assert("sheet.move-next-column"@.len() != "sheet.edit-in-place"@.len());
    assert("sheet.move-next-column"@.len() != "sheet.enter-down"@.len());
    assert("sheet.move-next-column"@.len() != "sheet.cancel"@.len());
    assert("sheet.move-next-column"@.len() != "sheet.extend-up"@.len());
    assert("sheet.move-next-column"@.len() != "sheet.extend-down"@.len());
    assert("sheet.move-next-column"@.len() != "sheet.extend-left"@.len());
    assert("sheet.move-next-column"@.len() != "sheet.extend-right"@.len());
    assert("sheet.move-prev-column"@.len() != "sheet.move-row-start"@.len());
    assert("sheet.move-prev-column"@.len() != "sheet.move-grid-start"@.len());
    assert("sheet.move-prev-column"@.len() != "sheet.edit-in-place"@.len());
    assert("sheet.move-prev-column"@.len() != "sheet.enter-down"@.len());
    assert("sheet.move-prev-column"@.len() != "sheet.cancel"@.len());
    assert("sheet.move-prev-column"@.len() != "sheet.extend-up"@.len());
    assert("sheet.move-prev-column"@.len() != "sheet.extend-down"@.len());
    assert("sheet.move-prev-column"@.len() != "sheet.extend-left"@.len());
    assert("sheet.move-prev-column"@.len() != "sheet.extend-right"@.len());
    assert("sheet.move-row-start"@.len() != "sheet.move-grid-start"@.len());
    assert("sheet.move-row-start"@.len() != "sheet.edit-in-place"@.len());
    assert("sheet.move-row-start"@.len() != "sheet.enter-down"@.len());
    assert("sheet.move-row-start"@.len() != "sheet.cancel"@.len());
    assert("sheet.move-row-start"@.len() != "sheet.extend-up"@.len());
    assert("sheet.move-row-start"@.len() != "sheet.extend-down"@.len());
    assert("sheet.move-row-start"@.len() != "sheet.extend-left"@.len());
    assert("sheet.move-row-start"@.len() != "sheet.extend-right"@.len());
    assert("sheet.move-grid-start"@.len() != "sheet.edit-in-place"@.len());
    assert("sheet.move-grid-start"@.len() != "sheet.enter-down"@.len());
    assert("sheet.move-grid-start"@.len() != "sheet.cancel"@.len());
    assert("sheet.move-grid-start"@.len() != "sheet.extend-up"@.len());
    assert("sheet.move-grid-start"@.len() != "sheet.extend-down"@.len());
    assert("sheet.move-grid-start"@.len() != "sheet.extend-left"@.len());
    assert("sheet.move-grid-start"@.len() != "sheet.extend-right"@.len());
    assert("sheet.edit-in-place"@.len() != "sheet.enter-down"@.len());
    assert("sheet.edit-in-place"@.len() != "sheet.cancel"@.len());
    assert("sheet.edit-in-place"@.len() != "sheet.extend-up"@.len());
    assert("sheet.edit-in-place"@.len() != "sheet.extend-down"@.len());
    assert("sheet.edit-in-place"@.len() != "sheet.extend-left"@.len());
    assert("sheet.edit-in-place"@.len() != "sheet.extend-right"@.len());
    assert("sheet.enter-down"@.len() != "sheet.cancel"@.len());
    assert("sheet.enter-down"@.len() != "sheet.extend-up"@.len());
    assert("sheet.enter-down"@.len() != "sheet.extend-down"@.len());
    assert("sheet.enter-down"@.len() != "sheet.extend-left"@.len());
    assert("sheet.enter-down"@.len() != "sheet.extend-right"@.len());
    assert("sheet.cancel"@.len() != "sheet.extend-up"@.len());
    assert("sheet.cancel"@.len() != "sheet.extend-down"@.len());
    assert("sheet.cancel"@.len() != "sheet.extend-left"@.len());
    assert("sheet.cancel"@.len() != "sheet.extend-right"@.len());
    assert("sheet.extend-up"@.len() != "sheet.extend-down"@.len());
    assert("sheet.extend-up"@.len() != "sheet.extend-left"@.len());
    assert("sheet.extend-up"@.len() != "sheet.extend-right"@.len());
    assert("sheet.extend-down"@[13] != "sheet.extend-left"@[13]);
    assert("sheet.extend-down"@.len() != "sheet.extend-right"@.len());
    assert("sheet.extend-left"@.len() != "sheet.extend-right"@.len());
    assert("ArrowDown"@[5] != "ArrowLeft"@[5]);
    assert("ArrowDown"@.len() != "ArrowRight"@.len());
    assert("ArrowDown"@.len() != "ArrowUp"@.len());
    assert("ArrowDown"@.len() != "Enter"@.len());
    assert("ArrowDown"@.len() != "Escape"@.len());
    assert("ArrowDown"@.len() != "F2"@.len());
    assert("ArrowDown"@.len() != "Home"@.len());
    assert("ArrowDown"@.len() != "Tab"@.len());
    assert("ArrowLeft"@.len() != "ArrowRight"@.len());
    assert("ArrowLeft"@.len() != "ArrowUp"@.len());
    assert("ArrowLeft"@.len() != "Enter"@.len());
    assert("ArrowLeft"@.len() != "Escape"@.len());
    assert("ArrowLeft"@.len() != "F2"@.len());
    assert("ArrowLeft"@.len() != "Home"@.len());
    assert("ArrowLeft"@.len() != "Tab"@.len());
    assert("ArrowRight"@.len() != "ArrowUp"@.len());
    assert("ArrowRight"@.len() != "Enter"@.len());
    assert("ArrowRight"@.len() != "Escape"@.len());
    assert("ArrowRight"@.len() != "F2"@.len());
    assert("ArrowRight"@.len() != "Home"@.len());
    assert("ArrowRight"@.len() != "Tab"@.len());
    assert("ArrowUp"@.len() != "Enter"@.len());
    assert("ArrowUp"@.len() != "Escape"@.len());
    assert("ArrowUp"@.len() != "F2"@.len());
    assert("ArrowUp"@.len() != "Home"@.len());
    assert("ArrowUp"@.len() != "Tab"@.len());
    assert("Enter"@.len() != "Escape"@.len());
    assert("Enter"@.len() != "F2"@.len());
    assert("Enter"@.len() != "Home"@.len());
    assert("Enter"@.len() != "Tab"@.len());
    assert("Escape"@.len() != "F2"@.len());
    assert("Escape"@.len() != "Home"@.len());
    assert("Escape"@.len() != "Tab"@.len());
    assert("F2"@.len() != "Home"@.len());
    assert("F2"@.len() != "Tab"@.len());
    assert("Home"@.len() != "Tab"@.len());
    let t = sheet_keymap_table();
    assert(t[0].0.1 != t[1].0.1);
    assert(t[0].0.1 != t[2].0.1);
    assert(t[0].0.1 != t[3].0.1);
    assert(t[0].0.1 != t[4].0.1);
    assert(t[0].0.1 != t[5].0.1);
    assert(t[0].0.1 != t[6].0.1);
    assert(t[0].0.1 != t[7].0.1);
    assert(t[0].0.1 != t[8].0.1);
    assert(t[0].0.1 != t[9].0.1);
    assert(t[0].0.1 != t[10].0.1);
    assert(t[0].0.1 != t[11].0.1);
    assert(t[0].0.1 != t[12].0.1);
    assert(t[0].0.1 != t[13].0.1);
    assert(t[0].0.1 != t[14].0.1);
    assert(t[1].0.1 != t[2].0.1);
    assert(t[1].0.1 != t[3].0.1);
    assert(t[1].0.1 != t[4].0.1);
    assert(t[1].0.1 != t[5].0.1);
    assert(t[1].0.1 != t[6].0.1);
    assert(t[1].0.1 != t[7].0.1);
    assert(t[1].0.1 != t[8].0.1);
    assert(t[1].0.1 != t[9].0.1);
    assert(t[1].0.1 != t[10].0.1);
    assert(t[1].0.1 != t[11].0.1);
    assert(t[1].0.1 != t[12].0.1);
    assert(t[1].0.1 != t[13].0.1);
    assert(t[1].0.1 != t[14].0.1);
    assert(t[2].0.1 != t[3].0.1);
    assert(t[2].0.1 != t[4].0.1);
    assert(t[2].0.1 != t[5].0.1);
    assert(t[2].0.1 != t[6].0.1);
    assert(t[2].0.1 != t[7].0.1);
    assert(t[2].0.1 != t[8].0.1);
    assert(t[2].0.1 != t[9].0.1);
    assert(t[2].0.1 != t[10].0.1);
    assert(t[2].0.1 != t[11].0.1);
    assert(t[2].0.1 != t[12].0.1);
    assert(t[2].0.1 != t[13].0.1);
    assert(t[2].0.1 != t[14].0.1);
    assert(t[3].0.1 != t[4].0.1);
    assert(t[3].0.1 != t[5].0.1);
    assert(t[3].0.1 != t[6].0.1);
    assert(t[3].0.1 != t[7].0.1);
    assert(t[3].0.1 != t[8].0.1);
    assert(t[3].0.1 != t[9].0.1);
    assert(t[3].0.1 != t[10].0.1);
    assert(t[3].0.1 != t[11].0.1);
    assert(t[3].0.1 != t[12].0.1);
    assert(t[3].0.1 != t[13].0.1);
    assert(t[3].0.1 != t[14].0.1);
    assert(t[4].0.1 != t[5].0.1);
    assert(t[4].0.1 != t[6].0.1);
    assert(t[4].0.1 != t[7].0.1);
    assert(t[4].0.1 != t[8].0.1);
    assert(t[4].0.1 != t[9].0.1);
    assert(t[4].0.1 != t[10].0.1);
    assert(t[4].0.1 != t[11].0.1);
    assert(t[4].0.1 != t[12].0.1);
    assert(t[4].0.1 != t[13].0.1);
    assert(t[4].0.1 != t[14].0.1);
    assert(t[5].0.1 != t[6].0.1);
    assert(t[5].0.1 != t[7].0.1);
    assert(t[5].0.1 != t[8].0.1);
    assert(t[5].0.1 != t[9].0.1);
    assert(t[5].0.1 != t[10].0.1);
    assert(t[5].0.1 != t[11].0.1);
    assert(t[5].0.1 != t[12].0.1);
    assert(t[5].0.1 != t[13].0.1);
    assert(t[5].0.1 != t[14].0.1);
    assert(t[6].0.1 != t[7].0.1);
    assert(t[6].0.1 != t[8].0.1);
    assert(t[6].0.1 != t[9].0.1);
    assert(t[6].0.1 != t[10].0.1);
    assert(t[6].0.1 != t[11].0.1);
    assert(t[6].0.1 != t[12].0.1);
    assert(t[6].0.1 != t[13].0.1);
    assert(t[6].0.1 != t[14].0.1);
    assert(t[7].0.1 != t[8].0.1);
    assert(t[7].0.1 != t[9].0.1);
    assert(t[7].0.1 != t[10].0.1);
    assert(t[7].0.1 != t[11].0.1);
    assert(t[7].0.1 != t[12].0.1);
    assert(t[7].0.1 != t[13].0.1);
    assert(t[7].0.1 != t[14].0.1);
    assert(t[8].0.1 != t[9].0.1);
    assert(t[8].0.1 != t[10].0.1);
    assert(t[8].0.1 != t[11].0.1);
    assert(t[8].0.1 != t[12].0.1);
    assert(t[8].0.1 != t[13].0.1);
    assert(t[8].0.1 != t[14].0.1);
    assert(t[9].0.1 != t[10].0.1);
    assert(t[9].0.1 != t[11].0.1);
    assert(t[9].0.1 != t[12].0.1);
    assert(t[9].0.1 != t[13].0.1);
    assert(t[9].0.1 != t[14].0.1);
    assert(t[10].0.1 != t[11].0.1);
    assert(t[10].0.1 != t[12].0.1);
    assert(t[10].0.1 != t[13].0.1);
    assert(t[10].0.1 != t[14].0.1);
    assert(t[11].0.1 != t[12].0.1);
    assert(t[11].0.1 != t[13].0.1);
    assert(t[11].0.1 != t[14].0.1);
    assert(t[12].0.1 != t[13].0.1);
    assert(t[12].0.1 != t[14].0.1);
    assert(t[13].0.1 != t[14].0.1);
    assert(t[0].0.0 != t[1].0.0);
    assert(t[0].0.0 != t[2].0.0);
    assert(t[0].0.0 != t[3].0.0);
    assert(t[0].0.0 != t[4].0.0);
    assert(t[0].0.0 != t[5].0.0);
    assert(t[0].0.0 != t[6].0.0);
    assert(t[0].0.0 != t[7].0.0);
    assert(t[0].0.0 != t[8].0.0);
    assert(t[0].0.0 != t[9].0.0);
    assert(t[0].0.0 != t[10].0.0);
    assert(t[0].0.0 != t[11].0.0);
    assert(t[0].0.0 != t[12].0.0);
    assert(t[0].0.0 != t[13].0.0);
    assert(t[0].0.0 != t[14].0.0);
    assert(t[1].0.0 != t[2].0.0);
    assert(t[1].0.0 != t[3].0.0);
    assert(t[1].0.0 != t[4].0.0);
    assert(t[1].0.0 != t[5].0.0);
    assert(t[1].0.0 != t[6].0.0);
    assert(t[1].0.0 != t[7].0.0);
    assert(t[1].0.0 != t[8].0.0);
    assert(t[1].0.0 != t[9].0.0);
    assert(t[1].0.0 != t[10].0.0);
    assert(t[1].0.0 != t[11].0.0);
    assert(t[1].0.0 != t[12].0.0);
    assert(t[1].0.0 != t[13].0.0);
    assert(t[1].0.0 != t[14].0.0);
    assert(t[2].0.0 != t[3].0.0);
    assert(t[2].0.0 != t[4].0.0);
    assert(t[2].0.0 != t[5].0.0);
    assert(t[2].0.0 != t[6].0.0);
    assert(t[2].0.0 != t[7].0.0);
    assert(t[2].0.0 != t[8].0.0);
    assert(t[2].0.0 != t[9].0.0);
    assert(t[2].0.0 != t[10].0.0);
    assert(t[2].0.0 != t[11].0.0);
    assert(t[2].0.0 != t[12].0.0);
    assert(t[2].0.0 != t[13].0.0);
    assert(t[2].0.0 != t[14].0.0);
    assert(t[3].0.0 != t[4].0.0);
    assert(t[3].0.0 != t[5].0.0);
    assert(t[3].0.0 != t[6].0.0);
    assert(t[3].0.0 != t[7].0.0);
    assert(t[3].0.0 != t[8].0.0);
    assert(t[3].0.0 != t[9].0.0);
    assert(t[3].0.0 != t[10].0.0);
    assert(t[3].0.0 != t[11].0.0);
    assert(t[3].0.0 != t[12].0.0);
    assert(t[3].0.0 != t[13].0.0);
    assert(t[3].0.0 != t[14].0.0);
    assert(t[4].0.0 != t[5].0.0);
    assert(t[4].0.0 != t[6].0.0);
    assert(t[4].0.0 != t[7].0.0);
    assert(t[4].0.0 != t[8].0.0);
    assert(t[4].0.0 != t[9].0.0);
    assert(t[4].0.0 != t[10].0.0);
    assert(t[4].0.0 != t[11].0.0);
    assert(t[4].0.0 != t[12].0.0);
    assert(t[4].0.0 != t[13].0.0);
    assert(t[4].0.0 != t[14].0.0);
    assert(t[5].0.0 != t[6].0.0);
    assert(t[5].0.0 != t[7].0.0);
    assert(t[5].0.0 != t[8].0.0);
    assert(t[5].0.0 != t[9].0.0);
    assert(t[5].0.0 != t[10].0.0);
    assert(t[5].0.0 != t[11].0.0);
    assert(t[5].0.0 != t[12].0.0);
    assert(t[5].0.0 != t[13].0.0);
    assert(t[5].0.0 != t[14].0.0);
    assert(t[6].0.0 != t[7].0.0);
    assert(t[6].0.0 != t[8].0.0);
    assert(t[6].0.0 != t[9].0.0);
    assert(t[6].0.0 != t[10].0.0);
    assert(t[6].0.0 != t[11].0.0);
    assert(t[6].0.0 != t[12].0.0);
    assert(t[6].0.0 != t[13].0.0);
    assert(t[6].0.0 != t[14].0.0);
    assert(t[7].0.0 != t[8].0.0);
    assert(t[7].0.0 != t[9].0.0);
    assert(t[7].0.0 != t[10].0.0);
    assert(t[7].0.0 != t[11].0.0);
    assert(t[7].0.0 != t[12].0.0);
    assert(t[7].0.0 != t[13].0.0);
    assert(t[7].0.0 != t[14].0.0);
    assert(t[8].0.0 != t[9].0.0);
    assert(t[8].0.0 != t[10].0.0);
    assert(t[8].0.0 != t[11].0.0);
    assert(t[8].0.0 != t[12].0.0);
    assert(t[8].0.0 != t[13].0.0);
    assert(t[8].0.0 != t[14].0.0);
    assert(t[9].0.0 != t[10].0.0);
    assert(t[9].0.0 != t[11].0.0);
    assert(t[9].0.0 != t[12].0.0);
    assert(t[9].0.0 != t[13].0.0);
    assert(t[9].0.0 != t[14].0.0);
    assert(t[10].0.0 != t[11].0.0);
    assert(t[10].0.0 != t[12].0.0);
    assert(t[10].0.0 != t[13].0.0);
    assert(t[10].0.0 != t[14].0.0);
    assert(t[11].0.0 != t[12].0.0);
    assert(t[11].0.0 != t[13].0.0);
    assert(t[11].0.0 != t[14].0.0);
    assert(t[12].0.0 != t[13].0.0);
    assert(t[12].0.0 != t[14].0.0);
    assert(t[13].0.0 != t[14].0.0);
    assert forall|i: int, j: int| 0 <= i < j < t.len() implies t[i].0.1 != t[j].0.1 && t[i].0.0 != t[j].0.0 by {
        lemma_index_below_15(i);
        lemma_index_below_15(j);
    }
    assert forall|i: int| 0 <= i < t.len() implies first_action(t, #[trigger] t[i].0.1) == Some(t[i].1.0) by {
        lemma_unique_chords_resolve_to_their_rows(t, i);
    }
}

/// Whether an action is live or a disabled-with-reason G3 degrade.
pub open spec fn availability_of(action: SheetAction) -> Option<Seq<char>> {
    match action {
        SheetAction::ExtendSelection => Some(RANGE_SELECT_DEFERRED_REASON@),
        _ => None,
    }
}

/// Every `Move` / `BeginEdit` / `Cancel` verb is live; `ExtendSelection` is
/// disabled with the range-select reason.
pub fn action_availability(action: SheetAction) -> (a: ActionAvailability)
    ensures
        match a {
            ActionAvailability::Live => availability_of(action).is_none(),
            ActionAvailability::DisabledWithReason(r) => availability_of(action) == Some(r@),
        },
{
    match action {
        SheetAction::Move(_) | SheetAction::BeginEdit | SheetAction::Cancel => ActionAvailability::Live,
        SheetAction::ExtendSelection => ActionAvailability::DisabledWithReason(
            RANGE_SELECT_DEFERRED_REASON,
        ),
    }
}

/// The character a type-to-replace edit is seeded with: `Some` exactly when
/// the key is one character that is not a control character.
pub open spec fn typed_char_of(key: Seq<char>) -> Option<char> {
    if key.len() == 1 && !is_control_char(key[0]) {
        Some(key[0])
    } else {
        None
    }
}

/// The single character a keydown seeds a type-to-replace edit with, or
/// `None` when the key is not a lone printable character.
pub fn typed_char(key: &str) -> (c: Option<char>)
    ensures
        c == typed_char_of(key@),
{
    if key.unicode_len() == 1 {
        let ch = key.get_char(0);
        if !char_is_control(ch) {
            return Some(ch);
        }
    }
    None
}

/// Law: every G3 degrade reason cites `G3`, and so does every reason
/// [`action_availability`] can surface.
pub proof fn lemma_every_g3_reason_cites_g3()
    ensures
        contains_text(RANGE_SELECT_DEFERRED_REASON@, "G3"@),
        contains_text(ROW_COL_SELECT_DEFERRED_REASON@, "G3"@),
        contains_text(FILL_DEFERRED_REASON@, "G3"@),
        contains_text(CLIPBOARD_DEFERRED_REASON@, "G3"@),
        forall|a: SheetAction| #[trigger] availability_of(a) is Some ==> contains_text(availability_of(a)->0, "G3"@),
{
    reveal_strlit("G3");
    reveal_strlit("Range select needs the G3 interaction pack — single cell only for now.");
    assert(RANGE_SELECT_DEFERRED_REASON@.subrange(23, 23 + "G3"@.len() as int) =~= "G3"@);
    reveal_strlit("Whole row / column select arrives with the G3 interaction pack.");
    assert(ROW_COL_SELECT_DEFERRED_REASON@.subrange(43, 43 + "G3"@.len() as int) =~= "G3"@);
    reveal_strlit("Fill grips arrive with the G3 interaction pack.");
    assert(FILL_DEFERRED_REASON@.subrange(27, 27 + "G3"@.len() as int) =~= "G3"@);
    reveal_strlit("Grid copy / cut / paste arrives with the G3 interaction pack.");
    assert(CLIPBOARD_DEFERRED_REASON@.subrange(41, 41 + "G3"@.len() as int) =~= "G3"@);
}

} // verus!
