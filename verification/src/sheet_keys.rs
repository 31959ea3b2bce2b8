//! The Sheet's select-mode keydown decision: what one chord does to the
//! active cell, the editor and the transient note. A bound chord runs its
//! action (or surfaces its degrade reason); an unbound Ctrl+arrow degrades to
//! a window-local edge jump; an unmodified printable key starts a
//! type-to-replace edit; anything else is left to bubble.
use vstd::prelude::*;

use crate::key_chord::{chord_view, first_action, KeyChord};
use crate::sheet_selection::{
    action_availability, availability_of, binding_view, clamp_cell, lemma_next_active_stays_in_extent,
    next_active, next_active_cell, resolve_action, typed_char, typed_char_of, ActionAvailability, GridExtent,
    KeyBinding, SheetAction,
};
use crate::sheet_viewport::{
    edge_dir_from_key, edge_dir_of_key, edge_jump_target, lemma_edge_jump_lands_on_the_edge,
    window_edge_jump,
};

verus! {

/// What a select-mode keydown does.
#[derive(Debug, Clone, Copy, PartialEq, Eq)]
pub enum SelectKeyDecision {
    /// Consume the chord and show this degrade reason; change nothing else.
    Degrade { reason: &'static str },
    /// Consume; make `cell` the active cell and clear the note.
    MoveTo { cell: (u32, u32) },
    /// Consume; open the editor at `cell`, seeded with its authored text.
    BeginEdit { cell: (u32, u32) },
    /// Consume; clear the note.
    ClearNote,
    /// Consume; make the window-edge `cell` active and show the edge-jump
    /// note.
    EdgeJump { cell: (u32, u32) },
    /// Consume; open the editor at `cell`, seeded with the typed character.
    TypeToReplace { cell: (u32, u32), ch: char },
    /// Leave the key alone.
    Bubble,
}

/// The extent a decision works in: the grid's, floored at one cell.
pub open spec fn floored_extent(rows: u32, cols: u32) -> GridExtent {
    GridExtent { rows: if rows == 0 { 1 } else { rows }, cols: if cols == 0 { 1 } else { cols } }
}

/// The cell an edit opens at: the active cell (or the origin when nothing
/// is active), clamped into the extent.
pub open spec fn edit_cell(active: Option<(u32, u32)>, e: GridExtent) -> (u32, u32) {
    match active {
        Some(c) => clamp_cell(e, c.0, c.1),
        None => clamp_cell(e, 1, 1),
    }
}

/// `d` is the decision for `chord` (with the raw `key` the event carried)
/// against `keymap`, from the active cell `active` over a grid of
/// `rows` x `cols`.
pub open spec fn decides(
    keymap: Seq<KeyBinding>,
    chord: KeyChord,
    key: Seq<char>,
    active: Option<(u32, u32)>,
    rows: u32,
    cols: u32,
    d: SelectKeyDecision,
) -> bool {
    let e = floored_extent(rows, cols);
    match first_action(keymap.map_values(|b: KeyBinding| binding_view(b)), chord_view(chord)) {
        Some(action) => match availability_of(action) {
            Some(reason) => d matches SelectKeyDecision::Degrade { reason: r } && r@ == reason,
            None => match action {
                SheetAction::Move(nav) => d == SelectKeyDecision::MoveTo {
                    cell: match active {
                        Some(c) => next_active_cell(c, nav, e),
                        None => clamp_cell(e, 1, 1),
                    },
                },
                SheetAction::BeginEdit => d == SelectKeyDecision::BeginEdit { cell: edit_cell(active, e) },
                SheetAction::Cancel => d is ClearNote,
                SheetAction::ExtendSelection => d is Bubble,
            },
        },
        None => if chord.ctrl && !chord.alt && !chord.shift && edge_dir_of_key(key) is Some {
            d == SelectKeyDecision::EdgeJump {
                cell: edge_jump_target(
                    match active {
                        Some(c) => c,
                        None => (1, 1),
                    },
                    edge_dir_of_key(key)->0,
                    rows,
                    cols,
                ),
            }
        } else if !chord.ctrl && !chord.alt && typed_char_of(key) is Some {
            d == SelectKeyDecision::TypeToReplace { cell: edit_cell(active, e), ch: typed_char_of(key)->0 }
        } else {
            d is Bubble
        },
    }
}

/// Decide what a select-mode keydown does. `chord` carries the event's
/// modifiers with the platform meta key folded into `ctrl`; `key` is the
/// raw key name the event carried.
pub fn select_key_decision(
    keymap: &[KeyBinding],
    chord: &KeyChord,
    key: &str,
    active: Option<(u32, u32)>,
    extent_rows: u32,
    extent_cols: u32,
) -> (d: SelectKeyDecision)
    ensures
        decides(keymap@, *chord, key@, active, extent_rows, extent_cols, d),
{
    let extent = GridExtent::new(extent_rows, extent_cols);
    if let Some(action) = resolve_action(keymap, chord) {
        return match action_availability(action) {
            ActionAvailability::DisabledWithReason(reason) => SelectKeyDecision::Degrade { reason },
            ActionAvailability::Live => match action {
                SheetAction::Move(nav) => {
                    let next = match active {
                        Some(current) => next_active(current, nav, extent),
                        None => extent.clamp(1, 1),
                    };
                    SelectKeyDecision::MoveTo { cell: next }
                },
                SheetAction::BeginEdit => {
                    let cell = match active {
                        Some(c) => extent.clamp_pair(c),
                        None => extent.clamp(1, 1),
                    };
                    SelectKeyDecision::BeginEdit { cell }
                },
                SheetAction::Cancel => SelectKeyDecision::ClearNote,
                SheetAction::ExtendSelection => SelectKeyDecision::Bubble,
            },
        };
    }
    if chord.ctrl && !chord.alt && !chord.shift {
        if let Some(dir) = edge_dir_from_key(key) {
            let current = match active {
                Some(c) => c,
                None => (1, 1),
            };
            return SelectKeyDecision::EdgeJump {
                cell: window_edge_jump(current, dir, extent_rows, extent_cols),
            };
        }
    }
    if !chord.ctrl && !chord.alt {
        if let Some(ch) = typed_char(key) {
            let cell = match active {
                Some(c) => extent.clamp_pair(c),
                None => extent.clamp(1, 1),
            };
            return SelectKeyDecision::TypeToReplace { cell, ch };
        }
    }
    SelectKeyDecision::Bubble
}


/// Law: the window-edge jump answers only an unbound, unshifted, unalted
/// Ctrl+arrow: a shifted Ctrl+arrow never moves the active cell by a jump.
/// Type-to-replace likewise answers only a key with neither Ctrl nor Alt.
pub proof fn lemma_edge_jump_only_for_plain_ctrl_arrows(
    keymap: Seq<KeyBinding>,
    chord: KeyChord,
    key: Seq<char>,
    active: Option<(u32, u32)>,
    rows: u32,
    cols: u32,
    d: SelectKeyDecision,
)
    requires
        decides(keymap, chord, key, active, rows, cols, d),
    ensures
        d is EdgeJump ==> {
            &&& chord.ctrl
            &&& !chord.shift
            &&& !chord.alt
            &&& edge_dir_of_key(key) is Some
            &&& first_action(keymap.map_values(|b: KeyBinding| binding_view(b)), chord_view(chord)) is None
        },
        chord.shift && first_action(keymap.map_values(|b: KeyBinding| binding_view(b)), chord_view(chord))
            is None ==> !(d is EdgeJump),
        d is TypeToReplace ==> !chord.ctrl && !chord.alt,
{
}

/// Law: every cell a select-mode decision moves to or edits lies inside
/// the grid's extent (a zero dimension counting as one), whatever the start
/// — even a stale active cell outside the extent.
pub proof fn lemma_decided_cells_lie_in_the_extent(
    keymap: Seq<KeyBinding>,
    chord: KeyChord,
    key: Seq<char>,
    active: Option<(u32, u32)>,
    rows: u32,
    cols: u32,
    d: SelectKeyDecision,
)
    requires
        decides(keymap, chord, key, active, rows, cols, d),
    ensures
        ({
            let r = if rows == 0 { 1 } else { rows as int };
            let c = if cols == 0 { 1 } else { cols as int };
            match d {
                SelectKeyDecision::MoveTo { cell } => 1 <= cell.0 <= r && 1 <= cell.1 <= c,
                SelectKeyDecision::BeginEdit { cell } => 1 <= cell.0 <= r && 1 <= cell.1 <= c,
                SelectKeyDecision::EdgeJump { cell } => 1 <= cell.0 <= r && 1 <= cell.1 <= c,
                SelectKeyDecision::TypeToReplace { cell, .. } => 1 <= cell.0 <= r && 1 <= cell.1 <= c,
                _ => true,
            }
        }),
{
    let e = floored_extent(rows, cols);
    match d {
        SelectKeyDecision::MoveTo { cell } => {
            let action = first_action(keymap.map_values(|b: KeyBinding| binding_view(b)), chord_view(chord));
            if let Some(SheetAction::Move(nav)) = action {
                if let Some(a) = active {
                    lemma_next_active_stays_in_extent(a, nav, e);
                }
            }
        },
        SelectKeyDecision::EdgeJump { cell } => {
            let start = match active {
                Some(c) => c,
                None => (1, 1),
            };
            lemma_edge_jump_lands_on_the_edge(start, edge_dir_of_key(key)->0, rows, cols);
        },
        _ => {},
    }
}
} // verus!
