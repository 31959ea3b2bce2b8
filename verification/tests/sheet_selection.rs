use dnacalc::key_chord::KeyChord;
use dnacalc::sheet_selection::{
    action_availability, next_active, resolve_action, sheet_keymap, typed_char,
    ActionAvailability, GridExtent, NavAction, SheetAction, CLIPBOARD_DEFERRED_REASON,
    FILL_DEFERRED_REASON, RANGE_SELECT_DEFERRED_REASON, ROW_COL_SELECT_DEFERRED_REASON,
};

const DEMO: GridExtent = GridExtent { rows: 5, cols: 2 };

#[test]
fn arrows_step_one_cell_in_the_interior() {
    let start = (3, 1);
    assert_eq!(next_active(start, NavAction::Up, DEMO), (2, 1));
    assert_eq!(next_active(start, NavAction::Down, DEMO), (4, 1));
    assert_eq!(next_active((3, 2), NavAction::Left, DEMO), (3, 1));
    assert_eq!(next_active(start, NavAction::Right, DEMO), (3, 2));
}

#[test]
fn tab_home_and_grid_start_land_where_expected() {
    assert_eq!(next_active((3, 1), NavAction::NextColumn, DEMO), (3, 2));
    assert_eq!(next_active((3, 2), NavAction::PrevColumn, DEMO), (3, 1));
    assert_eq!(next_active((4, 2), NavAction::RowStart, DEMO), (4, 1));
    assert_eq!(next_active((4, 2), NavAction::GridStart, DEMO), (1, 1));
}

#[test]
fn commit_down_advances_and_clamps_at_the_last_row() {
    assert_eq!(next_active((2, 2), NavAction::CommitDown, DEMO), (3, 2));
    assert_eq!(next_active((5, 2), NavAction::CommitDown, DEMO), (5, 2));
}

#[test]
fn commit_right_advances_and_clamps_at_the_last_column() {
    assert_eq!(next_active((2, 1), NavAction::CommitRight, DEMO), (2, 2));
    assert_eq!(next_active((2, 2), NavAction::CommitRight, DEMO), (2, 2));
}

#[test]
fn moves_clamp_at_every_edge_with_no_wrap() {
    assert_eq!(next_active((1, 1), NavAction::Up, DEMO), (1, 1));
    assert_eq!(next_active((3, 1), NavAction::Left, DEMO), (3, 1));
    assert_eq!(next_active((3, 1), NavAction::PrevColumn, DEMO), (3, 1));
    assert_eq!(next_active((5, 1), NavAction::Down, DEMO), (5, 1));
    assert_eq!(next_active((3, 2), NavAction::Right, DEMO), (3, 2));
    assert_eq!(next_active((3, 2), NavAction::NextColumn, DEMO), (3, 2));
}

#[test]
fn degenerate_extent_floors_to_one_cell() {
    let empty = GridExtent::new(0, 0);
    assert_eq!(empty, GridExtent { rows: 1, cols: 1 });
    assert_eq!(next_active((1, 1), NavAction::Down, empty), (1, 1));
    assert_eq!(next_active((1, 1), NavAction::Right, empty), (1, 1));
}

#[test]
fn out_of_extent_start_is_pulled_back_inside() {
    assert_eq!(next_active((99, 99), NavAction::Up, DEMO), (5, 2));
    assert_eq!(next_active((99, 99), NavAction::RowStart, DEMO), (5, 1));
}

#[test]
fn clamp_projects_every_cell_into_the_extent() {
    assert_eq!(DEMO.clamp(0, 0), (1, 1));
    assert_eq!(DEMO.clamp(9, 9), (5, 2));
    assert_eq!(DEMO.clamp_pair((4, 1)), (4, 1));
    let big = GridExtent::new(3, 0);
    assert_eq!(big, GridExtent { rows: 3, cols: 1 });
    for r in 0..8u32 {
        for c in 0..5u32 {
            let (rr, cc) = DEMO.clamp(r, c);
            assert_eq!(DEMO.clamp(rr, cc), (rr, cc));
            assert!(rr >= 1 && rr <= 5 && cc >= 1 && cc <= 2);
        }
    }
}

#[test]
fn selection_every_declared_chord_resolves_to_its_action() {
    let keymap = sheet_keymap();
    for (chord, expected) in [
        (KeyChord::new("ArrowUp", false, false, false), SheetAction::Move(NavAction::Up)),
        (KeyChord::new("ArrowDown", false, false, false), SheetAction::Move(NavAction::Down)),
        (KeyChord::new("ArrowLeft", false, false, false), SheetAction::Move(NavAction::Left)),
        (KeyChord::new("ArrowRight", false, false, false), SheetAction::Move(NavAction::Right)),
        (KeyChord::new("Tab", false, false, false), SheetAction::Move(NavAction::NextColumn)),
        (KeyChord::new("Tab", true, false, false), SheetAction::Move(NavAction::PrevColumn)),
        (KeyChord::new("Home", false, false, false), SheetAction::Move(NavAction::RowStart)),
        (KeyChord::new("Home", false, true, false), SheetAction::Move(NavAction::GridStart)),
        (KeyChord::new("F2", false, false, false), SheetAction::BeginEdit),
        (KeyChord::new("Enter", false, false, false), SheetAction::Move(NavAction::Down)),
        (KeyChord::new("Escape", false, false, false), SheetAction::Cancel),
        (KeyChord::new("ArrowUp", true, false, false), SheetAction::ExtendSelection),
    ] {
        assert_eq!(
            resolve_action(&keymap, &chord),
            Some(expected),
            "chord {chord:?} must resolve to {expected:?}"
        );
    }
}

#[test]
fn non_matching_chords_resolve_to_none() {
    let keymap = sheet_keymap();
    assert_eq!(
        resolve_action(&keymap, &KeyChord::new("ArrowUp", false, true, false)),
        None
    );
    assert_eq!(resolve_action(&keymap, &KeyChord::new("a", false, false, false)), None);
    assert_eq!(resolve_action(&keymap, &KeyChord::new("Enter", true, false, false)), None);
}

#[test]
fn availability_is_live_for_built_and_g3_for_ranges() {
    for live in [
        SheetAction::Move(NavAction::Up),
        SheetAction::Move(NavAction::GridStart),
        SheetAction::BeginEdit,
        SheetAction::Cancel,
    ] {
        assert_eq!(action_availability(live), ActionAvailability::Live);
    }
    match action_availability(SheetAction::ExtendSelection) {
        ActionAvailability::DisabledWithReason(reason) => assert!(reason.contains("G3")),
        ActionAvailability::Live => panic!("range extend must be a G3 degrade, not live"),
    }
}

#[test]
fn every_g3_reason_cites_g3() {
    for reason in [
        RANGE_SELECT_DEFERRED_REASON,
        ROW_COL_SELECT_DEFERRED_REASON,
        FILL_DEFERRED_REASON,
        CLIPBOARD_DEFERRED_REASON,
    ] {
        assert!(reason.contains("G3"), "{reason:?} must cite `G3`");
    }
}

#[test]
fn keymap_ids_are_unique_and_f2_is_the_begin_edit_chord() {
    let keymap = sheet_keymap();
    let mut ids: Vec<&str> = keymap.iter().map(|b| b.id).collect();
    let total = ids.len();
    ids.sort_unstable();
    ids.dedup();
    assert_eq!(ids.len(), total, "every binding id must be unique");
    let begin_edit = keymap
        .iter()
        .filter(|b| b.action == SheetAction::BeginEdit)
        .count();
    assert_eq!(begin_edit, 1);
}

#[test]
fn uppercase_alpha_normalizes_to_lowercase_key() {
    assert_eq!(KeyChord::new("A", true, false, false).key, "a");
    assert_eq!(KeyChord::new("ArrowUp", false, false, false).key, "ArrowUp");
}

#[test]
fn typed_char_recognizes_only_lone_printables() {
    for (key, expected) in [
        ("a", Some('a')),
        ("A", Some('A')),
        ("=", Some('=')),
        ("7", Some('7')),
        (" ", Some(' ')),
    ] {
        assert_eq!(typed_char(key), expected, "key {key:?}");
    }
    for control in ["Enter", "ArrowUp", "F2", "Tab", "Home", "Escape", "", "\u{1b}"] {
        assert_eq!(typed_char(control), None, "key {control:?} is not printable");
    }
}

use dnacalc::sheet_keys::{select_key_decision, SelectKeyDecision};
use dnacalc::sheet_viewport::EDGE_JUMP_DEGRADE_REASON;

#[test]
fn select_keys_move_begin_edit_and_degrade() {
    let keymap = sheet_keymap();
    let down = KeyChord::new("ArrowDown", false, false, false);
    assert_eq!(
        select_key_decision(&keymap, &down, "ArrowDown", Some((2, 1)), 5, 2),
        SelectKeyDecision::MoveTo { cell: (3, 1) }
    );
    assert_eq!(
        select_key_decision(&keymap, &down, "ArrowDown", None, 5, 2),
        SelectKeyDecision::MoveTo { cell: (1, 1) }
    );
    let f2 = KeyChord::new("F2", false, false, false);
    assert_eq!(
        select_key_decision(&keymap, &f2, "F2", Some((9, 9)), 5, 2),
        SelectKeyDecision::BeginEdit { cell: (5, 2) }
    );
    let extend = KeyChord::new("ArrowUp", true, false, false);
    assert_eq!(
        select_key_decision(&keymap, &extend, "ArrowUp", Some((2, 1)), 5, 2),
        SelectKeyDecision::Degrade {
            reason: RANGE_SELECT_DEFERRED_REASON
        }
    );
    let escape = KeyChord::new("Escape", false, false, false);
    assert_eq!(
        select_key_decision(&keymap, &escape, "Escape", None, 5, 2),
        SelectKeyDecision::ClearNote
    );
}

#[test]
fn select_keys_edge_jump_type_to_replace_and_bubble() {
    let keymap = sheet_keymap();
    let ctrl_down = KeyChord::new("ArrowDown", false, true, false);
    assert_eq!(
        select_key_decision(&keymap, &ctrl_down, "ArrowDown", Some((3, 2)), 10, 5),
        SelectKeyDecision::EdgeJump { cell: (10, 2) }
    );
    assert!(EDGE_JUMP_DEGRADE_REASON.contains("G4"));
    let shifted = KeyChord::new("A", true, false, false);
    assert_eq!(
        select_key_decision(&keymap, &shifted, "A", Some((3, 2)), 10, 5),
        SelectKeyDecision::TypeToReplace { cell: (3, 2), ch: 'A' }
    );
    let ctrl_c = KeyChord::new("c", false, true, false);
    assert_eq!(
        select_key_decision(&keymap, &ctrl_c, "c", Some((3, 2)), 10, 5),
        SelectKeyDecision::Bubble
    );
    let f9 = KeyChord::new("F9", false, false, false);
    assert_eq!(
        select_key_decision(&keymap, &f9, "F9", Some((3, 2)), 10, 5),
        SelectKeyDecision::Bubble
    );
}

#[test]
fn next_active_is_total_over_a_degenerate_extent() {
    let flat = GridExtent { rows: 0, cols: 2 };
    assert_eq!(next_active((4, 2), NavAction::Down, flat), (1, 2));
    assert_eq!(next_active((1, 1), NavAction::Right, flat), (1, 2));
    assert_eq!(flat.clamp(9, 9), (1, 2));
    assert_eq!(GridExtent { rows: 0, cols: 0 }.clamp_pair((3, 3)), (1, 1));
}

#[test]
fn any_lone_alphabetic_key_is_lowercased() {
    assert_eq!(KeyChord::new("N", true, true, false), KeyChord::new("n", true, true, false));
    assert_eq!(KeyChord::new("\u{c9}", true, false, false).key, "\u{e9}");
    assert_eq!(KeyChord::new("\u{3a9}", false, false, false).key, "\u{3c9}");
    assert_eq!(KeyChord::new("=", false, false, false).key, "=");
    assert_eq!(KeyChord::new("ArrowUp", false, false, false).key, "ArrowUp");
}
