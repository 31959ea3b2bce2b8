use dnacalc::key_chord::KeyChord;
use dnacalc::notebook_keyboard::{
    action_availability, notebook_keymap, resolve_action, ActionAvailability, NotebookAction,
};

#[test]
fn keyboard_every_declared_chord_resolves_to_its_action() {
    let keymap = notebook_keymap();
    for (chord, expected) in [
        (KeyChord::new("Enter", false, false, false), NotebookAction::OpenEditor),
        (KeyChord::new("Enter", true, false, false), NotebookAction::CommitAndAdvance),
        (KeyChord::new("ArrowUp", false, false, true), NotebookAction::ReorderUp),
        (KeyChord::new("ArrowDown", false, false, true), NotebookAction::ReorderDown),
        (KeyChord::new("m", true, true, false), NotebookAction::NewProse),
        (KeyChord::new("n", true, true, false), NotebookAction::NewName),
    ] {
        assert_eq!(
            resolve_action(&keymap, &chord),
            Some(expected),
            "chord {chord:?} must resolve to {expected:?}"
        );
    }
}

#[test]
fn uppercase_alpha_key_normalizes_to_the_same_binding() {
    let keymap = notebook_keymap();
    assert_eq!(
        resolve_action(&keymap, &KeyChord::new("N", true, true, false)),
        Some(NotebookAction::NewName)
    );
    assert_eq!(
        resolve_action(&keymap, &KeyChord::new("M", true, true, false)),
        Some(NotebookAction::NewProse),
    );
    assert_eq!(KeyChord::new("ArrowUp", false, false, true).key, "ArrowUp");
}

#[test]
fn non_matching_chord_resolves_to_none() {
    let keymap = notebook_keymap();
    assert_eq!(resolve_action(&keymap, &KeyChord::new("q", false, false, false)), None);
    assert_eq!(resolve_action(&keymap, &KeyChord::new("ArrowUp", false, false, false)), None);
    assert_eq!(resolve_action(&keymap, &KeyChord::new("n", false, true, false)), None);
}

#[test]
fn availability_is_live_for_built_and_reasoned_for_deferred() {
    for live in [
        NotebookAction::OpenEditor,
        NotebookAction::CommitAndAdvance,
        NotebookAction::NewName,
    ] {
        assert_eq!(action_availability(live), ActionAvailability::Live, "{live:?} must be live");
    }
    for deferred in [
        NotebookAction::ReorderUp,
        NotebookAction::ReorderDown,
        NotebookAction::NewProse,
    ] {
        match action_availability(deferred) {
            ActionAvailability::DisabledWithReason(reason) => assert!(reason.contains("ask #1")),
            ActionAvailability::Live => panic!("{deferred:?} must be a degrade, not live"),
        }
    }
}

#[test]
fn keymap_has_one_stable_unique_binding_per_action() {
    let keymap = notebook_keymap();
    for action in [
        NotebookAction::OpenEditor,
        NotebookAction::CommitAndAdvance,
        NotebookAction::ReorderUp,
        NotebookAction::ReorderDown,
        NotebookAction::NewProse,
        NotebookAction::NewName,
    ] {
        let count = keymap.iter().filter(|binding| binding.action == action).count();
        assert_eq!(count, 1, "exactly one binding for {action:?}, found {count}");
    }
    assert_eq!(keymap.len(), 6);
    let mut ids: Vec<&str> = keymap.iter().map(|binding| binding.id).collect();
    ids.sort_unstable();
    let unique = ids.len();
    ids.dedup();
    assert_eq!(ids.len(), unique);
    let expected = [
        "notebook.commit-advance",
        "notebook.new-name",
        "notebook.new-prose",
        "notebook.open-editor",
        "notebook.reorder-down",
        "notebook.reorder-up",
    ];
    assert_eq!(ids, expected);
}

#[test]
fn stable_ids_match_the_keymap_rows() {
    for binding in notebook_keymap() {
        assert_eq!(format!("notebook.{}", binding.action.stable_id()), binding.id);
    }
}

use dnacalc::notebook_blocks::{
    notebook_key_decision, NotebookKeyDecision, Persona, READ_ONLY_PERSONA_NOTE,
};
use dnacalc::notebook_keyboard::REORDER_DEFERRED_REASON;
use dnacalc::projection::NodeId;

#[test]
fn notebook_keys_decide_per_persona_and_focus() {
    let keymap = notebook_keymap();
    let key = (NodeId::new("Sheet1"), 2, 1);
    let enter = KeyChord::new("Enter", false, false, false);
    assert_eq!(
        notebook_key_decision(&keymap, &enter, Persona::Author, true, false, Some(&key), true),
        NotebookKeyDecision::FocusEditor { key: key.clone() }
    );
    assert_eq!(
        notebook_key_decision(&keymap, &enter, Persona::Author, true, true, Some(&key), true),
        NotebookKeyDecision::Bubble
    );
    assert_eq!(
        notebook_key_decision(&keymap, &enter, Persona::Reviewer, true, false, Some(&key), true),
        NotebookKeyDecision::ShowStatus {
            text: READ_ONLY_PERSONA_NOTE
        }
    );
    let shift_enter = KeyChord::new("Enter", true, false, false);
    assert_eq!(
        notebook_key_decision(&keymap, &shift_enter, Persona::Author, true, true, Some(&key), true),
        NotebookKeyDecision::CommitAndAdvance { key: key.clone() }
    );
    assert_eq!(
        notebook_key_decision(&keymap, &shift_enter, Persona::Author, false, true, Some(&key), true),
        NotebookKeyDecision::Bubble
    );
    let reorder = KeyChord::new("ArrowUp", false, false, true);
    assert_eq!(
        notebook_key_decision(&keymap, &reorder, Persona::ReadOnly, true, false, None, false),
        NotebookKeyDecision::ShowStatus {
            text: REORDER_DEFERRED_REASON
        }
    );
    let new_name = KeyChord::new("N", true, true, false);
    assert_eq!(
        notebook_key_decision(&keymap, &new_name, Persona::Author, false, false, None, false),
        NotebookKeyDecision::OpenNameForm
    );
    let q = KeyChord::new("q", false, false, false);
    assert_eq!(
        notebook_key_decision(&keymap, &q, Persona::Author, true, false, Some(&key), true),
        NotebookKeyDecision::Bubble
    );
}
