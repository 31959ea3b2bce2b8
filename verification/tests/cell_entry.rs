use dnacalc::cell_entry::{
    classify_entry_receipt, unresolved_name_note, CellEntryEditor, EntryCommitResult,
    EntryFeedback,
};
use dnacalc::intent::{
    GridEntryDiagnosticProjection, GridEntryOutcomeProjection, InMemoryDispatcher, IntentError,
    IntentErrorKind, IntentReceipt, SelectionState, WorkspaceDelta, WorkspaceDeltaChange,
    WorkspaceIntent,
};
use dnacalc::projection::{NodeId, NodeValueProjection};

fn diagnostic(message: &str, span: Option<(u32, u32)>) -> GridEntryDiagnosticProjection {
    GridEntryDiagnosticProjection {
        message: message.to_string(),
        span,
    }
}

fn accepted_with_outcome(outcome: GridEntryOutcomeProjection) -> IntentReceipt {
    let delta = WorkspaceDelta {
        changes: vec![WorkspaceDeltaChange::GridCellEntered {
            grid_node_id: NodeId::new("Sheet1"),
            row: 1,
            col: 1,
            outcome,
        }],
    };
    IntentReceipt::accepted().with_delta(delta)
}

fn entry_rejected(diagnostics: Vec<GridEntryDiagnosticProjection>) -> IntentError {
    IntentError {
        kind: IntentErrorKind::GridEntryRejected { diagnostics },
        debug_text: "GridEntryRejected { .. }".to_string(),
        message: "the entry was rejected".to_string(),
    }
}

#[test]
fn classify_accepted_bare_receipt_is_committed_without_outcome() {
    let result = classify_entry_receipt(&IntentReceipt::accepted());
    assert_eq!(result, EntryCommitResult::Committed { outcome: None });
}

#[test]
fn classify_lifts_literal_outcome_off_the_delta() {
    let receipt = accepted_with_outcome(GridEntryOutcomeProjection::Literal {
        value: NodeValueProjection::Number {
            raw: "0.065".to_string(),
            display: "0.065".to_string(),
        },
    });
    let result = classify_entry_receipt(&receipt);
    assert!(matches!(
        result,
        EntryCommitResult::Committed {
            outcome: Some(GridEntryOutcomeProjection::Literal { .. })
        }
    ));
}

#[test]
fn classify_grid_entry_rejected_carries_diagnostics_through() {
    let diagnostics = vec![diagnostic("unexpected end of formula", Some((3, 3)))];
    let receipt = IntentReceipt::rejected(entry_rejected(diagnostics.clone()));
    assert_eq!(
        classify_entry_receipt(&receipt),
        EntryCommitResult::Rejected { diagnostics }
    );
}

#[test]
fn classify_other_error_is_surfaced_not_dropped() {
    let receipt = IntentReceipt::rejected(IntentError {
        kind: IntentErrorKind::Other,
        debug_text: "GridCellNotEditable { anchor: None }".to_string(),
        message: "the cell is not editable".to_string(),
    });
    let result = classify_entry_receipt(&receipt);
    let EntryCommitResult::OtherError { message } = result else {
        panic!("expected OtherError, got {result:?}");
    };
    assert!(!message.is_empty(), "the error message must be surfaced");
    assert_eq!(message, "the cell is not editable");
}

#[test]
fn classify_rejection_without_error_has_the_generic_message() {
    let receipt = IntentReceipt {
        accepted: false,
        error: None,
        delta: WorkspaceDelta { changes: Vec::new() },
    };
    assert_eq!(
        classify_entry_receipt(&receipt),
        EntryCommitResult::OtherError {
            message: "the engine rejected this change".to_string()
        }
    );
}

#[test]
fn classify_reads_the_first_cell_entry_change() {
    let receipt = IntentReceipt::accepted().with_delta(WorkspaceDelta {
        changes: vec![
            WorkspaceDeltaChange::GridChanged {
                grid_node_id: NodeId::new("Sheet1"),
            },
            WorkspaceDeltaChange::GridCellEntered {
                grid_node_id: NodeId::new("Sheet1"),
                row: 2,
                col: 1,
                outcome: GridEntryOutcomeProjection::Cleared,
            },
            WorkspaceDeltaChange::GridCellEntered {
                grid_node_id: NodeId::new("Sheet1"),
                row: 3,
                col: 1,
                outcome: GridEntryOutcomeProjection::Literal {
                    value: NodeValueProjection::Empty,
                },
            },
        ],
    });
    assert_eq!(
        classify_entry_receipt(&receipt),
        EntryCommitResult::Committed {
            outcome: Some(GridEntryOutcomeProjection::Cleared)
        }
    );
}

#[test]
fn unresolved_name_note_only_for_nonempty_formula_names() {
    let literal = GridEntryOutcomeProjection::Literal {
        value: NodeValueProjection::Empty,
    };
    assert_eq!(unresolved_name_note(&literal), None);

    let clean_formula = GridEntryOutcomeProjection::Formula {
        unresolved_names: Vec::new(),
        value: NodeValueProjection::Number {
            raw: "1".to_string(),
            display: "1".to_string(),
        },
    };
    assert_eq!(unresolved_name_note(&clean_formula), None);

    let dirty_formula = GridEntryOutcomeProjection::Formula {
        unresolved_names: vec!["TaxRate".to_string()],
        value: NodeValueProjection::Error("#NAME?".to_string()),
    };
    let note = unresolved_name_note(&dirty_formula).expect("a note for an undefined name");
    assert!(note.contains("TaxRate"), "the note names the missing name");
    assert!(note.contains("#NAME?"), "the note carries the error hint");
}

#[test]
fn unresolved_name_note_joins_every_missing_name() {
    let formula = GridEntryOutcomeProjection::Formula {
        unresolved_names: vec!["a".to_string(), "b".to_string()],
        value: NodeValueProjection::Error("#NAME?".to_string()),
    };
    assert_eq!(
        unresolved_name_note(&formula).unwrap(),
        "#NAME? \u{2014} a, b is not defined; it self-heals once the name exists"
    );
}

#[test]
fn feedback_from_rejection_is_a_rejection() {
    let diagnostics = vec![diagnostic("bad formula", None)];
    let result = EntryCommitResult::Rejected {
        diagnostics: diagnostics.clone(),
    };
    let feedback = EntryFeedback::from_result(&result);
    assert!(feedback.is_rejection());
    assert_eq!(feedback, EntryFeedback::Rejected { diagnostics });
}

#[test]
fn feedback_from_clean_commit_is_none() {
    let result = EntryCommitResult::Committed {
        outcome: Some(GridEntryOutcomeProjection::Cleared),
    };
    assert_eq!(EntryFeedback::from_result(&result), EntryFeedback::NoFeedback);
    assert!(!EntryFeedback::from_result(&result).is_rejection());
}

#[test]
fn feedback_from_unresolved_formula_carries_the_note() {
    let result = EntryCommitResult::Committed {
        outcome: Some(GridEntryOutcomeProjection::Formula {
            unresolved_names: vec!["monthly".to_string()],
            value: NodeValueProjection::Error("#NAME?".to_string()),
        }),
    };
    let feedback = EntryFeedback::from_result(&result);
    let EntryFeedback::UnresolvedNames { note } = feedback else {
        panic!("expected an unresolved-names feedback");
    };
    assert!(note.contains("monthly"));
}

#[test]
fn other_error_feedback_is_a_rejection_that_holds_the_editor_open() {
    let result = EntryCommitResult::OtherError {
        message: "the engine rejected this change".to_string(),
    };
    assert!(EntryFeedback::from_result(&result).is_rejection());
}

#[test]
fn editor_enter_commits_one_intent_at_its_own_cell_and_closes() {
    let mut dispatcher = InMemoryDispatcher::new(SelectionState::default());
    let mut editor = CellEntryEditor::new(NodeId::new("Sheet1"), 4, 2, "1");
    editor.input("=A1*2");
    editor.key_down("Enter", &mut dispatcher);
    let intents = dispatcher.intents();
    assert_eq!(intents.len(), 1);
    assert_eq!(
        intents[0],
        WorkspaceIntent::EnterGridCell {
            grid: NodeId::new("Sheet1"),
            row: 4,
            col: 2,
            text: "=A1*2".to_string(),
        }
    );
    assert!(!editor.editing);
    assert_eq!(editor.committed, "=A1*2");
    assert_eq!(editor.feedback, EntryFeedback::NoFeedback);
}

#[test]
fn editor_escape_reverts_and_dispatches_nothing() {
    let mut dispatcher = InMemoryDispatcher::new(SelectionState::default());
    let mut editor = CellEntryEditor::new(NodeId::new("Sheet1"), 1, 1, "seed");
    editor.input("typed");
    editor.key_down("Escape", &mut dispatcher);
    assert!(dispatcher.intents().is_empty());
    assert_eq!(editor.buffer, "seed");
    assert!(!editor.editing);
    editor.key_down("a", &mut dispatcher);
    assert!(dispatcher.intents().is_empty());
}

use dnacalc::cell_entry::span_badge_text;
use dnacalc::key_chord::is_text_entry_element;

#[test]
fn diagnostic_span_badge_names_the_character_range() {
    assert_eq!(
        span_badge_text(&diagnostic("bad", Some((3, 7)))),
        Some("chars 3\u{2013}7".to_string())
    );
    assert_eq!(span_badge_text(&diagnostic("bad", None)), None);
}

#[test]
fn text_entry_elements_are_inputs_and_editable_content() {
    assert!(is_text_entry_element("INPUT", None));
    assert!(is_text_entry_element("TEXTAREA", None));
    assert!(is_text_entry_element("SELECT", None));
    assert!(is_text_entry_element("DIV", Some("true")));
    assert!(is_text_entry_element("DIV", Some("")));
    assert!(!is_text_entry_element("DIV", Some("false")));
    assert!(!is_text_entry_element("CANVAS", None));
}
