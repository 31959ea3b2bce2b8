use dnacalc::intent::{
    DefinedNameTargetIntent, InMemoryDispatcher, IntentError, IntentErrorKind, IntentReceipt,
    SelectionState, WorkspaceIntent,
};
use dnacalc::name_form::{
    commit_dynamic_name, commit_rename, commit_static_name, engine_rejection_result,
    name_already_defined,
    name_form_message, next_names_backing_cell, NameCommitResult, NameForm, NameFormFeedback,
    RenameNameForm, NAMES_BACKING_GRID,
};
use dnacalc::projection::NodeId;
use dnacalc::workspace::{
    DefinedNameProjection, DefinedNameScopeProjection, DefinedNameTargetProjection,
    DefinedNamesProjection, GridRectProjection,
};

fn rect(row: u32, col: u32) -> GridRectProjection {
    GridRectProjection {
        top_row: row,
        left_col: col,
        bottom_row: row,
        right_col: col,
    }
}

fn static_name(name: &str, row: u32) -> DefinedNameProjection {
    DefinedNameProjection {
        scope: DefinedNameScopeProjection::Sheet(NodeId::new(NAMES_BACKING_GRID)),
        name: name.to_string(),
        target: DefinedNameTargetProjection::Static(rect(row, 1)),
        is_dynamic: false,
    }
}

fn recording() -> InMemoryDispatcher {
    InMemoryDispatcher::new(SelectionState::default())
}

#[test]
fn commit_static_name_dispatches_enter_then_set_defined_name_in_order() {
    let mut dispatcher = recording();
    let catalog = DefinedNamesProjection::default();

    let result = commit_static_name(&mut dispatcher, &catalog, "rate", "0.065");
    assert_eq!(result, NameCommitResult::Committed);

    let intents = dispatcher.intents();
    assert_eq!(intents.len(), 2, "exactly two intents dispatched");
    match &intents[0] {
        WorkspaceIntent::EnterGridCell {
            grid,
            row,
            col,
            text,
        } => {
            assert_eq!(grid, &NodeId::new(NAMES_BACKING_GRID));
            assert_eq!((*row, *col), (1, 1), "first allocation lands on row 1");
            assert_eq!(text, "0.065");
        }
        other => panic!("expected EnterGridCell first, got {other:?}"),
    }
    match &intents[1] {
        WorkspaceIntent::SetDefinedName {
            scope,
            name,
            target,
        } => {
            assert_eq!(
                scope,
                &DefinedNameScopeProjection::Sheet(NodeId::new(NAMES_BACKING_GRID))
            );
            assert_eq!(name, "rate");
            assert_eq!(target, &DefinedNameTargetIntent::Static(rect(1, 1)));
        }
        other => panic!("expected SetDefinedName second, got {other:?}"),
    }
}

#[test]
fn commit_static_name_appends_past_existing_names() {
    let mut dispatcher = recording();
    let mut catalog = DefinedNamesProjection::default();
    catalog.entries.push(static_name("existing", 1));

    commit_static_name(&mut dispatcher, &catalog, "second", "1");

    let intents = dispatcher.intents();
    match &intents[0] {
        WorkspaceIntent::EnterGridCell { row, col, .. } => {
            assert_eq!((*row, *col), (2, 1), "appends at row 2, not colliding with row 1");
        }
        other => panic!("expected EnterGridCell, got {other:?}"),
    }
}

#[test]
fn commit_static_name_rejects_duplicate_before_any_dispatch() {
    let mut dispatcher = recording();
    let mut catalog = DefinedNamesProjection::default();
    catalog.entries.push(static_name("rate", 1));

    let result = commit_static_name(&mut dispatcher, &catalog, "rate", "0.07");
    assert_eq!(
        result,
        NameCommitResult::DuplicateName {
            name: "rate".to_string()
        }
    );
    assert!(dispatcher.intents().is_empty(), "a duplicate name dispatches nothing at all");
}

#[test]
fn commit_rename_dispatches_only_rename_defined_name() {
    let mut dispatcher = recording();
    let receipt = commit_rename(
        &mut dispatcher,
        DefinedNameScopeProjection::Sheet(NodeId::new(NAMES_BACKING_GRID)),
        "rate",
        "taxRate",
    );
    assert!(receipt.accepted);

    let intents = dispatcher.intents();
    assert_eq!(intents.len(), 1, "exactly one intent dispatched");
    match &intents[0] {
        WorkspaceIntent::RenameDefinedName {
            old_name, new_name, ..
        } => {
            assert_eq!(old_name, "rate");
            assert_eq!(new_name, "taxRate");
        }
        other => panic!("expected RenameDefinedName, got {other:?}"),
    }
}

#[test]
fn commit_dynamic_name_dispatches_only_set_defined_name() {
    let mut dispatcher = recording();
    let catalog = DefinedNamesProjection::default();

    let result = commit_dynamic_name(&mut dispatcher, &catalog, "monthly", "=PMT(rate/12,360,-1)");
    assert_eq!(result, NameCommitResult::Committed);

    let intents = dispatcher.intents();
    assert_eq!(intents.len(), 1);
    match &intents[0] {
        WorkspaceIntent::SetDefinedName { name, target, .. } => {
            assert_eq!(name, "monthly");
            assert_eq!(
                target,
                &DefinedNameTargetIntent::Dynamic {
                    source_text: "=PMT(rate/12,360,-1)".to_string()
                }
            );
        }
        other => panic!("expected SetDefinedName, got {other:?}"),
    }
}

#[test]
fn next_names_backing_cell_starts_at_row_one() {
    let catalog = DefinedNamesProjection::default();
    let (grid, row, col) = next_names_backing_cell(&catalog);
    assert_eq!(grid, NodeId::new(NAMES_BACKING_GRID));
    assert_eq!((row, col), (1, 1));
}

#[test]
fn next_names_backing_cell_skips_other_grids_and_dynamic_names() {
    let mut catalog = DefinedNamesProjection::default();
    catalog.entries.push(static_name("a", 3));
    catalog.entries.push(static_name("b", 7));
    catalog.entries.push(static_name("c", 5));
    catalog.entries.push(DefinedNameProjection {
        scope: DefinedNameScopeProjection::Sheet(NodeId::new("Sheet1")),
        name: "elsewhere".to_string(),
        target: DefinedNameTargetProjection::Static(rect(40, 1)),
        is_dynamic: false,
    });
    catalog.entries.push(DefinedNameProjection {
        scope: DefinedNameScopeProjection::Sheet(NodeId::new(NAMES_BACKING_GRID)),
        name: "formula".to_string(),
        target: DefinedNameTargetProjection::Dynamic {
            source_text: "=1".to_string(),
        },
        is_dynamic: true,
    });
    let (_, row, col) = next_names_backing_cell(&catalog);
    assert_eq!((row, col), (8, 1));
}

#[test]
fn name_already_defined_checks_any_scope() {
    let mut catalog = DefinedNamesProjection::default();
    catalog.entries.push(DefinedNameProjection {
        scope: DefinedNameScopeProjection::Workbook,
        name: "Total".to_string(),
        target: DefinedNameTargetProjection::Static(rect(5, 5)),
        is_dynamic: false,
    });
    assert!(name_already_defined(&catalog, "Total"));
    assert!(!name_already_defined(&catalog, "Other"));
}

fn rejected(kind: IntentErrorKind, message: &str) -> IntentReceipt {
    IntentReceipt::rejected(IntentError {
        kind,
        debug_text: String::new(),
        message: message.to_string(),
    })
}

#[test]
fn engine_rejection_messages_name_the_collision() {
    let collision = rejected(
        IntentErrorKind::DefinedNameCollision {
            name: "rate".to_string(),
        },
        "name collision",
    );
    assert_eq!(
        engine_rejection_result(&collision),
        NameCommitResult::EngineRejected {
            message: "'rate' collides with an existing name or node".to_string()
        }
    );
    let other = rejected(IntentErrorKind::Other, "unsupported intent");
    assert_eq!(
        engine_rejection_result(&other),
        NameCommitResult::EngineRejected {
            message: "unsupported intent".to_string()
        }
    );
    let mut bare = IntentReceipt::accepted();
    bare.accepted = false;
    assert_eq!(
        engine_rejection_result(&bare),
        NameCommitResult::EngineRejected {
            message: "the engine rejected this change".to_string()
        }
    );
}

#[test]
fn name_form_feedback_tracks_the_commit_result() {
    assert_eq!(
        NameFormFeedback::from_result(&NameCommitResult::Committed),
        NameFormFeedback::NoFeedback
    );
    let duplicate = NameFormFeedback::from_result(&NameCommitResult::DuplicateName {
        name: "x".to_string(),
    });
    assert!(duplicate.is_rejection());
    assert_eq!(
        name_form_message(&duplicate).unwrap(),
        "'x' is already defined \u{2014} choose a different name"
    );
    assert!(!NameFormFeedback::NoFeedback.is_rejection());
}

#[test]
fn name_form_blank_name_does_nothing_and_a_commit_closes() {
    let mut dispatcher = recording();
    let catalog = DefinedNamesProjection::default();
    let mut form = NameForm::new();
    form.name_buffer = "   ".to_string();
    form.commit(&mut dispatcher, &catalog);
    assert!(dispatcher.intents().is_empty());
    assert!(form.open);

    form.name_buffer = "rate".to_string();
    form.body_buffer = "0.065".to_string();
    form.commit(&mut dispatcher, &catalog);
    assert_eq!(dispatcher.intents().len(), 2);
    assert!(!form.open);
    assert!(form.name_buffer.is_empty() && form.body_buffer.is_empty());
}

#[test]
fn name_form_duplicate_stays_open_with_its_text() {
    let mut dispatcher = recording();
    let mut catalog = DefinedNamesProjection::default();
    catalog.entries.push(static_name("rate", 1));
    let mut form = NameForm::new();
    form.name_buffer = "rate".to_string();
    form.body_buffer = "2".to_string();
    form.commit(&mut dispatcher, &catalog);
    assert!(dispatcher.intents().is_empty());
    assert!(form.open);
    assert_eq!(form.name_buffer, "rate");
    assert_eq!(
        form.feedback,
        NameFormFeedback::DuplicateName {
            name: "rate".to_string()
        }
    );
}

#[test]
fn rename_form_unchanged_name_dispatches_nothing() {
    let mut dispatcher = recording();
    let mut form = RenameNameForm::new(DefinedNameScopeProjection::Workbook, "rate");
    form.commit(&mut dispatcher);
    assert!(dispatcher.intents().is_empty());
    assert!(!form.editing);

    let mut form = RenameNameForm::new(DefinedNameScopeProjection::Workbook, "rate");
    form.buffer = "taxRate".to_string();
    form.commit(&mut dispatcher);
    assert_eq!(dispatcher.intents().len(), 1);
    assert!(!form.editing);
}

#[test]
fn rename_form_escape_restores_the_current_name() {
    let mut form = RenameNameForm::new(DefinedNameScopeProjection::Workbook, "old");
    form.buffer = "rate".to_string();
    form.revert();
    assert_eq!(form.buffer, "old");
    assert!(!form.editing);
    assert_eq!(form.feedback, NameFormFeedback::NoFeedback);
}

use dnacalc::name_form::rename_form_message;

#[test]
fn rename_form_message_names_the_taken_name_or_shows_the_engine_text() {
    let duplicate = NameFormFeedback::DuplicateName {
        name: "Rate".to_string(),
    };
    assert_eq!(
        rename_form_message(&duplicate).as_deref(),
        Some("'Rate' is already defined")
    );
    let rejected = NameFormFeedback::EngineRejected {
        message: "invalid name".to_string(),
    };
    assert_eq!(rename_form_message(&rejected).as_deref(), Some("invalid name"));
    assert_eq!(rename_form_message(&NameFormFeedback::NoFeedback), None);
}
