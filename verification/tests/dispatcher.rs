use dnacalc::intent::{
    Dispatcher, InMemoryDispatcher, SelectionState, TableCellSelection, WorkspaceIntent,
};
use dnacalc::projection::NodeId;

#[test]
fn in_memory_dispatcher_applies_select_node_intents() {
    let mut dispatcher = InMemoryDispatcher::new(SelectionState::default());

    let receipt = dispatcher.dispatch(WorkspaceIntent::SelectNode(Some(NodeId::new("Accounts"))));
    assert!(receipt.accepted);

    assert_eq!(
        dispatcher.selection().primary.as_ref().map(NodeId::as_str),
        Some("Accounts")
    );

    let log = dispatcher.intents();
    assert_eq!(log.len(), 1);
    assert!(matches!(
        log[0],
        WorkspaceIntent::SelectNode(Some(ref id)) if id.as_str() == "Accounts"
    ));
}

#[test]
fn in_memory_dispatcher_records_edit_formula_without_applying() {
    let mut dispatcher = InMemoryDispatcher::new(SelectionState::default());
    let receipt = dispatcher.dispatch(WorkspaceIntent::EditFormula {
        node: NodeId::new("Margin"),
        content: "=Net/Income".into(),
    });
    assert!(receipt.accepted);
    assert!(receipt.error.is_none());
    assert_eq!(dispatcher.intents().len(), 1);
    assert_eq!(dispatcher.selection(), &SelectionState::default());
}

#[test]
fn in_memory_dispatcher_selects_a_table_cell_and_clears_the_log() {
    let mut dispatcher =
        InMemoryDispatcher::new(SelectionState::with_primary(Some(NodeId::new("A"))));
    dispatcher.dispatch(WorkspaceIntent::SelectTableCell {
        table: NodeId::new("tbl"),
        row_id: "r1".to_string(),
        column_id: "c2".to_string(),
    });
    assert_eq!(
        dispatcher.selection(),
        &SelectionState::with_table_cell(TableCellSelection {
            table: NodeId::new("tbl"),
            row_id: "r1".to_string(),
            column_id: "c2".to_string(),
        })
    );
    dispatcher.dispatch(WorkspaceIntent::Recalculate);
    assert_eq!(dispatcher.intents().len(), 2);
    dispatcher.clear_log();
    assert!(dispatcher.intents().is_empty());
}
