use dnacalc::intent::{InMemoryDispatcher, SelectionState, WorkspaceIntent};
use dnacalc::projection::{NodeId, NodeValueProjection};
use dnacalc::sheet_keys::SelectKeyDecision;
use dnacalc::sheet_session::{CommitAdvance, SheetSession};
use dnacalc::sheet_stage::PointerSelectDecision;
use dnacalc::sheet_viewport::EDGE_JUMP_DEGRADE_REASON;
use dnacalc::workspace::{
    GridAuthoredCellProjection, GridAuthoredKindProjection, GridCellProjection,
    GridEditabilityProjection, GridOverlayBundle, GridProjection, SheetProjection, WorkspaceState,
};

fn workspace(max_rows: u32, max_cols: u32) -> WorkspaceState {
    let mut ws = WorkspaceState::default();
    ws.sheets.push(SheetProjection {
        grid_node_id: NodeId::new("sheet:Sheet1"),
        display_name: "Sheet1".to_string(),
        position: 0,
    });
    ws.grids.push(GridProjection {
        grid_node_id: NodeId::new("sheet:Sheet1"),
        max_rows,
        max_cols,
        cells: vec![GridCellProjection {
            row: 2,
            col: 1,
            value: NodeValueProjection::Text("7".to_string()),
            authored: Some(GridAuthoredCellProjection {
                row: 2,
                col: 1,
                kind: GridAuthoredKindProjection::Formula,
                literal_text: None,
                source_text: Some("=3+4".to_string()),
                editability: GridEditabilityProjection::Editable,
            }),
        }],
        overlays: GridOverlayBundle {
            tables: Vec::new(),
            spills: Vec::new(),
            merged: Vec::new(),
        },
    });
    ws
}

#[test]
fn keys_move_degrade_and_open_the_editor() {
    let ws = workspace(5, 3);
    let grid = NodeId::new("sheet:Sheet1");
    let mut session = SheetSession::new();

    assert!(session.apply_key(SelectKeyDecision::MoveTo { cell: (2, 1) }, &ws, &grid));
    assert_eq!(session.active_cell, Some((2, 1)));
    assert!(!session.editing);

    assert!(session.apply_key(SelectKeyDecision::Degrade { reason: "range is G3" }, &ws, &grid));
    assert_eq!(session.note, Some("range is G3"));
    assert_eq!(session.active_cell, Some((2, 1)));

    assert!(session.apply_key(SelectKeyDecision::BeginEdit { cell: (2, 1) }, &ws, &grid));
    assert!(session.editing);
    assert_eq!(session.edit_text, "=3+4");
    assert_eq!(session.note, None);
    assert_eq!(session.revision, 1);

    session.revert();
    assert!(!session.editing);
    assert_eq!(session.active_cell, Some((2, 1)));

    assert!(session.apply_key(SelectKeyDecision::TypeToReplace { cell: (3, 2), ch: 'q' }, &ws, &grid));
    assert_eq!(session.edit_text, "q");
    assert_eq!(session.active_cell, Some((3, 2)));

    assert!(session.apply_key(SelectKeyDecision::EdgeJump { cell: (5, 2) }, &ws, &grid));
    assert_eq!(session.active_cell, Some((5, 2)));
    assert_eq!(session.note, Some(EDGE_JUMP_DEGRADE_REASON));

    assert!(session.apply_key(SelectKeyDecision::ClearNote, &ws, &grid));
    assert_eq!(session.note, None);

    let before = session.clone();
    assert!(!session.apply_key(SelectKeyDecision::Bubble, &ws, &grid));
    assert_eq!(session, before);
}

#[test]
fn an_accepted_commit_writes_the_active_cell_and_advances() {
    let ws = workspace(3, 3);
    let grid = NodeId::new("sheet:Sheet1");
    let mut dispatcher = InMemoryDispatcher::new(SelectionState::default());
    let mut session = SheetSession::new();
    session.open_editor(2, 1, String::new());
    session.text_edited("=A1+1".to_string());
    session.commit(&mut dispatcher, &ws, &grid, CommitAdvance::Down);
    assert_eq!(
        dispatcher.intents(),
        vec![WorkspaceIntent::EnterGridCell {
            grid: grid.clone(),
            row: 2,
            col: 1,
            text: "=A1+1".to_string(),
        }]
    );
    assert!(!session.editing);
    assert_eq!(session.active_cell, Some((3, 1)));

    // At the last row an Enter-commit stays put; a Tab-commit moves right.
    session.open_editor(3, 1, "x".to_string());
    session.commit(&mut dispatcher, &ws, &grid, CommitAdvance::Down);
    assert_eq!(session.active_cell, Some((3, 1)));
    session.open_editor(3, 1, "y".to_string());
    session.commit(&mut dispatcher, &ws, &grid, CommitAdvance::Right);
    assert_eq!(session.active_cell, Some((3, 2)));
    assert_eq!(dispatcher.intents().len(), 3);
}

#[test]
fn pointer_selects_without_editing_and_double_click_edits() {
    let ws = workspace(5, 3);
    let grid = NodeId::new("sheet:Sheet1");
    let mut session = SheetSession::new();
    session.open_editor(1, 1, "draft".to_string());
    session.apply_pointer(PointerSelectDecision::Select { row: 2, col: 1 });
    assert_eq!(session.active_cell, Some((2, 1)));
    assert!(!session.editing);

    session.apply_pointer(PointerSelectDecision::Degrade { reason: "bands are G3" });
    assert_eq!(session.note, Some("bands are G3"));
    let before = session.clone();
    session.apply_pointer(PointerSelectDecision::Ignore);
    assert_eq!(session, before);

    session.double_click(Some((2, 1)), &ws, &grid);
    assert!(session.editing);
    assert_eq!(session.edit_text, "=3+4");
    let before = session.clone();
    session.double_click(None, &ws, &grid);
    assert_eq!(session, before);
}
