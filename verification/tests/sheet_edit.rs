use dnacalc::cell_edit::{
    authored_seed_text, current_authored_seed, editability_note, enter_cell_intent, entered_cell,
    interpret_receipt, node_value_display, CellOutcome,
};
use dnacalc::intent::{
    GridEntryDiagnosticProjection, GridEntryOutcomeProjection, IntentError, IntentErrorKind,
    IntentReceipt, WorkspaceDelta, WorkspaceDeltaChange, WorkspaceIntent,
};
use dnacalc::projection::{NodeId, NodeValueProjection};
use dnacalc::sheet_stage::{active_grid, resolve_cell_edit_target, CellEditTarget, HitTarget};
use dnacalc::workspace::{
    GridAuthoredCellProjection, GridAuthoredKindProjection, GridCellProjection,
    GridCellRefProjection, GridEditabilityProjection, GridOverlayBundle, GridProjection,
    SheetProjection, WorkspaceState,
};

fn entered(row: u32, col: u32, outcome: GridEntryOutcomeProjection) -> IntentReceipt {
    IntentReceipt::accepted().with_delta(WorkspaceDelta {
        changes: vec![
            WorkspaceDeltaChange::GridAuthoredChanged {
                grid_node_id: NodeId::new("Sheet1"),
            },
            WorkspaceDeltaChange::GridCellEntered {
                grid_node_id: NodeId::new("Sheet1"),
                row,
                col,
                outcome,
            },
        ],
    })
}

fn number(display: &str) -> NodeValueProjection {
    NodeValueProjection::Number {
        raw: display.to_string(),
        display: display.to_string(),
    }
}

fn authored(row: u32, col: u32, literal: Option<&str>, source: Option<&str>, editability: GridEditabilityProjection) -> GridAuthoredCellProjection {
    GridAuthoredCellProjection {
        row,
        col,
        kind: if source.is_some() {
            GridAuthoredKindProjection::Formula
        } else {
            GridAuthoredKindProjection::Literal
        },
        literal_text: literal.map(str::to_string),
        source_text: source.map(str::to_string),
        editability,
    }
}

fn demo_workspace() -> WorkspaceState {
    let cells = vec![
        GridCellProjection {
            row: 1,
            col: 1,
            value: number("1"),
            authored: Some(authored(1, 1, Some("1"), None, GridEditabilityProjection::Editable)),
        },
        GridCellProjection {
            row: 1,
            col: 2,
            value: number("10"),
            authored: Some(authored(1, 2, None, Some("=A1*10"), GridEditabilityProjection::Editable)),
        },
        GridCellProjection {
            row: 2,
            col: 2,
            value: number("10"),
            authored: Some(authored(
                2,
                2,
                None,
                None,
                GridEditabilityProjection::SpillDisplay {
                    anchor: GridCellRefProjection { row: 1, col: 2 },
                },
            )),
        },
        GridCellProjection {
            row: 3,
            col: 3,
            value: NodeValueProjection::Empty,
            authored: None,
        },
    ];
    let mut ws = WorkspaceState::default();
    ws.sheets.push(SheetProjection {
        grid_node_id: NodeId::new("sheet:Sheet1"),
        display_name: "Sheet1".to_string(),
        position: 0,
    });
    ws.grids.push(GridProjection {
        grid_node_id: NodeId::new("sheet:Sheet1"),
        max_rows: 5,
        max_cols: 3,
        cells,
        overlays: GridOverlayBundle {
            tables: Vec::new(),
            spills: Vec::new(),
            merged: Vec::new(),
        },
    });
    ws
}

#[test]
fn active_grid_is_honest_none_for_an_empty_workspace() {
    let ws = WorkspaceState::default();
    assert!(active_grid(&ws).is_none(), "no grid is fabricated for an empty workspace");
}

#[test]
fn active_grid_is_the_first_sheets_grid() {
    let ws = demo_workspace();
    let grid = active_grid(&ws).expect("the first sheet's grid resolves");
    assert_eq!(grid.grid_node_id, NodeId::new("sheet:Sheet1"));
    assert_eq!((grid.max_rows, grid.max_cols), (5, 3));
}

#[test]
fn enter_cell_intent_carries_the_callers_own_address() {
    assert_eq!(
        enter_cell_intent(NodeId::new("g"), 3, 1, "=A1+A5".to_string()),
        WorkspaceIntent::EnterGridCell {
            grid: NodeId::new("g"),
            row: 3,
            col: 1,
            text: "=A1+A5".to_string(),
        }
    );
}

#[test]
fn interpret_receipt_reads_the_three_way_outcome() {
    let literal = entered(2, 1, GridEntryOutcomeProjection::Literal { value: number("99") });
    assert_eq!(entered_cell(&literal), Some((NodeId::new("Sheet1"), 2, 1)));
    assert_eq!(
        interpret_receipt(&literal),
        CellOutcome::Literal {
            value: "99".to_string()
        }
    );
    let formula = entered(
        3,
        1,
        GridEntryOutcomeProjection::Formula {
            unresolved_names: Vec::new(),
            value: number("6"),
        },
    );
    assert_eq!(
        interpret_receipt(&formula),
        CellOutcome::Formula {
            value: "6".to_string(),
            unresolved: Vec::new()
        }
    );
    let cleared = entered(4, 1, GridEntryOutcomeProjection::Cleared);
    assert_eq!(interpret_receipt(&cleared), CellOutcome::Cleared);
    assert_eq!(interpret_receipt(&cleared).label(), "cleared");
    assert_eq!(interpret_receipt(&IntentReceipt::accepted()), CellOutcome::NoChange);
    assert_eq!(entered_cell(&IntentReceipt::accepted()), None);
}

#[test]
fn interpret_receipt_reports_rejections_with_diagnostics() {
    let diagnostics = vec![GridEntryDiagnosticProjection {
        message: "unexpected end of formula".to_string(),
        span: Some((3, 3)),
    }];
    let typed = IntentReceipt::rejected(IntentError {
        kind: IntentErrorKind::GridEntryRejected {
            diagnostics: diagnostics.clone(),
        },
        debug_text: "GridEntryRejected".to_string(),
        message: "rejected".to_string(),
    });
    assert_eq!(interpret_receipt(&typed), CellOutcome::Rejected(diagnostics));
    let other = IntentReceipt::rejected(IntentError {
        kind: IntentErrorKind::Other,
        debug_text: "Unsupported".to_string(),
        message: "unsupported intent".to_string(),
    });
    assert_eq!(
        interpret_receipt(&other),
        CellOutcome::Rejected(vec![GridEntryDiagnosticProjection {
            message: "Unsupported".to_string(),
            span: None
        }])
    );
    let bare = IntentReceipt {
        accepted: false,
        error: None,
        delta: WorkspaceDelta { changes: Vec::new() },
    };
    assert_eq!(
        interpret_receipt(&bare),
        CellOutcome::Rejected(vec![GridEntryDiagnosticProjection {
            message: "rejected without a diagnostic".to_string(),
            span: None
        }])
    );
    assert_eq!(interpret_receipt(&bare).label(), "rejected");
}

#[test]
fn node_value_display_renders_scalars_errors_and_array_shapes() {
    assert_eq!(node_value_display(&number("3.5")), "3.5");
    assert_eq!(node_value_display(&NodeValueProjection::Pending), "(pending)");
    assert_eq!(
        node_value_display(&NodeValueProjection::Error("#DIV/0!".to_string())),
        "Error(\"#DIV/0!\")"
    );
    assert_eq!(
        node_value_display(&NodeValueProjection::Array {
            rows: 1,
            cols: 1,
            cells: vec![vec![NodeValueProjection::Empty]]
        }),
        "1\u{00d7}1 array"
    );
}

#[test]
fn seed_and_editability_read_the_authored_record() {
    let ws = demo_workspace();
    let grid = NodeId::new("sheet:Sheet1");
    assert_eq!(current_authored_seed(&ws, &grid, 1, 1), "1");
    assert_eq!(current_authored_seed(&ws, &grid, 1, 2), "=A1*10");
    assert_eq!(current_authored_seed(&ws, &grid, 3, 3), "");
    assert_eq!(current_authored_seed(&ws, &grid, 50, 50), "");
    assert_eq!(current_authored_seed(&ws, &NodeId::new("nope"), 1, 1), "");
    assert_eq!(
        authored_seed_text(&authored(1, 1, Some("lit"), Some("=src"), GridEditabilityProjection::Editable)),
        "=src"
    );

    assert_eq!(editability_note(&GridEditabilityProjection::Editable), None);
    assert!(editability_note(&GridEditabilityProjection::SpillDisplay {
        anchor: GridCellRefProjection { row: 1, col: 1 },
    })
    .is_some());
    assert_eq!(
        editability_note(&GridEditabilityProjection::MergedFollower),
        Some("read-only \u{2014} follower of a merged region")
    );
}

#[test]
fn resolve_cell_edit_target_gates_the_overlay_editor() {
    let ws = demo_workspace();
    assert_eq!(
        resolve_cell_edit_target(&ws, 1, 1),
        Some(CellEditTarget::Editable {
            grid: NodeId::new("sheet:Sheet1")
        })
    );
    assert_eq!(
        resolve_cell_edit_target(&ws, 2, 2),
        Some(CellEditTarget::ReadOnly {
            reason: "read-only \u{2014} spilled from an array formula"
        })
    );
    assert_eq!(
        resolve_cell_edit_target(&ws, 4, 4),
        Some(CellEditTarget::Editable {
            grid: NodeId::new("sheet:Sheet1")
        })
    );
    assert_eq!(resolve_cell_edit_target(&WorkspaceState::default(), 1, 1), None);
    assert_ne!(HitTarget::Corner, HitTarget::Outside);
}
