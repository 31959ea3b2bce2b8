use dnacalc::cell_edit::CellOutcome;
use dnacalc::intent::{
    GridEntryDiagnosticProjection, GridEntryOutcomeProjection, InMemoryDispatcher,
    SelectionState, WorkspaceIntent,
};
use dnacalc::notebook_blocks::{
    block_dom_key, classification_label, commit_block, css_escape_attr_value,
    delete_impact_intent, describe_delete_impact, dispatch_cell_clear, entry_kind_glyph,
    entry_kind_id, live_block_keys, liveness_id, next_cell_key, outcome_detail,
    persona_allows_authoring, preview_block_delete, reference_xray_available, scalar_value_text,
    table_shape_summary, BlockEditState, DeletePreview, MutationImpactBlockedReasonProjection,
    MutationImpactIntentProjection, MutationImpactProjection, Persona, PreviewError,
    PreviewService, NOTEBOOK_CSS, REFERENCE_XRAY_DEGRADE_NOTE,
};
use dnacalc::notebook_model::{
    derive_entries, entry_classification, NodeClassification, NotebookEntryKind,
};
use dnacalc::projection::{array_shape_summary, GridOverlayRect, NodeId, NodeValueProjection};
use dnacalc::workspace::{
    DefinedNameProjection, DefinedNameScopeProjection, DefinedNameTargetProjection,
    GridAuthoredCellProjection, GridAuthoredKindProjection, GridCellProjection,
    GridEditabilityProjection, GridOverlayBundle, GridProjection, GridRectProjection,
    GridTableColumnOverlay, GridTableOverlayDescriptor, SheetProjection, WorkspaceState,
};

fn name(name_text: &str, target: DefinedNameTargetProjection, is_dynamic: bool) -> DefinedNameProjection {
    DefinedNameProjection {
        scope: DefinedNameScopeProjection::Sheet(NodeId::new("Sheet1")),
        name: name_text.to_string(),
        target,
        is_dynamic,
    }
}

fn static_rect(row: u32, col: u32) -> GridRectProjection {
    GridRectProjection {
        top_row: row,
        left_col: col,
        bottom_row: row,
        right_col: col,
    }
}

fn authored_cell(
    row: u32,
    col: u32,
    kind: GridAuthoredKindProjection,
    literal_text: Option<&str>,
    source_text: Option<&str>,
) -> GridAuthoredCellProjection {
    GridAuthoredCellProjection {
        row,
        col,
        kind,
        literal_text: literal_text.map(str::to_string),
        source_text: source_text.map(str::to_string),
        editability: GridEditabilityProjection::Editable,
    }
}

fn value_number(display: &str) -> NodeValueProjection {
    NodeValueProjection::Number {
        raw: display.to_string(),
        display: display.to_string(),
    }
}

fn cell_projection(
    row: u32,
    col: u32,
    value: NodeValueProjection,
    authored: Option<GridAuthoredCellProjection>,
) -> GridCellProjection {
    GridCellProjection {
        row,
        col,
        value,
        authored,
    }
}

fn table_overlay(name: &str, top_row: u32, left_col: u32, bottom_row: u32, right_col: u32) -> GridTableOverlayDescriptor {
    GridTableOverlayDescriptor {
        table_name: name.to_string(),
        table_range: GridOverlayRect {
            top_row,
            left_col,
            bottom_row,
            right_col,
            clipped_top: false,
            clipped_left: false,
            clipped_bottom: false,
            clipped_right: false,
        },
        header_rect: None,
        totals_rect: None,
        columns: Vec::new(),
    }
}

fn grid_projection(id: &str, cells: Vec<GridCellProjection>, tables: Vec<GridTableOverlayDescriptor>) -> GridProjection {
    GridProjection {
        grid_node_id: NodeId::new(id),
        max_rows: 1000,
        max_cols: 100,
        cells,
        overlays: GridOverlayBundle {
            tables,
            spills: Vec::new(),
            merged: Vec::new(),
        },
    }
}

fn literal_cell(row: u32, col: u32, text: &str) -> GridCellProjection {
    cell_projection(
        row,
        col,
        value_number(text),
        Some(authored_cell(row, col, GridAuthoredKindProjection::Literal, Some(text), None)),
    )
}

#[test]
fn derive_entries_returns_four_entries_in_default_order() {
    let mut ws = WorkspaceState::default();
    ws.defined_names.entries.push(name(
        "rate",
        DefinedNameTargetProjection::Static(static_rect(1, 1)),
        false,
    ));
    ws.defined_names.entries.push(name(
        "monthly",
        DefinedNameTargetProjection::Dynamic {
            source_text: "=PMT(rate/12,360,-1)".to_string(),
        },
        true,
    ));
    let rate_cell = authored_cell(1, 1, GridAuthoredKindProjection::Literal, Some("0.065"), None);
    let uncovered_cell = authored_cell(2, 1, GridAuthoredKindProjection::Formula, None, Some("=1+1"));
    let table_cell = authored_cell(3, 1, GridAuthoredKindProjection::Literal, Some("base"), None);
    let cells = vec![
        cell_projection(1, 1, value_number("0.065"), Some(rate_cell)),
        cell_projection(2, 1, value_number("2"), Some(uncovered_cell)),
        cell_projection(3, 1, NodeValueProjection::Text("base".to_string()), Some(table_cell)),
    ];
    let tables = vec![table_overlay("Scenarios", 3, 1, 4, 2)];
    ws.grids.push(grid_projection("Sheet1", cells, tables));

    let entries = derive_entries(&ws);
    assert_eq!(entries.len(), 4, "2 names + 1 uncovered cell + 1 table");
    assert_eq!(entries[0].display_name, "rate");
    assert!(matches!(entries[0].kind, NotebookEntryKind::Name { .. }));
    assert_eq!(entries[1].display_name, "monthly");
    assert!(matches!(entries[1].kind, NotebookEntryKind::Name { .. }));
    assert!(matches!(entries[2].kind, NotebookEntryKind::Cell { .. }));
    assert_eq!(entries[2].display_name, "Sheet1!R2C1");
    assert!(matches!(entries[3].kind, NotebookEntryKind::Table { .. }));
    assert_eq!(entries[3].display_name, "Scenarios");

    assert_eq!(entries[0].classification, NodeClassification::Input);
    assert_eq!(entries[1].classification, NodeClassification::Intermediate);
    assert_eq!(entries[2].classification, NodeClassification::Output);
    assert_eq!(entries[3].classification, NodeClassification::Intermediate);
    match &entries[0].kind {
        NotebookEntryKind::Name { backing_cell, .. } => {
            let cell = backing_cell.as_ref().expect("the window covers the backing cell");
            assert_eq!((cell.row, cell.col), (1, 1));
        }
        _ => unreachable!(),
    }
}

#[test]
fn entry_classification_maps_authored_metadata_per_kind() {
    let empty = authored_cell(1, 1, GridAuthoredKindProjection::Empty, None, None);
    assert_eq!(entry_classification(&empty, None), NodeClassification::Empty);
    let rich_stub = authored_cell(1, 1, GridAuthoredKindProjection::RichStub, None, None);
    assert_eq!(entry_classification(&rich_stub, None), NodeClassification::Empty);

    let literal = authored_cell(1, 1, GridAuthoredKindProjection::Literal, Some("1"), None);
    assert_eq!(entry_classification(&literal, None), NodeClassification::FreeValue);

    let static_name = name("rate", DefinedNameTargetProjection::Static(static_rect(1, 1)), false);
    assert_eq!(entry_classification(&literal, Some(&static_name)), NodeClassification::Input);

    let formula = authored_cell(2, 1, GridAuthoredKindProjection::Formula, None, Some("=1+1"));
    assert_eq!(entry_classification(&formula, None), NodeClassification::Output);

    let dynamic_name = name(
        "monthly",
        DefinedNameTargetProjection::Dynamic {
            source_text: "=1+1".to_string(),
        },
        true,
    );
    assert_eq!(entry_classification(&formula, Some(&dynamic_name)), NodeClassification::Intermediate);

    let static_name_over_formula = name(
        "static_over_formula",
        DefinedNameTargetProjection::Static(static_rect(2, 1)),
        false,
    );
    assert_eq!(
        entry_classification(&formula, Some(&static_name_over_formula)),
        NodeClassification::Output
    );
}

#[test]
fn derive_entries_excludes_cells_covered_by_a_workbook_scoped_name() {
    let mut ws = WorkspaceState::default();
    ws.defined_names.entries.push(DefinedNameProjection {
        scope: DefinedNameScopeProjection::Workbook,
        name: "total".to_string(),
        target: DefinedNameTargetProjection::Static(static_rect(5, 5)),
        is_dynamic: false,
    });
    let covered = authored_cell(5, 5, GridAuthoredKindProjection::Literal, Some("1"), None);
    let cells = vec![cell_projection(5, 5, value_number("1"), Some(covered))];
    ws.grids.push(grid_projection("Sheet1", cells, Vec::new()));

    let entries = derive_entries(&ws);
    assert_eq!(entries.len(), 1);
    assert!(matches!(entries[0].kind, NotebookEntryKind::Name { .. }));
}

#[test]
fn derive_entries_skips_empty_authored_cells() {
    let mut ws = WorkspaceState::default();
    let empty = authored_cell(1, 1, GridAuthoredKindProjection::Empty, None, None);
    let cells = vec![cell_projection(1, 1, NodeValueProjection::Empty, Some(empty))];
    ws.grids.push(grid_projection("Sheet1", cells, Vec::new()));
    assert_eq!(derive_entries(&ws).len(), 0);
}

#[test]
fn workbook_name_covers_nothing_across_several_grids() {
    let mut ws = WorkspaceState::default();
    ws.defined_names.entries.push(DefinedNameProjection {
        scope: DefinedNameScopeProjection::Workbook,
        name: "GrowthRate".to_string(),
        target: DefinedNameTargetProjection::Static(static_rect(1, 1)),
        is_dynamic: false,
    });
    ws.sheets.push(SheetProjection {
        grid_node_id: NodeId::new("_names"),
        display_name: "_names".to_string(),
        position: 2,
    });
    ws.grids.push(grid_projection("Sheet1", vec![literal_cell(1, 1, "1")], Vec::new()));
    ws.grids.push(grid_projection("Sheet2", vec![literal_cell(1, 1, "6")], Vec::new()));
    ws.grids.push(grid_projection(
        "_names",
        vec![literal_cell(1, 1, "0.12")],
        vec![table_overlay("Hidden", 5, 1, 6, 1)],
    ));
    let entries = derive_entries(&ws);
    let labels: Vec<&str> = entries.iter().map(|e| e.display_name.as_str()).collect();
    assert_eq!(labels, vec!["GrowthRate", "Sheet1!R1C1", "Sheet2!R1C1"]);
    match &entries[0].kind {
        NotebookEntryKind::Name { backing_cell, .. } => assert!(backing_cell.is_none()),
        _ => unreachable!(),
    }
}

#[test]
fn persona_allows_authoring_only_for_author() {
    assert!(persona_allows_authoring(Persona::Author));
    assert!(!persona_allows_authoring(Persona::Reviewer));
    assert!(!persona_allows_authoring(Persona::ReadOnly));
}

#[test]
fn classification_maps_to_chip_liveness_and_tint_class() {
    for (classification, chip, liveness, tint) in [
        (NodeClassification::Input, "input", "static", "input"),
        (NodeClassification::FreeValue, "free value", "static", "free_value"),
        (NodeClassification::Intermediate, "intermediate", "live", "intermediate"),
        (NodeClassification::Output, "output", "live", "output"),
        (NodeClassification::Empty, "empty", "inert", "empty"),
    ] {
        assert_eq!(classification_label(classification), chip);
        assert_eq!(liveness_id(classification), liveness);
        assert_eq!(classification.stable_id(), tint);
        assert!(NOTEBOOK_CSS.contains(&format!(".dna-notebook__gutter--{tint}")));
    }
}

#[test]
fn scalar_value_text_renders_each_projection_honestly() {
    assert_eq!(
        scalar_value_text(&NodeValueProjection::Number {
            raw: "42".to_string(),
            display: "42".to_string(),
        }),
        "42"
    );
    assert_eq!(scalar_value_text(&NodeValueProjection::Text("hi".to_string())), "hi");
    assert_eq!(
        scalar_value_text(&NodeValueProjection::Logical {
            value: true,
            display: "TRUE".to_string(),
        }),
        "TRUE"
    );
    assert_eq!(scalar_value_text(&NodeValueProjection::Empty), "(empty)");
    assert_eq!(scalar_value_text(&NodeValueProjection::Unevaluated), "(unevaluated)");
}

#[test]
fn array_summary_is_shape_only_never_a_full_render() {
    assert_eq!(array_shape_summary(3, 2), "3\u{00d7}2 array");
    assert_eq!(array_shape_summary(1, 1), "1\u{00d7}1 array");
}

#[test]
fn kind_ids_and_glyphs_are_distinct_per_kind() {
    let cell = NotebookEntryKind::Cell {
        grid: NodeId::new("Sheet1"),
        authored: GridAuthoredCellProjection {
            row: 1,
            col: 1,
            kind: GridAuthoredKindProjection::Literal,
            literal_text: Some("1".to_string()),
            source_text: None,
            editability: GridEditabilityProjection::Editable,
        },
        value: NodeValueProjection::Number {
            raw: "1".to_string(),
            display: "1".to_string(),
        },
    };
    assert_eq!(entry_kind_id(&cell), "cell");
    assert_eq!(entry_kind_glyph(&cell), "\u{25a6}");
    let table = NotebookEntryKind::Table {
        grid: NodeId::new("Sheet1"),
        table: table_overlay("T", 1, 1, 2, 2),
    };
    assert_eq!(entry_kind_id(&table), "table");
    assert_eq!(entry_kind_glyph(&table), "\u{25a4}");
}

#[test]
fn css_escape_attr_value_neutralizes_quote_and_backslash() {
    assert_eq!(css_escape_attr_value("sheet:Sheet1|3|1"), "sheet:Sheet1|3|1");
    assert_eq!(css_escape_attr_value("a\"b"), "a\\\"b");
    assert_eq!(css_escape_attr_value("a\\b"), "a\\\\b");
}

#[test]
fn block_dom_key_pipe_joins_the_address() {
    assert_eq!(block_dom_key(&(NodeId::new("sheet:Sheet1"), 3, 1)), "sheet:Sheet1|3|1");
}

#[test]
fn next_cell_key_walks_derived_order_and_stops_at_the_last_cell() {
    let mut ws = WorkspaceState::default();
    ws.grids.push(grid_projection(
        "Sheet1",
        vec![literal_cell(1, 1, "1"), literal_cell(2, 1, "2"), literal_cell(3, 1, "3")],
        Vec::new(),
    ));
    ws.grids.push(grid_projection("Sheet2", vec![literal_cell(1, 1, "6")], Vec::new()));
    let entries = derive_entries(&ws);
    let keys = live_block_keys(&entries);
    assert_eq!(keys.len(), 4);
    for pair in keys.windows(2) {
        assert_eq!(next_cell_key(&ws, &pair[0]), Some(pair[1].clone()));
    }
    assert_eq!(next_cell_key(&ws, keys.last().unwrap()), None);
    assert_eq!(next_cell_key(&ws, &(NodeId::new("sheet:absent"), 999, 999)), None);
}

#[test]
fn live_block_keys_are_exactly_the_derived_cell_addresses() {
    let mut ws = WorkspaceState::default();
    ws.defined_names.entries.push(name("rate", DefinedNameTargetProjection::Static(static_rect(1, 1)), false));
    ws.grids.push(grid_projection(
        "Sheet1",
        vec![literal_cell(1, 1, "1"), literal_cell(2, 2, "2")],
        vec![table_overlay("T", 5, 5, 6, 6)],
    ));
    let entries = derive_entries(&ws);
    let live = live_block_keys(&entries);
    assert_eq!(live, vec![(NodeId::new("Sheet1"), 2, 2)]);
    assert!(!live.contains(&(NodeId::new("sheet:absent"), 999, 999)));
}

#[test]
fn reference_xray_available_is_true_when_the_projection_is_populated() {
    let mut ws = WorkspaceState::default();
    assert!(!reference_xray_available(&ws));
    ws.dependencies
        .reference_resolutions
        .push("handle:Sheet1!A1".to_string());
    assert!(reference_xray_available(&ws));
}

#[test]
fn reference_xray_degrade_note_cites_the_tracked_asks() {
    assert!(NOTEBOOK_CSS.contains(".dna-notebook__xray-degrade"));
    assert!(REFERENCE_XRAY_DEGRADE_NOTE.contains("ask #7"));
    assert!(REFERENCE_XRAY_DEGRADE_NOTE.contains("G9"));
    assert!(REFERENCE_XRAY_DEGRADE_NOTE.contains("reference X-ray unavailable"));
}

struct StubPreview {
    impact: Option<MutationImpactProjection>,
}

impl PreviewService for StubPreview {
    fn preview_mutation_impact(
        &self,
        _intent: &MutationImpactIntentProjection,
    ) -> Result<MutationImpactProjection, PreviewError> {
        self.impact.clone().ok_or(PreviewError::Unavailable)
    }
}

fn canned_impact() -> MutationImpactProjection {
    MutationImpactProjection {
        intent: delete_impact_intent(&NodeId::new("sheet:Sheet1")),
        legal: true,
        blocked_reason: None,
        affected_refs: vec![NodeId::new("sheet:Sheet1:B1")],
        orphaned_dependents: vec![NodeId::new("sheet:Sheet1:C1"), NodeId::new("sheet:Sheet1:D1")],
    }
}

#[test]
fn delete_impact_intent_is_edit_content_to_empty_on_the_grid_node() {
    let grid = NodeId::new("sheet:Sheet1");
    match delete_impact_intent(&grid) {
        MutationImpactIntentProjection::EditContent { node, content } => {
            assert_eq!(node, grid);
            assert!(content.is_empty());
        }
        other => panic!("delete-as-clear must be EditContent, got {other:?}"),
    }
}

#[test]
fn preview_block_delete_returns_ghost_when_the_preview_answers() {
    let service = StubPreview {
        impact: Some(canned_impact()),
    };
    let intent = delete_impact_intent(&NodeId::new("sheet:Sheet1"));
    match preview_block_delete(Some(&service), &intent) {
        DeletePreview::GhostImpact(impact) => {
            assert_eq!(impact.orphaned_dependents.len(), 2);
            assert_eq!(impact.affected_refs.len(), 1);
            assert!(impact.legal);
        }
        DeletePreview::ReceiptFallback => panic!("a preview that answered must produce a ghost"),
    }
}

#[test]
fn preview_block_delete_degrades_to_fallback_when_the_preview_errors() {
    let service = StubPreview { impact: None };
    let intent = delete_impact_intent(&NodeId::new("sheet:Sheet1"));
    assert!(matches!(
        preview_block_delete(Some(&service), &intent),
        DeletePreview::ReceiptFallback
    ));
}

#[test]
fn preview_block_delete_is_fallback_when_no_preview_is_present() {
    let intent = delete_impact_intent(&NodeId::new("sheet:Sheet1"));
    assert!(matches!(
        preview_block_delete::<StubPreview>(None, &intent),
        DeletePreview::ReceiptFallback
    ));
}

#[test]
fn describe_delete_impact_reports_honest_counts_from_real_fields() {
    let summary = describe_delete_impact(&canned_impact());
    assert!(summary.contains("clears this cell"));
    assert!(summary.contains("2 dependent(s) orphaned"), "{summary}");
    assert!(summary.contains("1 reference(s) affected"), "{summary}");
    assert_eq!(
        summary,
        "clears this cell \u{2014} 2 dependent(s) orphaned, 1 reference(s) affected"
    );
}

#[test]
fn describe_delete_impact_names_the_blocked_reason() {
    let mut impact = canned_impact();
    impact.legal = false;
    impact.blocked_reason = Some(MutationImpactBlockedReasonProjection::NameCollision);
    let summary = describe_delete_impact(&impact);
    assert!(summary.contains("blocked (name_collision)"), "{summary}");
    assert!(summary.contains("2 dependent(s) orphaned"), "{summary}");
    impact.blocked_reason = None;
    assert!(describe_delete_impact(&impact).starts_with("blocked (unknown)"));
}

#[test]
fn outcome_detail_reads_each_outcome() {
    assert_eq!(
        outcome_detail(&CellOutcome::Literal { value: "99".to_string() }),
        "literal value 99"
    );
    assert_eq!(
        outcome_detail(&CellOutcome::Formula {
            value: "6".to_string(),
            unresolved: Vec::new()
        }),
        "formula \u{2192} 6"
    );
    assert_eq!(
        outcome_detail(&CellOutcome::Formula {
            value: "#NAME?".to_string(),
            unresolved: vec!["a".to_string(), "b".to_string()]
        }),
        "formula \u{2192} #NAME? (unresolved: a, b)"
    );
    assert_eq!(outcome_detail(&CellOutcome::Cleared), "cell cleared");
    assert_eq!(outcome_detail(&CellOutcome::Rejected(Vec::new())), "rejected");
    assert_eq!(
        outcome_detail(&CellOutcome::Rejected(vec![GridEntryDiagnosticProjection {
            message: "bad".to_string(),
            span: None
        }])),
        "bad"
    );
    assert_eq!(outcome_detail(&CellOutcome::NoChange), "no change");
}

#[test]
fn table_shape_summary_counts_rows_and_columns() {
    let mut table = table_overlay("T", 3, 1, 7, 2);
    assert_eq!(table_shape_summary(&table), "table \u{2014} 5\u{00d7}2");
    let column = |name: &str| GridTableColumnOverlay {
        name: name.to_string(),
        data_rect: table.table_range,
    };
    table.columns = vec![column("a"), column("b"), column("c")];
    assert_eq!(table_shape_summary(&table), "table \u{2014} 5\u{00d7}3");
}

#[test]
fn commit_block_records_the_outcome_on_its_own_state() {
    let mut dispatcher = InMemoryDispatcher::new(SelectionState::default());
    let mut state = BlockEditState::new("=A1+1");
    let key = (NodeId::new("Sheet1"), 2, 3);
    commit_block(&mut dispatcher, &key, &mut state);
    assert_eq!(
        dispatcher.intents(),
        vec![WorkspaceIntent::EnterGridCell {
            grid: NodeId::new("Sheet1"),
            row: 2,
            col: 3,
            text: "=A1+1".to_string(),
        }]
    );
    assert_eq!(state.outcome, Some(CellOutcome::NoChange));
    assert!(state.rejections.is_empty());
    assert_eq!(state.revision, 1);
    assert_eq!(state.edit_text, "=A1+1");

    dispatch_cell_clear(&mut dispatcher, &NodeId::new("Sheet1"), 2, 3, &mut state);
    assert_eq!(dispatcher.intents().len(), 2);
    assert_eq!(state.edit_text, "");
    assert_eq!(state.revision, 2);
    let _ = GridEntryOutcomeProjection::Cleared;
}

use dnacalc::notebook_blocks::{AddNameAffordance, ADD_NAME_HINT};

#[test]
fn add_name_affordance_creates_a_trimmed_named_value() {
    let mut dispatcher = InMemoryDispatcher::new(SelectionState::default());
    let mut add = AddNameAffordance::new();
    add.toggle();
    assert!(add.open);
    add.name_buffer = "   ".to_string();
    assert!(!add.can_create());
    assert_eq!(add.hint(), ADD_NAME_HINT);
    add.create(&mut dispatcher);
    assert!(dispatcher.intents().is_empty());

    add.name_buffer = "  GrowthRate ".to_string();
    add.value_buffer = "0.12".to_string();
    assert_eq!(add.hint(), "");
    add.create(&mut dispatcher);
    assert_eq!(
        dispatcher.intents(),
        vec![WorkspaceIntent::CreateNamedValue {
            name: "GrowthRate".to_string(),
            value_text: "0.12".to_string(),
        }]
    );
    assert!(add.name_buffer.is_empty() && add.value_buffer.is_empty());
    assert!(add.open);
}

use dnacalc::notebook_blocks::BlockEditors;

#[test]
fn block_editors_keep_typing_and_evict_vanished_blocks() {
    let mut editors = BlockEditors::new();
    let a = (NodeId::new("Sheet1"), 1, 1);
    let b = (NodeId::new("Sheet1"), 2, 1);
    let ia = editors.state_for(&a, "1");
    editors.entries[ia].1.edit_text = "half-typed".to_string();
    let ib = editors.state_for(&b, "2");
    assert_ne!(ia, ib);
    assert_eq!(editors.state_for(&a, "1"), ia);
    assert_eq!(editors.entries[ia].1.edit_text, "half-typed");
    editors.retain_live(&vec![b.clone()]);
    assert_eq!(editors.entries.len(), 1);
    assert_eq!(editors.entries[0].0, b);
    let ia2 = editors.state_for(&a, "fresh");
    assert_eq!(editors.entries[ia2].1.edit_text, "fresh");
}

use dnacalc::notebook_blocks::{name_value_region, value_region, NameValueRegion, ValueRegion};

#[test]
fn value_region_shows_an_array_by_shape_and_a_scalar_by_text() {
    let array = NodeValueProjection::Array {
        rows: 3,
        cols: 2,
        cells: Vec::new(),
    };
    assert_eq!(
        value_region(&array),
        ValueRegion::ArrayShape {
            summary: "3\u{00d7}2 array".to_string()
        }
    );
    assert_eq!(
        value_region(&value_number("42")),
        ValueRegion::Scalar {
            text: "42".to_string()
        }
    );
}

#[test]
fn name_value_region_prefers_the_backing_cell_then_the_formula() {
    let fixed = name("Rate", DefinedNameTargetProjection::Static(static_rect(1, 1)), false);
    let dynamic = name(
        "Total",
        DefinedNameTargetProjection::Dynamic {
            source_text: "=A1*2".to_string(),
        },
        true,
    );
    let backing = Some(cell_projection(1, 1, value_number("0.5"), None));
    assert_eq!(
        name_value_region(&fixed, &backing),
        NameValueRegion::Value(ValueRegion::Scalar {
            text: "0.5".to_string()
        })
    );
    assert_eq!(name_value_region(&fixed, &None), NameValueRegion::NotInWindow);
    assert_eq!(
        name_value_region(&dynamic, &None),
        NameValueRegion::Formula {
            text: "=A1*2".to_string()
        }
    );
}

#[test]
fn css_escaped_ids_never_end_the_quoted_value() {
    let escaped = css_escape_attr_value("x\"]\\y");
    assert_eq!(escaped, "x\\\"]\\\\y");
    // Every quote in the escaped text is preceded by a backslash.
    let chars: Vec<char> = escaped.chars().collect();
    let mut i = 0;
    while i < chars.len() {
        if chars[i] == '\\' {
            i += 2;
            continue;
        }
        assert_ne!(chars[i], '"');
        i += 1;
    }
}

use dnacalc::notebook_blocks::{
    cell_editor_gate, confirm_block_delete, escape_block_ghost, revert_block, start_block_delete,
    READ_ONLY_PERSONA_NOTE,
};

#[test]
fn cell_editor_gate_refuses_the_persona_before_the_cell() {
    assert_eq!(
        cell_editor_gate(false, &GridEditabilityProjection::TableStructural),
        Some(READ_ONLY_PERSONA_NOTE)
    );
    assert_eq!(
        cell_editor_gate(false, &GridEditabilityProjection::Editable),
        Some(READ_ONLY_PERSONA_NOTE)
    );
    assert_eq!(
        cell_editor_gate(true, &GridEditabilityProjection::TableStructural),
        Some("read-only \u{2014} structural table cell")
    );
    assert_eq!(cell_editor_gate(true, &GridEditabilityProjection::Editable), None);
}

#[test]
fn revert_block_reseeds_from_the_live_authored_text() {
    let mut ws = WorkspaceState::default();
    ws.grids.push(grid_projection("Sheet1", vec![literal_cell(2, 1, "7")], Vec::new()));
    let key = (NodeId::new("Sheet1"), 2, 1);
    let mut state = BlockEditState::new("7");
    state.edit_text = "half-typed".to_string();
    state.outcome = Some(CellOutcome::NoChange);
    revert_block(&ws, &key, &mut state);
    assert_eq!(state.edit_text, "7");
    assert!(state.outcome.is_none());
    assert!(state.rejections.is_empty());
    assert_eq!(state.revision, 1);

    // A blank cell reverts to empty text.
    let blank = (NodeId::new("Sheet1"), 9, 9);
    revert_block(&ws, &blank, &mut state);
    assert_eq!(state.edit_text, "");
    assert_eq!(state.revision, 2);
}

#[test]
fn block_delete_ghost_waits_for_confirm_and_escape_drops_it() {
    let mut dispatcher = InMemoryDispatcher::new(SelectionState::default());
    let key = (NodeId::new("Sheet1"), 2, 1);
    let mut state = BlockEditState::new("7");

    start_block_delete(&mut dispatcher, DeletePreview::GhostImpact(canned_impact()), &key, &mut state);
    assert!(dispatcher.intents().is_empty());
    assert_eq!(state.pending_ghost, Some(canned_impact()));
    assert_eq!(state.edit_text, "7");

    assert!(escape_block_ghost(&mut state));
    assert!(state.pending_ghost.is_none());
    assert!(dispatcher.intents().is_empty());
    assert!(!escape_block_ghost(&mut state));

    start_block_delete(&mut dispatcher, DeletePreview::GhostImpact(canned_impact()), &key, &mut state);
    confirm_block_delete(&mut dispatcher, &key, &mut state);
    assert_eq!(
        dispatcher.intents(),
        vec![WorkspaceIntent::EnterGridCell {
            grid: NodeId::new("Sheet1"),
            row: 2,
            col: 1,
            text: String::new(),
        }]
    );
    assert!(state.pending_ghost.is_none());
    assert_eq!(state.edit_text, "");
    assert_eq!(state.revision, 1);
}

#[test]
fn block_delete_fallback_clears_at_once() {
    let mut dispatcher = InMemoryDispatcher::new(SelectionState::default());
    let key = (NodeId::new("Sheet1"), 4, 2);
    let mut state = BlockEditState::new("x");
    start_block_delete(&mut dispatcher, DeletePreview::ReceiptFallback, &key, &mut state);
    assert_eq!(
        dispatcher.intents(),
        vec![WorkspaceIntent::EnterGridCell {
            grid: NodeId::new("Sheet1"),
            row: 4,
            col: 2,
            text: String::new(),
        }]
    );
    assert!(state.pending_ghost.is_none());
    assert_eq!(state.outcome, Some(CellOutcome::NoChange));
    assert_eq!(state.edit_text, "");
}

use dnacalc::notebook_blocks::commit_and_advance;

#[test]
fn commit_and_advance_commits_then_focuses_the_next_cell_block() {
    let mut ws = WorkspaceState::default();
    ws.grids.push(grid_projection(
        "Sheet1",
        vec![literal_cell(1, 1, "1"), literal_cell(2, 1, "2")],
        Vec::new(),
    ));
    let mut dispatcher = InMemoryDispatcher::new(SelectionState::default());
    let first = (NodeId::new("Sheet1"), 1, 1);
    let second = (NodeId::new("Sheet1"), 2, 1);
    let mut state = BlockEditState::new("5");
    let next = commit_and_advance(&mut dispatcher, &ws, &first, &mut state);
    assert_eq!(next, Some(second.clone()));
    assert_eq!(
        dispatcher.intents(),
        vec![WorkspaceIntent::EnterGridCell {
            grid: NodeId::new("Sheet1"),
            row: 1,
            col: 1,
            text: "5".to_string(),
        }]
    );
    assert_eq!(state.outcome, Some(CellOutcome::NoChange));

    let mut last = BlockEditState::new("2");
    assert_eq!(commit_and_advance(&mut dispatcher, &ws, &second, &mut last), None);
    assert_eq!(dispatcher.intents().len(), 2);
}

use dnacalc::notebook_blocks::{handle_block_events, name_block_note, BlockEvent};

#[test]
fn name_block_note_points_authors_at_the_backing_cell() {
    assert_eq!(name_block_note(true), "defined name \u{2014} edit its backing cell");
    assert_eq!(name_block_note(false), "defined name");
}

#[test]
fn block_events_only_ever_target_the_blocks_own_cell() {
    let mut ws = WorkspaceState::default();
    ws.grids.push(grid_projection("Sheet1", vec![literal_cell(2, 1, "7")], Vec::new()));
    let mut dispatcher = InMemoryDispatcher::new(SelectionState::default());
    let key = (NodeId::new("Sheet1"), 2, 1);
    let mut state = BlockEditState::new("7");
    handle_block_events(
        &mut dispatcher,
        &ws,
        &key,
        &mut state,
        vec![
            BlockEvent::TextEdited("=A1*2".to_string()),
            BlockEvent::CommitRequested,
            BlockEvent::RevertRequested,
            BlockEvent::DeleteRequested(DeletePreview::GhostImpact(canned_impact())),
            BlockEvent::Escape,
            BlockEvent::ConfirmDelete,
            BlockEvent::DeleteRequested(DeletePreview::GhostImpact(canned_impact())),
            BlockEvent::CancelDelete,
            BlockEvent::DeleteRequested(DeletePreview::ReceiptFallback),
        ],
    );
    assert_eq!(
        dispatcher.intents(),
        vec![
            WorkspaceIntent::EnterGridCell {
                grid: NodeId::new("Sheet1"),
                row: 2,
                col: 1,
                text: "=A1*2".to_string(),
            },
            WorkspaceIntent::EnterGridCell {
                grid: NodeId::new("Sheet1"),
                row: 2,
                col: 1,
                text: String::new(),
            },
        ]
    );
    assert!(state.pending_ghost.is_none());
    assert_eq!(state.edit_text, "");
}

#[test]
fn a_committed_block_event_records_its_outcome() {
    let ws = WorkspaceState::default();
    let mut dispatcher = InMemoryDispatcher::new(SelectionState::default());
    let key = (NodeId::new("Sheet1"), 3, 1);
    let mut state = BlockEditState::new("4");
    handle_block_events(&mut dispatcher, &ws, &key, &mut state, vec![BlockEvent::CommitRequested]);
    assert_eq!(state.outcome, Some(CellOutcome::NoChange));
    assert_eq!(state.revision, 1);
    assert!(state.rejections.is_empty());
    assert_eq!(state.edit_text, "4");
}
