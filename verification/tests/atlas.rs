use dnacalc::atlas::{
    calc_mode_label, calc_run_state_label, derive_calc_hud, derive_structure_map,
    last_recalc_tick_label, last_run_label, sheet_dirty_summary, CalcHudDerivation,
};
use dnacalc::projection::NodeId;
use dnacalc::workspace::{
    CalcModeProjection, CalcRunProjection, CalcRunStateProjection, DefinedNameProjection,
    DefinedNameScopeProjection, DefinedNameTargetProjection, DefinedNamesProjection,
    SheetCalcSummaryProjection, SheetProjection, WorkbookCalcProjection, WorkspaceState,
};

fn fixture_workspace_with_two_sheets_and_one_name() -> WorkspaceState {
    WorkspaceState {
        sheets: vec![
            SheetProjection {
                grid_node_id: NodeId::new("sheet:Sheet1"),
                display_name: "Sheet1".to_string(),
                position: 0,
            },
            SheetProjection {
                grid_node_id: NodeId::new("sheet:Sheet2"),
                display_name: "Sheet2".to_string(),
                position: 1,
            },
        ],
        defined_names: DefinedNamesProjection {
            entries: vec![DefinedNameProjection {
                scope: DefinedNameScopeProjection::Workbook,
                name: "GrowthRate".to_string(),
                target: DefinedNameTargetProjection::Dynamic {
                    source_text: "0.12".to_string(),
                },
                is_dynamic: true,
            }],
        },
        ..Default::default()
    }
}

#[test]
fn structure_map_lists_real_sheets_and_names() {
    let workspace = fixture_workspace_with_two_sheets_and_one_name();
    let derived = derive_structure_map(&workspace);
    assert_eq!(derived.sheet_names, vec!["Sheet1".to_string(), "Sheet2".to_string()]);
    assert_eq!(derived.name_labels, vec!["GrowthRate".to_string()]);
}

#[test]
fn structure_map_is_honest_empty_when_workbook_carries_none() {
    let workspace = WorkspaceState::default();
    let derived = derive_structure_map(&workspace);
    assert!(derived.sheet_names.is_empty());
    assert!(derived.name_labels.is_empty());
}

#[test]
fn calc_hud_is_honest_empty_when_workbook_calc_is_none() {
    let workspace = WorkspaceState::default();
    assert!(matches!(derive_calc_hud(&workspace), CalcHudDerivation::Empty));
}

#[test]
fn calc_hud_reflects_real_workbook_calc_fields() {
    let workspace = WorkspaceState {
        workbook_calc: Some(WorkbookCalcProjection {
            mode: CalcModeProjection::Manual,
            last_recalc_tick: Some(42),
            sheets: vec![
                SheetCalcSummaryProjection {
                    grid_node_id: NodeId::new("sheet:Sheet1"),
                    dirty: true,
                },
                SheetCalcSummaryProjection {
                    grid_node_id: NodeId::new("sheet:Sheet2"),
                    dirty: false,
                },
            ],
        }),
        last_run: Some(CalcRunProjection {
            run_state: CalcRunStateProjection::VerifiedClean,
        }),
        ..Default::default()
    };
    match derive_calc_hud(&workspace) {
        CalcHudDerivation::Present(present) => {
            assert_eq!(present.mode_label, "manual");
            assert_eq!(present.tick_label, "42");
            assert_eq!(present.dirty_summary, "1/2 sheets dirty");
            assert_eq!(present.run_label, "verified clean");
        }
        CalcHudDerivation::Empty => panic!("Some(workbook_calc) must derive Present"),
    }
}

#[test]
fn calc_hud_present_is_honest_about_no_run_recorded_even_with_calc_state() {
    let workspace = WorkspaceState {
        workbook_calc: Some(WorkbookCalcProjection {
            mode: CalcModeProjection::Automatic,
            last_recalc_tick: None,
            sheets: Vec::new(),
        }),
        ..Default::default()
    };
    match derive_calc_hud(&workspace) {
        CalcHudDerivation::Present(present) => {
            assert_eq!(present.mode_label, "automatic");
            assert_eq!(present.tick_label, "never run");
            assert_eq!(present.dirty_summary, "no sheets tracked");
            assert_eq!(present.run_label, "no run recorded");
        }
        CalcHudDerivation::Empty => panic!("Some(workbook_calc) must derive Present"),
    }
}

#[test]
fn calc_mode_label_maps_each_variant() {
    assert_eq!(calc_mode_label(CalcModeProjection::Automatic), "automatic");
    assert_eq!(calc_mode_label(CalcModeProjection::Manual), "manual");
}

#[test]
fn last_recalc_tick_label_is_honest_about_never_run() {
    assert_eq!(last_recalc_tick_label(None), "never run");
    assert_eq!(last_recalc_tick_label(Some(7)), "7");
    assert_eq!(last_recalc_tick_label(Some(0)), "0");
    assert_eq!(last_recalc_tick_label(Some(u64::MAX)), "18446744073709551615");
}

#[test]
fn sheet_dirty_summary_counts_real_dirty_sheets() {
    assert_eq!(sheet_dirty_summary(&Vec::new()), "no sheets tracked");
    let sheets = vec![
        SheetCalcSummaryProjection {
            grid_node_id: NodeId::new("sheet:Sheet1"),
            dirty: true,
        },
        SheetCalcSummaryProjection {
            grid_node_id: NodeId::new("sheet:Sheet2"),
            dirty: false,
        },
        SheetCalcSummaryProjection {
            grid_node_id: NodeId::new("sheet:Sheet3"),
            dirty: true,
        },
    ];
    assert_eq!(sheet_dirty_summary(&sheets), "2/3 sheets dirty");
}

#[test]
fn last_run_label_is_honest_when_no_run_recorded() {
    assert_eq!(last_run_label(None), "no run recorded");
    let run = CalcRunProjection {
        run_state: CalcRunStateProjection::Published,
    };
    assert_eq!(last_run_label(Some(&run)), "published");
}

#[test]
fn calc_run_state_label_maps_each_variant() {
    assert_eq!(calc_run_state_label(CalcRunStateProjection::Published), "published");
    assert_eq!(calc_run_state_label(CalcRunStateProjection::VerifiedClean), "verified clean");
    assert_eq!(calc_run_state_label(CalcRunStateProjection::Rejected), "rejected");
}
