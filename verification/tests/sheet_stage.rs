use dnacalc::projection::{GridOverlayRect, NodeValueProjection};
use dnacalc::sheet_canvas::{looks_numeric, overlay_edge_style, OverlayEdgeStyle, Palette};
use dnacalc::sheet_render_plan::{col_label, value_text};
use dnacalc::sheet_viewport::{
    edge_dir_from_key, tier_degrade_reason, window_edge_jump, EdgeDir, Tier,
    BOUNDED_SCALE_INTEREST_NOTE, EDGE_JUMP_DEGRADE_REASON,
};

fn number(display: &str) -> NodeValueProjection {
    NodeValueProjection::Number {
        raw: display.to_string(),
        display: display.to_string(),
    }
}

#[test]
fn tier_degrade_reason_is_none_only_for_detail() {
    assert_eq!(tier_degrade_reason(Tier::Detail), None);
    let structure = tier_degrade_reason(Tier::Structure).expect("Structure degrades");
    assert!(structure.contains("Structure") && structure.contains("isn't built"));
    let district = tier_degrade_reason(Tier::District).expect("District degrades");
    assert!(district.contains("District") && district.contains("isn't built"));
}

#[test]
fn bounded_scale_notes_cite_g4() {
    assert!(BOUNDED_SCALE_INTEREST_NOTE.contains("G4"));
    assert!(EDGE_JUMP_DEGRADE_REASON.contains("G4"));
}

#[test]
fn edge_jump_maps_arrows_and_lands_on_the_window_edge() {
    assert_eq!(edge_dir_from_key("ArrowUp"), Some(EdgeDir::Up));
    assert_eq!(edge_dir_from_key("ArrowDown"), Some(EdgeDir::Down));
    assert_eq!(edge_dir_from_key("ArrowLeft"), Some(EdgeDir::Left));
    assert_eq!(edge_dir_from_key("ArrowRight"), Some(EdgeDir::Right));
    assert_eq!(edge_dir_from_key("Home"), None);
    assert_eq!(edge_dir_from_key("a"), None);

    assert_eq!(window_edge_jump((3, 2), EdgeDir::Up, 10, 5), (1, 2));
    assert_eq!(window_edge_jump((3, 2), EdgeDir::Down, 10, 5), (10, 2));
    assert_eq!(window_edge_jump((3, 2), EdgeDir::Left, 10, 5), (3, 1));
    assert_eq!(window_edge_jump((3, 2), EdgeDir::Right, 10, 5), (3, 5));
    assert_eq!(window_edge_jump((9, 9), EdgeDir::Down, 0, 0), (1, 1));
}

#[test]
fn edge_jump_keeps_the_orthogonal_axis_clamped() {
    assert_eq!(window_edge_jump((0, 9), EdgeDir::Up, 4, 3), (1, 3));
    assert_eq!(window_edge_jump((9, 0), EdgeDir::Right, 4, 3), (4, 3));
}

#[test]
fn value_text_is_honest_per_variant() {
    assert_eq!(value_text(&number("3.14")), "3.14");
    assert_eq!(
        value_text(&NodeValueProjection::Logical {
            value: true,
            display: "TRUE".to_string(),
        }),
        "TRUE"
    );
    assert_eq!(value_text(&NodeValueProjection::Text("hello".to_string())), "hello");
    assert_eq!(value_text(&NodeValueProjection::Scalar("legacy".to_string())), "legacy");
    assert_eq!(value_text(&NodeValueProjection::Error("#DIV/0!".to_string())), "#DIV/0!");
    assert_eq!(
        value_text(&NodeValueProjection::Reference {
            target: "Sheet1!A1".to_string(),
        }),
        "Sheet1!A1"
    );
    assert_eq!(value_text(&NodeValueProjection::Empty), "(empty)");
    assert_eq!(value_text(&NodeValueProjection::Missing), "(missing)");
    assert_eq!(value_text(&NodeValueProjection::Unevaluated), "(unevaluated)");
    assert_eq!(value_text(&NodeValueProjection::Pending), "(pending)");

    let array = NodeValueProjection::Array {
        rows: 2,
        cols: 3,
        cells: vec![
            vec![number("1"), number("2"), number("3")],
            vec![number("4"), number("5"), number("6")],
        ],
    };
    let text = value_text(&array);
    assert_eq!(text, "2\u{00d7}3 array");
    assert!(!text.contains('1') && !text.contains('4'));
}

#[test]
fn value_text_summarizes_large_arrays_by_shape() {
    let array = NodeValueProjection::Array { rows: 120, cols: 45, cells: Vec::new() };
    assert_eq!(value_text(&array), "120\u{00d7}45 array");
}

#[test]
fn col_label_matches_excel_a1_columns() {
    for (col, expected) in [
        (1, "A"),
        (2, "B"),
        (26, "Z"),
        (27, "AA"),
        (28, "AB"),
        (52, "AZ"),
        (53, "BA"),
        (702, "ZZ"),
        (703, "AAA"),
    ] {
        assert_eq!(col_label(col), expected, "column {col} labels as {expected}");
    }
}

#[test]
fn col_label_of_column_zero_is_empty() {
    assert_eq!(col_label(0), "");
    assert_eq!(col_label(16384), "XFD");
}

#[test]
fn fallback_palette_fills_every_slot() {
    let palette = Palette::fallback();
    for (slot, value) in [
        ("paper", &palette.paper),
        ("paper_2", &palette.paper_2),
        ("ink", &palette.ink),
        ("ink_2", &palette.ink_2),
        ("line", &palette.line),
        ("value_ink", &palette.value_ink),
        ("accent", &palette.accent),
        ("spill", &palette.spill),
        ("spill_blocked", &palette.spill_blocked),
        ("cell_font", &palette.cell_font),
        ("header_font", &palette.header_font),
    ] {
        assert!(!value.is_empty(), "fallback palette slot {slot} must not be empty");
    }
    assert_eq!(palette.paper, "#FFFFFF");
    assert_eq!(palette.value_ink, "#2E6E5B");
    assert_eq!(palette.accent, "#318995");
    assert_eq!(palette.spill, "#FFEDDB");
    assert_eq!(palette.spill_blocked, "#D02A23");
}

#[test]
fn looks_numeric_matches_only_plain_numbers() {
    for numeric in ["1", "10", "-3", "3.14", "0", "  42  ", "1e3", "-0.5"] {
        assert!(looks_numeric(numeric), "{numeric:?} should read as numeric");
    }
    for non_numeric in [
        "",
        "   ",
        "hello",
        "Sheet1!A1",
        "#DIV/0!",
        "(empty)",
        "(pending)",
        "2\u{00d7}3 array",
        "1,000",
    ] {
        assert!(!looks_numeric(non_numeric), "{non_numeric:?} should NOT read as numeric");
    }
}

#[test]
fn looks_numeric_accepts_the_plain_number_edges_and_no_words() {
    for numeric in ["+5", ".5", "5.", "1E-3", "2e+10"] {
        assert!(looks_numeric(numeric), "{numeric:?} should read as numeric");
    }
    for non_numeric in [".", "e3", "1e", "+", "1.2.3", "--1", "0x10", "inf", "-Infinity", "NaN", "nan", "infinity"] {
        assert!(!looks_numeric(non_numeric), "{non_numeric:?} should NOT read as numeric");
    }
}

#[test]
fn overlay_edge_style_mirrors_the_clipped_flags() {
    let mixed = GridOverlayRect {
        top_row: 1,
        left_col: 1,
        bottom_row: 2,
        right_col: 2,
        clipped_top: true,
        clipped_left: false,
        clipped_bottom: true,
        clipped_right: false,
    };
    assert_eq!(
        overlay_edge_style(&mixed),
        OverlayEdgeStyle { top_soft: true, right_soft: false, bottom_soft: true, left_soft: false }
    );
    let all_hard = GridOverlayRect {
        clipped_top: false,
        clipped_left: false,
        clipped_bottom: false,
        clipped_right: false,
        ..mixed
    };
    assert_eq!(
        overlay_edge_style(&all_hard),
        OverlayEdgeStyle { top_soft: false, right_soft: false, bottom_soft: false, left_soft: false }
    );
    let all_soft = GridOverlayRect {
        clipped_top: true,
        clipped_left: true,
        clipped_bottom: true,
        clipped_right: true,
        ..mixed
    };
    assert_eq!(
        overlay_edge_style(&all_soft),
        OverlayEdgeStyle { top_soft: true, right_soft: true, bottom_soft: true, left_soft: true }
    );
}

use dnacalc::sheet_canvas::{palette_from_css, PaletteCssValues, PALETTE_CSS_PROPERTIES};

#[test]
fn palette_from_css_trims_reads_and_falls_back_per_slot() {
    let values = PaletteCssValues {
        paper: Some("  #010203 ".to_string()),
        paper_2: None,
        ink: Some("   ".to_string()),
        ink_2: Some("#445566".to_string()),
        line: None,
        value_ink: None,
        accent: Some("\t#ABCDEF\n".to_string()),
        spill: None,
        spill_blocked: None,
    };
    let palette = palette_from_css(&values);
    let fallback = Palette::fallback();
    assert_eq!(palette.paper, "#010203");
    assert_eq!(palette.paper_2, fallback.paper_2);
    assert_eq!(palette.ink, fallback.ink);
    assert_eq!(palette.ink_2, "#445566");
    assert_eq!(palette.accent, "#ABCDEF");
    assert_eq!(palette.spill_blocked, "#D02A23");
    assert_eq!(palette.cell_font, fallback.cell_font);
    assert_eq!(PALETTE_CSS_PROPERTIES[0], "--dna-paper");
    assert_eq!(PALETTE_CSS_PROPERTIES[8], "--dna-red-ink");
}

use dnacalc::sheet_selection::{RANGE_SELECT_DEFERRED_REASON, ROW_COL_SELECT_DEFERRED_REASON};
use dnacalc::sheet_stage::{double_click_target, pointer_select_decision, HitTarget, PointerSelectDecision};

#[test]
fn pointer_press_selects_a_cell_and_degrades_ranges_and_bands() {
    assert_eq!(
        pointer_select_decision(false, HitTarget::Cell { row: 3, col: 2 }),
        PointerSelectDecision::Select { row: 3, col: 2 }
    );
    assert_eq!(
        pointer_select_decision(true, HitTarget::Cell { row: 3, col: 2 }),
        PointerSelectDecision::Degrade {
            reason: RANGE_SELECT_DEFERRED_REASON
        }
    );
    for band in [
        HitTarget::ColumnHeader { col: 4 },
        HitTarget::RowHeader { row: 7 },
        HitTarget::Corner,
    ] {
        assert_eq!(
            pointer_select_decision(false, band),
            PointerSelectDecision::Degrade {
                reason: ROW_COL_SELECT_DEFERRED_REASON
            }
        );
    }
    assert_eq!(pointer_select_decision(false, HitTarget::Outside), PointerSelectDecision::Ignore);
}

#[test]
fn double_click_opens_only_an_unshifted_cell() {
    assert_eq!(double_click_target(false, HitTarget::Cell { row: 5, col: 1 }), Some((5, 1)));
    assert_eq!(double_click_target(true, HitTarget::Cell { row: 5, col: 1 }), None);
    assert_eq!(double_click_target(false, HitTarget::RowHeader { row: 5 }), None);
    assert_eq!(double_click_target(false, HitTarget::Outside), None);
}

use dnacalc::sheet_canvas::palette_of_style;
use dnacalc::sheet_render_plan::plan_cell_order;
use dnacalc::workspace::{GridCellProjection, GridOverlayBundle, GridProjection};
use dnacalc::projection::NodeId;

#[test]
fn an_unreadable_style_paints_the_fallback_palette() {
    let palette = palette_of_style(&None);
    assert_eq!(palette, Palette::fallback());
    let read = PaletteCssValues {
        paper: Some("  #000000 ".to_string()),
        paper_2: None,
        ink: Some("   ".to_string()),
        ink_2: None,
        line: None,
        value_ink: None,
        accent: None,
        spill: None,
        spill_blocked: None,
    };
    let palette = palette_of_style(&Some(read));
    assert_eq!(palette.paper, "#000000");
    assert_eq!(palette.ink, Palette::fallback().ink);
}

fn plain_cell(row: u32, col: u32) -> GridCellProjection {
    GridCellProjection {
        row,
        col,
        value: NodeValueProjection::Empty,
        authored: None,
    }
}

#[test]
fn plan_cell_order_keeps_visible_in_extent_cells_in_row_column_order() {
    let grid = GridProjection {
        grid_node_id: NodeId::new("sheet:Sheet1"),
        max_rows: 3,
        max_cols: 3,
        cells: vec![
            plain_cell(2, 1),
            plain_cell(1, 3),
            plain_cell(4, 1),
            plain_cell(1, 1),
            plain_cell(0, 2),
            plain_cell(3, 3),
        ],
        overlays: GridOverlayBundle {
            tables: Vec::new(),
            spills: Vec::new(),
            merged: Vec::new(),
        },
    };
    let visible = vec![true, true, true, true, true, false];
    assert_eq!(
        plan_cell_order(&grid, &visible),
        vec![(1, 1, 3), (1, 3, 1), (2, 1, 0)]
    );
}
