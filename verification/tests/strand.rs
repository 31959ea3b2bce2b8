use dnacalc::block_geometry::{
    GAP_SCALE, MOTION_DURATION_MAX_MS, MOTION_DURATION_MIN_MS, RADIUS_CARD, RADIUS_CHIP,
    RADIUS_PANEL,
};
use dnacalc::contrast::sanctioned_pairs;
use dnacalc::css::{css_custom_properties, PROPERTY_ORDER};
use dnacalc::identity::{
    all_identities, excelstrict_identity, onecalc_identity, richtree_identity,
};
use dnacalc::palette::{
    amber, charcoal, forest, green_500, hex_to_rgb, mist, petrol_800, petrol_900, petrol_950,
    red, sage, signal, teal_400, teal_600, Rgb, AMBER_HEX, CHARCOAL_HEX, FOREST_HEX,
    GREEN_500_HEX, MIST_HEX, PETROL_800_HEX, PETROL_900_HEX, PETROL_950_HEX, RED_HEX, SAGE_HEX,
    SIGNAL_HEX, TEAL_400_HEX, TEAL_600_HEX,
};
use dnacalc::theme::{cockpit_dark, cockpit_light, high_contrast, mix, Density, Theme};

#[test]
fn hex_to_rgb_parses_hash_prefixed_and_bare() {
    assert_eq!(hex_to_rgb("#FFB301"), hex_to_rgb("FFB301"));
    assert_eq!(
        hex_to_rgb("#FFB301"),
        Rgb {
            r: 0xFF,
            g: 0xB3,
            b: 0x01
        }
    );
}

#[test]
fn hex_to_rgb_is_case_insensitive() {
    assert_eq!(hex_to_rgb("#abcdef"), hex_to_rgb("#ABCDEF"));
}

#[test]
fn to_hex_roundtrips_through_hex_to_rgb() {
    for hex in [
        PETROL_800_HEX,
        PETROL_900_HEX,
        PETROL_950_HEX,
        TEAL_600_HEX,
        TEAL_400_HEX,
        AMBER_HEX,
        GREEN_500_HEX,
        SAGE_HEX,
        FOREST_HEX,
        SIGNAL_HEX,
        RED_HEX,
        CHARCOAL_HEX,
        MIST_HEX,
    ] {
        assert_eq!(hex_to_rgb(hex).to_hex(), hex, "round-trip failed for {hex}");
    }
}

#[test]
fn display_matches_to_hex() {
    assert_eq!(teal_600().to_hex(), "#318995");
    assert_eq!(teal_600().to_hex(), TEAL_600_HEX);
}

#[test]
fn palette_functions_match_their_hex_literals() {
    let pairs = [
        (petrol_800(), PETROL_800_HEX),
        (petrol_900(), PETROL_900_HEX),
        (petrol_950(), PETROL_950_HEX),
        (teal_600(), TEAL_600_HEX),
        (teal_400(), TEAL_400_HEX),
        (amber(), AMBER_HEX),
        (green_500(), GREEN_500_HEX),
        (sage(), SAGE_HEX),
        (forest(), FOREST_HEX),
        (signal(), SIGNAL_HEX),
        (red(), RED_HEX),
        (charcoal(), CHARCOAL_HEX),
        (mist(), MIST_HEX),
    ];
    for (color, hex) in pairs {
        assert_eq!(color.to_hex(), hex);
    }
    assert_eq!(amber(), Rgb { r: 0xFF, g: 0xB3, b: 0x01 });
}

#[test]
fn to_hex_pads_and_uppercases_every_channel() {
    assert_eq!(Rgb { r: 0, g: 10, b: 255 }.to_hex(), "#000AFF");
    assert_eq!(hex_to_rgb("00aFfF"), Rgb { r: 0, g: 0xAF, b: 0xFF });
}

#[test]
fn radius_scale_tracks_block_size() {
    assert!(RADIUS_CHIP < RADIUS_CARD);
    assert!(RADIUS_CARD < RADIUS_PANEL);
}

#[test]
fn gap_scale_is_strictly_increasing() {
    assert!(GAP_SCALE.windows(2).all(|w| w[0] < w[1]));
}

#[test]
fn motion_bounds_are_ordered() {
    assert!(MOTION_DURATION_MIN_MS < MOTION_DURATION_MAX_MS);
}

#[test]
fn each_identity_has_a_distinct_pattern() {
    let all = all_identities();
    let patterns: std::collections::HashSet<_> = all.iter().map(|b| b.pattern).collect();
    assert_eq!(patterns.len(), all.len());
}

#[test]
fn tree_and_excelstrict_are_never_a_lone_hue_apart() {
    let tree = richtree_identity();
    let excel = excelstrict_identity();
    assert_ne!(tree.pattern, excel.pattern);
    assert_ne!(tree.blocks[0].color, excel.blocks[0].color);
}

#[test]
fn onecalc_is_its_own_window_but_still_a_distinct_pair() {
    assert_ne!(onecalc_identity().pattern, excelstrict_identity().pattern);
    assert_ne!(onecalc_identity().pattern, richtree_identity().pattern);
}

#[test]
fn identity_badges_carry_their_profile_ids_and_block_sizes() {
    let one = onecalc_identity();
    assert_eq!(one.profile_id, "onecalc");
    assert_eq!((one.blocks[0].size_px, one.blocks[1].size_px), (10, 22));
    assert_eq!(one.blocks[0].color, teal_400());
    let excel = excelstrict_identity();
    assert_eq!((excel.blocks[0].size_px, excel.blocks[1].size_px), (15, 15));
}

#[test]
fn every_theme_id_is_distinct() {
    let ids: std::collections::HashSet<_> = Theme::ALL.iter().map(|t| t.id()).collect();
    assert_eq!(ids.len(), Theme::ALL.len());
}

#[test]
fn resolve_covers_every_themetokens_field_name() {
    let t = cockpit_light();
    for token in [
        "bg",
        "paper",
        "paper-2",
        "ink",
        "ink-2",
        "ink-3",
        "line",
        "line-soft",
        "chrome",
        "chrome-2",
        "chrome-ink",
        "chrome-ink-2",
        "accent",
        "accent-soft",
        "amber-soft",
        "green-soft",
        "signal-soft",
        "red-soft",
        "accent-ink",
        "value-ink",
        "prov-const",
        "prov-ext",
        "red",
        "amber",
    ] {
        assert!(
            t.resolve(token).is_some(),
            "resolve({token:?}) returned None"
        );
    }
    assert_eq!(t.resolve("nonexistent-token"), None);
}

#[test]
fn resolve_red_is_the_text_safe_ink_not_the_raw_surface_tone() {
    let dark = cockpit_dark();
    assert_eq!(dark.resolve("red"), Some(dark.red_ink));
    assert_ne!(dark.resolve("red"), Some(red()));
}

#[test]
fn resolve_reads_the_named_field_and_amber_is_global() {
    let hc = high_contrast();
    assert_eq!(hc.resolve("ink-2"), Some(hex_to_rgb("#3C5059")));
    assert_eq!(hc.resolve("red-ink"), Some(hc.red_ink));
    assert_eq!(hc.resolve("amber"), Some(amber()));
    assert_eq!(cockpit_light().resolve("amber"), Some(amber()));
    assert_eq!(hc.resolve(""), None);
}

#[test]
fn tokens_dispatch_to_the_three_tables() {
    assert_eq!(Theme::CockpitLight.tokens(), cockpit_light());
    assert_eq!(Theme::CockpitDark.tokens(), cockpit_dark());
    assert_eq!(Theme::HighContrast.tokens(), high_contrast());
    assert_eq!(cockpit_light().accent_soft, hex_to_rgb("#E2EEF0"));
    assert_eq!(cockpit_dark().red_ink, hex_to_rgb("#E4625C"));
}

#[test]
fn density_ids_are_distinct_and_measure_is_reading_only() {
    assert_ne!(Density::Working.id(), Density::Reading.id());
    assert_eq!(Density::Working.measure(), None);
    assert_eq!(Density::Reading.measure(), Some("68ch"));
}

#[test]
fn mix_at_zero_percent_is_base_and_at_hundred_is_hue() {
    let base = hex_to_rgb("#102030");
    let hue = hex_to_rgb("#A0B0C0");
    assert_eq!(mix(base, hue, 0), base);
    assert_eq!(mix(base, hue, 100), hue);
}

#[test]
fn mix_rounds_to_the_nearest_channel_value() {
    // 255 * 86% + 128 * 14% = 237.22 → 237.
    let white = Rgb { r: 255, g: 255, b: 255 };
    assert_eq!(mix(white, signal(), 14), hex_to_rgb("#FFEDDB"));
    assert_eq!(mix(Rgb { r: 0, g: 0, b: 0 }, Rgb { r: 1, g: 3, b: 5 }, 50), Rgb { r: 1, g: 2, b: 3 });
}

#[test]
fn every_theme_has_sanctioned_coverage() {
    let pairs = sanctioned_pairs();
    for theme in Theme::ALL {
        assert!(
            pairs.iter().any(|p| p.theme == theme),
            "no sanctioned pairs for {theme:?}"
        );
    }
}

fn relative_luminance(c: Rgb) -> f64 {
    fn linearize(channel: u8) -> f64 {
        let c = channel as f64 / 255.0;
        if c <= 0.03928 {
            c / 12.92
        } else {
            ((c + 0.055) / 1.055).powf(2.4)
        }
    }
    0.2126 * linearize(c.r) + 0.7152 * linearize(c.g) + 0.0722 * linearize(c.b)
}

fn contrast_ratio(a: Rgb, b: Rgb) -> f64 {
    let la = relative_luminance(a);
    let lb = relative_luminance(b);
    let (hi, lo) = if la >= lb { (la, lb) } else { (lb, la) };
    (hi + 0.05) / (lo + 0.05)
}

#[test]
fn all_sanctioned_pairs_meet_contrast_law() {
    let mut failures = Vec::new();
    for pair in sanctioned_pairs() {
        let tokens = pair.theme.tokens();
        let fg = tokens
            .resolve(pair.fg)
            .unwrap_or_else(|| panic!("unknown fg token id {:?}", pair.fg));
        let bg = tokens
            .resolve(pair.bg)
            .unwrap_or_else(|| panic!("unknown bg token id {:?}", pair.bg));
        let ratio = contrast_ratio(fg, bg);
        let min_ratio = f64::from(pair.min_ratio_tenths) / 10.0;
        if ratio < min_ratio {
            failures.push(format!(
                "{:?}: fg {} on bg {} = {ratio:.3}:1, need >= {min_ratio:.2}:1",
                pair.theme, pair.fg, pair.bg
            ));
        }
    }
    assert!(failures.is_empty(), "contrast-law failures:\n{}", failures.join("\n"));
}

const EXPECTED_COCKPIT_LIGHT_WORKING: &str = ":root {
  --dna-theme: cockpit-light;
  --dna-density: working;
  --dna-bg: #F4F7F8;
  --dna-paper: #FFFFFF;
  --dna-paper-2: #EEF2F4;
  --dna-ink: #17282E;
  --dna-ink-2: #48606A;
  --dna-ink-3: #5B717B;
  --dna-line: #D5DFE3;
  --dna-line-soft: #E4EBEE;
  --dna-chrome: #193F49;
  --dna-chrome-2: #12303A;
  --dna-chrome-ink: #DFEEF2;
  --dna-chrome-ink-2: #8FB3BC;
  --dna-accent: #318995;
  --dna-accent-soft: #E2EEF0;
  --dna-amber: #FFB301;
  --dna-amber-soft: #FFF4DB;
  --dna-green-soft: #E4EFEC;
  --dna-signal-soft: #FFEDDB;
  --dna-red-soft: #F8E1E0;
  --dna-accent-ink: #1B5F6B;
  --dna-value-ink: #2E6E5B;
  --dna-prov-const: #2D6A8A;
  --dna-prov-ext: #A35400;
  --dna-red-ink: #D02A23;
  --dna-radius-chip: 5px;
  --dna-radius-card: 9px;
  --dna-radius-panel: 14px;
  --dna-gap-1: 2px;
  --dna-gap-2: 4px;
  --dna-gap-3: 6px;
  --dna-gap-4: 10px;
  --dna-gap-5: 14px;
  --dna-gap-6: 22px;
  --dna-motion-min: 120ms;
  --dna-motion-max: 160ms;
  --dna-line-height: 1.35;
  --dna-measure: none;
}
";

#[test]
fn css_custom_properties_cockpit_light_working_matches_golden() {
    assert_eq!(
        css_custom_properties(Theme::CockpitLight, Density::Working),
        EXPECTED_COCKPIT_LIGHT_WORKING
    );
}

#[test]
fn css_custom_properties_is_deterministic() {
    for theme in Theme::ALL {
        for density in Density::ALL {
            let a = css_custom_properties(theme, density);
            let b = css_custom_properties(theme, density);
            assert_eq!(a, b);
        }
    }
}

fn property_names_in_order(css: &str) -> Vec<String> {
    css.lines()
        .filter_map(|line| {
            let line = line.trim();
            let rest = line.strip_prefix("--dna-")?;
            let (name, _) = rest.split_once(':')?;
            Some(name.to_string())
        })
        .collect()
}

#[test]
fn property_order_is_exactly_expected_for_every_theme_and_density() {
    for theme in Theme::ALL {
        for density in Density::ALL {
            let css = css_custom_properties(theme, density);
            assert_eq!(
                property_names_in_order(&css),
                PROPERTY_ORDER.to_vec(),
                "property order drifted for {theme:?}/{density:?}"
            );
        }
    }
}

#[test]
fn every_combination_starts_and_ends_correctly_and_has_no_duplicate_keys() {
    for theme in Theme::ALL {
        for density in Density::ALL {
            let css = css_custom_properties(theme, density);
            assert!(css.starts_with(":root {\n"));
            assert!(css.ends_with("}\n"));
            let names = property_names_in_order(&css);
            let unique: std::collections::HashSet<_> = names.iter().collect();
            assert_eq!(unique.len(), names.len(), "duplicate --dna-* key emitted");
        }
    }
}

#[test]
fn density_changes_leading_and_measure_only_not_colors() {
    let working = css_custom_properties(Theme::CockpitDark, Density::Working);
    let reading = css_custom_properties(Theme::CockpitDark, Density::Reading);
    let strip = |css: &str| {
        css.lines()
            .filter(|l| {
                let t = l.trim();
                !t.starts_with("--dna-density:")
                    && !t.starts_with("--dna-line-height:")
                    && !t.starts_with("--dna-measure:")
            })
            .collect::<Vec<_>>()
            .join("\n")
    };
    assert_eq!(strip(&working), strip(&reading));
    assert_ne!(working, reading);
    assert!(reading.contains("  --dna-line-height: 1.6;\n"));
    assert!(reading.contains("  --dna-measure: 68ch;\n"));
    assert!(reading.contains("  --dna-density: reading;\n"));
}

#[test]
fn high_contrast_emits_its_own_inks() {
    let css = css_custom_properties(Theme::HighContrast, Density::Working);
    assert!(css.contains("  --dna-theme: high-contrast;\n"));
    assert!(css.contains("  --dna-red-ink: #961E19;\n"));
    assert!(css.contains("  --dna-amber: #FFB301;\n"));
}

#[test]
fn blocks_without_their_density_lines_are_identical_for_every_theme() {
    let strip = |css: &str| -> String {
        css.lines()
            .filter(|line| {
                !line.contains("--dna-density:")
                    && !line.contains("--dna-line-height:")
                    && !line.contains("--dna-measure:")
            })
            .collect::<Vec<_>>()
            .join("\n")
    };
    for theme in Theme::ALL {
        let working = css_custom_properties(theme, Density::Working);
        let reading = css_custom_properties(theme, Density::Reading);
        assert_ne!(working, reading);
        assert_eq!(strip(&working), strip(&reading));
        for name in PROPERTY_ORDER {
            if let Some(color) = theme.tokens().resolve(name) {
                let line = format!("  --dna-{name}: {};", color.to_hex());
                assert!(working.contains(&line), "{line}");
            }
        }
    }
}

#[test]
fn every_sanctioned_pair_names_ids_its_theme_resolves() {
    for pair in sanctioned_pairs() {
        let tokens = pair.theme.tokens();
        assert!(tokens.resolve(pair.fg).is_some(), "{}", pair.fg);
        assert!(tokens.resolve(pair.bg).is_some(), "{}", pair.bg);
    }
}
