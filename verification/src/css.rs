//! The `--dna-*` custom-property emitter: one stable-ordered `:root { .. }`
//! block for a theme and a density. The order is fixed by [`property_order`],
//! so equal inputs always emit byte-identical text.
use vstd::prelude::*;

use crate::block_geometry::{
    GAP_SCALE, MOTION_DURATION_MAX_MS, MOTION_DURATION_MIN_MS, RADIUS_CARD, RADIUS_CHIP,
    RADIUS_PANEL,
};
use crate::palette::{amber, hex_text};
use crate::text::{decimal_text, push_decimal, push_str};
use crate::theme::{
    amber_rgb, density_id, density_measure, resolve_token, theme_id, theme_tokens, Density, Theme,
    ThemeTokens,
};

verus! {

/// Every `--dna-*` custom property, in emission order.
#[derive(Debug, Clone, Copy, PartialEq, Eq, Structural)]
pub enum CssProperty {
    Theme,
    Density,
    Bg,
    Paper,
    Paper2,
    Ink,
    Ink2,
    Ink3,
    Line,
    LineSoft,
    Chrome,
    Chrome2,
    ChromeInk,
    ChromeInk2,
    Accent,
    AccentSoft,
    Amber,
    AmberSoft,
    GreenSoft,
    SignalSoft,
    RedSoft,
    AccentInk,
    ValueInk,
    ProvConst,
    ProvExt,
    RedInk,
    RadiusChip,
    RadiusCard,
    RadiusPanel,
    Gap1,
    Gap2,
    Gap3,
    Gap4,
    Gap5,
    Gap6,
    MotionMin,
    MotionMax,
    LineHeight,
    Measure,
}

/// The property name after the `--dna-` prefix.
pub open spec fn property_name(p: CssProperty) -> Seq<char> {
    match p {
        CssProperty::Theme => "theme"@,
        CssProperty::Density => "density"@,
        CssProperty::Bg => "bg"@,
        CssProperty::Paper => "paper"@,
        CssProperty::Paper2 => "paper-2"@,
        CssProperty::Ink => "ink"@,
        CssProperty::Ink2 => "ink-2"@,
        CssProperty::Ink3 => "ink-3"@,
        CssProperty::Line => "line"@,
        CssProperty::LineSoft => "line-soft"@,
        CssProperty::Chrome => "chrome"@,
        CssProperty::Chrome2 => "chrome-2"@,
        CssProperty::ChromeInk => "chrome-ink"@,
        CssProperty::ChromeInk2 => "chrome-ink-2"@,
        CssProperty::Accent => "accent"@,
        CssProperty::AccentSoft => "accent-soft"@,
        CssProperty::Amber => "amber"@,
        CssProperty::AmberSoft => "amber-soft"@,
        CssProperty::GreenSoft => "green-soft"@,
        CssProperty::SignalSoft => "signal-soft"@,
        CssProperty::RedSoft => "red-soft"@,
        CssProperty::AccentInk => "accent-ink"@,
        CssProperty::ValueInk => "value-ink"@,
        CssProperty::ProvConst => "prov-const"@,
        CssProperty::ProvExt => "prov-ext"@,
        CssProperty::RedInk => "red-ink"@,
        CssProperty::RadiusChip => "radius-chip"@,
        CssProperty::RadiusCard => "radius-card"@,
        CssProperty::RadiusPanel => "radius-panel"@,
        CssProperty::Gap1 => "gap-1"@,
        CssProperty::Gap2 => "gap-2"@,
        CssProperty::Gap3 => "gap-3"@,
        CssProperty::Gap4 => "gap-4"@,
        CssProperty::Gap5 => "gap-5"@,
        CssProperty::Gap6 => "gap-6"@,
        CssProperty::MotionMin => "motion-min"@,
        CssProperty::MotionMax => "motion-max"@,
        CssProperty::LineHeight => "line-height"@,
        CssProperty::Measure => "measure"@,
    }
}

/// The stable emission order of every property.
pub open spec fn property_order() -> Seq<CssProperty> {
    seq![
        CssProperty::Theme,
        CssProperty::Density,
        CssProperty::Bg,
        CssProperty::Paper,
        CssProperty::Paper2,
        CssProperty::Ink,
        CssProperty::Ink2,
        CssProperty::Ink3,
        CssProperty::Line,
        CssProperty::LineSoft,
        CssProperty::Chrome,
        CssProperty::Chrome2,
        CssProperty::ChromeInk,
        CssProperty::ChromeInk2,
        CssProperty::Accent,
        CssProperty::AccentSoft,
        CssProperty::Amber,
        CssProperty::AmberSoft,
        CssProperty::GreenSoft,
        CssProperty::SignalSoft,
        CssProperty::RedSoft,
        CssProperty::AccentInk,
        CssProperty::ValueInk,
        CssProperty::ProvConst,
        CssProperty::ProvExt,
        CssProperty::RedInk,
        CssProperty::RadiusChip,
        CssProperty::RadiusCard,
        CssProperty::RadiusPanel,
        CssProperty::Gap1,
        CssProperty::Gap2,
        CssProperty::Gap3,
        CssProperty::Gap4,
        CssProperty::Gap5,
        CssProperty::Gap6,
        CssProperty::MotionMin,
        CssProperty::MotionMax,
        CssProperty::LineHeight,
        CssProperty::Measure,
    ]
}

/// The position of a property in [`property_order`].
pub open spec fn property_index(p: CssProperty) -> int {
    match p {
        CssProperty::Theme => 0,
        CssProperty::Density => 1,
        CssProperty::Bg => 2,
        CssProperty::Paper => 3,
        CssProperty::Paper2 => 4,
        CssProperty::Ink => 5,
        CssProperty::Ink2 => 6,
        CssProperty::Ink3 => 7,
        CssProperty::Line => 8,
        CssProperty::LineSoft => 9,
        CssProperty::Chrome => 10,
        CssProperty::Chrome2 => 11,
        CssProperty::ChromeInk => 12,
        CssProperty::ChromeInk2 => 13,
        CssProperty::Accent => 14,
        CssProperty::AccentSoft => 15,
        CssProperty::Amber => 16,
        CssProperty::AmberSoft => 17,
        CssProperty::GreenSoft => 18,
        CssProperty::SignalSoft => 19,
        CssProperty::RedSoft => 20,
        CssProperty::AccentInk => 21,
        CssProperty::ValueInk => 22,
        CssProperty::ProvConst => 23,
        CssProperty::ProvExt => 24,
        CssProperty::RedInk => 25,
        CssProperty::RadiusChip => 26,
        CssProperty::RadiusCard => 27,
        CssProperty::RadiusPanel => 28,
        CssProperty::Gap1 => 29,
        CssProperty::Gap2 => 30,
        CssProperty::Gap3 => 31,
        CssProperty::Gap4 => 32,
        CssProperty::Gap5 => 33,
        CssProperty::Gap6 => 34,
        CssProperty::MotionMin => 35,
        CssProperty::MotionMax => 36,
        CssProperty::LineHeight => 37,
        CssProperty::Measure => 38,
    }
}

/// The `line-height` value of a density, as CSS text.
pub open spec fn line_height_text(density: Density) -> Seq<char> {
    match density {
        Density::Working => "1.35"@,
        Density::Reading => "1.6"@,
    }
}

/// The value a property takes for `theme` + `density`. Colors come from the
/// theme's tokens (amber is the one non-themed color); geometry and motion
/// are constants; `density`, `line-height` and `measure` vary with density.
pub open spec fn property_value(p: CssProperty, theme: Theme, density: Density) -> Seq<char> {
    match p {
        CssProperty::Theme => theme_id(theme),
        CssProperty::Density => density_id(density),
        CssProperty::Bg => hex_text(theme_tokens(theme).bg),
        CssProperty::Paper => hex_text(theme_tokens(theme).paper),
        CssProperty::Paper2 => hex_text(theme_tokens(theme).paper_2),
        CssProperty::Ink => hex_text(theme_tokens(theme).ink),
        CssProperty::Ink2 => hex_text(theme_tokens(theme).ink_2),
        CssProperty::Ink3 => hex_text(theme_tokens(theme).ink_3),
        CssProperty::Line => hex_text(theme_tokens(theme).line),
        CssProperty::LineSoft => hex_text(theme_tokens(theme).line_soft),
        CssProperty::Chrome => hex_text(theme_tokens(theme).chrome),
        CssProperty::Chrome2 => hex_text(theme_tokens(theme).chrome_2),
        CssProperty::ChromeInk => hex_text(theme_tokens(theme).chrome_ink),
        CssProperty::ChromeInk2 => hex_text(theme_tokens(theme).chrome_ink_2),
        CssProperty::Accent => hex_text(theme_tokens(theme).accent),
        CssProperty::AccentSoft => hex_text(theme_tokens(theme).accent_soft),
        CssProperty::Amber => hex_text(amber_rgb()),
        CssProperty::AmberSoft => hex_text(theme_tokens(theme).amber_soft),
        CssProperty::GreenSoft => hex_text(theme_tokens(theme).green_soft),
        CssProperty::SignalSoft => hex_text(theme_tokens(theme).signal_soft),
        CssProperty::RedSoft => hex_text(theme_tokens(theme).red_soft),
        CssProperty::AccentInk => hex_text(theme_tokens(theme).accent_ink),
        CssProperty::ValueInk => hex_text(theme_tokens(theme).value_ink),
        CssProperty::ProvConst => hex_text(theme_tokens(theme).prov_const),
        CssProperty::ProvExt => hex_text(theme_tokens(theme).prov_ext),
        CssProperty::RedInk => hex_text(theme_tokens(theme).red_ink),
        CssProperty::RadiusChip => decimal_text(RADIUS_CHIP as nat) + "px"@,
        CssProperty::RadiusCard => decimal_text(RADIUS_CARD as nat) + "px"@,
        CssProperty::RadiusPanel => decimal_text(RADIUS_PANEL as nat) + "px"@,
        CssProperty::Gap1 => decimal_text(GAP_SCALE@[0] as nat) + "px"@,
        CssProperty::Gap2 => decimal_text(GAP_SCALE@[1] as nat) + "px"@,
        CssProperty::Gap3 => decimal_text(GAP_SCALE@[2] as nat) + "px"@,
        CssProperty::Gap4 => decimal_text(GAP_SCALE@[3] as nat) + "px"@,
        CssProperty::Gap5 => decimal_text(GAP_SCALE@[4] as nat) + "px"@,
        CssProperty::Gap6 => decimal_text(GAP_SCALE@[5] as nat) + "px"@,
        CssProperty::MotionMin => decimal_text(MOTION_DURATION_MIN_MS as nat) + "ms"@,
        CssProperty::MotionMax => decimal_text(MOTION_DURATION_MAX_MS as nat) + "ms"@,
        CssProperty::LineHeight => line_height_text(density),
        CssProperty::Measure => match density_measure(density) {
            Some(m) => m,
            None => "none"@,
        },
    }
}

/// One emitted declaration line.
pub open spec fn css_line(p: CssProperty, theme: Theme, density: Density) -> Seq<char> {
    "  --dna-"@ + property_name(p) + ": "@ + property_value(p, theme, density) + ";\n"@
}

/// The declaration lines of `props`, in order.
pub open spec fn css_lines(props: Seq<CssProperty>, theme: Theme, density: Density) -> Seq<char>
    decreases props.len(),
{
    if props.len() == 0 {
        Seq::empty()
    } else {
        css_lines(props.drop_last(), theme, density) + css_line(props.last(), theme, density)
    }
}

/// The whole `:root` block for `theme` + `density`.
pub open spec fn css_text(theme: Theme, density: Density) -> Seq<char> {
    ":root {\n"@ + css_lines(property_order(), theme, density) + "}\n"@
}

/// The emission order as the property names themselves.
pub const PROPERTY_ORDER: [&'static str; 39] = ["theme", "density", "bg", "paper", "paper-2", "ink", "ink-2", "ink-3", "line", "line-soft", "chrome", "chrome-2", "chrome-ink", "chrome-ink-2", "accent", "accent-soft", "amber", "amber-soft", "green-soft", "signal-soft", "red-soft", "accent-ink", "value-ink", "prov-const", "prov-ext", "red-ink", "radius-chip", "radius-card", "radius-panel", "gap-1", "gap-2", "gap-3", "gap-4", "gap-5", "gap-6", "motion-min", "motion-max", "line-height", "measure"];

/// Whether a property is one of the three lines density owns.
pub open spec fn is_density_owned(p: CssProperty) -> bool {
    p == CssProperty::Density || p == CssProperty::LineHeight || p == CssProperty::Measure
}

fn property_order_vec() -> (v: Vec<CssProperty>)
    ensures
        v@ == property_order(),
{
    vec![
        CssProperty::Theme,
        CssProperty::Density,
        CssProperty::Bg,
        CssProperty::Paper,
        CssProperty::Paper2,
        CssProperty::Ink,
        CssProperty::Ink2,
        CssProperty::Ink3,
        CssProperty::Line,
        CssProperty::LineSoft,
        CssProperty::Chrome,
        CssProperty::Chrome2,
        CssProperty::ChromeInk,
        CssProperty::ChromeInk2,
        CssProperty::Accent,
        CssProperty::AccentSoft,
        CssProperty::Amber,
        CssProperty::AmberSoft,
        CssProperty::GreenSoft,
        CssProperty::SignalSoft,
        CssProperty::RedSoft,
        CssProperty::AccentInk,
        CssProperty::ValueInk,
        CssProperty::ProvConst,
        CssProperty::ProvExt,
        CssProperty::RedInk,
        CssProperty::RadiusChip,
        CssProperty::RadiusCard,
        CssProperty::RadiusPanel,
        CssProperty::Gap1,
        CssProperty::Gap2,
        CssProperty::Gap3,
        CssProperty::Gap4,
        CssProperty::Gap5,
        CssProperty::Gap6,
        CssProperty::MotionMin,
        CssProperty::MotionMax,
        CssProperty::LineHeight,
        CssProperty::Measure,
    ]
}

fn property_name_str(p: CssProperty) -> (s: &'static str)
    ensures
        s@ == property_name(p),
{
    match p {
            CssProperty::Theme => "theme",
            CssProperty::Density => "density",
            CssProperty::Bg => "bg",
            CssProperty::Paper => "paper",
            CssProperty::Paper2 => "paper-2",
            CssProperty::Ink => "ink",
            CssProperty::Ink2 => "ink-2",
            CssProperty::Ink3 => "ink-3",
            CssProperty::Line => "line",
            CssProperty::LineSoft => "line-soft",
            CssProperty::Chrome => "chrome",
            CssProperty::Chrome2 => "chrome-2",
            CssProperty::ChromeInk => "chrome-ink",
            CssProperty::ChromeInk2 => "chrome-ink-2",
            CssProperty::Accent => "accent",
            CssProperty::AccentSoft => "accent-soft",
            CssProperty::Amber => "amber",
            CssProperty::AmberSoft => "amber-soft",
            CssProperty::GreenSoft => "green-soft",
            CssProperty::SignalSoft => "signal-soft",
            CssProperty::RedSoft => "red-soft",
            CssProperty::AccentInk => "accent-ink",
            CssProperty::ValueInk => "value-ink",
            CssProperty::ProvConst => "prov-const",
            CssProperty::ProvExt => "prov-ext",
            CssProperty::RedInk => "red-ink",
            CssProperty::RadiusChip => "radius-chip",
            CssProperty::RadiusCard => "radius-card",
            CssProperty::RadiusPanel => "radius-panel",
            CssProperty::Gap1 => "gap-1",
            CssProperty::Gap2 => "gap-2",
            CssProperty::Gap3 => "gap-3",
            CssProperty::Gap4 => "gap-4",
            CssProperty::Gap5 => "gap-5",
            CssProperty::Gap6 => "gap-6",
            CssProperty::MotionMin => "motion-min",
            CssProperty::MotionMax => "motion-max",
            CssProperty::LineHeight => "line-height",
            CssProperty::Measure => "measure",
    }
}

fn line_height_str(density: Density) -> (s: &'static str)
    ensures
        s@ == line_height_text(density),
{
    match density {
        Density::Working => "1.35",
        Density::Reading => "1.6",
    }
}

fn with_unit(n: u64, unit: &str) -> (s: String)
    ensures
        s@ == decimal_text(n as nat) + unit@,
{
    let mut s = String::new();
    push_decimal(&mut s, n);
    push_str(&mut s, unit);
    s
}

fn property_value_text(p: CssProperty, theme: Theme, t: &ThemeTokens, density: Density) -> (s: String)
    requires
        *t == theme_tokens(theme),
    ensures
        s@ == property_value(p, theme, density),
{
    match p {
        CssProperty::Theme => String::from_str(theme.id()),
        CssProperty::Density => String::from_str(density.id()),
        CssProperty::Bg => t.bg.to_hex(),
        CssProperty::Paper => t.paper.to_hex(),
        CssProperty::Paper2 => t.paper_2.to_hex(),
        CssProperty::Ink => t.ink.to_hex(),
        CssProperty::Ink2 => t.ink_2.to_hex(),
        CssProperty::Ink3 => t.ink_3.to_hex(),
        CssProperty::Line => t.line.to_hex(),
        CssProperty::LineSoft => t.line_soft.to_hex(),
        CssProperty::Chrome => t.chrome.to_hex(),
        CssProperty::Chrome2 => t.chrome_2.to_hex(),
        CssProperty::ChromeInk => t.chrome_ink.to_hex(),
        CssProperty::ChromeInk2 => t.chrome_ink_2.to_hex(),
        CssProperty::Accent => t.accent.to_hex(),
        CssProperty::AccentSoft => t.accent_soft.to_hex(),
        CssProperty::Amber => amber().to_hex(),
        CssProperty::AmberSoft => t.amber_soft.to_hex(),
        CssProperty::GreenSoft => t.green_soft.to_hex(),
        CssProperty::SignalSoft => t.signal_soft.to_hex(),
        CssProperty::RedSoft => t.red_soft.to_hex(),
        CssProperty::AccentInk => t.accent_ink.to_hex(),
        CssProperty::ValueInk => t.value_ink.to_hex(),
        CssProperty::ProvConst => t.prov_const.to_hex(),
        CssProperty::ProvExt => t.prov_ext.to_hex(),
        CssProperty::RedInk => t.red_ink.to_hex(),
        CssProperty::RadiusChip => with_unit(RADIUS_CHIP as u64, "px"),
        CssProperty::RadiusCard => with_unit(RADIUS_CARD as u64, "px"),
        CssProperty::RadiusPanel => with_unit(RADIUS_PANEL as u64, "px"),
        CssProperty::Gap1 => with_unit(GAP_SCALE[0] as u64, "px"),
        CssProperty::Gap2 => with_unit(GAP_SCALE[1] as u64, "px"),
        CssProperty::Gap3 => with_unit(GAP_SCALE[2] as u64, "px"),
        CssProperty::Gap4 => with_unit(GAP_SCALE[3] as u64, "px"),
        CssProperty::Gap5 => with_unit(GAP_SCALE[4] as u64, "px"),
        CssProperty::Gap6 => with_unit(GAP_SCALE[5] as u64, "px"),
        CssProperty::MotionMin => with_unit(MOTION_DURATION_MIN_MS as u64, "ms"),
        CssProperty::MotionMax => with_unit(MOTION_DURATION_MAX_MS as u64, "ms"),
        CssProperty::LineHeight => String::from_str(line_height_str(density)),
        CssProperty::Measure => match density.measure() {
                Some(m) => String::from_str(m),
                None => String::from_str("none"),
            },
    }
}

/// Emit the stable-ordered `:root { --dna-*: ...; }` block for `theme` +
/// `density`.
#[verifier::spinoff_prover]
#[verifier::rlimit(40)]
pub fn css_custom_properties(theme: Theme, density: Density) -> (css: String)
    ensures
        css@ == css_text(theme, density),
{
    let tokens = theme.tokens();
    let order = property_order_vec();
    let mut out = String::from_str(":root {\n");
    let mut i: usize = 0;
    while i < order.len()
        invariant
            0 <= i <= order@.len(),
            order@ == property_order(),
            tokens == theme_tokens(theme),
            out@ == ":root {\n"@ + css_lines(order@.take(i as int), theme, density),
        decreases order@.len() - i,
    {
        let p = order[i];
        push_str(&mut out, "  --dna-");
        push_str(&mut out, property_name_str(p));
        push_str(&mut out, ": ");
        let value = property_value_text(p, theme, &tokens, density);
        push_str(&mut out, value.as_str());
        push_str(&mut out, ";\n");
        proof {
            assert(order@.take(i + 1).drop_last() =~= order@.take(i as int));
            assert(order@.take(i + 1).last() == p);
        }
        i = i + 1;
    }
    push_str(&mut out, "}\n");
    proof {
        assert(order@.take(order@.len() as int) =~= order@);
    }
    out
}

/// Law: density changes only the lines density owns (`density`,
/// `line-height`, `measure`) — every color, geometry and motion line is the
/// same under both densities.
pub proof fn lemma_density_changes_only_its_own_lines(theme: Theme, d1: Density, d2: Density, p: CssProperty)
    requires
        !is_density_owned(p),
    ensures
        css_line(p, theme, d1) == css_line(p, theme, d2),
{
}

/// Law: the emission order lists every property exactly once.
pub proof fn lemma_property_order_is_a_permutation()
    ensures
        property_order().len() == 39,
        forall|p: CssProperty| 0 <= #[trigger] property_index(p) < property_order().len()
            && property_order()[property_index(p)] == p,
        forall|i: int| 0 <= i < property_order().len() ==> property_index(#[trigger] property_order()[i]) == i,
{
    assert forall|p: CssProperty| 0 <= #[trigger] property_index(p) < property_order().len()
        && property_order()[property_index(p)] == p by {
        match p {
            _ => {}
        }
    }
}

/// Law: [`PROPERTY_ORDER`] names exactly the properties of
/// [`property_order`], position by position.
pub proof fn lemma_property_order_names()
    ensures
        PROPERTY_ORDER@.len() == property_order().len(),
        forall|i: int| 0 <= i < property_order().len() ==> (#[trigger] PROPERTY_ORDER@[i])@ == property_name(property_order()[i]),
{
}


/// The color properties: every property but the theme and density ids,
/// the geometry, the motion bounds, the line height and the measure.
pub open spec fn is_color_property(p: CssProperty) -> bool {
    !(p == CssProperty::Theme || p == CssProperty::Density || p == CssProperty::RadiusChip || p
        == CssProperty::RadiusCard || p == CssProperty::RadiusPanel || p == CssProperty::Gap1 || p
        == CssProperty::Gap2 || p == CssProperty::Gap3 || p == CssProperty::Gap4 || p
        == CssProperty::Gap5 || p == CssProperty::Gap6 || p == CssProperty::MotionMin || p
        == CssProperty::MotionMax || p == CssProperty::LineHeight || p == CssProperty::Measure)
}

/// Law: every color line carries the `#RRGGBB` text of the color the
/// theme's token table resolves its property name to (amber included).
#[verifier::rlimit(60)]
pub proof fn lemma_color_lines_are_the_resolved_tokens(theme: Theme, density: Density, p: CssProperty)
    requires
        is_color_property(p),
    ensures
        resolve_token(theme_tokens(theme), property_name(p)) matches Some(c) && property_value(
            p,
            theme,
            density,
        ) == hex_text(c),
{
    match p {
        CssProperty::Bg => {
            reveal_strlit("bg");
            assert("bg"@.len() == 2);
        },
        CssProperty::Paper => {
            reveal_strlit("paper");
            assert("paper"@.len() == 5);
            reveal_strlit("bg");
            assert("bg"@.len() == 2);
        },
        CssProperty::Paper2 => {
            reveal_strlit("paper-2");
            assert("paper-2"@.len() == 7);
            reveal_strlit("bg");
            assert("bg"@.len() == 2);
            reveal_strlit("paper");
            assert("paper"@.len() == 5);
        },
        CssProperty::Ink => {
            reveal_strlit("ink");
            assert("ink"@.len() == 3);
            reveal_strlit("bg");
            assert("bg"@.len() == 2);
            reveal_strlit("paper");
            assert("paper"@.len() == 5);
            reveal_strlit("paper-2");
            assert("paper-2"@.len() == 7);
        },
        CssProperty::Ink2 => {
            reveal_strlit("ink-2");
            assert("ink-2"@.len() == 5);
            reveal_strlit("bg");
            assert("bg"@.len() == 2);
            reveal_strlit("paper");
            assert("paper"@[0] != "ink-2"@[0]);
            reveal_strlit("paper-2");
            assert("paper-2"@.len() == 7);
            reveal_strlit("ink");
            assert("ink"@.len() == 3);
        },
        CssProperty::Ink3 => {
            reveal_strlit("ink-3");
            assert("ink-3"@.len() == 5);
            reveal_strlit("bg");
            assert("bg"@.len() == 2);
            reveal_strlit("paper");
            assert("paper"@[0] != "ink-3"@[0]);
            reveal_strlit("paper-2");
            assert("paper-2"@.len() == 7);
            reveal_strlit("ink");
            assert("ink"@.len() == 3);
            reveal_strlit("ink-2");
            assert("ink-2"@[4] != "ink-3"@[4]);
        },
        CssProperty::Line => {
            reveal_strlit("line");
            assert("line"@.len() == 4);
            reveal_strlit("bg");
            assert("bg"@.len() == 2);
            reveal_strlit("paper");
            assert("paper"@.len() == 5);
            reveal_strlit("paper-2");
            assert("paper-2"@.len() == 7);
            reveal_strlit("ink");
            assert("ink"@.len() == 3);
            reveal_strlit("ink-2");
            assert("ink-2"@.len() == 5);
            reveal_strlit("ink-3");
            assert("ink-3"@.len() == 5);
        },
        CssProperty::LineSoft => {
            reveal_strlit("line-soft");
            assert("line-soft"@.len() == 9);
            reveal_strlit("bg");
            assert("bg"@.len() == 2);
            reveal_strlit("paper");
            assert("paper"@.len() == 5);
            reveal_strlit("paper-2");
            assert("paper-2"@.len() == 7);
            reveal_strlit("ink");
            assert("ink"@.len() == 3);
            reveal_strlit("ink-2");
            assert("ink-2"@.len() == 5);
            reveal_strlit("ink-3");
            assert("ink-3"@.len() == 5);
            reveal_strlit("line");
            assert("line"@.len() == 4);
        },
        CssProperty::Chrome => {
            reveal_strlit("chrome");
            assert("chrome"@.len() == 6);
            reveal_strlit("bg");
            assert("bg"@.len() == 2);
            reveal_strlit("paper");
            assert("paper"@.len() == 5);
            reveal_strlit("paper-2");
            assert("paper-2"@.len() == 7);
            reveal_strlit("ink");
            assert("ink"@.len() == 3);
            reveal_strlit("ink-2");
            assert("ink-2"@.len() == 5);
            reveal_strlit("ink-3");
            assert("ink-3"@.len() == 5);
            reveal_strlit("line");
            assert("line"@.len() == 4);
            reveal_strlit("line-soft");
            assert("line-soft"@.len() == 9);
        },
        CssProperty::Chrome2 => {
            reveal_strlit("chrome-2");
            assert("chrome-2"@.len() == 8);
            reveal_strlit("bg");
            assert("bg"@.len() == 2);
            reveal_strlit("paper");
            assert("paper"@.len() == 5);
            reveal_strlit("paper-2");
            assert("paper-2"@.len() == 7);
            reveal_strlit("ink");
            assert("ink"@.len() == 3);
            reveal_strlit("ink-2");
            assert("ink-2"@.len() == 5);
            reveal_strlit("ink-3");
            assert("ink-3"@.len() == 5);
            reveal_strlit("line");
            assert("line"@.len() == 4);
            reveal_strlit("line-soft");
            assert("line-soft"@.len() == 9);
            reveal_strlit("chrome");
            assert("chrome"@.len() == 6);
        },
        CssProperty::ChromeInk => {
            reveal_strlit("chrome-ink");
            assert("chrome-ink"@.len() == 10);
            reveal_strlit("bg");
            assert("bg"@.len() == 2);
            reveal_strlit("paper");
            assert("paper"@.len() == 5);
            reveal_strlit("paper-2");
            assert("paper-2"@.len() == 7);
            reveal_strlit("ink");
            assert("ink"@.len() == 3);
            reveal_strlit("ink-2");
            assert("ink-2"@.len() == 5);
            reveal_strlit("ink-3");
            assert("ink-3"@.len() == 5);
            reveal_strlit("line");
            assert("line"@.len() == 4);
            reveal_strlit("line-soft");
            assert("line-soft"@.len() == 9);
            reveal_strlit("chrome");
            assert("chrome"@.len() == 6);
            reveal_strlit("chrome-2");
            assert("chrome-2"@.len() == 8);
        },
        CssProperty::ChromeInk2 => {
            reveal_strlit("chrome-ink-2");
            assert("chrome-ink-2"@.len() == 12);
            reveal_strlit("bg");
            assert("bg"@.len() == 2);
            reveal_strlit("paper");
            assert("paper"@.len() == 5);
            reveal_strlit("paper-2");
            assert("paper-2"@.len() == 7);
            reveal_strlit("ink");
            assert("ink"@.len() == 3);
            reveal_strlit("ink-2");
            assert("ink-2"@.len() == 5);
            reveal_strlit("ink-3");
            assert("ink-3"@.len() == 5);
            reveal_strlit("line");
            assert("line"@.len() == 4);
            reveal_strlit("line-soft");
            assert("line-soft"@.len() == 9);
            reveal_strlit("chrome");
            assert("chrome"@.len() == 6);
            reveal_strlit("chrome-2");
            assert("chrome-2"@.len() == 8);
            reveal_strlit("chrome-ink");
            assert("chrome-ink"@.len() == 10);
        },
        CssProperty::Accent => {
            reveal_strlit("accent");
            assert("accent"@.len() == 6);
            reveal_strlit("bg");
            assert("bg"@.len() == 2);
            reveal_strlit("paper");
            assert("paper"@.len() == 5);
            reveal_strlit("paper-2");
            assert("paper-2"@.len() == 7);
            reveal_strlit("ink");
            assert("ink"@.len() == 3);
            reveal_strlit("ink-2");
            assert("ink-2"@.len() == 5);
            reveal_strlit("ink-3");
            assert("ink-3"@.len() == 5);
            reveal_strlit("line");
            assert("line"@.len() == 4);
            reveal_strlit("line-soft");
            assert("line-soft"@.len() == 9);
            reveal_strlit("chrome");
            assert("chrome"@[0] != "accent"@[0]);
            reveal_strlit("chrome-2");
            assert("chrome-2"@.len() == 8);
            reveal_strlit("chrome-ink");
            assert("chrome-ink"@.len() == 10);
            reveal_strlit("chrome-ink-2");
            assert("chrome-ink-2"@.len() == 12);
        },
        CssProperty::AccentSoft => {
            reveal_strlit("accent-soft");
            assert("accent-soft"@.len() == 11);
            reveal_strlit("bg");
            assert("bg"@.len() == 2);
            reveal_strlit("paper");
            assert("paper"@.len() == 5);
            reveal_strlit("paper-2");
            assert("paper-2"@.len() == 7);
            reveal_strlit("ink");
            assert("ink"@.len() == 3);
            reveal_strlit("ink-2");
            assert("ink-2"@.len() == 5);
            reveal_strlit("ink-3");
            assert("ink-3"@.len() == 5);
            reveal_strlit("line");
            assert("line"@.len() == 4);
            reveal_strlit("line-soft");
            assert("line-soft"@.len() == 9);
            reveal_strlit("chrome");
            assert("chrome"@.len() == 6);
            reveal_strlit("chrome-2");
            assert("chrome-2"@.len() == 8);
            reveal_strlit("chrome-ink");
            assert("chrome-ink"@.len() == 10);
            reveal_strlit("chrome-ink-2");
            assert("chrome-ink-2"@.len() == 12);
            reveal_strlit("accent");
            assert("accent"@.len() == 6);
        },
        CssProperty::Amber => {
            reveal_strlit("amber");
            assert("amber"@.len() == 5);
            reveal_strlit("bg");
            assert("bg"@.len() == 2);
            reveal_strlit("paper");
            assert("paper"@[0] != "amber"@[0]);
            reveal_strlit("paper-2");
            assert("paper-2"@.len() == 7);
            reveal_strlit("ink");
            assert("ink"@.len() == 3);
            reveal_strlit("ink-2");
            assert("ink-2"@[0] != "amber"@[0]);
            reveal_strlit("ink-3");
            assert("ink-3"@[0] != "amber"@[0]);
            reveal_strlit("line");
            assert("line"@.len() == 4);
            reveal_strlit("line-soft");
            assert("line-soft"@.len() == 9);
            reveal_strlit("chrome");
            assert("chrome"@.len() == 6);
            reveal_strlit("chrome-2");
            assert("chrome-2"@.len() == 8);
            reveal_strlit("chrome-ink");
            assert("chrome-ink"@.len() == 10);
            reveal_strlit("chrome-ink-2");
            assert("chrome-ink-2"@.len() == 12);
            reveal_strlit("accent");
            assert("accent"@.len() == 6);
            reveal_strlit("accent-soft");
            assert("accent-soft"@.len() == 11);
            reveal_strlit("amber-soft");
            assert("amber-soft"@.len() == 10);
            reveal_strlit("green-soft");
            assert("green-soft"@.len() == 10);
            reveal_strlit("signal-soft");
            assert("signal-soft"@.len() == 11);
            reveal_strlit("red-soft");
            assert("red-soft"@.len() == 8);
            reveal_strlit("accent-ink");
            assert("accent-ink"@.len() == 10);
            reveal_strlit("value-ink");
            assert("value-ink"@.len() == 9);
            reveal_strlit("prov-const");
            assert("prov-const"@.len() == 10);
            reveal_strlit("prov-ext");
            assert("prov-ext"@.len() == 8);
            reveal_strlit("red");
            assert("red"@.len() == 3);
            reveal_strlit("red-ink");
            assert("red-ink"@.len() == 7);
        },
        CssProperty::AmberSoft => {
            reveal_strlit("amber-soft");
            assert("amber-soft"@.len() == 10);
            reveal_strlit("bg");
            assert("bg"@.len() == 2);
            reveal_strlit("paper");
            assert("paper"@.len() == 5);
            reveal_strlit("paper-2");
            assert("paper-2"@.len() == 7);
            reveal_strlit("ink");
            assert("ink"@.len() == 3);
            reveal_strlit("ink-2");
            assert("ink-2"@.len() == 5);
            reveal_strlit("ink-3");
            assert("ink-3"@.len() == 5);
            reveal_strlit("line");
            assert("line"@.len() == 4);
            reveal_strlit("line-soft");
            assert("line-soft"@.len() == 9);
            reveal_strlit("chrome");
            assert("chrome"@.len() == 6);
            reveal_strlit("chrome-2");
            assert("chrome-2"@.len() == 8);
            reveal_strlit("chrome-ink");
            assert("chrome-ink"@[0] != "amber-soft"@[0]);
            reveal_strlit("chrome-ink-2");
            assert("chrome-ink-2"@.len() == 12);
            reveal_strlit("accent");
            assert("accent"@.len() == 6);
            reveal_strlit("accent-soft");
            assert("accent-soft"@.len() == 11);
        },
        CssProperty::GreenSoft => {
            reveal_strlit("green-soft");
            assert("green-soft"@.len() == 10);
            reveal_strlit("bg");
            assert("bg"@.len() == 2);
            reveal_strlit("paper");
            assert("paper"@.len() == 5);
            reveal_strlit("paper-2");
            assert("paper-2"@.len() == 7);
            reveal_strlit("ink");
            assert("ink"@.len() == 3);
            reveal_strlit("ink-2");
            assert("ink-2"@.len() == 5);
            reveal_strlit("ink-3");
            assert("ink-3"@.len() == 5);
            reveal_strlit("line");
            assert("line"@.len() == 4);
            reveal_strlit("line-soft");
            assert("line-soft"@.len() == 9);
            reveal_strlit("chrome");
            assert("chrome"@.len() == 6);
            reveal_strlit("chrome-2");
            assert("chrome-2"@.len() == 8);
            reveal_strlit("chrome-ink");
            assert("chrome-ink"@[0] != "green-soft"@[0]);
            reveal_strlit("chrome-ink-2");
            assert("chrome-ink-2"@.len() == 12);
            reveal_strlit("accent");
            assert("accent"@.len() == 6);
            reveal_strlit("accent-soft");
            assert("accent-soft"@.len() == 11);
            reveal_strlit("amber-soft");
            assert("amber-soft"@[0] != "green-soft"@[0]);
        },
        CssProperty::SignalSoft => {
            reveal_strlit("signal-soft");
            assert("signal-soft"@.len() == 11);
            reveal_strlit("bg");
            assert("bg"@.len() == 2);
            reveal_strlit("paper");
            assert("paper"@.len() == 5);
            reveal_strlit("paper-2");
            assert("paper-2"@.len() == 7);
            reveal_strlit("ink");
            assert("ink"@.len() == 3);
            reveal_strlit("ink-2");
            assert("ink-2"@.len() == 5);
            reveal_strlit("ink-3");
            assert("ink-3"@.len() == 5);
            reveal_strlit("line");
            assert("line"@.len() == 4);
            reveal_strlit("line-soft");
            assert("line-soft"@.len() == 9);
            reveal_strlit("chrome");
            assert("chrome"@.len() == 6);
            reveal_strlit("chrome-2");
            assert("chrome-2"@.len() == 8);
            reveal_strlit("chrome-ink");
            assert("chrome-ink"@.len() == 10);
            reveal_strlit("chrome-ink-2");
            assert("chrome-ink-2"@.len() == 12);
            reveal_strlit("accent");
            assert("accent"@.len() == 6);
            reveal_strlit("accent-soft");
            assert("accent-soft"@[0] != "signal-soft"@[0]);
            reveal_strlit("amber-soft");
            assert("amber-soft"@.len() == 10);
            reveal_strlit("green-soft");
            assert("green-soft"@.len() == 10);
        },
        CssProperty::RedSoft => {
            reveal_strlit("red-soft");
            assert("red-soft"@.len() == 8);
            reveal_strlit("bg");
            assert("bg"@.len() == 2);
            reveal_strlit("paper");
            assert("paper"@.len() == 5);
            reveal_strlit("paper-2");
            assert("paper-2"@.len() == 7);
            reveal_strlit("ink");
            assert("ink"@.len() == 3);
            reveal_strlit("ink-2");
            assert("ink-2"@.len() == 5);
            reveal_strlit("ink-3");
            assert("ink-3"@.len() == 5);
            reveal_strlit("line");
            assert("line"@.len() == 4);
            reveal_strlit("line-soft");
            assert("line-soft"@.len() == 9);
            reveal_strlit("chrome");
            assert("chrome"@.len() == 6);
            reveal_strlit("chrome-2");
            assert("chrome-2"@[0] != "red-soft"@[0]);
            reveal_strlit("chrome-ink");
            assert("chrome-ink"@.len() == 10);
            reveal_strlit("chrome-ink-2");
            assert("chrome-ink-2"@.len() == 12);
            reveal_strlit("accent");
            assert("accent"@.len() == 6);
            reveal_strlit("accent-soft");
            assert("accent-soft"@.len() == 11);
            reveal_strlit("amber-soft");
            assert("amber-soft"@.len() == 10);
            reveal_strlit("green-soft");
            assert("green-soft"@.len() == 10);
            reveal_strlit("signal-soft");
            assert("signal-soft"@.len() == 11);
        },
        CssProperty::AccentInk => {
            reveal_strlit("accent-ink");
            assert("accent-ink"@.len() == 10);
            reveal_strlit("bg");
            assert("bg"@.len() == 2);
            reveal_strlit("paper");
            assert("paper"@.len() == 5);
            reveal_strlit("paper-2");
            assert("paper-2"@.len() == 7);
            reveal_strlit("ink");
            assert("ink"@.len() == 3);
            reveal_strlit("ink-2");
            assert("ink-2"@.len() == 5);
            reveal_strlit("ink-3");
            assert("ink-3"@.len() == 5);
            reveal_strlit("line");
            assert("line"@.len() == 4);
            reveal_strlit("line-soft");
            assert("line-soft"@.len() == 9);
            reveal_strlit("chrome");
            assert("chrome"@.len() == 6);
            reveal_strlit("chrome-2");
            assert("chrome-2"@.len() == 8);
            reveal_strlit("chrome-ink");
            assert("chrome-ink"@[0] != "accent-ink"@[0]);
            reveal_strlit("chrome-ink-2");
            assert("chrome-ink-2"@.len() == 12);
            reveal_strlit("accent");
            assert("accent"@.len() == 6);
            reveal_strlit("accent-soft");
            assert("accent-soft"@.len() == 11);
            reveal_strlit("amber-soft");
            assert("amber-soft"@[1] != "accent-ink"@[1]);
            reveal_strlit("green-soft");
            assert("green-soft"@[0] != "accent-ink"@[0]);
            reveal_strlit("signal-soft");
            assert("signal-soft"@.len() == 11);
            reveal_strlit("red-soft");
            assert("red-soft"@.len() == 8);
        },
        CssProperty::ValueInk => {
            reveal_strlit("value-ink");
            assert("value-ink"@.len() == 9);
            reveal_strlit("bg");
            assert("bg"@.len() == 2);
            reveal_strlit("paper");
            assert("paper"@.len() == 5);
            reveal_strlit("paper-2");
            assert("paper-2"@.len() == 7);
            reveal_strlit("ink");
            assert("ink"@.len() == 3);
            reveal_strlit("ink-2");
            assert("ink-2"@.len() == 5);
            reveal_strlit("ink-3");
            assert("ink-3"@.len() == 5);
            reveal_strlit("line");
            assert("line"@.len() == 4);
            reveal_strlit("line-soft");
            assert("line-soft"@[0] != "value-ink"@[0]);
            reveal_strlit("chrome");
            assert("chrome"@.len() == 6);
            reveal_strlit("chrome-2");
            assert("chrome-2"@.len() == 8);
            reveal_strlit("chrome-ink");
            assert("chrome-ink"@.len() == 10);
            reveal_strlit("chrome-ink-2");
            assert("chrome-ink-2"@.len() == 12);
            reveal_strlit("accent");
            assert("accent"@.len() == 6);
            reveal_strlit("accent-soft");
            assert("accent-soft"@.len() == 11);
            reveal_strlit("amber-soft");
            assert("amber-soft"@.len() == 10);
            reveal_strlit("green-soft");
            assert("green-soft"@.len() == 10);
            reveal_strlit("signal-soft");
            assert("signal-soft"@.len() == 11);
            reveal_strlit("red-soft");
            assert("red-soft"@.len() == 8);
            reveal_strlit("accent-ink");
            assert("accent-ink"@.len() == 10);
        },
        CssProperty::ProvConst => {
            reveal_strlit("prov-const");
            assert("prov-const"@.len() == 10);
            reveal_strlit("bg");
            assert("bg"@.len() == 2);
            reveal_strlit("paper");
            assert("paper"@.len() == 5);
            reveal_strlit("paper-2");
            assert("paper-2"@.len() == 7);
            reveal_strlit("ink");
            assert("ink"@.len() == 3);
            reveal_strlit("ink-2");
            assert("ink-2"@.len() == 5);
            reveal_strlit("ink-3");
            assert("ink-3"@.len() == 5);
            reveal_strlit("line");
            assert("line"@.len() == 4);
            reveal_strlit("line-soft");
            assert("line-soft"@.len() == 9);
            reveal_strlit("chrome");
            assert("chrome"@.len() == 6);
            reveal_strlit("chrome-2");
            assert("chrome-2"@.len() == 8);
            reveal_strlit("chrome-ink");
            assert("chrome-ink"@[0] != "prov-const"@[0]);
            reveal_strlit("chrome-ink-2");
            assert("chrome-ink-2"@.len() == 12);
            reveal_strlit("accent");
            assert("accent"@.len() == 6);
            reveal_strlit("accent-soft");
            assert("accent-soft"@.len() == 11);
            reveal_strlit("amber-soft");
            assert("amber-soft"@[0] != "prov-const"@[0]);
            reveal_strlit("green-soft");
            assert("green-soft"@[0] != "prov-const"@[0]);
            reveal_strlit("signal-soft");
            assert("signal-soft"@.len() == 11);
            reveal_strlit("red-soft");
            assert("red-soft"@.len() == 8);
            reveal_strlit("accent-ink");
            assert("accent-ink"@[0] != "prov-const"@[0]);
            reveal_strlit("value-ink");
            assert("value-ink"@.len() == 9);
        },
        CssProperty::ProvExt => {
            reveal_strlit("prov-ext");
            assert("prov-ext"@.len() == 8);
            reveal_strlit("bg");
            assert("bg"@.len() == 2);
            reveal_strlit("paper");
            assert("paper"@.len() == 5);
            reveal_strlit("paper-2");
            assert("paper-2"@.len() == 7);
            reveal_strlit("ink");
            assert("ink"@.len() == 3);
            reveal_strlit("ink-2");
            assert("ink-2"@.len() == 5);
            reveal_strlit("ink-3");
            assert("ink-3"@.len() == 5);
            reveal_strlit("line");
            assert("line"@.len() == 4);
            reveal_strlit("line-soft");
            assert("line-soft"@.len() == 9);
            reveal_strlit("chrome");
            assert("chrome"@.len() == 6);
            reveal_strlit("chrome-2");
            assert("chrome-2"@[0] != "prov-ext"@[0]);
            reveal_strlit("chrome-ink");
            assert("chrome-ink"@.len() == 10);
            reveal_strlit("chrome-ink-2");
            assert("chrome-ink-2"@.len() == 12);
            reveal_strlit("accent");
            assert("accent"@.len() == 6);
            reveal_strlit("accent-soft");
            assert("accent-soft"@.len() == 11);
            reveal_strlit("amber-soft");
            assert("amber-soft"@.len() == 10);
            reveal_strlit("green-soft");
            assert("green-soft"@.len() == 10);
            reveal_strlit("signal-soft");
            assert("signal-soft"@.len() == 11);
            reveal_strlit("red-soft");
            assert("red-soft"@[0] != "prov-ext"@[0]);
            reveal_strlit("accent-ink");
            assert("accent-ink"@.len() == 10);
            reveal_strlit("value-ink");
            assert("value-ink"@.len() == 9);
            reveal_strlit("prov-const");
            assert("prov-const"@.len() == 10);
        },
        CssProperty::RedInk => {
            reveal_strlit("red-ink");
            assert("red-ink"@.len() == 7);
            reveal_strlit("bg");
            assert("bg"@.len() == 2);
            reveal_strlit("paper");
            assert("paper"@.len() == 5);
            reveal_strlit("paper-2");
            assert("paper-2"@[0] != "red-ink"@[0]);
            reveal_strlit("ink");
            assert("ink"@.len() == 3);
            reveal_strlit("ink-2");
            assert("ink-2"@.len() == 5);
            reveal_strlit("ink-3");
            assert("ink-3"@.len() == 5);
            reveal_strlit("line");
            assert("line"@.len() == 4);
            reveal_strlit("line-soft");
            assert("line-soft"@.len() == 9);
            reveal_strlit("chrome");
            assert("chrome"@.len() == 6);
            reveal_strlit("chrome-2");
            assert("chrome-2"@.len() == 8);
            reveal_strlit("chrome-ink");
            assert("chrome-ink"@.len() == 10);
            reveal_strlit("chrome-ink-2");
            assert("chrome-ink-2"@.len() == 12);
            reveal_strlit("accent");
            assert("accent"@.len() == 6);
            reveal_strlit("accent-soft");
            assert("accent-soft"@.len() == 11);
            reveal_strlit("amber-soft");
            assert("amber-soft"@.len() == 10);
            reveal_strlit("green-soft");
            assert("green-soft"@.len() == 10);
            reveal_strlit("signal-soft");
            assert("signal-soft"@.len() == 11);
            reveal_strlit("red-soft");
            assert("red-soft"@.len() == 8);
            reveal_strlit("accent-ink");
            assert("accent-ink"@.len() == 10);
            reveal_strlit("value-ink");
            assert("value-ink"@.len() == 9);
            reveal_strlit("prov-const");
            assert("prov-const"@.len() == 10);
            reveal_strlit("prov-ext");
            assert("prov-ext"@.len() == 8);
            reveal_strlit("red");
            assert("red"@.len() == 3);
        },
        _ => {},
    }
}


/// The declaration lines of `props` other than the three density owns
/// (`density`, `line-height`, `measure`), in order.
pub open spec fn css_lines_except_density(props: Seq<CssProperty>, theme: Theme, density: Density) -> Seq<
    char,
>
    decreases props.len(),
{
    if props.len() == 0 {
        Seq::empty()
    } else {
        css_lines_except_density(props.drop_last(), theme, density) + if is_density_owned(
            props.last(),
        ) {
            Seq::empty()
        } else {
            css_line(props.last(), theme, density)
        }
    }
}

/// The `:root` block for `theme` + `density` with its density lines left
/// out.
pub open spec fn css_text_except_density(theme: Theme, density: Density) -> Seq<char> {
    ":root {\n"@ + css_lines_except_density(property_order(), theme, density) + "}\n"@
}

proof fn lemma_lines_except_density_agree(props: Seq<CssProperty>, theme: Theme, d1: Density, d2: Density)
    ensures
        css_lines_except_density(props, theme, d1) == css_lines_except_density(props, theme, d2),
    decreases props.len(),
{
    if props.len() > 0 {
        lemma_lines_except_density_agree(props.drop_last(), theme, d1, d2);
        if !is_density_owned(props.last()) {
            lemma_density_changes_only_its_own_lines(theme, d1, d2, props.last());
        }
    }
}

proof fn lemma_line_lengths_agree(p: CssProperty, theme: Theme)
    requires
        p != CssProperty::LineHeight,
    ensures
        css_line(p, theme, Density::Working).len() == css_line(p, theme, Density::Reading).len(),
{
    reveal_strlit("working");
    reveal_strlit("reading");
    reveal_strlit("none");
    reveal_strlit("68ch");
    if !is_density_owned(p) {
        lemma_density_changes_only_its_own_lines(theme, Density::Working, Density::Reading, p);
    }
}

proof fn lemma_lines_lengths_agree(props: Seq<CssProperty>, theme: Theme)
    requires
        forall|i: int| 0 <= i < props.len() ==> props[i] != CssProperty::LineHeight,
    ensures
        css_lines(props, theme, Density::Working).len() == css_lines(props, theme, Density::Reading).len(),
    decreases props.len(),
{
    if props.len() > 0 {
        lemma_lines_lengths_agree(props.drop_last(), theme);
        lemma_line_lengths_agree(props.last(), theme);
    }
}

/// Law: density changes only its own lines — with the `density`,
/// `line-height` and `measure` lines left out, the blocks of the two
/// densities are the same text — and the two blocks do differ.
pub proof fn lemma_density_changes_only_the_density_lines(theme: Theme)
    ensures
        css_text_except_density(theme, Density::Working) == css_text_except_density(
            theme,
            Density::Reading,
        ),
        css_text(theme, Density::Working) != css_text(theme, Density::Reading),
{
    lemma_lines_except_density_agree(property_order(), theme, Density::Working, Density::Reading);
    lemma_property_order_is_a_permutation();
    let po = property_order();
    let pre = po.subrange(0, 37);
    assert forall|i: int| 0 <= i < pre.len() implies pre[i] != CssProperty::LineHeight by {
        assert(pre[i] == po[i]);
        assert(property_index(po[i]) == i);
    }
    lemma_lines_lengths_agree(pre, theme);
    assert(po.drop_last() =~= po.subrange(0, 38));
    assert(po.subrange(0, 38).drop_last() =~= pre);
    assert(po.subrange(0, 38).last() == CssProperty::LineHeight);
    assert(po.last() == CssProperty::Measure);
    lemma_line_lengths_agree(CssProperty::Measure, theme);
    reveal_strlit("1.35");
    reveal_strlit("1.6");
    assert(css_line(CssProperty::LineHeight, theme, Density::Working).len() == css_line(
        CssProperty::LineHeight,
        theme,
        Density::Reading,
    ).len() + 1);
    let mid = po.subrange(0, 38);
    assert(css_lines(mid, theme, Density::Working) == css_lines(pre, theme, Density::Working)
        + css_line(CssProperty::LineHeight, theme, Density::Working));
    assert(css_lines(mid, theme, Density::Reading) == css_lines(pre, theme, Density::Reading)
        + css_line(CssProperty::LineHeight, theme, Density::Reading));
    assert(css_lines(po, theme, Density::Working) == css_lines(mid, theme, Density::Working)
        + css_line(CssProperty::Measure, theme, Density::Working));
    assert(css_lines(po, theme, Density::Reading) == css_lines(mid, theme, Density::Reading)
        + css_line(CssProperty::Measure, theme, Density::Reading));
    assert(css_text(theme, Density::Working).len() == css_text(theme, Density::Reading).len() + 1);
}


/// Law: the exact density lines of each density — working is
/// `density: working`, `line-height: 1.35` and `measure: none`; reading is
/// `density: reading`, `line-height: 1.6` and `measure: 68ch`.
pub proof fn lemma_density_line_texts(theme: Theme)
    ensures
        css_line(CssProperty::Density, theme, Density::Working) == "  --dna-density: working;\n"@,
        css_line(CssProperty::LineHeight, theme, Density::Working) == "  --dna-line-height: 1.35;\n"@,
        css_line(CssProperty::Measure, theme, Density::Working) == "  --dna-measure: none;\n"@,
        css_line(CssProperty::Density, theme, Density::Reading) == "  --dna-density: reading;\n"@,
        css_line(CssProperty::LineHeight, theme, Density::Reading) == "  --dna-line-height: 1.6;\n"@,
        css_line(CssProperty::Measure, theme, Density::Reading) == "  --dna-measure: 68ch;\n"@,
{
    reveal_strlit("  --dna-");
    reveal_strlit(": ");
    reveal_strlit(";\n");
    reveal_strlit("density");
    reveal_strlit("line-height");
    reveal_strlit("measure");
    reveal_strlit("working");
    reveal_strlit("reading");
    reveal_strlit("1.35");
    reveal_strlit("1.6");
    reveal_strlit("none");
    reveal_strlit("68ch");
    reveal_strlit("  --dna-density: working;\n");
    reveal_strlit("  --dna-line-height: 1.35;\n");
    reveal_strlit("  --dna-measure: none;\n");
    reveal_strlit("  --dna-density: reading;\n");
    reveal_strlit("  --dna-line-height: 1.6;\n");
    reveal_strlit("  --dna-measure: 68ch;\n");
    assert(css_line(CssProperty::Density, theme, Density::Working) =~= "  --dna-density: working;\n"@);
    assert(css_line(CssProperty::LineHeight, theme, Density::Working) =~= "  --dna-line-height: 1.35;\n"@);
    assert(css_line(CssProperty::Measure, theme, Density::Working) =~= "  --dna-measure: none;\n"@);
    assert(css_line(CssProperty::Density, theme, Density::Reading) =~= "  --dna-density: reading;\n"@);
    assert(css_line(CssProperty::LineHeight, theme, Density::Reading) =~= "  --dna-line-height: 1.6;\n"@);
    assert(css_line(CssProperty::Measure, theme, Density::Reading) =~= "  --dna-measure: 68ch;\n"@);
}


/// Law: geometry, motion and the density lines do not depend on the theme —
/// every line but the theme id and the colors is the same under any two
/// themes — and the geometry lines carry the Strand scales in pixels: each
/// `gap-k` is the k-th gap step, and the radii are the chip, card and panel
/// radii.
pub proof fn lemma_geometry_is_the_same_under_every_theme(
    t1: Theme,
    t2: Theme,
    density: Density,
    p: CssProperty,
)
    ensures
        !is_color_property(p) && p != CssProperty::Theme ==> css_line(p, t1, density) == css_line(
            p,
            t2,
            density,
        ),
        property_value(CssProperty::Gap1, t1, density) == decimal_text(GAP_SCALE@[0] as nat) + "px"@,
        property_value(CssProperty::Gap2, t1, density) == decimal_text(GAP_SCALE@[1] as nat) + "px"@,
        property_value(CssProperty::Gap3, t1, density) == decimal_text(GAP_SCALE@[2] as nat) + "px"@,
        property_value(CssProperty::Gap4, t1, density) == decimal_text(GAP_SCALE@[3] as nat) + "px"@,
        property_value(CssProperty::Gap5, t1, density) == decimal_text(GAP_SCALE@[4] as nat) + "px"@,
        property_value(CssProperty::Gap6, t1, density) == decimal_text(GAP_SCALE@[5] as nat) + "px"@,
        property_value(CssProperty::RadiusChip, t1, density) == decimal_text(RADIUS_CHIP as nat) + "px"@,
        property_value(CssProperty::RadiusCard, t1, density) == decimal_text(RADIUS_CARD as nat) + "px"@,
        property_value(CssProperty::RadiusPanel, t1, density) == decimal_text(RADIUS_PANEL as nat)
            + "px"@,
{
}
} // verus!
