//! Theme tokens: the three Strand themes, the two densities, and each theme's
//! resolved color table. Density never touches color.
use vstd::prelude::*;

use crate::palette::{amber, green_500, red, signal, teal_400, teal_600, Rgb};
use crate::text::str_equal;

verus! {

/// One of the three Strand themes.
#[derive(Debug, Clone, Copy, PartialEq, Eq, Structural, Hash)]
pub enum Theme {
    /// Default: dark petrol chrome around light paper.
    CockpitLight,
    /// Petrol-black chrome, charcoal paper.
    CockpitDark,
    /// Every text ink reaches at least 7.0:1 on its ground.
    HighContrast,
}

/// The wire id of a theme.
pub open spec fn theme_id(theme: Theme) -> Seq<char> {
    match theme {
        Theme::CockpitLight => "cockpit-light"@,
        Theme::CockpitDark => "cockpit-dark"@,
        Theme::HighContrast => "high-contrast"@,
    }
}

/// The color table of a theme.
pub open spec fn theme_tokens(theme: Theme) -> ThemeTokens {
    match theme {
        Theme::CockpitLight => cockpit_light_tokens(),
        Theme::CockpitDark => cockpit_dark_tokens(),
        Theme::HighContrast => high_contrast_tokens(),
    }
}

impl Theme {
    /// All themes, for iteration.
    pub const ALL: [Theme; 3] = [Theme::CockpitLight, Theme::CockpitDark, Theme::HighContrast];

    /// The `--dna-theme` / `data-dna-theme` wire id.
    pub fn id(self) -> (s: &'static str)
        ensures
            s@ == theme_id(self),
    {
        match self {
            Theme::CockpitLight => "cockpit-light",
            Theme::CockpitDark => "cockpit-dark",
            Theme::HighContrast => "high-contrast",
        }
    }

    /// This theme's resolved color tokens.
    pub fn tokens(self) -> (t: ThemeTokens)
        ensures
            t == theme_tokens(self),
    {
        match self {
            Theme::CockpitLight => cockpit_light(),
            Theme::CockpitDark => cockpit_dark(),
            Theme::HighContrast => high_contrast(),
        }
    }
}

/// Working (hands-density, the default) or Reading (looser leading, wider
/// measure). Density affects spacing and type-scale tokens only.
#[derive(Debug, Clone, Copy, PartialEq, Eq, Structural, Hash)]
pub enum Density {
    Working,
    Reading,
}

/// The wire id of a density.
pub open spec fn density_id(density: Density) -> Seq<char> {
    match density {
        Density::Working => "working"@,
        Density::Reading => "reading"@,
    }
}

/// The maximum content measure of a density, if it has one.
pub open spec fn density_measure(density: Density) -> Option<Seq<char>> {
    match density {
        Density::Working => None,
        Density::Reading => Some("68ch"@),
    }
}

impl Density {
    /// Both densities, for iteration.
    pub const ALL: [Density; 2] = [Density::Working, Density::Reading];

    /// The `--dna-density` / `data-dna-density` wire id.
    pub fn id(self) -> (s: &'static str)
        ensures
            s@ == density_id(self),
    {
        match self {
            Density::Working => "working",
            Density::Reading => "reading",
        }
    }

    /// Max content measure: `68ch` in Reading, none in Working.
    pub fn measure(self) -> (m: Option<&'static str>)
        ensures
            m.is_some() == density_measure(self).is_some(),
            m.is_some() ==> m.unwrap()@ == density_measure(self).unwrap(),
    {
        match self {
            Density::Working => None,
            Density::Reading => Some("68ch"),
        }
    }
}

/// A theme's full set of resolved color tokens: surfaces, neutral inks,
/// lines, chrome, accent and soft tints, and the text-safe `-ink` variants.
#[derive(Debug, Clone, Copy, PartialEq, Eq, Structural)]
pub struct ThemeTokens {
    pub bg: Rgb,
    pub paper: Rgb,
    pub paper_2: Rgb,
    pub ink: Rgb,
    pub ink_2: Rgb,
    pub ink_3: Rgb,
    pub line: Rgb,
    pub line_soft: Rgb,
    pub chrome: Rgb,
    pub chrome_2: Rgb,
    pub chrome_ink: Rgb,
    pub chrome_ink_2: Rgb,
    pub accent: Rgb,
    pub accent_soft: Rgb,
    pub amber_soft: Rgb,
    pub green_soft: Rgb,
    pub signal_soft: Rgb,
    pub red_soft: Rgb,
    pub accent_ink: Rgb,
    pub value_ink: Rgb,
    pub prov_const: Rgb,
    pub prov_ext: Rgb,
    /// Text-safe red: the fifth `-ink` variant.
    pub red_ink: Rgb,
}

/// The global amber signal color, unchanged by theme.
pub open spec fn amber_rgb() -> Rgb {
    Rgb { r: 0xFF, g: 0xB3, b: 0x01 }
}

/// What a token id resolves to in a table; `"red"` names the text-safe red
/// ink and `"amber"` the one non-themed color.
pub open spec fn resolve_token(t: ThemeTokens, token: Seq<char>) -> Option<Rgb> {
    if token == "bg"@ {
        Some(t.bg)
    } else if token == "paper"@ {
        Some(t.paper)
    } else if token == "paper-2"@ {
        Some(t.paper_2)
    } else if token == "ink"@ {
        Some(t.ink)
    } else if token == "ink-2"@ {
        Some(t.ink_2)
    } else if token == "ink-3"@ {
        Some(t.ink_3)
    } else if token == "line"@ {
        Some(t.line)
    } else if token == "line-soft"@ {
        Some(t.line_soft)
    } else if token == "chrome"@ {
        Some(t.chrome)
    } else if token == "chrome-2"@ {
        Some(t.chrome_2)
    } else if token == "chrome-ink"@ {
        Some(t.chrome_ink)
    } else if token == "chrome-ink-2"@ {
        Some(t.chrome_ink_2)
    } else if token == "accent"@ {
        Some(t.accent)
    } else if token == "accent-soft"@ {
        Some(t.accent_soft)
    } else if token == "amber-soft"@ {
        Some(t.amber_soft)
    } else if token == "green-soft"@ {
        Some(t.green_soft)
    } else if token == "signal-soft"@ {
        Some(t.signal_soft)
    } else if token == "red-soft"@ {
        Some(t.red_soft)
    } else if token == "accent-ink"@ {
        Some(t.accent_ink)
    } else if token == "value-ink"@ {
        Some(t.value_ink)
    } else if token == "prov-const"@ {
        Some(t.prov_const)
    } else if token == "prov-ext"@ {
        Some(t.prov_ext)
    } else if token == "red"@ || token == "red-ink"@ {
        Some(t.red_ink)
    } else if token == "amber"@ {
        Some(amber_rgb())
    } else {
        None
    }
}

impl ThemeTokens {
    /// Resolve a Strand token id to this theme's color, or `None` for an
    /// unknown id.
    pub fn resolve(&self, token: &str) -> (c: Option<Rgb>)
        ensures
            c == resolve_token(*self, token@),
    {
        if str_equal(token, "bg") {
            Some(self.bg)
        } else if str_equal(token, "paper") {
            Some(self.paper)
        } else if str_equal(token, "paper-2") {
            Some(self.paper_2)
        } else if str_equal(token, "ink") {
            Some(self.ink)
        } else if str_equal(token, "ink-2") {
            Some(self.ink_2)
        } else if str_equal(token, "ink-3") {
            Some(self.ink_3)
        } else if str_equal(token, "line") {
            Some(self.line)
        } else if str_equal(token, "line-soft") {
            Some(self.line_soft)
        } else if str_equal(token, "chrome") {
            Some(self.chrome)
        } else if str_equal(token, "chrome-2") {
            Some(self.chrome_2)
        } else if str_equal(token, "chrome-ink") {
            Some(self.chrome_ink)
        } else if str_equal(token, "chrome-ink-2") {
            Some(self.chrome_ink_2)
        } else if str_equal(token, "accent") {
            Some(self.accent)
        } else if str_equal(token, "accent-soft") {
            Some(self.accent_soft)
        } else if str_equal(token, "amber-soft") {
            Some(self.amber_soft)
        } else if str_equal(token, "green-soft") {
            Some(self.green_soft)
        } else if str_equal(token, "signal-soft") {
            Some(self.signal_soft)
        } else if str_equal(token, "red-soft") {
            Some(self.red_soft)
        } else if str_equal(token, "accent-ink") {
            Some(self.accent_ink)
        } else if str_equal(token, "value-ink") {
            Some(self.value_ink)
        } else if str_equal(token, "prov-const") {
            Some(self.prov_const)
        } else if str_equal(token, "prov-ext") {
            Some(self.prov_ext)
        } else if str_equal(token, "red") || str_equal(token, "red-ink") {
            Some(self.red_ink)
        } else if str_equal(token, "amber") {
            Some(amber())
        } else {
            None
        }
    }
}

/// One channel of `hue` blended into `base` at `hue_pct` percent, rounded to
/// the nearest integer.
pub open spec fn spec_mix_channel(base: u8, hue: u8, hue_pct: int) -> u8 {
    ((base * (100 - hue_pct) + hue * hue_pct + 50) / 100) as u8
}

/// `hue` blended into `base` at `hue_pct` percent, per channel.
pub open spec fn spec_mix(base: Rgb, hue: Rgb, hue_pct: int) -> Rgb {
    Rgb {
        r: spec_mix_channel(base.r, hue.r, hue_pct),
        g: spec_mix_channel(base.g, hue.g, hue_pct),
        b: spec_mix_channel(base.b, hue.b, hue_pct),
    }
}

fn mix_channel(base: u8, hue: u8, hue_pct: u32) -> (c: u8)
    requires
        hue_pct <= 100,
    ensures
        c == spec_mix_channel(base, hue, hue_pct as int),
{
    let b = base as u32;
    let h = hue as u32;
    assert(b * (100 - hue_pct) <= 255 * 100) by (nonlinear_arith)
        requires
            b <= 255,
            hue_pct <= 100,
    ;
    assert(h * hue_pct <= 255 * hue_pct) by (nonlinear_arith)
        requires
            h <= 255,
    ;
    assert(b * (100 - hue_pct) + h * hue_pct + 50 < 25600) by (nonlinear_arith)
        requires
            b <= 255,
            h <= 255,
            hue_pct <= 100,
    ;
    ((b * (100 - hue_pct) + h * hue_pct + 50) / 100) as u8
}

/// `hue` blended into `base` at `hue_pct` percent (0..=100), per channel,
/// rounded to the nearest integer: the derivation of every soft tint.
pub fn mix(base: Rgb, hue: Rgb, hue_pct: u32) -> (c: Rgb)
    requires
        hue_pct <= 100,
    ensures
        c == spec_mix(base, hue, hue_pct as int),
{
    Rgb {
        r: mix_channel(base.r, hue.r, hue_pct),
        g: mix_channel(base.g, hue.g, hue_pct),
        b: mix_channel(base.b, hue.b, hue_pct),
    }
}

/// Law: a 0% blend is the base color and a 100% blend is the hue.
pub proof fn lemma_mix_endpoints(base: Rgb, hue: Rgb)
    ensures
        spec_mix(base, hue, 0) == base,
        spec_mix(base, hue, 100) == hue,
{
    assert forall|x: u8| #[trigger] spec_mix_channel(x, x, 0) == x && spec_mix_channel(x, x, 100)
        == x by {
        assert((x * 100 + 50) / 100 == x as int) by (nonlinear_arith);
    }
    assert((base.r * 100 + 50) / 100 == base.r as int) by (nonlinear_arith);
    assert((base.g * 100 + 50) / 100 == base.g as int) by (nonlinear_arith);
    assert((base.b * 100 + 50) / 100 == base.b as int) by (nonlinear_arith);
    assert((hue.r * 100 + 50) / 100 == hue.r as int) by (nonlinear_arith);
    assert((hue.g * 100 + 50) / 100 == hue.g as int) by (nonlinear_arith);
    assert((hue.b * 100 + 50) / 100 == hue.b as int) by (nonlinear_arith);
}

/// Soft-tint strength (percent of hue blended into paper) on light grounds.
const SOFT_TINT_LIGHT_PCT: u32 = 14;

/// Soft-tint strength on the dark ground: more hue to stay visibly tinted.
const SOFT_TINT_DARK_PCT: u32 = 24;

/// The `cockpit-light` token table.
pub open spec fn cockpit_light_tokens() -> ThemeTokens {
    ThemeTokens {
        bg: Rgb { r: 0xF4, g: 0xF7, b: 0xF8 },
        paper: Rgb { r: 0xFF, g: 0xFF, b: 0xFF },
        paper_2: Rgb { r: 0xEE, g: 0xF2, b: 0xF4 },
        ink: Rgb { r: 0x17, g: 0x28, b: 0x2E },
        ink_2: Rgb { r: 0x48, g: 0x60, b: 0x6A },
        ink_3: Rgb { r: 0x5B, g: 0x71, b: 0x7B },
        line: Rgb { r: 0xD5, g: 0xDF, b: 0xE3 },
        line_soft: Rgb { r: 0xE4, g: 0xEB, b: 0xEE },
        chrome: Rgb { r: 0x19, g: 0x3F, b: 0x49 },
        chrome_2: Rgb { r: 0x12, g: 0x30, b: 0x3A },
        chrome_ink: Rgb { r: 0xDF, g: 0xEE, b: 0xF2 },
        chrome_ink_2: Rgb { r: 0x8F, g: 0xB3, b: 0xBC },
        accent: Rgb { r: 0x31, g: 0x89, b: 0x95 },
        accent_soft: spec_mix(Rgb { r: 0xFF, g: 0xFF, b: 0xFF }, Rgb { r: 0x31, g: 0x89, b: 0x95 }, 14),
        amber_soft: spec_mix(Rgb { r: 0xFF, g: 0xFF, b: 0xFF }, Rgb { r: 0xFF, g: 0xB3, b: 0x01 }, 14),
        green_soft: spec_mix(Rgb { r: 0xFF, g: 0xFF, b: 0xFF }, Rgb { r: 0x3F, g: 0x8B, b: 0x76 }, 14),
        signal_soft: spec_mix(Rgb { r: 0xFF, g: 0xFF, b: 0xFF }, Rgb { r: 0xFF, g: 0x80, b: 0x01 }, 14),
        red_soft: spec_mix(Rgb { r: 0xFF, g: 0xFF, b: 0xFF }, Rgb { r: 0xD0, g: 0x2A, b: 0x23 }, 14),
        accent_ink: Rgb { r: 0x1B, g: 0x5F, b: 0x6B },
        value_ink: Rgb { r: 0x2E, g: 0x6E, b: 0x5B },
        prov_const: Rgb { r: 0x2D, g: 0x6A, b: 0x8A },
        prov_ext: Rgb { r: 0xA3, g: 0x54, b: 0x00 },
        red_ink: Rgb { r: 0xD0, g: 0x2A, b: 0x23 },
    }
}

/// The `cockpit-dark` token table.
pub open spec fn cockpit_dark_tokens() -> ThemeTokens {
    ThemeTokens {
        bg: Rgb { r: 0x0E, g: 0x1A, b: 0x1F },
        paper: Rgb { r: 0x1A, g: 0x26, b: 0x2B },
        paper_2: Rgb { r: 0x15, g: 0x21, b: 0x26 },
        ink: Rgb { r: 0xE2, g: 0xEC, b: 0xEF },
        ink_2: Rgb { r: 0x9F, g: 0xB4, b: 0xBB },
        ink_3: Rgb { r: 0x7D, g: 0x97, b: 0xA0 },
        line: Rgb { r: 0x2D, g: 0x3F, b: 0x46 },
        line_soft: Rgb { r: 0x24, g: 0x34, b: 0x3B },
        chrome: Rgb { r: 0x0F, g: 0x22, b: 0x29 },
        chrome_2: Rgb { r: 0x0C, g: 0x1C, b: 0x22 },
        chrome_ink: Rgb { r: 0xDF, g: 0xEE, b: 0xF2 },
        chrome_ink_2: Rgb { r: 0x7F, g: 0xA2, b: 0xAC },
        accent: Rgb { r: 0x3D, g: 0xB6, b: 0xCF },
        accent_soft: spec_mix(Rgb { r: 0x1A, g: 0x26, b: 0x2B }, Rgb { r: 0x3D, g: 0xB6, b: 0xCF }, 24),
        amber_soft: spec_mix(Rgb { r: 0x1A, g: 0x26, b: 0x2B }, Rgb { r: 0xFF, g: 0xB3, b: 0x01 }, 24),
        green_soft: spec_mix(Rgb { r: 0x1A, g: 0x26, b: 0x2B }, Rgb { r: 0x3F, g: 0x8B, b: 0x76 }, 24),
        signal_soft: spec_mix(Rgb { r: 0x1A, g: 0x26, b: 0x2B }, Rgb { r: 0xFF, g: 0x80, b: 0x01 }, 24),
        red_soft: spec_mix(Rgb { r: 0x1A, g: 0x26, b: 0x2B }, Rgb { r: 0xD0, g: 0x2A, b: 0x23 }, 24),
        accent_ink: Rgb { r: 0x4F, g: 0xC0, b: 0xD8 },
        value_ink: Rgb { r: 0x74, g: 0xC7, b: 0xAB },
        prov_const: Rgb { r: 0x7D, g: 0xB8, b: 0xD8 },
        prov_ext: Rgb { r: 0xF0, g: 0xA3, b: 0x5C },
        red_ink: Rgb { r: 0xE4, g: 0x62, b: 0x5C },
    }
}

/// The `high-contrast` token table.
pub open spec fn high_contrast_tokens() -> ThemeTokens {
    ThemeTokens {
        bg: Rgb { r: 0xF2, g: 0xF5, b: 0xF6 },
        paper: Rgb { r: 0xFF, g: 0xFF, b: 0xFF },
        paper_2: Rgb { r: 0xE7, g: 0xEC, b: 0xEE },
        ink: Rgb { r: 0x17, g: 0x28, b: 0x2E },
        ink_2: Rgb { r: 0x3C, g: 0x50, b: 0x59 },
        ink_3: Rgb { r: 0x40, g: 0x50, b: 0x56 },
        line: Rgb { r: 0xB9, g: 0xC4, b: 0xC8 },
        line_soft: Rgb { r: 0xD6, g: 0xDE, b: 0xE1 },
        chrome: Rgb { r: 0x0A, g: 0x17, b: 0x1C },
        chrome_2: Rgb { r: 0x05, g: 0x0D, b: 0x10 },
        chrome_ink: Rgb { r: 0xDF, g: 0xEE, b: 0xF2 },
        chrome_ink_2: Rgb { r: 0x8F, g: 0xB3, b: 0xBC },
        accent: Rgb { r: 0x31, g: 0x89, b: 0x95 },
        accent_soft: spec_mix(Rgb { r: 0xFF, g: 0xFF, b: 0xFF }, Rgb { r: 0x31, g: 0x89, b: 0x95 }, 14),
        amber_soft: spec_mix(Rgb { r: 0xFF, g: 0xFF, b: 0xFF }, Rgb { r: 0xFF, g: 0xB3, b: 0x01 }, 14),
        green_soft: spec_mix(Rgb { r: 0xFF, g: 0xFF, b: 0xFF }, Rgb { r: 0x3F, g: 0x8B, b: 0x76 }, 14),
        signal_soft: spec_mix(Rgb { r: 0xFF, g: 0xFF, b: 0xFF }, Rgb { r: 0xFF, g: 0x80, b: 0x01 }, 14),
        red_soft: spec_mix(Rgb { r: 0xFF, g: 0xFF, b: 0xFF }, Rgb { r: 0xD0, g: 0x2A, b: 0x23 }, 14),
        accent_ink: Rgb { r: 0x18, g: 0x54, b: 0x5F },
        value_ink: Rgb { r: 0x24, g: 0x56, b: 0x47 },
        prov_const: Rgb { r: 0x23, g: 0x52, b: 0x6B },
        prov_ext: Rgb { r: 0x78, g: 0x3E, b: 0x00 },
        red_ink: Rgb { r: 0x96, g: 0x1E, b: 0x19 },
    }
}


/// `cockpit-light`: dark petrol chrome around light paper (the default).
pub fn cockpit_light() -> (t: ThemeTokens)
    ensures
        t == cockpit_light_tokens(),
{
    ThemeTokens {
        bg: Rgb { r: 0xF4, g: 0xF7, b: 0xF8 },
        paper: Rgb { r: 0xFF, g: 0xFF, b: 0xFF },
        paper_2: Rgb { r: 0xEE, g: 0xF2, b: 0xF4 },
        ink: Rgb { r: 0x17, g: 0x28, b: 0x2E },
        ink_2: Rgb { r: 0x48, g: 0x60, b: 0x6A },
        ink_3: Rgb { r: 0x5B, g: 0x71, b: 0x7B },
        line: Rgb { r: 0xD5, g: 0xDF, b: 0xE3 },
        line_soft: Rgb { r: 0xE4, g: 0xEB, b: 0xEE },
        chrome: Rgb { r: 0x19, g: 0x3F, b: 0x49 },
        chrome_2: Rgb { r: 0x12, g: 0x30, b: 0x3A },
        chrome_ink: Rgb { r: 0xDF, g: 0xEE, b: 0xF2 },
        chrome_ink_2: Rgb { r: 0x8F, g: 0xB3, b: 0xBC },
        accent: teal_600(),
        accent_soft: mix(Rgb { r: 0xFF, g: 0xFF, b: 0xFF }, teal_600(), SOFT_TINT_LIGHT_PCT),
        amber_soft: mix(Rgb { r: 0xFF, g: 0xFF, b: 0xFF }, amber(), SOFT_TINT_LIGHT_PCT),
        green_soft: mix(Rgb { r: 0xFF, g: 0xFF, b: 0xFF }, green_500(), SOFT_TINT_LIGHT_PCT),
        signal_soft: mix(Rgb { r: 0xFF, g: 0xFF, b: 0xFF }, signal(), SOFT_TINT_LIGHT_PCT),
        red_soft: mix(Rgb { r: 0xFF, g: 0xFF, b: 0xFF }, red(), SOFT_TINT_LIGHT_PCT),
        accent_ink: Rgb { r: 0x1B, g: 0x5F, b: 0x6B },
        value_ink: Rgb { r: 0x2E, g: 0x6E, b: 0x5B },
        prov_const: Rgb { r: 0x2D, g: 0x6A, b: 0x8A },
        prov_ext: Rgb { r: 0xA3, g: 0x54, b: 0x00 },
        red_ink: red(),
    }
}

/// `cockpit-dark`: petrol-black chrome around charcoal paper.
pub fn cockpit_dark() -> (t: ThemeTokens)
    ensures
        t == cockpit_dark_tokens(),
{
    ThemeTokens {
        bg: Rgb { r: 0x0E, g: 0x1A, b: 0x1F },
        paper: Rgb { r: 0x1A, g: 0x26, b: 0x2B },
        paper_2: Rgb { r: 0x15, g: 0x21, b: 0x26 },
        ink: Rgb { r: 0xE2, g: 0xEC, b: 0xEF },
        ink_2: Rgb { r: 0x9F, g: 0xB4, b: 0xBB },
        ink_3: Rgb { r: 0x7D, g: 0x97, b: 0xA0 },
        line: Rgb { r: 0x2D, g: 0x3F, b: 0x46 },
        line_soft: Rgb { r: 0x24, g: 0x34, b: 0x3B },
        chrome: Rgb { r: 0x0F, g: 0x22, b: 0x29 },
        chrome_2: Rgb { r: 0x0C, g: 0x1C, b: 0x22 },
        chrome_ink: Rgb { r: 0xDF, g: 0xEE, b: 0xF2 },
        chrome_ink_2: Rgb { r: 0x7F, g: 0xA2, b: 0xAC },
        accent: teal_400(),
        accent_soft: mix(Rgb { r: 0x1A, g: 0x26, b: 0x2B }, teal_400(), SOFT_TINT_DARK_PCT),
        amber_soft: mix(Rgb { r: 0x1A, g: 0x26, b: 0x2B }, amber(), SOFT_TINT_DARK_PCT),
        green_soft: mix(Rgb { r: 0x1A, g: 0x26, b: 0x2B }, green_500(), SOFT_TINT_DARK_PCT),
        signal_soft: mix(Rgb { r: 0x1A, g: 0x26, b: 0x2B }, signal(), SOFT_TINT_DARK_PCT),
        red_soft: mix(Rgb { r: 0x1A, g: 0x26, b: 0x2B }, red(), SOFT_TINT_DARK_PCT),
        accent_ink: Rgb { r: 0x4F, g: 0xC0, b: 0xD8 },
        value_ink: Rgb { r: 0x74, g: 0xC7, b: 0xAB },
        prov_const: Rgb { r: 0x7D, g: 0xB8, b: 0xD8 },
        prov_ext: Rgb { r: 0xF0, g: 0xA3, b: 0x5C },
        red_ink: Rgb { r: 0xE4, g: 0x62, b: 0x5C },
    }
}

/// `high-contrast`: every text ink darkened until it clears 7.0:1 on its grounds.
pub fn high_contrast() -> (t: ThemeTokens)
    ensures
        t == high_contrast_tokens(),
{
    ThemeTokens {
        bg: Rgb { r: 0xF2, g: 0xF5, b: 0xF6 },
        paper: Rgb { r: 0xFF, g: 0xFF, b: 0xFF },
        paper_2: Rgb { r: 0xE7, g: 0xEC, b: 0xEE },
        ink: Rgb { r: 0x17, g: 0x28, b: 0x2E },
        ink_2: Rgb { r: 0x3C, g: 0x50, b: 0x59 },
        ink_3: Rgb { r: 0x40, g: 0x50, b: 0x56 },
        line: Rgb { r: 0xB9, g: 0xC4, b: 0xC8 },
        line_soft: Rgb { r: 0xD6, g: 0xDE, b: 0xE1 },
        chrome: Rgb { r: 0x0A, g: 0x17, b: 0x1C },
        chrome_2: Rgb { r: 0x05, g: 0x0D, b: 0x10 },
        chrome_ink: Rgb { r: 0xDF, g: 0xEE, b: 0xF2 },
        chrome_ink_2: Rgb { r: 0x8F, g: 0xB3, b: 0xBC },
        accent: teal_600(),
        accent_soft: mix(Rgb { r: 0xFF, g: 0xFF, b: 0xFF }, teal_600(), SOFT_TINT_LIGHT_PCT),
        amber_soft: mix(Rgb { r: 0xFF, g: 0xFF, b: 0xFF }, amber(), SOFT_TINT_LIGHT_PCT),
        green_soft: mix(Rgb { r: 0xFF, g: 0xFF, b: 0xFF }, green_500(), SOFT_TINT_LIGHT_PCT),
        signal_soft: mix(Rgb { r: 0xFF, g: 0xFF, b: 0xFF }, signal(), SOFT_TINT_LIGHT_PCT),
        red_soft: mix(Rgb { r: 0xFF, g: 0xFF, b: 0xFF }, red(), SOFT_TINT_LIGHT_PCT),
        accent_ink: Rgb { r: 0x18, g: 0x54, b: 0x5F },
        value_ink: Rgb { r: 0x24, g: 0x56, b: 0x47 },
        prov_const: Rgb { r: 0x23, g: 0x52, b: 0x6B },
        prov_ext: Rgb { r: 0x78, g: 0x3E, b: 0x00 },
        red_ink: Rgb { r: 0x96, g: 0x1E, b: 0x19 },
    }
}

} // verus!
