//! The contrast law's data: every sanctioned foreground/background token
//! pair and the minimum WCAG ratio it must reach in its theme. The ratio
//! computation itself is floating point and lives with the renderer.
use vstd::prelude::*;

use crate::theme::{resolve_token, theme_tokens, Theme, ThemeTokens};

verus! {

/// One sanctioned foreground/background pair: token ids resolved against
/// `theme`'s table, and the minimum contrast ratio, in tenths (`45` is
/// 4.5:1).
#[derive(Debug, Clone, Copy)]
pub struct SanctionedPair {
    pub theme: Theme,
    pub fg: &'static str,
    pub bg: &'static str,
    pub min_ratio_tenths: u32,
}

/// The sanctioned pairs as (theme, fg id, bg id, minimum ratio in tenths).
pub open spec fn sanctioned_pair_table() -> Seq<(Theme, Seq<char>, Seq<char>, u32)> {
    seq![
        (Theme::CockpitLight, "ink"@, "paper"@, 45u32),
        (Theme::CockpitLight, "ink"@, "paper-2"@, 45u32),
        (Theme::CockpitLight, "ink-2"@, "paper"@, 45u32),
        (Theme::CockpitLight, "ink-2"@, "paper-2"@, 45u32),
        (Theme::CockpitLight, "ink-3"@, "paper"@, 45u32),
        (Theme::CockpitLight, "ink-3"@, "paper-2"@, 45u32),
        (Theme::CockpitLight, "accent-ink"@, "paper"@, 45u32),
        (Theme::CockpitLight, "accent-ink"@, "paper-2"@, 45u32),
        (Theme::CockpitLight, "value-ink"@, "paper"@, 45u32),
        (Theme::CockpitLight, "value-ink"@, "paper-2"@, 45u32),
        (Theme::CockpitLight, "prov-const"@, "paper"@, 45u32),
        (Theme::CockpitLight, "prov-const"@, "paper-2"@, 45u32),
        (Theme::CockpitLight, "prov-ext"@, "paper"@, 45u32),
        (Theme::CockpitLight, "prov-ext"@, "paper-2"@, 45u32),
        (Theme::CockpitLight, "red"@, "paper"@, 45u32),
        (Theme::CockpitLight, "red"@, "paper-2"@, 45u32),
        (Theme::CockpitLight, "chrome-ink"@, "chrome"@, 45u32),
        (Theme::CockpitLight, "chrome-ink"@, "chrome-2"@, 45u32),
        (Theme::CockpitLight, "chrome-ink-2"@, "chrome"@, 40u32),
        (Theme::CockpitLight, "chrome-ink-2"@, "chrome-2"@, 40u32),
        (Theme::CockpitLight, "amber"@, "chrome"@, 30u32),
        (Theme::CockpitLight, "amber"@, "chrome-2"@, 30u32),
        (Theme::CockpitDark, "ink"@, "paper"@, 45u32),
        (Theme::CockpitDark, "ink"@, "paper-2"@, 45u32),
        (Theme::CockpitDark, "ink-2"@, "paper"@, 45u32),
        (Theme::CockpitDark, "ink-2"@, "paper-2"@, 45u32),
        (Theme::CockpitDark, "ink-3"@, "paper"@, 45u32),
        (Theme::CockpitDark, "ink-3"@, "paper-2"@, 45u32),
        (Theme::CockpitDark, "accent-ink"@, "paper"@, 45u32),
        (Theme::CockpitDark, "value-ink"@, "paper"@, 45u32),
        (Theme::CockpitDark, "prov-const"@, "paper"@, 45u32),
        (Theme::CockpitDark, "prov-ext"@, "paper"@, 45u32),
        (Theme::CockpitDark, "red"@, "paper"@, 45u32),
        (Theme::CockpitDark, "chrome-ink"@, "chrome"@, 45u32),
        (Theme::CockpitDark, "chrome-ink"@, "chrome-2"@, 45u32),
        (Theme::CockpitDark, "chrome-ink-2"@, "chrome"@, 40u32),
        (Theme::CockpitDark, "chrome-ink-2"@, "chrome-2"@, 40u32),
        (Theme::CockpitDark, "amber"@, "chrome"@, 30u32),
        (Theme::CockpitDark, "amber"@, "chrome-2"@, 30u32),
        (Theme::HighContrast, "ink"@, "paper"@, 70u32),
        (Theme::HighContrast, "ink"@, "paper-2"@, 70u32),
        (Theme::HighContrast, "ink-2"@, "paper"@, 70u32),
        (Theme::HighContrast, "ink-2"@, "paper-2"@, 70u32),
        (Theme::HighContrast, "ink-3"@, "paper"@, 70u32),
        (Theme::HighContrast, "ink-3"@, "paper-2"@, 70u32),
        (Theme::HighContrast, "accent-ink"@, "paper"@, 70u32),
        (Theme::HighContrast, "accent-ink"@, "paper-2"@, 70u32),
        (Theme::HighContrast, "value-ink"@, "paper"@, 70u32),
        (Theme::HighContrast, "value-ink"@, "paper-2"@, 70u32),
        (Theme::HighContrast, "prov-const"@, "paper"@, 70u32),
        (Theme::HighContrast, "prov-const"@, "paper-2"@, 70u32),
        (Theme::HighContrast, "prov-ext"@, "paper"@, 70u32),
        (Theme::HighContrast, "prov-ext"@, "paper-2"@, 70u32),
        (Theme::HighContrast, "red"@, "paper"@, 70u32),
        (Theme::HighContrast, "red"@, "paper-2"@, 70u32),
        (Theme::HighContrast, "chrome-ink"@, "chrome"@, 70u32),
        (Theme::HighContrast, "chrome-ink"@, "chrome-2"@, 70u32),
        (Theme::HighContrast, "chrome-ink-2"@, "chrome"@, 70u32),
        (Theme::HighContrast, "chrome-ink-2"@, "chrome-2"@, 70u32),
        (Theme::HighContrast, "amber"@, "chrome"@, 30u32),
        (Theme::HighContrast, "amber"@, "chrome-2"@, 30u32),
    ]
}

/// A pair's content, viewed as plain values.
pub open spec fn pair_view(p: SanctionedPair) -> (Theme, Seq<char>, Seq<char>, u32) {
    (p.theme, p.fg@, p.bg@, p.min_ratio_tenths)
}

fn pair(theme: Theme, fg: &'static str, bg: &'static str, min_ratio_tenths: u32) -> (p: SanctionedPair)
    ensures
        pair_view(p) == (theme, fg@, bg@, min_ratio_tenths),
{
    SanctionedPair { theme, fg, bg, min_ratio_tenths }
}

/// The foreground/background pairs the contrast law sanctions: neutral and
/// `-ink` text on paper grounds (4.5:1, 7.0:1 under high contrast), chrome
/// inks on chrome grounds, and amber glyphs on chrome (3.0:1 everywhere).
pub fn sanctioned_pairs() -> (v: Vec<SanctionedPair>)
    ensures
        v@.len() == sanctioned_pair_table().len(),
        forall|i: int| 0 <= i < v@.len() ==> pair_view(#[trigger] v@[i]) == sanctioned_pair_table()[i],
{
    let v = vec![
        pair(Theme::CockpitLight, "ink", "paper", 45),
        pair(Theme::CockpitLight, "ink", "paper-2", 45),
        pair(Theme::CockpitLight, "ink-2", "paper", 45),
        pair(Theme::CockpitLight, "ink-2", "paper-2", 45),
        pair(Theme::CockpitLight, "ink-3", "paper", 45),
        pair(Theme::CockpitLight, "ink-3", "paper-2", 45),
        pair(Theme::CockpitLight, "accent-ink", "paper", 45),
        pair(Theme::CockpitLight, "accent-ink", "paper-2", 45),
        pair(Theme::CockpitLight, "value-ink", "paper", 45),
        pair(Theme::CockpitLight, "value-ink", "paper-2", 45),
        pair(Theme::CockpitLight, "prov-const", "paper", 45),
        pair(Theme::CockpitLight, "prov-const", "paper-2", 45),
        pair(Theme::CockpitLight, "prov-ext", "paper", 45),
        pair(Theme::CockpitLight, "prov-ext", "paper-2", 45),
        pair(Theme::CockpitLight, "red", "paper", 45),
        pair(Theme::CockpitLight, "red", "paper-2", 45),
        pair(Theme::CockpitLight, "chrome-ink", "chrome", 45),
        pair(Theme::CockpitLight, "chrome-ink", "chrome-2", 45),
        pair(Theme::CockpitLight, "chrome-ink-2", "chrome", 40),
        pair(Theme::CockpitLight, "chrome-ink-2", "chrome-2", 40),
        pair(Theme::CockpitLight, "amber", "chrome", 30),
        pair(Theme::CockpitLight, "amber", "chrome-2", 30),
        pair(Theme::CockpitDark, "ink", "paper", 45),
        pair(Theme::CockpitDark, "ink", "paper-2", 45),
        pair(Theme::CockpitDark, "ink-2", "paper", 45),
        pair(Theme::CockpitDark, "ink-2", "paper-2", 45),
        pair(Theme::CockpitDark, "ink-3", "paper", 45),
        pair(Theme::CockpitDark, "ink-3", "paper-2", 45),
        pair(Theme::CockpitDark, "accent-ink", "paper", 45),
        pair(Theme::CockpitDark, "value-ink", "paper", 45),
        pair(Theme::CockpitDark, "prov-const", "paper", 45),
        pair(Theme::CockpitDark, "prov-ext", "paper", 45),
        pair(Theme::CockpitDark, "red", "paper", 45),
        pair(Theme::CockpitDark, "chrome-ink", "chrome", 45),
        pair(Theme::CockpitDark, "chrome-ink", "chrome-2", 45),
        pair(Theme::CockpitDark, "chrome-ink-2", "chrome", 40),
        pair(Theme::CockpitDark, "chrome-ink-2", "chrome-2", 40),
        pair(Theme::CockpitDark, "amber", "chrome", 30),
        pair(Theme::CockpitDark, "amber", "chrome-2", 30),
        pair(Theme::HighContrast, "ink", "paper", 70),
        pair(Theme::HighContrast, "ink", "paper-2", 70),
        pair(Theme::HighContrast, "ink-2", "paper", 70),
        pair(Theme::HighContrast, "ink-2", "paper-2", 70),
        pair(Theme::HighContrast, "ink-3", "paper", 70),
        pair(Theme::HighContrast, "ink-3", "paper-2", 70),
        pair(Theme::HighContrast, "accent-ink", "paper", 70),
        pair(Theme::HighContrast, "accent-ink", "paper-2", 70),
        pair(Theme::HighContrast, "value-ink", "paper", 70),
        pair(Theme::HighContrast, "value-ink", "paper-2", 70),
        pair(Theme::HighContrast, "prov-const", "paper", 70),
        pair(Theme::HighContrast, "prov-const", "paper-2", 70),
        pair(Theme::HighContrast, "prov-ext", "paper", 70),
        pair(Theme::HighContrast, "prov-ext", "paper-2", 70),
        pair(Theme::HighContrast, "red", "paper", 70),
        pair(Theme::HighContrast, "red", "paper-2", 70),
        pair(Theme::HighContrast, "chrome-ink", "chrome", 70),
        pair(Theme::HighContrast, "chrome-ink", "chrome-2", 70),
        pair(Theme::HighContrast, "chrome-ink-2", "chrome", 70),
        pair(Theme::HighContrast, "chrome-ink-2", "chrome-2", 70),
        pair(Theme::HighContrast, "amber", "chrome", 30),
        pair(Theme::HighContrast, "amber", "chrome-2", 30),
    ];
    assert(v@.len() == sanctioned_pair_table().len());
    v
}

/// Law: every theme has at least one sanctioned pair, so no theme escapes
/// the contrast law.
pub proof fn lemma_every_theme_is_covered(theme: Theme)
    ensures
        exists|i: int| 0 <= i < sanctioned_pair_table().len() && (#[trigger] sanctioned_pair_table()[i]).0 == theme,
{
    match theme {
        Theme::CockpitLight => assert(sanctioned_pair_table()[0].0 == theme),
        Theme::CockpitDark => assert(sanctioned_pair_table()[22].0 == theme),
        Theme::HighContrast => assert(sanctioned_pair_table()[39].0 == theme),
    }
}


/// Every token id a sanctioned pair names resolves in any token table.
#[verifier::rlimit(60)]
proof fn lemma_sanctioned_ids_resolve(t: ThemeTokens)
    ensures
        resolve_token(t, "ink"@) is Some,
        resolve_token(t, "ink-2"@) is Some,
        resolve_token(t, "ink-3"@) is Some,
        resolve_token(t, "accent-ink"@) is Some,
        resolve_token(t, "value-ink"@) is Some,
        resolve_token(t, "prov-const"@) is Some,
        resolve_token(t, "prov-ext"@) is Some,
        resolve_token(t, "red"@) is Some,
        resolve_token(t, "chrome-ink"@) is Some,
        resolve_token(t, "chrome-ink-2"@) is Some,
        resolve_token(t, "amber"@) is Some,
        resolve_token(t, "paper"@) is Some,
        resolve_token(t, "paper-2"@) is Some,
        resolve_token(t, "chrome"@) is Some,
        resolve_token(t, "chrome-2"@) is Some,
{
    assert(resolve_token(t, "ink"@) is Some) by {
        reveal_strlit("ink");
        assert("ink"@.len() == 3);
        reveal_strlit("bg");
        assert("bg"@.len() == 2);
        reveal_strlit("paper");
        assert("paper"@.len() == 5);
        reveal_strlit("paper-2");
        assert("paper-2"@.len() == 7);
    }
    assert(resolve_token(t, "ink-2"@) is Some) by {
        reveal_strlit("ink-2");
        assert("ink-2"@.len() == 5);
        reveal_strlit("bg");
        assert("bg"@.len() == 2);
        reveal_strlit("paper");
        assert("paper"@[0] != "ink-2"@[0]);
        reveal_strlit("paper-2");
        assert("paper-2"@.len() == 7);
        reveal_strlit("ink");
        assert("ink"@.len() == 3);
    }
    assert(resolve_token(t, "ink-3"@) is Some) by {
        reveal_strlit("ink-3");
        assert("ink-3"@.len() == 5);
        reveal_strlit("bg");
        assert("bg"@.len() == 2);
        reveal_strlit("paper");
        assert("paper"@[0] != "ink-3"@[0]);
        reveal_strlit("paper-2");
        assert("paper-2"@.len() == 7);
        reveal_strlit("ink");
        assert("ink"@.len() == 3);
        reveal_strlit("ink-2");
        assert("ink-2"@[4] != "ink-3"@[4]);
    }
    assert(resolve_token(t, "accent-ink"@) is Some) by {
        reveal_strlit("accent-ink");
        assert("accent-ink"@.len() == 10);
        reveal_strlit("bg");
        assert("bg"@.len() == 2);
        reveal_strlit("paper");
        assert("paper"@.len() == 5);
        reveal_strlit("paper-2");
        assert("paper-2"@.len() == 7);
        reveal_strlit("ink");
        assert("ink"@.len() == 3);
        reveal_strlit("ink-2");
        assert("ink-2"@.len() == 5);
        reveal_strlit("ink-3");
        assert("ink-3"@.len() == 5);
        reveal_strlit("line");
        assert("line"@.len() == 4);
        reveal_strlit("line-soft");
        assert("line-soft"@.len() == 9);
        reveal_strlit("chrome");
        assert("chrome"@.len() == 6);
        reveal_strlit("chrome-2");
        assert("chrome-2"@.len() == 8);
        reveal_strlit("chrome-ink");
        assert("chrome-ink"@[0] != "accent-ink"@[0]);
        reveal_strlit("chrome-ink-2");
        assert("chrome-ink-2"@.len() == 12);
        reveal_strlit("accent");
        assert("accent"@.len() == 6);
        reveal_strlit("accent-soft");
        assert("accent-soft"@.len() == 11);
        reveal_strlit("amber-soft");
        assert("amber-soft"@[1] != "accent-ink"@[1]);
        reveal_strlit("green-soft");
        assert("green-soft"@[0] != "accent-ink"@[0]);
        reveal_strlit("signal-soft");
        assert("signal-soft"@.len() == 11);
        reveal_strlit("red-soft");
        assert("red-soft"@.len() == 8);
    }
    assert(resolve_token(t, "value-ink"@) is Some) by {
        reveal_strlit("value-ink");
        assert("value-ink"@.len() == 9);
        reveal_strlit("bg");
        assert("bg"@.len() == 2);
        reveal_strlit("paper");
        assert("paper"@.len() == 5);
        reveal_strlit("paper-2");
        assert("paper-2"@.len() == 7);
        reveal_strlit("ink");
        assert("ink"@.len() == 3);
        reveal_strlit("ink-2");
        assert("ink-2"@.len() == 5);
        reveal_strlit("ink-3");
        assert("ink-3"@.len() == 5);
        reveal_strlit("line");
        assert("line"@.len() == 4);
        reveal_strlit("line-soft");
        assert("line-soft"@[0] != "value-ink"@[0]);
        reveal_strlit("chrome");
        assert("chrome"@.len() == 6);
        reveal_strlit("chrome-2");
        assert("chrome-2"@.len() == 8);
        reveal_strlit("chrome-ink");
        assert("chrome-ink"@.len() == 10);
        reveal_strlit("chrome-ink-2");
        assert("chrome-ink-2"@.len() == 12);
        reveal_strlit("accent");
        assert("accent"@.len() == 6);
        reveal_strlit("accent-soft");
        assert("accent-soft"@.len() == 11);
        reveal_strlit("amber-soft");
        assert("amber-soft"@.len() == 10);
        reveal_strlit("green-soft");
        assert("green-soft"@.len() == 10);
        reveal_strlit("signal-soft");
        assert("signal-soft"@.len() == 11);
        reveal_strlit("red-soft");
        assert("red-soft"@.len() == 8);
        reveal_strlit("accent-ink");
        assert("accent-ink"@.len() == 10);
    }
    assert(resolve_token(t, "prov-const"@) is Some) by {
        reveal_strlit("prov-const");
        assert("prov-const"@.len() == 10);
        reveal_strlit("bg");
        assert("bg"@.len() == 2);
        reveal_strlit("paper");
        assert("paper"@.len() == 5);
        reveal_strlit("paper-2");
        assert("paper-2"@.len() == 7);
        reveal_strlit("ink");
        assert("ink"@.len() == 3);
        reveal_strlit("ink-2");
        assert("ink-2"@.len() == 5);
        reveal_strlit("ink-3");
        assert("ink-3"@.len() == 5);
        reveal_strlit("line");
        assert("line"@.len() == 4);
        reveal_strlit("line-soft");
        assert("line-soft"@.len() == 9);
        reveal_strlit("chrome");
        assert("chrome"@.len() == 6);
        reveal_strlit("chrome-2");
        assert("chrome-2"@.len() == 8);
        reveal_strlit("chrome-ink");
        assert("chrome-ink"@[0] != "prov-const"@[0]);
        reveal_strlit("chrome-ink-2");
        assert("chrome-ink-2"@.len() == 12);
        reveal_strlit("accent");
        assert("accent"@.len() == 6);
        reveal_strlit("accent-soft");
        assert("accent-soft"@.len() == 11);
        reveal_strlit("amber-soft");
        assert("amber-soft"@[0] != "prov-const"@[0]);
        reveal_strlit("green-soft");
        assert("green-soft"@[0] != "prov-const"@[0]);
        reveal_strlit("signal-soft");
        assert("signal-soft"@.len() == 11);
        reveal_strlit("red-soft");
        assert("red-soft"@.len() == 8);
        reveal_strlit("accent-ink");
        assert("accent-ink"@[0] != "prov-const"@[0]);
        reveal_strlit("value-ink");
        assert("value-ink"@.len() == 9);
    }
    assert(resolve_token(t, "prov-ext"@) is Some) by {
        reveal_strlit("prov-ext");
        assert("prov-ext"@.len() == 8);
        reveal_strlit("bg");
        assert("bg"@.len() == 2);
        reveal_strlit("paper");
        assert("paper"@.len() == 5);
        reveal_strlit("paper-2");
        assert("paper-2"@.len() == 7);
        reveal_strlit("ink");
        assert("ink"@.len() == 3);
        reveal_strlit("ink-2");
        assert("ink-2"@.len() == 5);
        reveal_strlit("ink-3");
        assert("ink-3"@.len() == 5);
        reveal_strlit("line");
        assert("line"@.len() == 4);
        reveal_strlit("line-soft");
        assert("line-soft"@.len() == 9);
        reveal_strlit("chrome");
        assert("chrome"@.len() == 6);
        reveal_strlit("chrome-2");
        assert("chrome-2"@[0] != "prov-ext"@[0]);
        reveal_strlit("chrome-ink");
        assert("chrome-ink"@.len() == 10);
        reveal_strlit("chrome-ink-2");
        assert("chrome-ink-2"@.len() == 12);
        reveal_strlit("accent");
        assert("accent"@.len() == 6);
        reveal_strlit("accent-soft");
        assert("accent-soft"@.len() == 11);
        reveal_strlit("amber-soft");
        assert("amber-soft"@.len() == 10);
        reveal_strlit("green-soft");
        assert("green-soft"@.len() == 10);
        reveal_strlit("signal-soft");
        assert("signal-soft"@.len() == 11);
        reveal_strlit("red-soft");
        assert("red-soft"@[0] != "prov-ext"@[0]);
        reveal_strlit("accent-ink");
        assert("accent-ink"@.len() == 10);
        reveal_strlit("value-ink");
        assert("value-ink"@.len() == 9);
        reveal_strlit("prov-const");
        assert("prov-const"@.len() == 10);
    }
    assert(resolve_token(t, "red"@) is Some) by {
        reveal_strlit("red");
        assert("red"@.len() == 3);
        reveal_strlit("bg");
        assert("bg"@.len() == 2);
        reveal_strlit("paper");
        assert("paper"@.len() == 5);
        reveal_strlit("paper-2");
        assert("paper-2"@.len() == 7);
        reveal_strlit("ink");
        assert("ink"@[0] != "red"@[0]);
        reveal_strlit("ink-2");
        assert("ink-2"@.len() == 5);
        reveal_strlit("ink-3");
        assert("ink-3"@.len() == 5);
        reveal_strlit("line");
        assert("line"@.len() == 4);
        reveal_strlit("line-soft");
        assert("line-soft"@.len() == 9);
        reveal_strlit("chrome");
        assert("chrome"@.len() == 6);
        reveal_strlit("chrome-2");
        assert("chrome-2"@.len() == 8);
        reveal_strlit("chrome-ink");
        assert("chrome-ink"@.len() == 10);
        reveal_strlit("chrome-ink-2");
        assert("chrome-ink-2"@.len() == 12);
        reveal_strlit("accent");
        assert("accent"@.len() == 6);
        reveal_strlit("accent-soft");
        assert("accent-soft"@.len() == 11);
        reveal_strlit("amber-soft");
        assert("amber-soft"@.len() == 10);
        reveal_strlit("green-soft");
        assert("green-soft"@.len() == 10);
        reveal_strlit("signal-soft");
        assert("signal-soft"@.len() == 11);
        reveal_strlit("red-soft");
        assert("red-soft"@.len() == 8);
        reveal_strlit("accent-ink");
        assert("accent-ink"@.len() == 10);
        reveal_strlit("value-ink");
        assert("value-ink"@.len() == 9);
        reveal_strlit("prov-const");
        assert("prov-const"@.len() == 10);
        reveal_strlit("prov-ext");
        assert("prov-ext"@.len() == 8);
    }
    assert(resolve_token(t, "chrome-ink"@) is Some) by {
        reveal_strlit("chrome-ink");
        assert("chrome-ink"@.len() == 10);
        reveal_strlit("bg");
        assert("bg"@.len() == 2);
        reveal_strlit("paper");
        assert("paper"@.len() == 5);
        reveal_strlit("paper-2");
        assert("paper-2"@.len() == 7);
        reveal_strlit("ink");
        assert("ink"@.len() == 3);
        reveal_strlit("ink-2");
        assert("ink-2"@.len() == 5);
        reveal_strlit("ink-3");
        assert("ink-3"@.len() == 5);
        reveal_strlit("line");
        assert("line"@.len() == 4);
        reveal_strlit("line-soft");
        assert("line-soft"@.len() == 9);
        reveal_strlit("chrome");
        assert("chrome"@.len() == 6);
        reveal_strlit("chrome-2");
        assert("chrome-2"@.len() == 8);
    }
    assert(resolve_token(t, "chrome-ink-2"@) is Some) by {
        reveal_strlit("chrome-ink-2");
        assert("chrome-ink-2"@.len() == 12);
        reveal_strlit("bg");
        assert("bg"@.len() == 2);
        reveal_strlit("paper");
        assert("paper"@.len() == 5);
        reveal_strlit("paper-2");
        assert("paper-2"@.len() == 7);
        reveal_strlit("ink");
        assert("ink"@.len() == 3);
        reveal_strlit("ink-2");
        assert("ink-2"@.len() == 5);
        reveal_strlit("ink-3");
        assert("ink-3"@.len() == 5);
        reveal_strlit("line");
        assert("line"@.len() == 4);
        reveal_strlit("line-soft");
        assert("line-soft"@.len() == 9);
        reveal_strlit("chrome");
        assert("chrome"@.len() == 6);
        reveal_strlit("chrome-2");
        assert("chrome-2"@.len() == 8);
        reveal_strlit("chrome-ink");
        assert("chrome-ink"@.len() == 10);
    }
    assert(resolve_token(t, "amber"@) is Some) by {
        reveal_strlit("amber");
        assert("amber"@.len() == 5);
        reveal_strlit("bg");
        assert("bg"@.len() == 2);
        reveal_strlit("paper");
        assert("paper"@[0] != "amber"@[0]);
        reveal_strlit("paper-2");
        assert("paper-2"@.len() == 7);
        reveal_strlit("ink");
        assert("ink"@.len() == 3);
        reveal_strlit("ink-2");
        assert("ink-2"@[0] != "amber"@[0]);
        reveal_strlit("ink-3");
        assert("ink-3"@[0] != "amber"@[0]);
        reveal_strlit("line");
        assert("line"@.len() == 4);
        reveal_strlit("line-soft");
        assert("line-soft"@.len() == 9);
        reveal_strlit("chrome");
        assert("chrome"@.len() == 6);
        reveal_strlit("chrome-2");
        assert("chrome-2"@.len() == 8);
        reveal_strlit("chrome-ink");
        assert("chrome-ink"@.len() == 10);
        reveal_strlit("chrome-ink-2");
        assert("chrome-ink-2"@.len() == 12);
        reveal_strlit("accent");
        assert("accent"@.len() == 6);
        reveal_strlit("accent-soft");
        assert("accent-soft"@.len() == 11);
        reveal_strlit("amber-soft");
        assert("amber-soft"@.len() == 10);
        reveal_strlit("green-soft");
        assert("green-soft"@.len() == 10);
        reveal_strlit("signal-soft");
        assert("signal-soft"@.len() == 11);
        reveal_strlit("red-soft");
        assert("red-soft"@.len() == 8);
        reveal_strlit("accent-ink");
        assert("accent-ink"@.len() == 10);
        reveal_strlit("value-ink");
        assert("value-ink"@.len() == 9);
        reveal_strlit("prov-const");
        assert("prov-const"@.len() == 10);
        reveal_strlit("prov-ext");
        assert("prov-ext"@.len() == 8);
        reveal_strlit("red");
        assert("red"@.len() == 3);
        reveal_strlit("red-ink");
        assert("red-ink"@.len() == 7);
    }
    assert(resolve_token(t, "paper"@) is Some) by {
        reveal_strlit("paper");
        assert("paper"@.len() == 5);
        reveal_strlit("bg");
        assert("bg"@.len() == 2);
    }
    assert(resolve_token(t, "paper-2"@) is Some) by {
        reveal_strlit("paper-2");
        assert("paper-2"@.len() == 7);
        reveal_strlit("bg");
        assert("bg"@.len() == 2);
        reveal_strlit("paper");
        assert("paper"@.len() == 5);
    }
    assert(resolve_token(t, "chrome"@) is Some) by {
        reveal_strlit("chrome");
        assert("chrome"@.len() == 6);
        reveal_strlit("bg");
        assert("bg"@.len() == 2);
        reveal_strlit("paper");
        assert("paper"@.len() == 5);
        reveal_strlit("paper-2");
        assert("paper-2"@.len() == 7);
        reveal_strlit("ink");
        assert("ink"@.len() == 3);
        reveal_strlit("ink-2");
        assert("ink-2"@.len() == 5);
        reveal_strlit("ink-3");
        assert("ink-3"@.len() == 5);
        reveal_strlit("line");
        assert("line"@.len() == 4);
        reveal_strlit("line-soft");
        assert("line-soft"@.len() == 9);
    }
    assert(resolve_token(t, "chrome-2"@) is Some) by {
        reveal_strlit("chrome-2");
        assert("chrome-2"@.len() == 8);
        reveal_strlit("bg");
        assert("bg"@.len() == 2);
        reveal_strlit("paper");
        assert("paper"@.len() == 5);
        reveal_strlit("paper-2");
        assert("paper-2"@.len() == 7);
        reveal_strlit("ink");
        assert("ink"@.len() == 3);
        reveal_strlit("ink-2");
        assert("ink-2"@.len() == 5);
        reveal_strlit("ink-3");
        assert("ink-3"@.len() == 5);
        reveal_strlit("line");
        assert("line"@.len() == 4);
        reveal_strlit("line-soft");
        assert("line-soft"@.len() == 9);
        reveal_strlit("chrome");
        assert("chrome"@.len() == 6);
    }
}

/// Law: every sanctioned pair names a foreground and a background id that
/// its own theme's token table resolves, so the contrast law never checks
/// an unknown color.
pub proof fn lemma_sanctioned_pairs_resolve()
    ensures
        forall|i: int|
            0 <= i < sanctioned_pair_table().len() ==> {
                let p = #[trigger] sanctioned_pair_table()[i];
                &&& resolve_token(theme_tokens(p.0), p.1) is Some
                &&& resolve_token(theme_tokens(p.0), p.2) is Some
            },
{
    lemma_sanctioned_ids_resolve(theme_tokens(Theme::CockpitLight));
    lemma_sanctioned_ids_resolve(theme_tokens(Theme::CockpitDark));
    lemma_sanctioned_ids_resolve(theme_tokens(Theme::HighContrast));
    assert(sanctioned_pair_table().len() == 61);
    assert forall|i: int| 0 <= i < sanctioned_pair_table().len() implies {
        let p = #[trigger] sanctioned_pair_table()[i];
        &&& resolve_token(theme_tokens(p.0), p.1) is Some
        &&& resolve_token(theme_tokens(p.0), p.2) is Some
    } by {
        if i == 0 {
            assert(sanctioned_pair_table()[0] == sanctioned_pair_table()[i]);
        } else if i == 1 {
            assert(sanctioned_pair_table()[1] == sanctioned_pair_table()[i]);
        } else if i == 2 {
            assert(sanctioned_pair_table()[2] == sanctioned_pair_table()[i]);
        } else if i == 3 {
            assert(sanctioned_pair_table()[3] == sanctioned_pair_table()[i]);
        } else if i == 4 {
            assert(sanctioned_pair_table()[4] == sanctioned_pair_table()[i]);
        } else if i == 5 {
            assert(sanctioned_pair_table()[5] == sanctioned_pair_table()[i]);
        } else if i == 6 {
            assert(sanctioned_pair_table()[6] == sanctioned_pair_table()[i]);
        } else if i == 7 {
            assert(sanctioned_pair_table()[7] == sanctioned_pair_table()[i]);
        } else if i == 8 {
            assert(sanctioned_pair_table()[8] == sanctioned_pair_table()[i]);
        } else if i == 9 {
            assert(sanctioned_pair_table()[9] == sanctioned_pair_table()[i]);
        } else if i == 10 {
            assert(sanctioned_pair_table()[10] == sanctioned_pair_table()[i]);
        } else if i == 11 {
            assert(sanctioned_pair_table()[11] == sanctioned_pair_table()[i]);
        } else if i == 12 {
            assert(sanctioned_pair_table()[12] == sanctioned_pair_table()[i]);
        } else if i == 13 {
            assert(sanctioned_pair_table()[13] == sanctioned_pair_table()[i]);
        } else if i == 14 {
            assert(sanctioned_pair_table()[14] == sanctioned_pair_table()[i]);
        } else if i == 15 {
            assert(sanctioned_pair_table()[15] == sanctioned_pair_table()[i]);
        } else if i == 16 {
            assert(sanctioned_pair_table()[16] == sanctioned_pair_table()[i]);
        } else if i == 17 {
            assert(sanctioned_pair_table()[17] == sanctioned_pair_table()[i]);
        } else if i == 18 {
            assert(sanctioned_pair_table()[18] == sanctioned_pair_table()[i]);
        } else if i == 19 {
            assert(sanctioned_pair_table()[19] == sanctioned_pair_table()[i]);
        } else if i == 20 {
            assert(sanctioned_pair_table()[20] == sanctioned_pair_table()[i]);
        } else if i == 21 {
            assert(sanctioned_pair_table()[21] == sanctioned_pair_table()[i]);
        } else if i == 22 {
            assert(sanctioned_pair_table()[22] == sanctioned_pair_table()[i]);
        } else if i == 23 {
            assert(sanctioned_pair_table()[23] == sanctioned_pair_table()[i]);
        } else if i == 24 {
            assert(sanctioned_pair_table()[24] == sanctioned_pair_table()[i]);
        } else if i == 25 {
            assert(sanctioned_pair_table()[25] == sanctioned_pair_table()[i]);
        } else if i == 26 {
            assert(sanctioned_pair_table()[26] == sanctioned_pair_table()[i]);
        } else if i == 27 {
            assert(sanctioned_pair_table()[27] == sanctioned_pair_table()[i]);
        } else if i == 28 {
            assert(sanctioned_pair_table()[28] == sanctioned_pair_table()[i]);
        } else if i == 29 {
            assert(sanctioned_pair_table()[29] == sanctioned_pair_table()[i]);
        } else if i == 30 {
            assert(sanctioned_pair_table()[30] == sanctioned_pair_table()[i]);
        } else if i == 31 {
            assert(sanctioned_pair_table()[31] == sanctioned_pair_table()[i]);
        } else if i == 32 {
            assert(sanctioned_pair_table()[32] == sanctioned_pair_table()[i]);
        } else if i == 33 {
            assert(sanctioned_pair_table()[33] == sanctioned_pair_table()[i]);
        } else if i == 34 {
            assert(sanctioned_pair_table()[34] == sanctioned_pair_table()[i]);
        } else if i == 35 {
            assert(sanctioned_pair_table()[35] == sanctioned_pair_table()[i]);
        } else if i == 36 {
            assert(sanctioned_pair_table()[36] == sanctioned_pair_table()[i]);
        } else if i == 37 {
            assert(sanctioned_pair_table()[37] == sanctioned_pair_table()[i]);
        } else if i == 38 {
            assert(sanctioned_pair_table()[38] == sanctioned_pair_table()[i]);
        } else if i == 39 {
            assert(sanctioned_pair_table()[39] == sanctioned_pair_table()[i]);
        } else if i == 40 {
            assert(sanctioned_pair_table()[40] == sanctioned_pair_table()[i]);
        } else if i == 41 {
            assert(sanctioned_pair_table()[41] == sanctioned_pair_table()[i]);
        } else if i == 42 {
            assert(sanctioned_pair_table()[42] == sanctioned_pair_table()[i]);
        } else if i == 43 {
            assert(sanctioned_pair_table()[43] == sanctioned_pair_table()[i]);
        } else if i == 44 {
            assert(sanctioned_pair_table()[44] == sanctioned_pair_table()[i]);
        } else if i == 45 {
            assert(sanctioned_pair_table()[45] == sanctioned_pair_table()[i]);
        } else if i == 46 {
            assert(sanctioned_pair_table()[46] == sanctioned_pair_table()[i]);
        } else if i == 47 {
            assert(sanctioned_pair_table()[47] == sanctioned_pair_table()[i]);
        } else if i == 48 {
            assert(sanctioned_pair_table()[48] == sanctioned_pair_table()[i]);
        } else if i == 49 {
            assert(sanctioned_pair_table()[49] == sanctioned_pair_table()[i]);
        } else if i == 50 {
            assert(sanctioned_pair_table()[50] == sanctioned_pair_table()[i]);
        } else if i == 51 {
            assert(sanctioned_pair_table()[51] == sanctioned_pair_table()[i]);
        } else if i == 52 {
            assert(sanctioned_pair_table()[52] == sanctioned_pair_table()[i]);
        } else if i == 53 {
            assert(sanctioned_pair_table()[53] == sanctioned_pair_table()[i]);
        } else if i == 54 {
            assert(sanctioned_pair_table()[54] == sanctioned_pair_table()[i]);
        } else if i == 55 {
            assert(sanctioned_pair_table()[55] == sanctioned_pair_table()[i]);
        } else if i == 56 {
            assert(sanctioned_pair_table()[56] == sanctioned_pair_table()[i]);
        } else if i == 57 {
            assert(sanctioned_pair_table()[57] == sanctioned_pair_table()[i]);
        } else if i == 58 {
            assert(sanctioned_pair_table()[58] == sanctioned_pair_table()[i]);
        } else if i == 59 {
            assert(sanctioned_pair_table()[59] == sanctioned_pair_table()[i]);
        } else if i == 60 {
            assert(sanctioned_pair_table()[60] == sanctioned_pair_table()[i]);
        }
    }
}

} // verus!
