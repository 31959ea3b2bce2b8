//! The pure inputs of the Sheet's canvas pass: the last-resort palette, the
//! numeric-alignment heuristic, and the edge style of an overlay rectangle.
//! The drawing itself belongs to the host's renderer.
use vstd::prelude::*;

use crate::palette::hex_text;
use crate::projection::GridOverlayRect;
use crate::text::{ascii_lower, ascii_lower_char, chars_of, string_of_chars, trim_chars, trimmed};
use crate::theme::cockpit_light_tokens;

verus! {

/// The monospace stack cell values are painted in.
pub const SHEET_CELL_FONT: &'static str =
    "12px 'Recursive Mono','Cascadia Code',Consolas,ui-monospace,monospace";

/// The header-strip label font: the same stack a hair smaller.
pub const SHEET_HEADER_FONT: &'static str =
    "11px 'Recursive Mono','Cascadia Code',Consolas,ui-monospace,monospace";

/// The resolved Strand colors one draw pass paints with (`#RRGGBB` text),
/// plus the two constant fonts.
#[derive(Debug, Clone, PartialEq, Eq)]
pub struct Palette {
    /// Grid background: `--dna-paper`.
    pub paper: String,
    /// Header-strip background: `--dna-paper-2`.
    pub paper_2: String,
    /// Non-numeric cell text: `--dna-ink`.
    pub ink: String,
    /// Header label ink: `--dna-ink-2`.
    pub ink_2: String,
    /// Gridline stroke: `--dna-line`.
    pub line: String,
    /// Numeric-value ink: `--dna-value-ink`.
    pub value_ink: String,
    /// Active-cell outline and table overlays: `--dna-accent`.
    pub accent: String,
    /// Live spill veil and badge: `--dna-signal-soft`.
    pub spill: String,
    /// Blocked-spill veil and badge: `--dna-red-ink`.
    pub spill_blocked: String,
    /// Cell value font.
    pub cell_font: String,
    /// Header label font.
    pub header_font: String,
}

impl Palette {
    /// The last-resort palette: the cockpit-light hexes, used only when a
    /// live `--dna-*` value cannot be read.
    pub fn fallback() -> (p: Self)
        ensures
            p.paper@ == "#FFFFFF"@,
            p.paper_2@ == "#EEF2F4"@,
            p.ink@ == "#17282E"@,
            p.ink_2@ == "#48606A"@,
            p.line@ == "#D5DFE3"@,
            p.value_ink@ == "#2E6E5B"@,
            p.accent@ == "#318995"@,
            p.spill@ == "#FFEDDB"@,
            p.spill_blocked@ == "#D02A23"@,
            p.cell_font@ == SHEET_CELL_FONT@,
            p.header_font@ == SHEET_HEADER_FONT@,
    {
        Palette {
            paper: String::from_str("#FFFFFF"),
            paper_2: String::from_str("#EEF2F4"),
            ink: String::from_str("#17282E"),
            ink_2: String::from_str("#48606A"),
            line: String::from_str("#D5DFE3"),
            value_ink: String::from_str("#2E6E5B"),
            accent: String::from_str("#318995"),
            spill: String::from_str("#FFEDDB"),
            spill_blocked: String::from_str("#D02A23"),
            cell_font: String::from_str(SHEET_CELL_FONT),
            header_font: String::from_str(SHEET_HEADER_FONT),
        }
    }
}

/// The custom properties the palette's color slots are read from, in slot
/// order (paper, paper 2, ink, ink 2, line, value ink, accent, spill,
/// blocked spill).
pub const PALETTE_CSS_PROPERTIES: [&'static str; 9] = [
    "--dna-paper",
    "--dna-paper-2",
    "--dna-ink",
    "--dna-ink-2",
    "--dna-line",
    "--dna-value-ink",
    "--dna-accent",
    "--dna-signal-soft",
    "--dna-red-ink",
];

/// The computed values of [`PALETTE_CSS_PROPERTIES`] as the host read them
/// off the stage element, one per color slot (`None` where the read
/// failed).
#[derive(Debug, Clone, PartialEq, Eq)]
pub struct PaletteCssValues {
    /// `--dna-paper`.
    pub paper: Option<String>,
    /// `--dna-paper-2`.
    pub paper_2: Option<String>,
    /// `--dna-ink`.
    pub ink: Option<String>,
    /// `--dna-ink-2`.
    pub ink_2: Option<String>,
    /// `--dna-line`.
    pub line: Option<String>,
    /// `--dna-value-ink`.
    pub value_ink: Option<String>,
    /// `--dna-accent`.
    pub accent: Option<String>,
    /// `--dna-signal-soft`.
    pub spill: Option<String>,
    /// `--dna-red-ink`.
    pub spill_blocked: Option<String>,
}

/// A read custom-property value, trimmed, or the fallback when it is
/// absent or blank.
pub open spec fn css_value_or(value: Option<String>, fallback: Seq<char>) -> Seq<char> {
    match value {
        Some(v) => if trimmed(v@).len() > 0 {
            trimmed(v@)
        } else {
            fallback
        },
        None => fallback,
    }
}

/// One slot's color: the trimmed read value, or the fallback color when the
/// read failed or came back blank (never an empty paint).
pub fn read_css_value(value: &Option<String>, fallback: &String) -> (s: String)
    ensures
        s@ == css_value_or(*value, fallback@),
{
    match value {
        Some(v) => {
            let chars = chars_of(v.as_str());
            let t = trim_chars(&chars);
            if t.len() > 0 {
                string_of_chars(&t)
            } else {
                fallback.clone()
            }
        },
        None => fallback.clone(),
    }
}

/// `p` is the palette the read values `values` give: each color slot the
/// trimmed read value or, when absent or blank, the fallback color; the
/// fonts always the constant fonts.
pub open spec fn palette_reads(values: PaletteCssValues, p: Palette) -> bool {
    &&& p.paper@ == css_value_or(values.paper, "#FFFFFF"@)
    &&& p.paper_2@ == css_value_or(values.paper_2, "#EEF2F4"@)
    &&& p.ink@ == css_value_or(values.ink, "#17282E"@)
    &&& p.ink_2@ == css_value_or(values.ink_2, "#48606A"@)
    &&& p.line@ == css_value_or(values.line, "#D5DFE3"@)
    &&& p.value_ink@ == css_value_or(values.value_ink, "#2E6E5B"@)
    &&& p.accent@ == css_value_or(values.accent, "#318995"@)
    &&& p.spill@ == css_value_or(values.spill, "#FFEDDB"@)
    &&& p.spill_blocked@ == css_value_or(values.spill_blocked, "#D02A23"@)
    &&& p.cell_font@ == SHEET_CELL_FONT@
    &&& p.header_font@ == SHEET_HEADER_FONT@
}

/// The palette of a stage element whose computed style may be unreadable
/// (no window, or no computed style): `None` paints the whole fallback
/// palette; a read style paints its values (see [`palette_from_css`]).
pub fn palette_of_style(style: &Option<PaletteCssValues>) -> (p: Palette)
    ensures
        style matches Some(v) ==> palette_reads(*v, p),
        style is None ==> {
            &&& p.paper@ == "#FFFFFF"@
            &&& p.paper_2@ == "#EEF2F4"@
            &&& p.ink@ == "#17282E"@
            &&& p.ink_2@ == "#48606A"@
            &&& p.line@ == "#D5DFE3"@
            &&& p.value_ink@ == "#2E6E5B"@
            &&& p.accent@ == "#318995"@
            &&& p.spill@ == "#FFEDDB"@
            &&& p.spill_blocked@ == "#D02A23"@
            &&& p.cell_font@ == SHEET_CELL_FONT@
            &&& p.header_font@ == SHEET_HEADER_FONT@
        },
{
    match style {
        Some(values) => palette_from_css(values),
        None => palette_from_css(
            &PaletteCssValues {
                paper: None,
                paper_2: None,
                ink: None,
                ink_2: None,
                line: None,
                value_ink: None,
                accent: None,
                spill: None,
                spill_blocked: None,
            },
        ),
    }
}

/// The palette one draw pass paints with, from the values read off the
/// stage element: each color slot the trimmed read value or, when absent or
/// blank, the fallback color; the fonts always the constant fonts.
pub fn palette_from_css(values: &PaletteCssValues) -> (p: Palette)
    ensures
        palette_reads(*values, p),
{
    let fallback = Palette::fallback();
    Palette {
        paper: read_css_value(&values.paper, &fallback.paper),
        paper_2: read_css_value(&values.paper_2, &fallback.paper_2),
        ink: read_css_value(&values.ink, &fallback.ink),
        ink_2: read_css_value(&values.ink_2, &fallback.ink_2),
        line: read_css_value(&values.line, &fallback.line),
        value_ink: read_css_value(&values.value_ink, &fallback.value_ink),
        accent: read_css_value(&values.accent, &fallback.accent),
        spill: read_css_value(&values.spill, &fallback.spill),
        spill_blocked: read_css_value(&values.spill_blocked, &fallback.spill_blocked),
        cell_font: fallback.cell_font,
        header_font: fallback.header_font,
    }
}

/// Law: every color slot of the fallback palette is the `#RRGGBB` text of
/// the matching `cockpit-light` token (spill is `signal-soft`, blocked
/// spill is the text-safe red), and no slot is empty.
pub proof fn lemma_fallback_is_cockpit_light()
    ensures
        "#FFFFFF"@ == hex_text(cockpit_light_tokens().paper),
        "#EEF2F4"@ == hex_text(cockpit_light_tokens().paper_2),
        "#17282E"@ == hex_text(cockpit_light_tokens().ink),
        "#48606A"@ == hex_text(cockpit_light_tokens().ink_2),
        "#D5DFE3"@ == hex_text(cockpit_light_tokens().line),
        "#2E6E5B"@ == hex_text(cockpit_light_tokens().value_ink),
        "#318995"@ == hex_text(cockpit_light_tokens().accent),
        "#FFEDDB"@ == hex_text(cockpit_light_tokens().signal_soft),
        "#D02A23"@ == hex_text(cockpit_light_tokens().red_ink),
        SHEET_CELL_FONT@.len() > 0,
        SHEET_HEADER_FONT@.len() > 0,
{
    reveal_strlit("#FFFFFF");
    reveal_strlit("#EEF2F4");
    reveal_strlit("#17282E");
    reveal_strlit("#48606A");
    reveal_strlit("#D5DFE3");
    reveal_strlit("#2E6E5B");
    reveal_strlit("#318995");
    reveal_strlit("#FFEDDB");
    reveal_strlit("#D02A23");
    reveal_strlit("12px 'Recursive Mono','Cascadia Code',Consolas,ui-monospace,monospace");
    reveal_strlit("11px 'Recursive Mono','Cascadia Code',Consolas,ui-monospace,monospace");
    let t = cockpit_light_tokens();
    assert(t.signal_soft == (crate::palette::Rgb { r: 0xFF, g: 0xED, b: 0xDB }));
    assert(hex_text(t.paper) =~= "#FFFFFF"@);
    assert(hex_text(t.paper_2) =~= "#EEF2F4"@);
    assert(hex_text(t.ink) =~= "#17282E"@);
    assert(hex_text(t.ink_2) =~= "#48606A"@);
    assert(hex_text(t.line) =~= "#D5DFE3"@);
    assert(hex_text(t.value_ink) =~= "#2E6E5B"@);
    assert(hex_text(t.accent) =~= "#318995"@);
    assert(hex_text(t.signal_soft) =~= "#FFEDDB"@);
    assert(hex_text(t.red_ink) =~= "#D02A23"@);
}

/// `c` is one of `0`..`9`.
pub open spec fn is_ascii_digit(c: char) -> bool {
    48 <= c as u32 <= 57
}

/// Every character of `s` is a digit.
pub open spec fn all_digits(s: Seq<char>) -> bool {
    forall|i: int| 0 <= i < s.len() ==> #[trigger] is_ascii_digit(s[i])
}

/// The index of the first `e` in `s`, or its length when there is none.
pub open spec fn exponent_start(s: Seq<char>) -> int
    decreases s.len(),
{
    if s.len() == 0 {
        0
    } else if s[0] == 'e' {
        0
    } else {
        1 + exponent_start(s.drop_first())
    }
}

/// A mantissa: digits with at most one `.`, and at least one digit.
pub open spec fn is_mantissa(m: Seq<char>) -> bool {
    &&& forall|i: int| 0 <= i < m.len() ==> is_ascii_digit(#[trigger] m[i]) || m[i] == '.'
    &&& forall|i: int, j: int| 0 <= i < m.len() && 0 <= j < m.len() && m[i] == '.' && m[j] == '.' ==> i == j
    &&& exists|i: int| 0 <= i < m.len() && #[trigger] is_ascii_digit(m[i])
}

/// An exponent: `e`, an optional sign, and at least one digit.
pub open spec fn is_exponent(e: Seq<char>) -> bool {
    &&& e.len() >= 2
    &&& e[0] == 'e'
    &&& if e[1] == '+' || e[1] == '-' {
        e.len() >= 3 && all_digits(e.subrange(2, e.len() as int))
    } else {
        all_digits(e.subrange(1, e.len() as int))
    }
}

/// A decimal number: a mantissa, then an optional exponent.
pub open spec fn is_decimal_number(s: Seq<char>) -> bool {
    let k = exponent_start(s);
    is_mantissa(s.subrange(0, k)) && (k == s.len() || is_exponent(s.subrange(k, s.len() as int)))
}

/// A plain number: an optional sign, then a decimal number (the exponent
/// marker `e` in either case). Words such as `inf` or `NaN` are not plain
/// numbers.
pub open spec fn is_float_text(t: Seq<char>) -> bool {
    let body = if t.len() > 0 && (t[0] == '+' || t[0] == '-') {
        t.drop_first()
    } else {
        t
    };
    let lower = body.map_values(|c: char| ascii_lower(c));
    is_decimal_number(lower)
}

/// Whether cell text reads as a plain number: non-empty once trimmed, and a
/// plain number.
pub open spec fn reads_as_number(text: Seq<char>) -> bool {
    let t = trimmed(text);
    t.len() > 0 && is_float_text(t)
}

fn is_digit_char(c: char) -> (b: bool)
    ensures
        b == is_ascii_digit(c),
{
    let v = c as u32;
    48 <= v && v <= 57
}

fn mantissa_ok(s: &Vec<char>, end: usize) -> (ok: bool)
    requires
        end <= s@.len(),
    ensures
        ok == is_mantissa(s@.subrange(0, end as int)),
{
    let ghost m = s@.subrange(0, end as int);
    let mut dots: usize = 0;
    let mut dot_at: usize = 0;
    let mut digits: usize = 0;
    let mut i: usize = 0;
    while i < end
        invariant
            end <= s@.len(),
            m == s@.subrange(0, end as int),
            i <= end,
            dots <= 1,
            digits <= i,
            forall|k: int| 0 <= k < i ==> is_ascii_digit(#[trigger] m[k]) || m[k] == '.',
            dots == 0 ==> forall|k: int| 0 <= k < i ==> m[k] != '.',
            dots == 1 ==> dot_at < i && m[dot_at as int] == '.' && forall|k: int|
                0 <= k < i && m[k] == '.' ==> k == dot_at,
            digits == 0 ==> forall|k: int| 0 <= k < i ==> !is_ascii_digit(#[trigger] m[k]),
            digits > 0 ==> exists|k: int| 0 <= k < i && #[trigger] is_ascii_digit(m[k]),
        decreases end - i,
    {
        let c = s[i];
        assert(m[i as int] == c);
        if is_digit_char(c) {
            digits = digits + 1;
        } else if c == '.' {
            if dots == 1 {
                assert(m[dot_at as int] == '.' && m[i as int] == '.');
                return false;
            }
            dots = 1;
            dot_at = i;
        } else {
            return false;
        }
        i = i + 1;
    }
    digits > 0
}

#[verifier::loop_isolation(false)]
fn exponent_ok(s: &Vec<char>, start: usize) -> (ok: bool)
    requires
        start < s@.len(),
        s@[start as int] == 'e',
    ensures
        ok == is_exponent(s@.subrange(start as int, s@.len() as int)),
{
    let ghost e = s@.subrange(start as int, s@.len() as int);
    let n = s.len();
    if n - start < 2 {
        return false;
    }
    let signed = s[start + 1] == '+' || s[start + 1] == '-';
    let first = if signed {
        start + 2
    } else {
        start + 1
    };
    assert(e[1] == s@[start + 1]);
    if first >= n {
        return false;
    }
    let ghost d = s@.subrange(first as int, n as int);
    assert(d =~= e.subrange(first - start, e.len() as int));
    if signed {
        assert(d == e.subrange(2, e.len() as int));
    } else {
        assert(d == e.subrange(1, e.len() as int));
    }
    let mut i = first;
    while i < n
        invariant
            first <= i <= n,
            n == s@.len(),
            d == s@.subrange(first as int, n as int),
            forall|k: int| 0 <= k < i - first ==> #[trigger] is_ascii_digit(d[k]),
        decreases n - i,
    {
        if !is_digit_char(s[i]) {
            assert(d[i - first] == s@[i as int]);
            assert(!all_digits(d));
            return false;
        }
        assert(d[i - first] == s@[i as int]);
        i = i + 1;
    }
    assert(all_digits(d));
    true
}

fn decimal_number_ok(s: &Vec<char>) -> (ok: bool)
    ensures
        ok == is_decimal_number(s@),
{
    let n = s.len();
    let mut k: usize = 0;
    assert(s@.subrange(0, n as int) =~= s@);
    while k < n && s[k] != 'e'
        invariant
            k <= n,
            n == s@.len(),
            exponent_start(s@) == k + exponent_start(s@.subrange(k as int, n as int)),
        decreases n - k,
    {
        assert(s@.subrange(k as int, n as int).drop_first() =~= s@.subrange(k + 1, n as int));
        k = k + 1;
    }
    assert(exponent_start(s@) == k);
    if !mantissa_ok(s, k) {
        return false;
    }
    if k == n {
        return true;
    }
    exponent_ok(s, k)
}

fn float_text_ok(t: &Vec<char>) -> (ok: bool)
    ensures
        ok == is_float_text(t@),
{
    let start: usize = if t.len() > 0 && (t[0] == '+' || t[0] == '-') {
        1
    } else {
        0
    };
    let ghost body = if t@.len() > 0 && (t@[0] == '+' || t@[0] == '-') {
        t@.drop_first()
    } else {
        t@
    };
    let mut lower: Vec<char> = Vec::new();
    let mut i = start;
    while i < t.len()
        invariant
            start <= i <= t@.len(),
            body == t@.subrange(start as int, t@.len() as int),
            lower@ == body.subrange(0, i - start).map_values(|c: char| ascii_lower(c)),
        decreases t@.len() - i,
    {
        lower.push(ascii_lower_char(t[i]));
        i = i + 1;
        assert(lower@ =~= body.subrange(0, i - start).map_values(|c: char| ascii_lower(c)));
    }
    assert(body.subrange(0, body.len() as int) =~= body);
    decimal_number_ok(&lower)
}

/// Whether `text` reads as a plain number, so the renderer right-aligns it
/// in value ink: non-empty once trimmed, and a plain number.
pub fn looks_numeric(text: &str) -> (b: bool)
    ensures
        b == reads_as_number(text@),
{
    let chars = chars_of(text);
    let t = trim_chars(&chars);
    t.len() > 0 && float_text_ok(&t)
}

/// How each edge of an overlay strokes: a soft (dashed) edge continues
/// beyond the window; a hard (solid) edge is a real boundary.
#[derive(Debug, Clone, Copy, PartialEq, Eq, Structural)]
pub struct OverlayEdgeStyle {
    pub top_soft: bool,
    pub right_soft: bool,
    pub bottom_soft: bool,
    pub left_soft: bool,
}

/// The edge style of an overlay rectangle: exactly its `clipped_*` flags.
pub fn overlay_edge_style(rect: &GridOverlayRect) -> (style: OverlayEdgeStyle)
    ensures
        style == (OverlayEdgeStyle {
            top_soft: rect.clipped_top,
            right_soft: rect.clipped_right,
            bottom_soft: rect.clipped_bottom,
            left_soft: rect.clipped_left,
        }),
{
    OverlayEdgeStyle {
        top_soft: rect.clipped_top,
        right_soft: rect.clipped_right,
        bottom_soft: rect.clipped_bottom,
        left_soft: rect.clipped_left,
    }
}

} // verus!
