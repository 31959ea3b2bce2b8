//! Brand colors: an 8-bit sRGB triple, its `#RRGGBB` text form, and the
//! parser that turns a hex literal into a color.
use vstd::prelude::*;

use crate::text::push_char;

verus! {

/// An 8-bit sRGB color.
#[derive(Debug, Clone, Copy, PartialEq, Eq, Structural, Hash)]
pub struct Rgb {
    pub r: u8,
    pub g: u8,
    pub b: u8,
}

/// `c` is one of `[0-9a-fA-F]`.
pub open spec fn is_hex_digit(c: char) -> bool {
    let v = c as u32;
    (48 <= v <= 57) || (97 <= v <= 102) || (65 <= v <= 70)
}

/// The numeric value of a hex digit (case-insensitive).
pub open spec fn hex_value(c: char) -> int {
    let v = c as u32;
    if 48 <= v <= 57 {
        v - 48
    } else if 97 <= v <= 102 {
        v - 87
    } else {
        v - 55
    }
}

/// The six digits of a `"#RRGGBB"` or bare `"RRGGBB"` text.
pub open spec fn hex_body(s: Seq<char>) -> Seq<char> {
    if s.len() == 7 {
        s.subrange(1, 7)
    } else {
        s
    }
}

/// Text the parser accepts: six hex digits, optionally behind one leading
/// `#`.
pub open spec fn is_hex_color_text(s: Seq<char>) -> bool {
    &&& (s.len() == 6 || (s.len() == 7 && s[0] == '#'))
    &&& forall|i: int| 0 <= i < 6 ==> #[trigger] is_hex_digit(hex_body(s)[i])
}

/// The byte two hex digits spell, high digit first.
pub open spec fn hex_pair_value(hi: char, lo: char) -> int {
    16 * hex_value(hi) + hex_value(lo)
}

/// The color a hex text names.
pub open spec fn rgb_of_hex(s: Seq<char>) -> Rgb {
    let d = hex_body(s);
    Rgb {
        r: hex_pair_value(d[0], d[1]) as u8,
        g: hex_pair_value(d[2], d[3]) as u8,
        b: hex_pair_value(d[4], d[5]) as u8,
    }
}

/// The uppercase hex digit for `n` in `0..16`.
pub open spec fn hex_char_upper(n: int) -> char {
    if n < 10 {
        (48 + n) as char
    } else {
        (55 + n) as char
    }
}

/// Two uppercase hex digits for one byte.
pub open spec fn byte_hex(b: u8) -> Seq<char> {
    seq![hex_char_upper(b as int / 16), hex_char_upper(b as int % 16)]
}

/// The uppercase `#RRGGBB` text of a color.
pub open spec fn hex_text(c: Rgb) -> Seq<char> {
    seq!['#'] + byte_hex(c.r) + byte_hex(c.g) + byte_hex(c.b)
}

fn hex_digit_char(n: u8) -> (c: char)
    requires
        n < 16,
    ensures
        c == hex_char_upper(n as int),
{
    if n < 10 {
        (n + 48) as char
    } else {
        (n + 55) as char
    }
}

fn push_byte_hex(s: &mut String, b: u8)
    ensures
        final(s)@ == old(s)@ + byte_hex(b),
{
    push_char(s, hex_digit_char(b / 16));
    push_char(s, hex_digit_char(b % 16));
}

impl Rgb {
    /// Render as an uppercase `#RRGGBB` string.
    pub fn to_hex(self) -> (s: String)
        ensures
            s@ == hex_text(self),
    {
        let mut s = String::new();
        push_char(&mut s, '#');
        push_byte_hex(&mut s, self.r);
        push_byte_hex(&mut s, self.g);
        push_byte_hex(&mut s, self.b);
        s
    }
}

fn hex_digit(c: char) -> (v: u8)
    requires
        is_hex_digit(c),
    ensures
        v == hex_value(c),
        v < 16,
{
    let v = c as u32;
    if 48 <= v && v <= 57 {
        (v - 48) as u8
    } else if 97 <= v && v <= 102 {
        (v - 87) as u8
    } else {
        (v - 55) as u8
    }
}

fn hex_byte(hi: char, lo: char) -> (b: u8)
    requires
        is_hex_digit(hi),
        is_hex_digit(lo),
    ensures
        b == hex_pair_value(hi, lo),
{
    hex_digit(hi) * 16 + hex_digit(lo)
}

/// Parse a `"#RRGGBB"` (or bare `"RRGGBB"`) text into an [`Rgb`]; digits are
/// case-insensitive.
pub fn hex_to_rgb(hex: &str) -> (c: Rgb)
    requires
        is_hex_color_text(hex@),
    ensures
        c == rgb_of_hex(hex@),
{
    let n = hex.unicode_len();
    let offset: usize = if n == 7 { 1 } else { 0 };
    proof {
        let d = hex_body(hex@);
        assert forall|i: int| 0 <= i < 6 implies d[i] == hex@[offset + i] by {}
        assert(is_hex_digit(d[0]) && is_hex_digit(d[1]) && is_hex_digit(d[2]));
        assert(is_hex_digit(d[3]) && is_hex_digit(d[4]) && is_hex_digit(d[5]));
    }
    let r = hex_byte(hex.get_char(offset), hex.get_char(offset + 1));
    let g = hex_byte(hex.get_char(offset + 2), hex.get_char(offset + 3));
    let b = hex_byte(hex.get_char(offset + 4), hex.get_char(offset + 5));
    Rgb { r, g, b }
}


proof fn lemma_hex_char_value(n: int)
    requires
        0 <= n < 16,
    ensures
        is_hex_digit(hex_char_upper(n)),
        hex_value(hex_char_upper(n)) == n,
{
}

/// `c` is one of `[0-9A-F]`.
pub open spec fn is_upper_hex_digit(c: char) -> bool {
    let v = c as u32;
    (48 <= v <= 57) || (65 <= v <= 70)
}

/// ASCII uppercasing of one character; every other character is unchanged.
pub open spec fn ascii_upper(c: char) -> char {
    let v = c as u32;
    if 97 <= v <= 122 {
        (v - 32) as char
    } else {
        c
    }
}

/// Law: the text [`Rgb::to_hex`] renders is accepted by [`hex_to_rgb`] and
/// parses back to the same color.
pub proof fn lemma_hex_text_round_trip(c: Rgb)
    ensures
        is_hex_color_text(hex_text(c)),
        rgb_of_hex(hex_text(c)) == c,
{
    let t = hex_text(c);
    lemma_hex_char_value(c.r as int / 16);
    lemma_hex_char_value(c.r as int % 16);
    lemma_hex_char_value(c.g as int / 16);
    lemma_hex_char_value(c.g as int % 16);
    lemma_hex_char_value(c.b as int / 16);
    lemma_hex_char_value(c.b as int % 16);
    assert(t.len() == 7);
    assert(hex_body(t) =~= byte_hex(c.r) + byte_hex(c.g) + byte_hex(c.b));
}

proof fn lemma_upper_digit(c: char)
    requires
        is_upper_hex_digit(c),
    ensures
        is_hex_digit(c),
        0 <= hex_value(c) < 16,
        hex_char_upper(hex_value(c)) == c,
{
}

proof fn lemma_upper_case_digit(c: char)
    requires
        is_hex_digit(c),
    ensures
        is_hex_digit(ascii_upper(c)),
        hex_value(ascii_upper(c)) == hex_value(c),
{
}

/// Law: an uppercase `#RRGGBB` text is exactly what [`Rgb::to_hex`] renders
/// for the color it names.
pub proof fn lemma_upper_hex_round_trip(s: Seq<char>)
    requires
        s.len() == 7,
        s[0] == '#',
        forall|i: int| 1 <= i < 7 ==> #[trigger] is_upper_hex_digit(s[i]),
    ensures
        is_hex_color_text(s),
        hex_text(rgb_of_hex(s)) == s,
{
    assert(is_upper_hex_digit(s[1]) && is_upper_hex_digit(s[2]) && is_upper_hex_digit(s[3]));
    assert(is_upper_hex_digit(s[4]) && is_upper_hex_digit(s[5]) && is_upper_hex_digit(s[6]));
    lemma_upper_digit(s[1]);
    lemma_upper_digit(s[2]);
    lemma_upper_digit(s[3]);
    lemma_upper_digit(s[4]);
    lemma_upper_digit(s[5]);
    lemma_upper_digit(s[6]);
    let d = hex_body(s);
    assert(d =~= s.subrange(1, 7));
    assert forall|i: int| 0 <= i < 6 implies #[trigger] is_hex_digit(hex_body(s)[i]) by {
        assert(hex_body(s)[i] == s[i + 1]);
    }
    let c = rgb_of_hex(s);
    assert(c.r as int / 16 == hex_value(s[1]) && c.r as int % 16 == hex_value(s[2]));
    assert(c.g as int / 16 == hex_value(s[3]) && c.g as int % 16 == hex_value(s[4]));
    assert(c.b as int / 16 == hex_value(s[5]) && c.b as int % 16 == hex_value(s[6]));
    assert(hex_text(c) =~= s);
}

/// Law: the leading `#` is optional — a bare `RRGGBB` text and its
/// `#`-prefixed form name the same color.
pub proof fn lemma_hash_prefix_is_optional(s: Seq<char>)
    requires
        s.len() == 6,
        is_hex_color_text(s),
    ensures
        is_hex_color_text(seq!['#'] + s),
        rgb_of_hex(seq!['#'] + s) == rgb_of_hex(s),
{
    let t = seq!['#'] + s;
    assert(t[0] == '#');
    assert(hex_body(t) =~= s);
    assert(hex_body(s) == s);
    assert forall|i: int| 0 <= i < 6 implies #[trigger] is_hex_digit(hex_body(t)[i]) by {
        assert(is_hex_digit(hex_body(s)[i]));
    }
}

/// Law: parsing is case-insensitive — uppercasing a hex text does not change
/// the color it names.
pub proof fn lemma_hex_parse_ignores_case(s: Seq<char>)
    requires
        is_hex_color_text(s),
    ensures
        is_hex_color_text(s.map_values(|c: char| ascii_upper(c))),
        rgb_of_hex(s.map_values(|c: char| ascii_upper(c))) == rgb_of_hex(s),
{
    let u = s.map_values(|c: char| ascii_upper(c));
    let ds = hex_body(s);
    let du = hex_body(u);
    assert forall|i: int| 0 <= i < 6 implies du[i] == ascii_upper(ds[i]) by {
        if s.len() == 7 {
            assert(du[i] == u[i + 1]);
            assert(ds[i] == s[i + 1]);
        }
    }
    assert forall|i: int| 0 <= i < 6 implies #[trigger] is_hex_digit(hex_body(u)[i]) && hex_value(
        hex_body(u)[i],
    ) == hex_value(hex_body(s)[i]) by {
        assert(is_hex_digit(ds[i]));
        lemma_upper_case_digit(ds[i]);
    }
    assert(is_hex_digit(du[0]) && is_hex_digit(du[1]) && is_hex_digit(du[2]));
    assert(is_hex_digit(du[3]) && is_hex_digit(du[4]) && is_hex_digit(du[5]));
    if s.len() == 7 {
        assert(u[0] == '#');
    }
}


/// Chrome ground (Mast, Bridge, Strip), instrument panels.
pub const PETROL_800_HEX: &'static str = "#193F49";

/// The color [`PETROL_800_HEX`] names.
pub fn petrol_800() -> (c: Rgb)
    ensures
        c == rgb_of_hex(PETROL_800_HEX@),
        c == (Rgb { r: 0x19, g: 0x3F, b: 0x49 }),
{
    proof {
        reveal_strlit("#193F49");
    }
    hex_to_rgb(PETROL_800_HEX)
}

/// Chrome depth ramp.
pub const PETROL_900_HEX: &'static str = "#12303A";

/// The color [`PETROL_900_HEX`] names.
pub fn petrol_900() -> (c: Rgb)
    ensures
        c == rgb_of_hex(PETROL_900_HEX@),
        c == (Rgb { r: 0x12, g: 0x30, b: 0x3A }),
{
    proof {
        reveal_strlit("#12303A");
    }
    hex_to_rgb(PETROL_900_HEX)
}

/// Chrome depth ramp, dark-theme chrome.
pub const PETROL_950_HEX: &'static str = "#0C1C22";

/// The color [`PETROL_950_HEX`] names.
pub fn petrol_950() -> (c: Rgb)
    ensures
        c == rgb_of_hex(PETROL_950_HEX@),
        c == (Rgb { r: 0x0C, g: 0x1C, b: 0x22 }),
{
    proof {
        reveal_strlit("#0C1C22");
    }
    hex_to_rgb(PETROL_950_HEX)
}

/// Structure, references, interactive accents; Excel-strict identity color.
///
pub const TEAL_600_HEX: &'static str = "#318995";

/// The color [`TEAL_600_HEX`] names.
pub fn teal_600() -> (c: Rgb)
    ensures
        c == rgb_of_hex(TEAL_600_HEX@),
        c == (Rgb { r: 0x31, g: 0x89, b: 0x95 }),
{
    proof {
        reveal_strlit("#318995");
    }
    hex_to_rgb(TEAL_600_HEX)
}

/// Links, secondary structure; OneCalc identity color.
pub const TEAL_400_HEX: &'static str = "#3DB6CF";

/// The color [`TEAL_400_HEX`] names.
pub fn teal_400() -> (c: Rgb)
    ensures
        c == rgb_of_hex(TEAL_400_HEX@),
        c == (Rgb { r: 0x3D, g: 0xB6, b: 0xCF }),
{
    proof {
        reveal_strlit("#3DB6CF");
    }
    hex_to_rgb(TEAL_400_HEX)
}

/// Focus. The only saturated attention channel: cursor, selection, running
/// calc, X-Ray target.
pub const AMBER_HEX: &'static str = "#FFB301";

/// The color [`AMBER_HEX`] names.
pub fn amber() -> (c: Rgb)
    ensures
        c == rgb_of_hex(AMBER_HEX@),
        c == (Rgb { r: 0xFF, g: 0xB3, b: 0x01 }),
{
    proof {
        reveal_strlit("#FFB301");
    }
    hex_to_rgb(AMBER_HEX)
}

/// Fresh/verified values (not an identity color).
pub const GREEN_500_HEX: &'static str = "#3F8B76";

/// The color [`GREEN_500_HEX`] names.
pub fn green_500() -> (c: Rgb)
    ensures
        c == rgb_of_hex(GREEN_500_HEX@),
        c == (Rgb { r: 0x3F, g: 0x8B, b: 0x76 }),
{
    proof {
        reveal_strlit("#3F8B76");
    }
    hex_to_rgb(GREEN_500_HEX)
}

/// Rich-Tree identity pair — long block.
pub const SAGE_HEX: &'static str = "#71A08A";

/// The color [`SAGE_HEX`] names.
pub fn sage() -> (c: Rgb)
    ensures
        c == rgb_of_hex(SAGE_HEX@),
        c == (Rgb { r: 0x71, g: 0xA0, b: 0x8A }),
{
    proof {
        reveal_strlit("#71A08A");
    }
    hex_to_rgb(SAGE_HEX)
}

/// Rich-Tree identity pair — dot block.
pub const FOREST_HEX: &'static str = "#235949";

/// The color [`FOREST_HEX`] names.
pub fn forest() -> (c: Rgb)
    ensures
        c == rgb_of_hex(FOREST_HEX@),
        c == (Rgb { r: 0x23, g: 0x59, b: 0x49 }),
{
    proof {
        reveal_strlit("#235949");
    }
    hex_to_rgb(FOREST_HEX)
}

/// External & volatile only: RTD, links, add-in-fed cells.
pub const SIGNAL_HEX: &'static str = "#FF8001";

/// The color [`SIGNAL_HEX`] names.
pub fn signal() -> (c: Rgb)
    ensures
        c == rgb_of_hex(SIGNAL_HEX@),
        c == (Rgb { r: 0xFF, g: 0x80, b: 0x01 }),
{
    proof {
        reveal_strlit("#FF8001");
    }
    hex_to_rgb(SIGNAL_HEX)
}

/// Errors only. Never emphasis, never branding.
pub const RED_HEX: &'static str = "#D02A23";

/// The color [`RED_HEX`] names.
pub fn red() -> (c: Rgb)
    ensures
        c == rgb_of_hex(RED_HEX@),
        c == (Rgb { r: 0xD0, g: 0x2A, b: 0x23 }),
{
    proof {
        reveal_strlit("#D02A23");
    }
    hex_to_rgb(RED_HEX)
}

/// Dark-theme paper base, body ink.
pub const CHARCOAL_HEX: &'static str = "#353938";

/// The color [`CHARCOAL_HEX`] names.
pub fn charcoal() -> (c: Rgb)
    ensures
        c == rgb_of_hex(CHARCOAL_HEX@),
        c == (Rgb { r: 0x35, g: 0x39, b: 0x38 }),
{
    proof {
        reveal_strlit("#353938");
    }
    hex_to_rgb(CHARCOAL_HEX)
}

/// Light paper base, chrome ink.
pub const MIST_HEX: &'static str = "#EDF1F2";

/// The color [`MIST_HEX`] names.
pub fn mist() -> (c: Rgb)
    ensures
        c == rgb_of_hex(MIST_HEX@),
        c == (Rgb { r: 0xED, g: 0xF1, b: 0xF2 }),
{
    proof {
        reveal_strlit("#EDF1F2");
    }
    hex_to_rgb(MIST_HEX)
}

} // verus!
