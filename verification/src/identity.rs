//! Identity badges: each profile is recognized by a two-block pattern plus a
//! color pair, never by a lone hue.
use vstd::prelude::*;

use crate::palette::{forest, petrol_800, sage, teal_400, teal_600, Rgb};

verus! {

/// One block of a two-block identity badge: a color and a size.
#[derive(Debug, Clone, Copy, PartialEq, Eq, Structural)]
pub struct IdentityBlock {
    pub color: Rgb,
    pub size_px: u32,
}

/// A profile's identity badge: a named block-length pattern plus its two
/// blocks, in display order.
#[derive(Debug, Clone, Copy, PartialEq, Eq)]
pub struct IdentityBadge {
    /// Stable profile id (e.g. `"onecalc"`).
    pub profile_id: &'static str,
    /// Block-length pattern name (e.g. `"dot-long"`).
    pub pattern: &'static str,
    pub blocks: [IdentityBlock; 2],
}

/// The badge content of a profile: its id, its pattern, and its two blocks.
pub open spec fn badge_is(
    b: IdentityBadge,
    profile_id: Seq<char>,
    pattern: Seq<char>,
    first: IdentityBlock,
    second: IdentityBlock,
) -> bool {
    &&& b.profile_id@ == profile_id
    &&& b.pattern@ == pattern
    &&& b.blocks@ == seq![first, second]
}

/// The onecalc badge.
pub open spec fn is_onecalc_badge(b: IdentityBadge) -> bool {
    badge_is(
        b,
        "onecalc"@,
        "dot-long"@,
        IdentityBlock { color: Rgb { r: 0x3D, g: 0xB6, b: 0xCF }, size_px: 10 },
        IdentityBlock { color: Rgb { r: 0x19, g: 0x3F, b: 0x49 }, size_px: 22 },
    )
}

/// OneCalc: cyan dot + petrol long (`dot-long`).
pub fn onecalc_identity() -> (b: IdentityBadge)
    ensures
        is_onecalc_badge(b),
{
    let b = IdentityBadge {
        profile_id: "onecalc",
        pattern: "dot-long",
        blocks: [
            IdentityBlock { color: teal_400(), size_px: 10 },
            IdentityBlock { color: petrol_800(), size_px: 22 },
        ],
    };
    assert(b.blocks@ =~= seq![b.blocks@[0], b.blocks@[1]]);
    b
}

/// The richtree badge.
pub open spec fn is_richtree_badge(b: IdentityBadge) -> bool {
    badge_is(
        b,
        "richtree"@,
        "long-dot"@,
        IdentityBlock { color: Rgb { r: 0x71, g: 0xA0, b: 0x8A }, size_px: 22 },
        IdentityBlock { color: Rgb { r: 0x23, g: 0x59, b: 0x49 }, size_px: 10 },
    )
}

/// Rich Tree: sage long + forest dot (`long-dot`).
pub fn richtree_identity() -> (b: IdentityBadge)
    ensures
        is_richtree_badge(b),
{
    let b = IdentityBadge {
        profile_id: "richtree",
        pattern: "long-dot",
        blocks: [
            IdentityBlock { color: sage(), size_px: 22 },
            IdentityBlock { color: forest(), size_px: 10 },
        ],
    };
    assert(b.blocks@ =~= seq![b.blocks@[0], b.blocks@[1]]);
    b
}

/// The excelstrict badge.
pub open spec fn is_excelstrict_badge(b: IdentityBadge) -> bool {
    badge_is(
        b,
        "excelstrict"@,
        "twin"@,
        IdentityBlock { color: Rgb { r: 0x31, g: 0x89, b: 0x95 }, size_px: 15 },
        IdentityBlock { color: Rgb { r: 0x19, g: 0x3F, b: 0x49 }, size_px: 15 },
    )
}

/// Excel-strict: teal + petrol equal pair (`twin`).
pub fn excelstrict_identity() -> (b: IdentityBadge)
    ensures
        is_excelstrict_badge(b),
{
    let b = IdentityBadge {
        profile_id: "excelstrict",
        pattern: "twin",
        blocks: [
            IdentityBlock { color: teal_600(), size_px: 15 },
            IdentityBlock { color: petrol_800(), size_px: 15 },
        ],
    };
    assert(b.blocks@ =~= seq![b.blocks@[0], b.blocks@[1]]);
    b
}

/// All three identity badges, for iteration (e.g. rendering a legend).
pub fn all_identities() -> (all: [IdentityBadge; 3])
    ensures
        all@[0].pattern@ == "dot-long"@,
        all@[1].pattern@ == "long-dot"@,
        all@[2].pattern@ == "twin"@,
{
    [onecalc_identity(), richtree_identity(), excelstrict_identity()]
}

/// Law: no two profiles share a block pattern, and Rich Tree and
/// Excel-strict (the two that can share a shell) also differ in their
/// first block's color.
pub proof fn lemma_identities_are_distinct(
    one: IdentityBadge,
    tree: IdentityBadge,
    excel: IdentityBadge,
)
    requires
        is_onecalc_badge(one),
        is_richtree_badge(tree),
        is_excelstrict_badge(excel),
    ensures
        one.pattern@ != tree.pattern@,
        one.pattern@ != excel.pattern@,
        tree.pattern@ != excel.pattern@,
        tree.blocks@[0].color != excel.blocks@[0].color,
{
    reveal_strlit("dot-long");
    reveal_strlit("long-dot");
    reveal_strlit("twin");
    assert("dot-long"@[0] != "long-dot"@[0]);
    assert("dot-long"@.len() != "twin"@.len());
    assert("long-dot"@.len() != "twin"@.len());
}

} // verus!
