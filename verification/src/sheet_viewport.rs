//! The Sheet stage's viewport decisions that need no pixel arithmetic: the
//! semantic-zoom tiers and their honest degrade notes, and the Ctrl+arrow
//! edge jump to the current window's edge.
use vstd::prelude::*;

use crate::text::{contains_text, str_equal};

verus! {

/// The three semantic-zoom tiers. Only `Detail` is built; `Structure` and
/// `District` degrade to a disabled-with-reason note.
#[derive(Debug, Clone, Copy, PartialEq, Eq, Structural)]
pub enum Tier {
    /// At least 60%: full cell text, gridlines, provenance typography.
    Detail,
    /// 15-60%: labeled blocks (not built).
    Structure,
    /// Below 15%: the used-range map (not built).
    District,
}

/// The Structure-tier degrade note.
pub const STRUCTURE_TIER_DEFERRED_REASON: &'static str =
    "Structure tier (named ranges, tables and spills as labeled blocks) isn't built yet — showing the Detail grid held at the legibility floor.";

/// The District-tier degrade note.
pub const DISTRICT_TIER_DEFERRED_REASON: &'static str =
    "District tier (the used-range map, continuous with Atlas) isn't built yet — showing the Detail grid held at the legibility floor.";

/// The bounded-scale interest note: windowing, prefetch and multi-rect
/// interest wait on G4.
pub const BOUNDED_SCALE_INTEREST_NOTE: &'static str =
    "Scrolling renders the host's full bounded window as-is; viewport windowing, prefetch and multi-rect interest arrive with G4.";

/// The Ctrl+arrow degrade note: the data-aware jump waits on G4.
pub const EDGE_JUMP_DEGRADE_REASON: &'static str =
    "Ctrl+arrow jumps to the window edge — data-aware edge-jump needs the G4 model query.";

/// The degrade note of a tier, or `None` for `Detail`.
pub open spec fn tier_reason(tier: Tier) -> Option<Seq<char>> {
    match tier {
        Tier::Detail => None,
        Tier::Structure => Some(STRUCTURE_TIER_DEFERRED_REASON@),
        Tier::District => Some(DISTRICT_TIER_DEFERRED_REASON@),
    }
}

/// The honest degrade reason for a non-Detail tier, or `None` for Detail.
pub fn tier_degrade_reason(tier: Tier) -> (r: Option<&'static str>)
    ensures
        r.is_some() == tier_reason(tier).is_some(),
        r.is_some() ==> r.unwrap()@ == tier_reason(tier).unwrap(),
{
    match tier {
        Tier::Detail => None,
        Tier::Structure => Some(STRUCTURE_TIER_DEFERRED_REASON),
        Tier::District => Some(DISTRICT_TIER_DEFERRED_REASON),
    }
}

/// Law: only `Detail` renders without a note; each degrade note names its
/// tier and says it is not built, and both bounded-scale notes cite `G4`.
pub proof fn lemma_degrade_notes_are_honest()
    ensures
        tier_reason(Tier::Detail).is_none(),
        contains_text(STRUCTURE_TIER_DEFERRED_REASON@, "Structure"@),
        contains_text(STRUCTURE_TIER_DEFERRED_REASON@, "isn't built"@),
        contains_text(DISTRICT_TIER_DEFERRED_REASON@, "District"@),
        contains_text(DISTRICT_TIER_DEFERRED_REASON@, "isn't built"@),
        contains_text(BOUNDED_SCALE_INTEREST_NOTE@, "G4"@),
        contains_text(EDGE_JUMP_DEGRADE_REASON@, "G4"@),
{
    reveal_strlit("Structure tier (named ranges, tables and spills as labeled blocks) isn't built yet — showing the Detail grid held at the legibility floor.");
    reveal_strlit("District tier (the used-range map, continuous with Atlas) isn't built yet — showing the Detail grid held at the legibility floor.");
    reveal_strlit("Scrolling renders the host's full bounded window as-is; viewport windowing, prefetch and multi-rect interest arrive with G4.");
    reveal_strlit("Ctrl+arrow jumps to the window edge — data-aware edge-jump needs the G4 model query.");
    reveal_strlit("Structure");
    reveal_strlit("District");
    reveal_strlit("isn't built");
    reveal_strlit("G4");
    assert(STRUCTURE_TIER_DEFERRED_REASON@.subrange(0, 0 + "Structure"@.len() as int) =~= "Structure"@);
    assert(STRUCTURE_TIER_DEFERRED_REASON@.subrange(67, 67 + "isn't built"@.len() as int) =~= "isn't built"@);
    assert(DISTRICT_TIER_DEFERRED_REASON@.subrange(0, 0 + "District"@.len() as int) =~= "District"@);
    assert(DISTRICT_TIER_DEFERRED_REASON@.subrange(58, 58 + "isn't built"@.len() as int) =~= "isn't built"@);
    assert(BOUNDED_SCALE_INTEREST_NOTE@.subrange(121, 121 + "G4"@.len() as int) =~= "G4"@);
    assert(EDGE_JUMP_DEGRADE_REASON@.subrange(69, 69 + "G4"@.len() as int) =~= "G4"@);
}

/// A cardinal direction for a Ctrl+arrow edge jump.
#[derive(Debug, Clone, Copy, PartialEq, Eq, Structural)]
pub enum EdgeDir {
    Up,
    Down,
    Left,
    Right,
}

/// The direction a raw arrow key names, or `None` for any other key.
pub open spec fn edge_dir_of_key(key: Seq<char>) -> Option<EdgeDir> {
    if key == "ArrowUp"@ {
        Some(EdgeDir::Up)
    } else if key == "ArrowDown"@ {
        Some(EdgeDir::Down)
    } else if key == "ArrowLeft"@ {
        Some(EdgeDir::Left)
    } else if key == "ArrowRight"@ {
        Some(EdgeDir::Right)
    } else {
        None
    }
}

/// The [`EdgeDir`] a raw arrow key names; every other key bubbles.
pub fn edge_dir_from_key(key: &str) -> (d: Option<EdgeDir>)
    ensures
        d == edge_dir_of_key(key@),
{
    if str_equal(key, "ArrowUp") {
        Some(EdgeDir::Up)
    } else if str_equal(key, "ArrowDown") {
        Some(EdgeDir::Down)
    } else if str_equal(key, "ArrowLeft") {
        Some(EdgeDir::Left)
    } else if str_equal(key, "ArrowRight") {
        Some(EdgeDir::Right)
    } else {
        None
    }
}

/// A count floored at 1.
pub open spec fn at_least_one(n: u32) -> u32 {
    if n == 0 {
        1
    } else {
        n
    }
}

/// `v` clamped into `[1, hi]`.
pub open spec fn clamp_to_band(v: int, hi: int) -> int {
    if v < 1 {
        1
    } else if v > hi {
        hi
    } else {
        v
    }
}

/// The window-local edge-jump target: the window's edge in `dir`, keeping
/// the other axis, clamped into the (floored) extent.
pub open spec fn edge_jump_target(current: (u32, u32), dir: EdgeDir, extent_rows: u32, extent_cols: u32) -> (u32, u32) {
    let rows = at_least_one(extent_rows);
    let cols = at_least_one(extent_cols);
    let (r, c) = match dir {
        EdgeDir::Up => (1, current.1 as int),
        EdgeDir::Down => (rows as int, current.1 as int),
        EdgeDir::Left => (current.0 as int, 1),
        EdgeDir::Right => (current.0 as int, cols as int),
    };
    (clamp_to_band(r, rows as int) as u32, clamp_to_band(c, cols as int) as u32)
}

fn clamp_band(v: u32, hi: u32) -> (c: u32)
    requires
        hi >= 1,
    ensures
        c == clamp_to_band(v as int, hi as int),
{
    if v < 1 {
        1
    } else if v > hi {
        hi
    } else {
        v
    }
}

/// The window-local edge-jump target: the honest bounded-scale degrade for
/// a Ctrl+arrow (the data-aware jump needs the G4 model query).
pub fn window_edge_jump(current: (u32, u32), dir: EdgeDir, extent_rows: u32, extent_cols: u32) -> (t: (
    u32,
    u32,
))
    ensures
        t == edge_jump_target(current, dir, extent_rows, extent_cols),
{
    let (row, col) = current;
    let rows = if extent_rows == 0 { 1 } else { extent_rows };
    let cols = if extent_cols == 0 { 1 } else { extent_cols };
    let (r, c) = match dir {
        EdgeDir::Up => (1, col),
        EdgeDir::Down => (rows, col),
        EdgeDir::Left => (row, 1),
        EdgeDir::Right => (row, cols),
    };
    (clamp_band(r, rows), clamp_band(c, cols))
}

/// Law: an edge jump always lands on a legal cell of the floored extent,
/// on the extent's edge in the jump's direction.
pub proof fn lemma_edge_jump_lands_on_the_edge(current: (u32, u32), dir: EdgeDir, extent_rows: u32, extent_cols: u32)
    ensures
        ({
            let t = edge_jump_target(current, dir, extent_rows, extent_cols);
            let rows = at_least_one(extent_rows);
            let cols = at_least_one(extent_cols);
            &&& 1 <= t.0 <= rows && 1 <= t.1 <= cols
            &&& dir == EdgeDir::Up ==> t.0 == 1
            &&& dir == EdgeDir::Down ==> t.0 == rows
            &&& dir == EdgeDir::Left ==> t.1 == 1
            &&& dir == EdgeDir::Right ==> t.1 == cols
        }),
{
}

} // verus!
