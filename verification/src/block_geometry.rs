//! Block geometry and motion constants: one radius scale, one gap scale, and
//! the sanctioned motion durations.
use vstd::prelude::*;

verus! {

/// Corner radius, in CSS pixels, for chip/token-sized blocks.
pub const RADIUS_CHIP: u32 = 5;

/// Corner radius, in CSS pixels, for card-sized blocks.
pub const RADIUS_CARD: u32 = 9;

/// Corner radius, in CSS pixels, for panel-sized blocks.
pub const RADIUS_PANEL: u32 = 14;

/// The one gap scale used throughout Strand layouts, in CSS pixels.
pub const GAP_SCALE: [u32; 6] = [2, 4, 6, 10, 14, 22];

/// Minimum sanctioned motion duration, in milliseconds.
pub const MOTION_DURATION_MIN_MS: u32 = 120;

/// Maximum sanctioned motion duration, in milliseconds.
pub const MOTION_DURATION_MAX_MS: u32 = 160;

/// Name of the reduced-motion flag a shell sets once the user prefers reduced
/// motion.
pub const REDUCED_MOTION_FLAG: &'static str = "dna-reduced-motion";

/// Law: the radius scale grows with block size, the gap scale strictly
/// increases, and the motion bounds are ordered.
pub proof fn lemma_scales_are_ordered()
    ensures
        RADIUS_CHIP < RADIUS_CARD < RADIUS_PANEL,
        forall|i: int, j: int| 0 <= i < j < 6 ==> GAP_SCALE@[i] < GAP_SCALE@[j],
        MOTION_DURATION_MIN_MS < MOTION_DURATION_MAX_MS,
{
    assert(GAP_SCALE@ =~= seq![2u32, 4, 6, 10, 14, 22]);
}

} // verus!
