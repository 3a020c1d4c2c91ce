//! Multisample-count selection from the sample counts the adapter supports
//! for color and depth framebuffers.

use vstd::prelude::*;

verus! {

/// The selection rule: the largest power-of-two count up to 64 present in
/// `counts`, else single sampling.
pub open spec fn spec_max_sample_count(counts: u32) -> u32 {
    if counts & 64 != 0 {
        64u32
    } else if counts & 32 != 0 {
        32u32
    } else if counts & 16 != 0 {
        16u32
    } else if counts & 8 != 0 {
        8u32
    } else if counts & 4 != 0 {
        4u32
    } else if counts & 2 != 0 {
        2u32
    } else {
        1u32
    }
}

/// Picks the highest sample count supported for both color and depth
/// framebuffers, falling back to single sampling.
pub fn get_max_msaa_samples(color_counts: u32, depth_counts: u32) -> (r: u32)
    ensures
        r == spec_max_sample_count(color_counts & depth_counts),
{
    let counts = color_counts & depth_counts;
    if counts & 64 != 0 {
        64
    } else if counts & 32 != 0 {
        32
    } else if counts & 16 != 0 {
        16
    } else if counts & 8 != 0 {
        8
    } else if counts & 4 != 0 {
        4
    } else if counts & 2 != 0 {
        2
    } else {
        1
    }
}

} // verus!
