//! What the two transforms write for one pixel.
//!
//! Both rules cut at a threshold: a pixel brighter than the threshold is
//! paper, and is erased; any other pixel is ink. The one value that real
//! arithmetic has to supply for an ink pixel comes in as an argument.

use vstd::prelude::*;

verus! {

/// A compressed luma lifted by `base` and then held between black and white:
/// 0 where the sum falls below 0, 255 where it passes 255.
pub open spec fn clamped_sum(compressed: i32, base: u8) -> u8 {
    if compressed + base > 255 {
        255u8
    } else if compressed + base < 0 {
        0u8
    } else {
        (compressed + base) as u8
    }
}

/// The luma that the black-and-white transform gives a pixel of luma `v`:
/// white above the threshold, and else the pixel's compressed luma lifted by
/// `base`, held between black and white. A compressed luma is a whole number
/// of either sign; only the sum is held.
pub open spec fn bw_value(v: u8, threshold: u8, compressed: i32, base: u8) -> u8 {
    if v > threshold {
        255u8
    } else {
        clamped_sum(compressed, base)
    }
}

/// The black-and-white rule read off a table that gives each luma its
/// compressed luma.
pub open spec fn bw_lookup(v: u8, threshold: u8, levels: Seq<i32>, base: u8) -> u8 {
    bw_value(v, threshold, levels[v as int], base)
}

/// The alpha that the halftone transform gives a pixel of luma `v` on which
/// the dot pattern has the given coverage: none above the threshold, and else
/// the coverage.
pub open spec fn halftone_alpha(v: u8, threshold: u8, coverage: u8) -> u8 {
    if v > threshold {
        0u8
    } else {
        coverage
    }
}

/// The coverage that a list of coverages, one for each pixel in the order of
/// the pixels, holds for pixel number `i`: none where the list does not reach
/// the pixel.
pub open spec fn coverage_of(coverage: Seq<u8>, i: int) -> u8 {
    if 0 <= i < coverage.len() {
        coverage[i]
    } else {
        0u8
    }
}

/// Whether a table of compressed lumas never falls as the luma rises, as far
/// as the threshold.
pub open spec fn rising_up_to(levels: Seq<i32>, threshold: u8) -> bool {
    forall|a: int, b: int| 0 <= a <= b <= threshold ==> levels[a] <= levels[b]
}

/// Applies the black-and-white rule to one pixel of luma `v`, whose
/// compressed luma is `compressed`.
pub fn bw_pixel(v: u8, threshold: u8, compressed: i32, base: u8) -> (out: u8)
    ensures
        out == bw_value(v, threshold, compressed, base),
        v > threshold ==> out == 255,
        v <= threshold ==> out == clamped_sum(compressed, base),
{
    if v <= threshold {
        let sum: i64 = compressed as i64 + base as i64;
        if sum > 255 {
            255
        } else if sum < 0 {
            0
        } else {
            sum as u8
        }
    } else {
        255
    }
}

/// Applies the halftone rule to one pixel of luma `v`, on which the dot
/// pattern has the given coverage, and gives the pixel's new luma and alpha.
/// The luma is `base_luma`, whatever the pixel was.
pub fn halftone_pixel(v: u8, threshold: u8, coverage: u8, base_luma: u8) -> (out: (u8, u8))
    ensures
        out.0 == base_luma,
        out.1 == halftone_alpha(v, threshold, coverage),
        v > threshold ==> out.1 == 0,
        v <= threshold ==> out.1 == coverage,
{
    if v <= threshold {
        (base_luma, coverage)
    } else {
        (base_luma, 0)
    }
}

/// With a table that rises up to the threshold, the black-and-white rule never
/// gives the darker of two pixels the brighter result.
pub proof fn lemma_bw_keeps_order(v1: u8, v2: u8, threshold: u8, levels: Seq<i32>, base: u8)
    requires
        levels.len() == 256,
        rising_up_to(levels, threshold),
        v1 <= v2,
    ensures
        bw_lookup(v1, threshold, levels, base) <= bw_lookup(v2, threshold, levels, base),
{
    if v2 <= threshold {
        assert(levels[v1 as int] <= levels[v2 as int]);
    }
}

/// The alpha of the halftone rule lies between nothing and full.
pub proof fn lemma_halftone_alpha_bounds(v: u8, threshold: u8, coverage: u8)
    ensures
        0 <= halftone_alpha(v, threshold, coverage) <= 255,
        halftone_alpha(v, threshold, coverage) <= coverage,
{
}

/// Of two ink pixels, the one on which the dot pattern covers more gets at
/// least the alpha of the other.
pub proof fn lemma_halftone_alpha_keeps_order(
    v1: u8,
    v2: u8,
    threshold: u8,
    coverage1: u8,
    coverage2: u8,
)
    requires
        v1 <= threshold,
        v2 <= threshold,
        coverage1 >= coverage2,
    ensures
        halftone_alpha(v1, threshold, coverage1) >= halftone_alpha(v2, threshold, coverage2),
{
}

} // verus!
