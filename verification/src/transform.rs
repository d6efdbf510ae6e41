//! The two transforms, each one pass over a raster.
//!
//! A pass visits the pixels row by row and gives each its new value by the
//! rule of the transform. No pixel's new value depends on another pixel.

use crate::grid::{
    gray_alpha_dimensions, gray_alpha_get_pixel, gray_alpha_put_pixel, gray_dimensions,
    gray_get_pixel, gray_put_pixel, lemma_pixel_index_bounds, GrayAlphaGrid, GrayGrid, Raster,
};
use crate::rules::{
    bw_lookup, bw_pixel, coverage_of, halftone_alpha, halftone_pixel, lemma_bw_keeps_order,
    rising_up_to,
};
use vstd::prelude::*;

verus! {

/// A pass has kept the extent of the raster and the length of its buffer, and
/// has not touched the samples from number `from` on.
pub open spec fn rest_untouched(now: Raster, before: Raster, from: int) -> bool {
    &&& now.width == before.width
    &&& now.height == before.height
    &&& now.channels == before.channels
    &&& now.samples.len() == before.samples.len()
    &&& forall|i: int|
        from <= i < before.samples.len() ==> #[trigger] now.samples[i] == before.samples[i]
}

/// The first `done` pixels are black and white.
pub open spec fn bw_done(
    now: Raster,
    before: Raster,
    done: int,
    threshold: u8,
    levels: Seq<i32>,
    base: u8,
) -> bool {
    forall|i: int|
        0 <= i < done ==> #[trigger] now.samples[i] == bw_lookup(
            before.samples[i],
            threshold,
            levels,
            base,
        )
}

/// The first `done` pixels have their halftone luma and alpha.
pub open spec fn halftone_done(
    now: Raster,
    before: Raster,
    done: int,
    threshold: u8,
    coverage: Seq<u8>,
    base_luma: u8,
) -> bool {
    forall|i: int|
        0 <= i < done ==> {
            &&& #[trigger] now.sample(i, 0) == base_luma
            &&& now.sample(i, 1) == halftone_alpha(
                before.sample(i, 0),
                threshold,
                coverage_of(coverage, i),
            )
        }
}

/// Makes a grayscale raster black and white in place.
///
/// Every pixel brighter than `threshold` becomes white. Every other pixel of
/// luma `v` becomes `levels[v] + base`, or black where that sum falls below 0
/// and white where it passes 255; `levels` gives each luma its compressed
/// luma, a whole number of either sign. Where the table does not fall up to
/// the threshold, no pixel that was darker than another comes out brighter
/// than it. The raster keeps its extent, and samples of the buffer that
/// belong to no pixel stay as they are.
pub fn bw(image: &mut GrayGrid, threshold: u8, levels: &[i32; 256], base: u8)
    ensures
        final(image)@.width == old(image)@.width,
        final(image)@.height == old(image)@.height,
        final(image)@.samples.len() == old(image)@.samples.len(),
        forall|i: int|
            0 <= i < old(image)@.pixels() ==> #[trigger] final(image)@.samples[i] == bw_lookup(
                old(image)@.samples[i],
                threshold,
                levels@,
                base,
            ),
        forall|i: int|
            old(image)@.pixels() <= i < old(image)@.samples.len()
                ==> #[trigger] final(image)@.samples[i] == old(image)@.samples[i],
        rising_up_to(levels@, threshold) ==> forall|p: int, q: int|
            0 <= p < old(image)@.pixels() && 0 <= q < old(image)@.pixels()
                && old(image)@.samples[p] <= old(image)@.samples[q]
                ==> #[trigger] final(image)@.samples[p] <= #[trigger] final(image)@.samples[q],
{
    let (width, height) = gray_dimensions(image);
    let ghost before = image@;
    let mut y: u32 = 0;
    while y < height
        invariant
            y <= height,
            before == old(image)@,
            before.width == width,
            before.height == height,
            before.pixels() <= before.samples.len(),
            rest_untouched(image@, before, y * width),
            bw_done(image@, before, y * width, threshold, levels@, base),
        decreases height - y,
    {
        let mut x: u32 = 0;
        while x < width
            invariant
                x <= width,
                y < height,
                before.width == width,
                before.height == height,
                before.pixels() <= before.samples.len(),
                rest_untouched(image@, before, y * width + x),
                bw_done(image@, before, y * width + x, threshold, levels@, base),
            decreases width - x,
        {
            proof {
                lemma_pixel_index_bounds(width as int, height as int, x as int, y as int);
            }
            let v = gray_get_pixel(image, x, y);
            let out = bw_pixel(v, threshold, levels[v as usize], base);
            gray_put_pixel(image, x, y, out);
            x += 1;
        }
        proof {
            assert((y + 1) * width == y * width + width) by (nonlinear_arith);
        }
        y += 1;
    }
    proof {
        assert(height * width == width * height) by (nonlinear_arith);
        if rising_up_to(levels@, threshold) {
            assert forall|p: int, q: int|
                0 <= p < before.pixels() && 0 <= q < before.pixels() && before.samples[p]
                    <= before.samples[q] implies #[trigger] image@.samples[p]
                <= #[trigger] image@.samples[q] by {
                lemma_bw_keeps_order(
                    before.samples[p],
                    before.samples[q],
                    threshold,
                    levels@,
                    base,
                );
            }
        }
    }
}

/// Gives the ink of a scan a dot pattern, in place.
///
/// `coverage` says for each pixel, in the order of the pixels, how much of it
/// the dot pattern covers; a pixel that it does not reach has no dot. Every
/// pixel gets the luma `base_luma`, and for alpha its coverage, or nothing
/// where its luma was above `threshold`. The alpha that a pixel had is not
/// read. The raster keeps its extent, and samples of the buffer that belong
/// to no pixel stay as they are.
pub fn halftone(image: &mut GrayAlphaGrid, threshold: u8, coverage: &[u8], base_luma: u8)
    ensures
        final(image)@.width == old(image)@.width,
        final(image)@.height == old(image)@.height,
        final(image)@.samples.len() == old(image)@.samples.len(),
        forall|i: int|
            0 <= i < old(image)@.pixels() ==> {
                &&& #[trigger] final(image)@.sample(i, 0) == base_luma
                &&& final(image)@.sample(i, 1) == halftone_alpha(
                    old(image)@.sample(i, 0),
                    threshold,
                    coverage_of(coverage@, i),
                )
                &&& old(image)@.sample(i, 0) > threshold ==> final(image)@.sample(i, 1) == 0
            },
        forall|i: int|
            2 * old(image)@.pixels() <= i < old(image)@.samples.len()
                ==> #[trigger] final(image)@.samples[i] == old(image)@.samples[i],
{
    let (width, height) = gray_alpha_dimensions(image);
    let ghost before = image@;
    let mut y: u32 = 0;
    while y < height
        invariant
            y <= height,
            before == old(image)@,
            before.width == width,
            before.height == height,
            2 * before.pixels() <= before.samples.len(),
            rest_untouched(image@, before, 2 * (y * width)),
            halftone_done(image@, before, y * width, threshold, coverage@, base_luma),
        decreases height - y,
    {
        let mut x: u32 = 0;
        while x < width
            invariant
                x <= width,
                y < height,
                before.width == width,
                before.height == height,
                2 * before.pixels() <= before.samples.len(),
                rest_untouched(image@, before, 2 * (y * width + x)),
                halftone_done(image@, before, y * width + x, threshold, coverage@, base_luma),
            decreases width - x,
        {
            proof {
                lemma_pixel_index_bounds(width as int, height as int, x as int, y as int);
                assert(width * height <= 0xFFFF_FFFF * 0xFFFF_FFFF) by (nonlinear_arith)
                    requires
                        0 <= width <= 0xFFFF_FFFF,
                        0 <= height <= 0xFFFF_FFFF,
                ;
                assert(0 <= y * width) by (nonlinear_arith)
                    requires
                        0 <= y,
                        0 <= width,
                ;
            }
            let ghost earlier = image@;
            let at: u64 = (y as u64) * (width as u64) + (x as u64);
            let dot = if at < coverage.len() as u64 {
                coverage[at as usize]
            } else {
                0
            };
            let (v, _) = gray_alpha_get_pixel(image, x, y);
            let (luma, alpha) = halftone_pixel(v, threshold, dot, base_luma);
            gray_alpha_put_pixel(image, x, y, luma, alpha);
            proof {
                assert forall|i: int| 0 <= i < y * width + x implies #[trigger] image@.sample(i, 0)
                    == earlier.sample(i, 0) && image@.sample(i, 1) == earlier.sample(i, 1) by {}
            }
            x += 1;
        }
        proof {
            assert((y + 1) * width == y * width + width) by (nonlinear_arith);
        }
        y += 1;
    }
    proof {
        assert(height * width == width * height) by (nonlinear_arith);
    }
}

} // verus!
