//! Rasters held in buffers of the `image` crate.
//!
//! A [`GrayGrid`] has one sample per pixel, a [`GrayAlphaGrid`] two (luma, then
//! alpha). Both keep their samples row by row, the top row first, with no
//! padding between rows; the pixel at column `x` of row `y` is pixel number
//! `y * width + x`. To the verifier a grid is its extent together with the
//! samples in its buffer. Everything that reaches into a buffer does so
//! through the small functions at the end of this file, whose contracts are
//! not proved: they say what the source of `image::ImageBuffer` shows.

use vstd::prelude::*;

verus! {

/// A grayscale raster: an `image::GrayImage`. The verifier does not look
/// inside; what it knows of a grid are [`gray_extent`] and [`gray_samples`].
#[verifier::external_body]
pub struct GrayGrid {
    buffer: image::GrayImage,
}

/// A raster of luma and alpha: an `image::GrayAlphaImage`. The verifier does
/// not look inside; what it knows of a grid are [`gray_alpha_extent`] and
/// [`gray_alpha_samples`].
#[verifier::external_body]
pub struct GrayAlphaGrid {
    buffer: image::GrayAlphaImage,
}

/// Width and height of the buffer, as `ImageBuffer::dimensions` reports them.
pub uninterp spec fn gray_extent(grid: GrayGrid) -> (u32, u32);

/// The samples in the buffer's container, in storage order.
pub uninterp spec fn gray_samples(grid: GrayGrid) -> Seq<u8>;

/// Width and height of the buffer, as `ImageBuffer::dimensions` reports them.
pub uninterp spec fn gray_alpha_extent(grid: GrayAlphaGrid) -> (u32, u32);

/// The samples in the buffer's container, in storage order.
pub uninterp spec fn gray_alpha_samples(grid: GrayAlphaGrid) -> Seq<u8>;

/// Position of the pixel at column `x` of row `y` among the pixels of a raster
/// that is `width` pixels wide.
pub open spec fn pixel_index(width: int, x: int, y: int) -> int {
    y * width + x
}

/// Whether a container of `len` samples can back a raster of the given extent
/// with `channels` samples per pixel: the length of a row must fit a `usize`,
/// and all rows together must fit the container.
pub open spec fn container_suffices(channels: int, width: int, height: int, len: int) -> bool {
    channels * width <= usize::MAX && channels * width * height <= len
}

/// A raster as the contracts see it.
pub struct Raster {
    pub width: nat,
    pub height: nat,
    /// Samples per pixel.
    pub channels: nat,
    /// All samples of the buffer: those of the pixels first, row by row.
    pub samples: Seq<u8>,
}

impl Raster {
    /// Number of pixels.
    pub open spec fn pixels(self) -> nat {
        self.width * self.height
    }

    /// The buffer holds at least the samples of all pixels.
    pub open spec fn covered(self) -> bool {
        self.channels * self.pixels() <= self.samples.len()
    }

    /// Sample `channel` of pixel number `i`.
    pub open spec fn sample(self, i: int, channel: int) -> u8 {
        self.samples[self.channels * i + channel]
    }
}

impl View for GrayGrid {
    type V = Raster;

    open spec fn view(&self) -> Raster {
        Raster {
            width: gray_extent(*self).0 as nat,
            height: gray_extent(*self).1 as nat,
            channels: 1,
            samples: gray_samples(*self),
        }
    }
}

impl View for GrayAlphaGrid {
    type V = Raster;

    open spec fn view(&self) -> Raster {
        Raster {
            width: gray_alpha_extent(*self).0 as nat,
            height: gray_alpha_extent(*self).1 as nat,
            channels: 2,
            samples: gray_alpha_samples(*self),
        }
    }
}

/// A pixel inside a raster has a position below the number of its pixels.
pub proof fn lemma_pixel_index_bounds(width: int, height: int, x: int, y: int)
    requires
        0 <= x < width,
        0 <= y < height,
    ensures
        0 <= pixel_index(width, x, y) < width * height,
{
    assert(y * width >= 0) by (nonlinear_arith)
        requires
            y >= 0,
            width >= 0,
    ;
    assert(y * width + width <= height * width) by (nonlinear_arith)
        requires
            y + 1 <= height,
            width >= 0,
    ;
    assert(height * width == width * height) by (nonlinear_arith);
}

impl GrayGrid {
    /// Makes a grid of the given extent from samples in row order. There is a
    /// grid exactly when the samples suffice for `width * height` pixels.
    pub fn from_raw(width: u32, height: u32, samples: Vec<u8>) -> (grid: Option<GrayGrid>)
        ensures
            grid.is_some() <==> width * height <= samples@.len(),
            grid matches Some(g) ==> g@ == (Raster {
                width: width as nat,
                height: height as nat,
                channels: 1,
                samples: samples@,
            }),
    {
        gray_from_raw(width, height, samples)
    }

    /// Gives the samples back, as they lie in the buffer.
    pub fn into_raw(self) -> (samples: Vec<u8>)
        ensures
            samples@ == self@.samples,
    {
        gray_into_raw(self)
    }

    /// Width and height in pixels.
    pub fn dimensions(&self) -> (extent: (u32, u32))
        ensures
            extent.0 == self@.width,
            extent.1 == self@.height,
            self@.covered(),
    {
        gray_dimensions(self)
    }
}

impl GrayAlphaGrid {
    /// Makes a grid of the given extent from samples in row order, luma and
    /// alpha of each pixel side by side. There is a grid exactly when the
    /// samples of one row can be counted in a `usize` and the samples given
    /// suffice for `width * height` pixels.
    pub fn from_raw(width: u32, height: u32, samples: Vec<u8>) -> (grid: Option<GrayAlphaGrid>)
        ensures
            grid.is_some() <==> container_suffices(
            2,
            width as int,
            height as int,
            samples@.len() as int,
        ),
            grid matches Some(g) ==> g@ == (Raster {
                width: width as nat,
                height: height as nat,
                channels: 2,
                samples: samples@,
            }),
    {
        gray_alpha_from_raw(width, height, samples)
    }

    /// Gives the samples back, as they lie in the buffer.
    pub fn into_raw(self) -> (samples: Vec<u8>)
        ensures
            samples@ == self@.samples,
    {
        gray_alpha_into_raw(self)
    }

    /// Width and height in pixels.
    pub fn dimensions(&self) -> (extent: (u32, u32))
        ensures
            extent.0 == self@.width,
            extent.1 == self@.height,
            self@.covered(),
    {
        gray_alpha_dimensions(self)
    }
}

/// `ImageBuffer::from_raw` at `Luma<u8>`: it keeps the samples and the extent
/// as given, and refuses exactly when `width` does not fit a `usize` or the
/// container is shorter than `width * height`.
#[verifier::external_body]
fn gray_from_raw(width: u32, height: u32, samples: Vec<u8>) -> (grid: Option<GrayGrid>)
    ensures
        grid.is_some() <==> container_suffices(
            1,
            width as int,
            height as int,
            samples@.len() as int,
        ),
        grid matches Some(g) ==> gray_extent(g) == (width, height) && gray_samples(g)
            == samples@,
{
    match image::GrayImage::from_raw(width, height, samples) {
        Some(buffer) => Some(GrayGrid { buffer }),
        None => None,
    }
}

/// `ImageBuffer::into_raw` at `Luma<u8>`: the container, untouched.
#[verifier::external_body]
fn gray_into_raw(grid: GrayGrid) -> (samples: Vec<u8>)
    ensures
        samples@ == gray_samples(grid),
{
    grid.buffer.into_raw()
}

/// `ImageBuffer::dimensions` at `Luma<u8>`. A grid is made by
/// `ImageBuffer::from_raw` alone, which refuses a container shorter than
/// `width * height`, and nothing shortens the container afterwards.
#[verifier::external_body]
pub(crate) fn gray_dimensions(grid: &GrayGrid) -> (extent: (u32, u32))
    ensures
        extent == gray_extent(*grid),
        extent.0 * extent.1 <= gray_samples(*grid).len(),
{
    grid.buffer.dimensions()
}

/// `ImageBuffer::get_pixel` at `Luma<u8>`: inside the extent it reads the
/// sample at `y * width + x`.
#[verifier::external_body]
pub(crate) fn gray_get_pixel(grid: &GrayGrid, x: u32, y: u32) -> (luma: u8)
    requires
        x < gray_extent(*grid).0,
        y < gray_extent(*grid).1,
    ensures
        luma == gray_samples(*grid)[pixel_index(
            gray_extent(*grid).0 as int,
            x as int,
            y as int,
        )],
{
    grid.buffer.get_pixel(x, y).0[0]
}

/// `ImageBuffer::put_pixel` at `Luma<u8>`: inside the extent it overwrites
/// the sample at `y * width + x` and nothing else.
#[verifier::external_body]
pub(crate) fn gray_put_pixel(grid: &mut GrayGrid, x: u32, y: u32, luma: u8)
    requires
        x < gray_extent(*old(grid)).0,
        y < gray_extent(*old(grid)).1,
    ensures
        gray_extent(*final(grid)) == gray_extent(*old(grid)),
        gray_samples(*final(grid)) == gray_samples(*old(grid)).update(
            pixel_index(gray_extent(*old(grid)).0 as int, x as int, y as int),
            luma,
        ),
{
    grid.buffer.put_pixel(x, y, image::Luma([luma]));
}

/// `ImageBuffer::from_raw` at `LumaA<u8>`: it keeps the samples and the
/// extent as given, and refuses exactly when `2 * width` does not fit a
/// `usize` or the container is shorter than `2 * width * height`.
#[verifier::external_body]
fn gray_alpha_from_raw(width: u32, height: u32, samples: Vec<u8>) -> (grid: Option<GrayAlphaGrid>)
    ensures
        grid.is_some() <==> container_suffices(
            2,
            width as int,
            height as int,
            samples@.len() as int,
        ),
        grid matches Some(g) ==> gray_alpha_extent(g) == (width, height) && gray_alpha_samples(g)
            == samples@,
{
    match image::GrayAlphaImage::from_raw(width, height, samples) {
        Some(buffer) => Some(GrayAlphaGrid { buffer }),
        None => None,
    }
}

/// `ImageBuffer::into_raw` at `LumaA<u8>`: the container, untouched.
#[verifier::external_body]
fn gray_alpha_into_raw(grid: GrayAlphaGrid) -> (samples: Vec<u8>)
    ensures
        samples@ == gray_alpha_samples(grid),
{
    grid.buffer.into_raw()
}

/// `ImageBuffer::dimensions` at `LumaA<u8>`. A grid is made by
/// `ImageBuffer::from_raw` alone, which refuses a container shorter than
/// `2 * width * height`, and nothing shortens the container afterwards.
#[verifier::external_body]
pub(crate) fn gray_alpha_dimensions(grid: &GrayAlphaGrid) -> (extent: (u32, u32))
    ensures
        extent == gray_alpha_extent(*grid),
        2 * (extent.0 * extent.1) <= gray_alpha_samples(*grid).len(),
{
    grid.buffer.dimensions()
}

/// `ImageBuffer::get_pixel` at `LumaA<u8>`: inside the extent it reads the
/// two samples that start at `2 * (y * width + x)`.
#[verifier::external_body]
pub(crate) fn gray_alpha_get_pixel(grid: &GrayAlphaGrid, x: u32, y: u32) -> (pixel: (u8, u8))
    requires
        x < gray_alpha_extent(*grid).0,
        y < gray_alpha_extent(*grid).1,
    ensures
        pixel.0 == gray_alpha_samples(*grid)[2 * pixel_index(
            gray_alpha_extent(*grid).0 as int,
            x as int,
            y as int,
        )],
        pixel.1 == gray_alpha_samples(*grid)[2 * pixel_index(
            gray_alpha_extent(*grid).0 as int,
            x as int,
            y as int,
        ) + 1],
{
    let pixel = grid.buffer.get_pixel(x, y);
    (pixel.0[0], pixel.0[1])
}

/// `ImageBuffer::put_pixel` at `LumaA<u8>`: inside the extent it overwrites
/// the two samples that start at `2 * (y * width + x)` and nothing else.
#[verifier::external_body]
pub(crate) fn gray_alpha_put_pixel(grid: &mut GrayAlphaGrid, x: u32, y: u32, luma: u8, alpha: u8)
    requires
        x < gray_alpha_extent(*old(grid)).0,
        y < gray_alpha_extent(*old(grid)).1,
    ensures
        gray_alpha_extent(*final(grid)) == gray_alpha_extent(*old(grid)),
        gray_alpha_samples(*final(grid)) == gray_alpha_samples(*old(grid)).update(
            2 * pixel_index(gray_alpha_extent(*old(grid)).0 as int, x as int, y as int),
            luma,
        ).update(
            2 * pixel_index(gray_alpha_extent(*old(grid)).0 as int, x as int, y as int) + 1,
            alpha,
        ),
{
    grid.buffer.put_pixel(x, y, image::LumaA([luma, alpha]));
}

} // verus!
