use glam::Vec2;
use scanpost::grid::GrayAlphaGrid;
use scanpost::rules::halftone_pixel;
use scanpost::transform::halftone;

/// How much of the pixel at `(x, y)` a dot covers, for a pixel of luma `v`.
fn dot_coverage(x: u32, y: u32, v: u8, stride: f32, radius: f32) -> u8 {
    let angle = Vec2::from_angle(std::f32::consts::FRAC_PI_4);
    let radius = radius + (1.0 - v as f32 / 255.0);
    let radius_squared = radius.powi(2);
    let pos = angle.rotate(Vec2::new(x as f32, y as f32));
    let index = (pos / stride).floor();
    let delta_pos = pos - index * stride;
    let delta = delta_pos / stride * 2.0 - 1.0;
    let dist_squared = delta.length_squared();
    let alpha = (radius_squared - dist_squared).clamp(0.0, 1.0);
    (alpha * 255.0).round() as u8
}

/// Luma and alpha side by side, every alpha opaque.
fn opaque(lumas: &[u8]) -> Vec<u8> {
    let mut samples = Vec::new();
    for v in lumas {
        samples.push(*v);
        samples.push(255);
    }
    samples
}

fn coverage_of(width: u32, height: u32, lumas: &[u8], stride: f32, radius: f32) -> Vec<u8> {
    let mut coverage = Vec::new();
    for y in 0..height {
        for x in 0..width {
            let v = lumas[(y * width + x) as usize];
            coverage.push(dot_coverage(x, y, v, stride, radius));
        }
    }
    coverage
}

fn run_halftone(
    width: u32,
    height: u32,
    lumas: &[u8],
    threshold: u8,
    stride: f32,
    radius: f32,
    base: u8,
) -> Vec<u8> {
    let mut image = GrayAlphaGrid::from_raw(width, height, opaque(lumas)).unwrap();
    let coverage = coverage_of(width, height, lumas, stride, radius);
    halftone(&mut image, threshold, &coverage, base);
    assert_eq!(image.dimensions(), (width, height));
    image.into_raw()
}

/// The pixel that the transform makes of a pixel of luma `v` at `(x, y)`.
fn halftone_at(
    x: u32,
    y: u32,
    v: u8,
    threshold: u8,
    stride: f32,
    radius: f32,
    base: u8,
) -> (u8, u8) {
    let width = x + 1;
    let height = y + 1;
    let mut lumas = vec![255u8; (width * height) as usize];
    lumas[(y * width + x) as usize] = v;
    let out = run_halftone(width, height, &lumas, threshold, stride, radius, base);
    let at = 2 * (y * width + x) as usize;
    (out[at], out[at + 1])
}

#[test]
fn halftone_makes_a_paper_pixel_transparent() {
    assert_eq!(run_halftone(1, 1, &[200], 150, 6.0, 0.4, 40), vec![40, 0]);
}

#[test]
fn halftone_at_the_origin() {
    assert_eq!(run_halftone(1, 1, &[0], 150, 6.0, 0.4, 40), vec![40, 0]);
}

#[test]
fn halftone_dot_coverage_values() {
    assert_eq!(halftone_at(3, 1, 0, 150, 6.0, 0.4, 40), (40, 255));
    assert_eq!(halftone_at(3, 1, 150, 150, 6.0, 0.4, 40), (40, 96));
    assert_eq!(halftone_at(4, 0, 100, 150, 6.0, 0.4, 40), (40, 255));
    assert_eq!(halftone_at(4, 0, 140, 150, 6.0, 0.4, 40), (40, 183));
    assert_eq!(halftone_at(2, 2, 120, 150, 6.0, 0.4, 40), (40, 0));
    assert_eq!(halftone_at(7, 2, 90, 150, 6.0, 0.4, 40), (40, 75));
    assert_eq!(halftone_at(0, 4, 150, 150, 6.0, 0.4, 40), (40, 166));
    assert_eq!(halftone_at(3, 0, 150, 150, 6.0, 0.4, 40), (40, 124));
    assert_eq!(halftone_at(3, 0, 151, 150, 6.0, 0.4, 40), (40, 0));
}

#[test]
fn halftone_draws_dots_on_ink() {
    let mut lumas = vec![200u8; 40];
    lumas[8 + 3] = 150;
    lumas[2 * 8 + 7] = 90;
    lumas[4 * 8] = 150;
    lumas[3] = 150;
    lumas[4] = 100;
    lumas[2 * 8 + 2] = 120;
    lumas[8 + 4] = 151;
    let out = run_halftone(8, 5, &lumas, 150, 6.0, 0.4, 40);
    assert_eq!(out.len(), 80);
    for i in 0..40 {
        assert_eq!(out[2 * i], 40);
        let alpha = match i {
            11 => 96,
            23 => 75,
            32 => 166,
            3 => 124,
            4 => 255,
            _ => 0,
        };
        assert_eq!(out[2 * i + 1], alpha);
    }
}

#[test]
fn halftone_keeps_the_extent() {
    let lumas = [10u8, 20, 30, 160, 170, 180];
    let mut image = GrayAlphaGrid::from_raw(2, 3, opaque(&lumas)).unwrap();
    let coverage = coverage_of(2, 3, &lumas, 6.0, 0.4);
    halftone(&mut image, 150, &coverage, 40);
    assert_eq!(image.dimensions(), (2, 3));
    assert_eq!(image.into_raw().len(), 12);
}

#[test]
fn halftone_cuts_off_above_the_threshold() {
    for threshold in [0u8, 1, 150, 254, 255] {
        let lumas: Vec<u8> = (0..=255u8).collect();
        let mut image = GrayAlphaGrid::from_raw(16, 16, opaque(&lumas)).unwrap();
        halftone(&mut image, threshold, &[255u8; 256], 40);
        let out = image.into_raw();
        for v in 0..256usize {
            assert_eq!(out[2 * v], 40);
            assert_eq!(out[2 * v + 1], if v > threshold as usize { 0 } else { 255 });
        }
    }
}

#[test]
fn halftone_takes_the_coverage_of_each_pixel() {
    let mut image = GrayAlphaGrid::from_raw(3, 2, opaque(&[150, 151, 0, 255, 100, 149])).unwrap();
    halftone(&mut image, 150, &[1, 2, 3, 4, 5, 6], 9);
    assert_eq!(image.into_raw(), vec![9, 1, 9, 0, 9, 3, 9, 0, 9, 5, 9, 6]);
}

#[test]
fn halftone_grows_dots_on_darker_ink() {
    for (x, y) in [(0u32, 0u32), (3, 1), (7, 2), (0, 4), (3, 0), (5, 5), (11, 6)] {
        let lumas: Vec<u8> = (0..=150u8).collect();
        let coverage: Vec<u8> = lumas.iter().map(|v| dot_coverage(x, y, *v, 6.0, 0.4)).collect();
        let mut image = GrayAlphaGrid::from_raw(151, 1, opaque(&lumas)).unwrap();
        halftone(&mut image, 150, &coverage, 40);
        let out = image.into_raw();
        for v in 1..151usize {
            assert!(out[2 * (v - 1) + 1] >= out[2 * v + 1]);
        }
    }
}

#[test]
fn halftone_passes_every_coverage_on_ink() {
    let coverage: Vec<u8> = (0..=255u8).collect();
    let mut image = GrayAlphaGrid::from_raw(256, 1, opaque(&[150u8; 256])).unwrap();
    halftone(&mut image, 150, &coverage, 40);
    let out = image.into_raw();
    for i in 0..256usize {
        assert_eq!(out[2 * i], 40);
        assert_eq!(out[2 * i + 1], coverage[i]);
    }
}

#[test]
fn halftone_does_not_read_the_old_alpha() {
    let mut clear = GrayAlphaGrid::from_raw(2, 1, vec![100, 0, 200, 0]).unwrap();
    let mut solid = GrayAlphaGrid::from_raw(2, 1, vec![100, 255, 200, 255]).unwrap();
    halftone(&mut clear, 150, &[70, 80], 40);
    halftone(&mut solid, 150, &[70, 80], 40);
    assert_eq!(clear.into_raw(), vec![40, 70, 40, 0]);
    assert_eq!(solid.into_raw(), vec![40, 70, 40, 0]);
}

#[test]
fn halftone_draws_no_dot_where_the_coverage_ends() {
    let mut image = GrayAlphaGrid::from_raw(2, 2, opaque(&[10, 20, 30, 200])).unwrap();
    halftone(&mut image, 150, &[90, 80], 40);
    assert_eq!(image.dimensions(), (2, 2));
    assert_eq!(image.into_raw(), vec![40, 90, 40, 80, 40, 0, 40, 0]);

    let mut image = GrayAlphaGrid::from_raw(2, 1, opaque(&[10, 200])).unwrap();
    halftone(&mut image, 150, &[], 40);
    assert_eq!(image.into_raw(), vec![40, 0, 40, 0]);
}

#[test]
fn halftone_passes_over_coverage_beyond_the_pixels() {
    let mut image = GrayAlphaGrid::from_raw(2, 1, opaque(&[10, 20])).unwrap();
    halftone(&mut image, 150, &[90, 80, 70, 60], 40);
    assert_eq!(image.into_raw(), vec![40, 90, 40, 80]);
}

#[test]
fn halftone_leaves_samples_beyond_the_pixels() {
    let mut image = GrayAlphaGrid::from_raw(1, 1, vec![100, 255, 11, 12, 13]).unwrap();
    halftone(&mut image, 150, &[90, 1, 2], 40);
    assert_eq!(image.into_raw(), vec![40, 90, 11, 12, 13]);
}

#[test]
fn halftone_on_an_empty_raster() {
    let mut image = GrayAlphaGrid::from_raw(0, 4, vec![5, 6]).unwrap();
    halftone(&mut image, 150, &[], 40);
    assert_eq!(image.dimensions(), (0, 4));
    assert_eq!(image.into_raw(), vec![5, 6]);
}

#[test]
fn halftone_pixel_rule() {
    assert_eq!(halftone_pixel(200, 150, 255, 40), (40, 0));
    assert_eq!(halftone_pixel(151, 150, 17, 40), (40, 0));
    assert_eq!(halftone_pixel(150, 150, 17, 40), (40, 17));
    assert_eq!(halftone_pixel(0, 150, 0, 40), (40, 0));
    assert_eq!(halftone_pixel(0, 0, 255, 0), (0, 255));
    assert_eq!(halftone_pixel(255, 255, 1, 255), (255, 1));
}
