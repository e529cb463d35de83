use vstd::prelude::*;
use crate::ratio::Ratio;

verus! {

/// Horizontal device coordinate of pixel column `x` in a window `width`
/// pixels wide: `-1 + 2x / width`, written over the denominator `width`.
pub open spec fn ndc_x(width: i32, x: i32) -> Ratio {
    Ratio { num: (2 * x - width) as i64, den: width as i64 }
}

/// Vertical device coordinate of pixel row `y` in a window `height` pixels
/// high: `1 - 2y / height`. Rows grow downwards, device coordinates upwards.
pub open spec fn ndc_y(height: i32, y: i32) -> Ratio {
    Ratio { num: (height - 2 * y) as i64, den: height as i64 }
}

/// Maps a pixel position, measured from the top-left corner of the window,
/// to normalized device coordinates.
///
/// Both coordinates come back as exact fractions over the window's width and
/// height. For a window without extent the denominator is zero and the
/// coordinate is undefined.
pub fn pixel_to_ndc(win_width: i32, win_height: i32, x: i32, y: i32) -> (p: (Ratio, Ratio))
    ensures
        p.0 == ndc_x(win_width, x),
        p.1 == ndc_y(win_height, y),
{
    let w: i64 = win_width as i64;
    let h: i64 = win_height as i64;
    let px: i64 = x as i64;
    let py: i64 = y as i64;
    (Ratio::new(2 * px - w, w), Ratio::new(h - 2 * py, h))
}

/// The mapped point is `(-1 + 2x / w, 1 - 2y / h)`: multiplied out by the
/// window's extent, `w * ndc_x == -w + 2x` and `h * ndc_y == h - 2y`, and
/// for a window with extent both fractions are defined.
pub proof fn lemma_ndc_formula(w: i32, h: i32, x: i32, y: i32)
    requires
        w > 0,
        h > 0,
    ensures
        ndc_x(w, x).defined() && ndc_x(w, x).den == w,
        ndc_y(h, y).defined() && ndc_y(h, y).den == h,
        ndc_x(w, x).num == -1 * w + 2 * x,
        ndc_y(h, y).num == 1 * h - 2 * y,
{
}

/// A pixel inside the window, its edges included, maps into the square
/// from -1 to 1 in both directions.
pub proof fn lemma_ndc_in_range(w: i32, h: i32, x: i32, y: i32)
    requires
        w > 0,
        h > 0,
        0 <= x <= w,
        0 <= y <= h,
    ensures
        ndc_x(w, x).in_unit_range(),
        ndc_y(h, y).in_unit_range(),
{
}

/// The window's corners map to the corners of the device square: the
/// top-left pixel to `(-1, 1)`, the bottom-right one to `(1, -1)`.
pub proof fn lemma_ndc_corners(w: i32, h: i32)
    requires
        w > 0,
        h > 0,
    ensures
        ndc_x(w, 0).num == -ndc_x(w, 0).den,
        ndc_y(h, 0).num == ndc_y(h, 0).den,
        ndc_x(w, w).num == ndc_x(w, w).den,
        ndc_y(h, h).num == -ndc_y(h, h).den,
{
}

/// Further right on the screen is further right in device coordinates, and
/// further down on the screen is further down in device coordinates, where
/// the vertical axis points the other way.
pub proof fn lemma_ndc_monotone(w: i32, h: i32, x1: i32, x2: i32, y1: i32, y2: i32)
    requires
        w > 0,
        h > 0,
        x1 < x2,
        y1 < y2,
    ensures
        ndc_x(w, x1).less_than(ndc_x(w, x2)),
        ndc_y(h, y2).less_than(ndc_y(h, y1)),
{
    assert((2 * x1 - w) * w < (2 * x2 - w) * w) by (nonlinear_arith)
        requires
            w > 0,
            x1 < x2,
    ;
    assert((h - 2 * y2) * h < (h - 2 * y1) * h) by (nonlinear_arith)
        requires
            h > 0,
            y1 < y2,
    ;
}

} // verus!
