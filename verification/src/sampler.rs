//! Bilinear reconstruction of the color at one polar sample point.
//!
//! A radius/angle pair maps to a Cartesian point; the four pixels around
//! that point are blended with the point's fractional offsets as weights.
//! The fractional offsets are taken before the base coordinate is clamped
//! into interpolation bounds, and that order is kept deliberately: it is
//! what fixes the colors at the image border.

use vstd::prelude::*;

use crate::fixed::div_floor_fp;
use crate::fixed::SCALE;
use crate::geometry::max_radius_fp_spec;
use crate::geometry::ImageData;
use crate::working_image::Pixel;
use crate::working_image::WorkingImage;
use vstd::arithmetic::div_mod::lemma_div_is_ordered;
use vstd::arithmetic::div_mod::lemma_div_multiples_vanish;
use vstd::arithmetic::div_mod::lemma_div_of0;

verus! {

/// One reconstructed color: three fixed-point channel values, each the
/// 8-bit channel range scaled by [`SCALE`].  Interpolation keeps them
/// within the range spanned by the blended pixels; nothing rounds or
/// clamps them here — that is the display side's concern.
#[derive(Clone, Copy, PartialEq, Eq, Structural, Debug)]
pub struct SampleColor {
    pub r: i64,
    pub g: i64,
    pub b: i64,
}

/// `v` forced into `[lo, hi]`.
pub open spec fn clamp_spec(v: int, lo: int, hi: int) -> int {
    if v < lo {
        lo
    } else if v > hi {
        hi
    } else {
        v
    }
}

/// Linear interpolation `a + (b - a) * t` of two unscaled channel
/// values at fixed-point weight `t`; the result carries the scale of `t`.
pub open spec fn lerp_h_spec(a: int, b: int, t: int) -> int {
    a * SCALE + (b - a) * t
}

/// Linear interpolation of two already-scaled channel values at
/// fixed-point weight `t`, rounding the weighted difference down.
pub open spec fn lerp_v_spec(c0: int, c1: int, t: int) -> int {
    c0 + ((c1 - c0) * t) / (SCALE as int)
}

/// The bilinear blend of four unscaled channel values: horizontally at
/// weight `dx` between each pair, then vertically at weight `dy`.
pub open spec fn blend_spec(a00: int, a10: int, a01: int, a11: int, dx: int, dy: int) -> int {
    lerp_v_spec(lerp_h_spec(a00, a10, dx), lerp_h_spec(a01, a11, dx), dy)
}

/// Fixed-point Cartesian coordinate of a polar sample on one axis:
/// `center + radius * trig`, where `trig` is the cosine of the angle for
/// the x axis and its sine for the y axis.
pub open spec fn cartesian_fp_spec(center: int, radius: int, trig: int) -> int {
    center + (radius * trig) / (SCALE as int)
}

/// Whole-pixel part of a fixed-point coordinate.
pub open spec fn base_coord_spec(c: int) -> int {
    c / (SCALE as int)
}

/// Fractional part of a fixed-point coordinate, in `[0, SCALE)`; taken
/// from the unclamped coordinate.
pub open spec fn frac_spec(c: int) -> int {
    c - base_coord_spec(c) * SCALE
}

/// Base coordinate clamped so that it and its successor index a pixel:
/// into `[0, side - 2]`.
pub open spec fn clamped_base_spec(c: int, side: int) -> int {
    clamp_spec(base_coord_spec(c), 0, side - 2)
}

/// The color sampled at fixed-point `radius` under an angle whose cosine
/// and sine are `cos` and `sin`, as a `(red, green, blue)` triple of
/// scaled channel values.
pub open spec fn sample_spec(
    img: WorkingImage,
    data: ImageData,
    radius: int,
    cos: int,
    sin: int,
) -> (int, int, int) {
    let side = data.side_spec();
    let x = cartesian_fp_spec(data.center_fp as int, radius, cos);
    let y = cartesian_fp_spec(data.center_fp as int, radius, sin);
    let dx = frac_spec(x);
    let dy = frac_spec(y);
    let xc = clamped_base_spec(x, side);
    let yc = clamped_base_spec(y, side);
    let p00 = img.pixel_spec(xc, yc);
    let p10 = img.pixel_spec(xc + 1, yc);
    let p01 = img.pixel_spec(xc, yc + 1);
    let p11 = img.pixel_spec(xc + 1, yc + 1);
    (
        blend_spec(p00.r as int, p10.r as int, p01.r as int, p11.r as int, dx, dy),
        blend_spec(p00.g as int, p10.g as int, p01.g as int, p11.g as int, dx, dy),
        blend_spec(p00.b as int, p10.b as int, p01.b as int, p11.b as int, dx, dy),
    )
}

/// The image and the geometry describe the same square: the image side is
/// twice the strip length.
pub open spec fn compatible_spec(img: WorkingImage, data: ImageData) -> bool {
    &&& img.wf()
    &&& data.wf()
    &&& img.side == data.side_spec()
}

/// A radius/trig pair the sampler accepts: the radius between zero and
/// the outermost sample, the trigonometric values at most one in
/// magnitude.
pub open spec fn valid_polar_spec(data: ImageData, radius: int, cos: int, sin: int) -> bool {
    &&& 0 <= radius <= max_radius_fp_spec(data.strip_length as int)
    &&& -SCALE <= cos <= SCALE
    &&& -SCALE <= sin <= SCALE
}

/// Horizontal interpolation step on one channel.
fn lerp_h(a: u8, b: u8, t: i64) -> (r: i64)
    requires
        0 <= t < SCALE,
    ensures
        r == lerp_h_spec(a as int, b as int, t as int),
{
    proof {
        assert(-0x1000000 <= (b as int - a as int) * (t as int) <= 0x1000000) by (nonlinear_arith)
            requires
                -256 <= b as int - a as int <= 256,
                0 <= t as int <= 0x10000,
            ;
    }
    (a as i64) * SCALE + ((b as i64) - (a as i64)) * t
}

/// Vertical interpolation step on one already-scaled channel.
fn lerp_v(c0: i64, c1: i64, t: i64) -> (r: i64)
    requires
        -0x10_0000_0000 <= c0 <= 0x10_0000_0000,
        -0x10_0000_0000 <= c1 <= 0x10_0000_0000,
        0 <= t < SCALE,
    ensures
        r == lerp_v_spec(c0 as int, c1 as int, t as int),
{
    proof {
        assert(-0x20_0000_0000_0000 <= (c1 as int - c0 as int) * (t as int)
            <= 0x20_0000_0000_0000) by (nonlinear_arith)
            requires
                -0x20_0000_0000 <= c1 as int - c0 as int <= 0x20_0000_0000,
                0 <= t as int <= 0x10000,
            ;
    }
    let num: i64 = (c1 - c0) * t;
    let frac: i64 = div_floor_fp(num, SCALE);
    proof {
        lemma_div_is_ordered(-0x20_0000_0000_0000, num as int, SCALE as int);
        lemma_div_is_ordered(num as int, 0x20_0000_0000_0000, SCALE as int);
        lemma_div_multiples_vanish(-0x2_0000_0000, SCALE as int);
        lemma_div_multiples_vanish(0x2_0000_0000, SCALE as int);
    }
    c0 + frac
}

/// The horizontal interpolation of two channel values at a weight below
/// one stays between them (scaled).
pub proof fn lemma_lerp_h_bounds(a: int, b: int, t: int)
    requires
        0 <= a <= 255,
        0 <= b <= 255,
        0 <= t < SCALE,
    ensures
        vstd::math::min(a, b) * SCALE <= lerp_h_spec(a, b, t) <= vstd::math::max(a, b) * SCALE,
{
    if a <= b {
        assert(0 <= (b - a) * t <= (b - a) * (SCALE as int)) by (nonlinear_arith)
            requires
                b - a >= 0,
                0 <= t <= SCALE as int,
            ;
    } else {
        assert((a - b) * (-(SCALE as int)) <= (b - a) * t <= 0) by (nonlinear_arith)
            requires
                b - a <= 0,
                0 <= t <= SCALE as int,
            ;
    }
}

/// The vertical interpolation of two scaled channel values at a weight
/// below one stays between them.
pub proof fn lemma_lerp_v_bounds(c0: int, c1: int, t: int)
    requires
        -0x10_0000_0000 <= c0 <= 0x10_0000_0000,
        -0x10_0000_0000 <= c1 <= 0x10_0000_0000,
        0 <= t < SCALE,
    ensures
        vstd::math::min(c0, c1) <= lerp_v_spec(c0, c1, t) <= vstd::math::max(c0, c1),
{
    let d = c1 - c0;
    let s = SCALE as int;
    if d >= 0 {
        assert(0 <= d * t <= d * s) by (nonlinear_arith)
            requires
                d >= 0,
                0 <= t <= s,
            ;
        lemma_div_of0(s);
        lemma_div_is_ordered(0, d * t, s);
        lemma_div_is_ordered(d * t, d * s, s);
        lemma_div_multiples_vanish(d, s);
        assert(d * s == s * d) by (nonlinear_arith);
    } else {
        assert(d * s <= d * t <= 0) by (nonlinear_arith)
            requires
                d < 0,
                0 <= t <= s,
            ;
        lemma_div_of0(s);
        lemma_div_is_ordered(d * s, d * t, s);
        lemma_div_is_ordered(d * t, 0, s);
        lemma_div_multiples_vanish(d, s);
        assert(d * s == s * d) by (nonlinear_arith);
    }
}

/// The bilinear blend of four channel values at weights below one stays
/// between the smallest and the largest of the four (scaled): the sampler
/// only ever mixes, it never invents a channel value outside what the
/// four pixels around the sample point hold.
pub proof fn lemma_blend_bounds(a00: int, a10: int, a01: int, a11: int, dx: int, dy: int)
    requires
        0 <= a00 <= 255,
        0 <= a10 <= 255,
        0 <= a01 <= 255,
        0 <= a11 <= 255,
        0 <= dx < SCALE,
        0 <= dy < SCALE,
    ensures
        vstd::math::min(vstd::math::min(a00, a10), vstd::math::min(a01, a11)) * SCALE <= blend_spec(
            a00,
            a10,
            a01,
            a11,
            dx,
            dy,
        ),
        blend_spec(a00, a10, a01, a11, dx, dy) <= vstd::math::max(
            vstd::math::max(a00, a10),
            vstd::math::max(a01, a11),
        ) * SCALE,
{
    let h0 = lerp_h_spec(a00, a10, dx);
    let h1 = lerp_h_spec(a01, a11, dx);
    lemma_lerp_h_bounds(a00, a10, dx);
    lemma_lerp_h_bounds(a01, a11, dx);
    lemma_lerp_v_bounds(h0, h1, dy);
}

/// One Cartesian axis of the polar sample point.
fn cartesian_fp(center: i64, radius: i64, trig: i64) -> (c: i64)
    requires
        0 <= center <= 0x4000_0000,
        0 <= radius <= 0x4000_0000,
        -SCALE <= trig <= SCALE,
    ensures
        c == cartesian_fp_spec(center as int, radius as int, trig as int),
        -0x8000_0000_0000 <= c <= 0x8000_0000_0000,
{
    proof {
        assert(-0x4_0000_0000_0000 <= (radius as int) * (trig as int) <= 0x4_0000_0000_0000)
            by (nonlinear_arith)
            requires
                0 <= radius as int <= 0x4000_0000,
                -0x10000 <= trig as int <= 0x10000,
            ;
        lemma_div_is_ordered(-0x4_0000_0000_0000, (radius as int) * (trig as int), SCALE as int);
        lemma_div_is_ordered((radius as int) * (trig as int), 0x4_0000_0000_0000, SCALE as int);
        lemma_div_multiples_vanish(-0x4000_0000, SCALE as int);
        lemma_div_multiples_vanish(0x4000_0000, SCALE as int);
    }
    center + div_floor_fp(radius * trig, SCALE)
}

/// Reconstructs the color of one LED: maps `(radius, angle)` to the
/// Cartesian plane and blends the four pixels around the landing point.
///
/// The angle enters through its cosine and sine alone, both as
/// fixed-point values.  Clamping keeps every pixel fetch inside the
/// image, so sampling cannot fail.
pub fn sample(img: &WorkingImage, data: &ImageData, radius_fp: i64, cos_fp: i64, sin_fp: i64) -> (c:
    SampleColor)
    requires
        compatible_spec(*img, *data),
        valid_polar_spec(*data, radius_fp as int, cos_fp as int, sin_fp as int),
    ensures
        (c.r as int, c.g as int, c.b as int) == sample_spec(
            *img,
            *data,
            radius_fp as int,
            cos_fp as int,
            sin_fp as int,
        ),
{
    let side: usize = 2 * data.strip_length;
    let x = cartesian_fp(data.center_fp, radius_fp, cos_fp);
    let y = cartesian_fp(data.center_fp, radius_fp, sin_fp);
    let x0 = div_floor_fp(x, SCALE);
    let y0 = div_floor_fp(y, SCALE);
    let dx = x - x0 * SCALE;
    let dy = y - y0 * SCALE;
    proof {
        lemma_frac_in_range(x as int);
        lemma_frac_in_range(y as int);
    }
    let xc: usize = clamp_base(x0, side);
    let yc: usize = clamp_base(y0, side);
    let p00 = img.pixel(xc, yc);
    let p10 = img.pixel(xc + 1, yc);
    let p01 = img.pixel(xc, yc + 1);
    let p11 = img.pixel(xc + 1, yc + 1);
    proof {
        lemma_lerp_h_bounds(p00.r as int, p10.r as int, dx as int);
        lemma_lerp_h_bounds(p01.r as int, p11.r as int, dx as int);
        lemma_lerp_h_bounds(p00.g as int, p10.g as int, dx as int);
        lemma_lerp_h_bounds(p01.g as int, p11.g as int, dx as int);
        lemma_lerp_h_bounds(p00.b as int, p10.b as int, dx as int);
        lemma_lerp_h_bounds(p01.b as int, p11.b as int, dx as int);
    }
    let red = lerp_v(lerp_h(p00.r, p10.r, dx), lerp_h(p01.r, p11.r, dx), dy);
    let green = lerp_v(lerp_h(p00.g, p10.g, dx), lerp_h(p01.g, p11.g, dx), dy);
    let blue = lerp_v(lerp_h(p00.b, p10.b, dx), lerp_h(p01.b, p11.b, dx), dy);
    SampleColor { r: red, g: green, b: blue }
}

/// The fractional part of a fixed-point coordinate lies in `[0, SCALE)`.
proof fn lemma_frac_in_range(c: int)
    ensures
        0 <= frac_spec(c) < SCALE,
{
    vstd::arithmetic::div_mod::lemma_fundamental_div_mod(c, SCALE as int);
    vstd::arithmetic::div_mod::lemma_mod_division_less_than_divisor(c, SCALE as int);
    assert((SCALE as int) * (c / (SCALE as int)) == (c / (SCALE as int)) * SCALE)
        by (nonlinear_arith);
}

/// The four pixels a sample at the given polar position blends: base,
/// right neighbor, lower neighbor, diagonal neighbor.
pub open spec fn sample_pixels_spec(
    img: WorkingImage,
    data: ImageData,
    radius: int,
    cos: int,
    sin: int,
) -> (Pixel, Pixel, Pixel, Pixel) {
    let side = data.side_spec();
    let xc = clamped_base_spec(cartesian_fp_spec(data.center_fp as int, radius, cos), side);
    let yc = clamped_base_spec(cartesian_fp_spec(data.center_fp as int, radius, sin), side);
    (
        img.pixel_spec(xc, yc),
        img.pixel_spec(xc + 1, yc),
        img.pixel_spec(xc, yc + 1),
        img.pixel_spec(xc + 1, yc + 1),
    )
}

/// Smallest of four channel values.
pub open spec fn min4_spec(a: int, b: int, c: int, d: int) -> int {
    vstd::math::min(vstd::math::min(a, b), vstd::math::min(c, d))
}

/// Largest of four channel values.
pub open spec fn max4_spec(a: int, b: int, c: int, d: int) -> int {
    vstd::math::max(vstd::math::max(a, b), vstd::math::max(c, d))
}

/// Every channel a sample returns is a convex blend of the same channel
/// of exactly the four pixels around the sample point: it lies between
/// their smallest and their largest value, scaled by [`SCALE`].
pub proof fn lemma_sample_convex(
    img: WorkingImage,
    data: ImageData,
    radius: int,
    cos: int,
    sin: int,
)
    requires
        compatible_spec(img, data),
        valid_polar_spec(data, radius, cos, sin),
    ensures
        ({
            let (p00, p10, p01, p11) = sample_pixels_spec(img, data, radius, cos, sin);
            let (red, green, blue) = sample_spec(img, data, radius, cos, sin);
            &&& min4_spec(p00.r as int, p10.r as int, p01.r as int, p11.r as int) * SCALE <= red
                <= max4_spec(p00.r as int, p10.r as int, p01.r as int, p11.r as int) * SCALE
            &&& min4_spec(p00.g as int, p10.g as int, p01.g as int, p11.g as int) * SCALE <= green
                <= max4_spec(p00.g as int, p10.g as int, p01.g as int, p11.g as int) * SCALE
            &&& min4_spec(p00.b as int, p10.b as int, p01.b as int, p11.b as int) * SCALE <= blue
                <= max4_spec(p00.b as int, p10.b as int, p01.b as int, p11.b as int) * SCALE
        }),
{
    let x = cartesian_fp_spec(data.center_fp as int, radius, cos);
    let y = cartesian_fp_spec(data.center_fp as int, radius, sin);
    lemma_frac_in_range(x);
    lemma_frac_in_range(y);
    let (p00, p10, p01, p11) = sample_pixels_spec(img, data, radius, cos, sin);
    lemma_blend_bounds(
        p00.r as int,
        p10.r as int,
        p01.r as int,
        p11.r as int,
        frac_spec(x),
        frac_spec(y),
    );
    lemma_blend_bounds(
        p00.g as int,
        p10.g as int,
        p01.g as int,
        p11.g as int,
        frac_spec(x),
        frac_spec(y),
    );
    lemma_blend_bounds(
        p00.b as int,
        p10.b as int,
        p01.b as int,
        p11.b as int,
        frac_spec(x),
        frac_spec(y),
    );
}

/// At radius zero the sample point is the center whatever the angle: the
/// returned color does not depend on the trigonometric values.
pub proof fn lemma_sample_center_independent(
    img: WorkingImage,
    data: ImageData,
    cos1: int,
    sin1: int,
    cos2: int,
    sin2: int,
)
    ensures
        sample_spec(img, data, 0, cos1, sin1) == sample_spec(img, data, 0, cos2, sin2),
{
    lemma_zero_radius_lands_center(data.center_fp as int, cos1);
    lemma_zero_radius_lands_center(data.center_fp as int, sin1);
    lemma_zero_radius_lands_center(data.center_fp as int, cos2);
    lemma_zero_radius_lands_center(data.center_fp as int, sin2);
}

/// At radius zero either Cartesian coordinate is the center coordinate.
proof fn lemma_zero_radius_lands_center(center: int, trig: int)
    ensures
        cartesian_fp_spec(center, 0, trig) == center,
{
    assert(0int * trig == 0) by (nonlinear_arith);
    lemma_div_of0(SCALE as int);
}

/// Wherever a sample lands — the extreme radius under an axis-aligned
/// angle included — both fetched base coordinates stay in `[0, side - 2]`,
/// so all four pixel fetches stay inside the image.
pub proof fn lemma_sample_fetch_in_bounds(data: ImageData, c: int)
    requires
        data.wf(),
    ensures
        0 <= clamped_base_spec(c, data.side_spec()),
        clamped_base_spec(c, data.side_spec()) + 1 <= data.side_spec() - 1,
{
}

/// Clamps a base coordinate into `[0, side - 2]` and narrows it.
fn clamp_base(c0: i64, side: usize) -> (r: usize)
    requires
        2 <= side <= 0x8000,
        -0x1_0000_0000 <= c0 <= 0x1_0000_0000,
    ensures
        r as int == clamp_spec(c0 as int, 0, side as int - 2),
{
    if c0 < 0 {
        0
    } else if c0 > (side as i64) - 2 {
        side - 2
    } else {
        c0 as usize
    }
}

} // verus!
