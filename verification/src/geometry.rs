//! Center point and radius vector of the LED strip.
//!
//! A strip of `strip_length` LEDs covers an image of side `2 * strip_length`.
//! The geometry is built once per configuration and then only read.

use vstd::prelude::*;

use crate::fixed::SCALE;
use vstd::arithmetic::div_mod::lemma_div_is_ordered;
use vstd::arithmetic::div_mod::lemma_div_multiples_vanish;
use vstd::arithmetic::mul::lemma_mul_inequality;

verus! {

/// Largest accepted strip length; the matching image side is `2 *
/// MAX_STRIP_LENGTH` and stays within [`crate::MAX_SIDE`].
pub const MAX_STRIP_LENGTH: usize = 8192;

/// Why a geometry could not be built.
#[derive(Clone, Copy, PartialEq, Eq, Structural, Debug)]
pub enum ConfigError {
    /// The strip needs at least two LEDs: the radius spacing divides by
    /// `strip_length - 1`.
    StripTooShort,
}

/// Fixed-point coordinate of the image center on either axis:
/// `(side - 1) / 2` scaled, with `side == 2 * strip_length`.  For an even
/// side this is a virtual half-integer center, on purpose.
pub open spec fn center_fp_spec(strip_length: int) -> int {
    ((2 * strip_length - 1) * SCALE) / 2
}

/// Fixed-point distance from the center to the outermost sample:
/// `(2 * strip_length - 1) / 2` scaled.  Numerically equal to the center
/// coordinate, as the strip spans from the center to the image edge.
pub open spec fn max_radius_fp_spec(strip_length: int) -> int {
    ((2 * strip_length - 1) * SCALE) / 2
}

/// Fixed-point radius of LED `i`: `i * maxRadius / (strip_length - 1)`,
/// rounded down to a fixed-point unit.
pub open spec fn radius_fp_spec(strip_length: int, i: int) -> int {
    (i * max_radius_fp_spec(strip_length)) / (strip_length - 1)
}

/// The geometry of one strip configuration: the virtual center of the
/// square working image and one sample radius per LED.
#[derive(Debug)]
pub struct ImageData {
    /// Number of LEDs on the strip.
    pub strip_length: usize,
    /// Center coordinate on both axes (the image is square).
    pub center_fp: i64,
    /// Sample radius of each LED, from the center outward.
    pub radius_vector: Vec<i64>,
}

impl ImageData {
    /// The shape every function of the core relies on.
    pub open spec fn wf(self) -> bool {
        &&& 2 <= self.strip_length <= MAX_STRIP_LENGTH
        &&& self.center_fp == center_fp_spec(self.strip_length as int)
        &&& self.radius_vector.len() == self.strip_length
        &&& forall|i: int|
            0 <= i < self.strip_length ==> #[trigger] self.radius_vector[i] == radius_fp_spec(
                self.strip_length as int,
                i,
            )
    }

    /// Side length of the matching working image.
    pub open spec fn side_spec(self) -> int {
        2 * self.strip_length as int
    }

    /// Builds the geometry for a strip of `strip_length` LEDs.
    ///
    /// Rejects a strip of fewer than two LEDs, the one invalid
    /// configuration.  The radius vector starts at zero, ends at the
    /// maximum radius, and never decreases.
    pub fn new(strip_length: usize) -> (r: Result<ImageData, ConfigError>)
        requires
            strip_length <= MAX_STRIP_LENGTH,
        ensures
            match r {
                Ok(d) => {
                    &&& strip_length >= 2
                    &&& d.wf()
                    &&& d.strip_length == strip_length
                },
                Err(e) => strip_length < 2 && e == ConfigError::StripTooShort,
            },
    {
        if strip_length < 2 {
            return Err(ConfigError::StripTooShort);
        }
        let len64: i64 = strip_length as i64;
        let max_radius_fp: i64 = ((2 * len64 - 1) * SCALE) / 2;
        let mut radius_vector: Vec<i64> = Vec::new();
        let mut i: usize = 0;
        while i < strip_length
            invariant
                2 <= strip_length <= MAX_STRIP_LENGTH,
                len64 == strip_length,
                max_radius_fp == max_radius_fp_spec(strip_length as int),
                0 <= max_radius_fp <= 0x4000_0000,
                i <= strip_length,
                radius_vector.len() == i,
                forall|j: int|
                    0 <= j < i ==> radius_vector[j] == radius_fp_spec(strip_length as int, j),
            decreases strip_length - i,
        {
            proof {
                assert(0 <= (i as int) * (max_radius_fp as int) <= 0x2000_0000_0000)
                    by (nonlinear_arith)
                    requires
                        0 <= i as int <= 0x2000,
                        0 <= max_radius_fp as int <= 0x4000_0000,
                    ;
            }
            let r_i: i64 = ((i as i64) * max_radius_fp) / (len64 - 1);
            radius_vector.push(r_i);
            i = i + 1;
        }
        Ok(ImageData { strip_length, center_fp: max_radius_fp, radius_vector })
    }
}

/// The radius vector of any well-formed geometry has one entry per LED,
/// never decreases, starts at zero and ends at the maximum radius.
pub proof fn lemma_radius_vector_properties(d: ImageData)
    requires
        d.wf(),
    ensures
        d.radius_vector.len() == d.strip_length,
        d.radius_vector[0] == 0,
        d.radius_vector[d.strip_length - 1] == max_radius_fp_spec(d.strip_length as int),
        forall|i: int, j: int|
            0 <= i <= j < d.strip_length ==> #[trigger] d.radius_vector[i]
                <= #[trigger] d.radius_vector[j],
{
    lemma_radius_fp_ends(d.strip_length as int);
    assert forall|i: int, j: int| 0 <= i <= j < d.strip_length implies #[trigger] d.radius_vector[i]
        <= #[trigger] d.radius_vector[j] by {
        lemma_radius_fp_monotone(d.strip_length as int, i, j);
    }
}

/// Every sample radius is non-negative and no larger than the maximum
/// radius, and the vector is non-decreasing: for `i <= j`,
/// `radii[i] <= radii[j]`.
pub proof fn lemma_radius_fp_monotone(strip_length: int, i: int, j: int)
    requires
        2 <= strip_length,
        0 <= i <= j < strip_length,
    ensures
        0 <= radius_fp_spec(strip_length, i) <= radius_fp_spec(strip_length, j),
        radius_fp_spec(strip_length, j) <= max_radius_fp_spec(strip_length),
{
    let m = max_radius_fp_spec(strip_length);
    assert(m >= 0);
    lemma_mul_inequality(i, j, m);
    lemma_div_is_ordered(0, i * m, strip_length - 1);
    lemma_div_is_ordered(i * m, j * m, strip_length - 1);
    lemma_mul_inequality(j, strip_length - 1, m);
    lemma_div_is_ordered(j * m, (strip_length - 1) * m, strip_length - 1);
    lemma_div_multiples_vanish(m, strip_length - 1);
    assert((strip_length - 1) * m == m * (strip_length - 1)) by (nonlinear_arith);
}

/// The first sample radius is exactly zero and the last is exactly the
/// maximum radius.
pub proof fn lemma_radius_fp_ends(strip_length: int)
    requires
        2 <= strip_length,
    ensures
        radius_fp_spec(strip_length, 0) == 0,
        radius_fp_spec(strip_length, strip_length - 1) == max_radius_fp_spec(strip_length),
{
    let m = max_radius_fp_spec(strip_length);
    assert(0int * m == 0) by (nonlinear_arith);
    vstd::arithmetic::div_mod::lemma_div_of0(strip_length - 1);
    lemma_div_multiples_vanish(m, strip_length - 1);
    assert((strip_length - 1) * m == m * (strip_length - 1)) by (nonlinear_arith);
}

} // verus!
