//! Fixed-point scale and floor division.
//!
//! A coordinate, radius, trigonometric value or color channel is stored as
//! an `i64` holding the real value times `SCALE`.

use vstd::prelude::*;

verus! {

/// Number of fixed-point units per 1.0.
pub const SCALE: i64 = 65536;

/// One full turn, `2 * pi`, in fixed-point units (rounded to the nearest
/// unit).
pub const TWO_PI_FP: i64 = 411775;

/// Floor division of a fixed-point value by a positive divisor.
///
/// Ghost-code `/` on `int` is Euclidean division, which for a positive
/// divisor coincides with rounding toward negative infinity.
pub fn div_floor_fp(a: i64, b: i64) -> (r: i64)
    requires
        b > 0,
        -0x2000_0000_0000_0000 < a < 0x2000_0000_0000_0000,
        b < 0x2000_0000_0000_0000,
    ensures
        r == a as int / b as int,
{
    if a >= 0 {
        a / b
    } else {
        let q: i64 = (0 - a + (b - 1)) / b;
        proof {
            lemma_neg_ceil_is_floor(a as int, b as int, q as int);
        }
        0 - q
    }
}

/// `-ceil(-a / b) == floor(a / b)` for `b > 0`, phrased over Euclidean
/// division: if `q == (-a + b - 1) / b` then `-q == a / b`.
proof fn lemma_neg_ceil_is_floor(a: int, b: int, q: int) by (nonlinear_arith)
    requires
        a < 0,
        b > 0,
        q == (-a + b - 1) / b,
    ensures
        -q == a / b,
{
}

} // verus!
