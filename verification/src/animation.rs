//! Frame and animation assembly.
//!
//! One frame is the strip's colors at one angle; the animation sweeps the
//! angle from zero past a full turn in fixed steps and collects one frame
//! per step.  The trigonometric values of each angle are plain
//! fixed-point inputs, computed by the caller.

use vstd::prelude::*;

use crate::fixed::SCALE;
use crate::fixed::TWO_PI_FP;
use crate::geometry::lemma_radius_fp_monotone;
use crate::geometry::radius_fp_spec;
use crate::geometry::ImageData;
use crate::sampler::compatible_spec;
use crate::sampler::sample;
use crate::sampler::sample_spec;
use crate::sampler::SampleColor;
use crate::working_image::WorkingImage;
use vstd::arithmetic::div_mod::lemma_div_is_ordered;
use vstd::arithmetic::div_mod::lemma_div_multiples_vanish;
use vstd::arithmetic::div_mod::lemma_div_of0;
use vstd::arithmetic::div_mod::lemma_div_pos_is_pos;
use vstd::arithmetic::mul::lemma_mul_inequality;

verus! {

/// Number of angle steps of a full revolution in the default
/// configuration.
pub const N_SLICES: u32 = 180;

/// The cosine and sine of one rotation angle, in fixed-point units.
#[derive(Clone, Copy, PartialEq, Eq, Structural, Debug)]
pub struct AngleTrig {
    pub cos_fp: i64,
    pub sin_fp: i64,
}

impl AngleTrig {
    /// Trigonometric values never leave the unit range.
    pub open spec fn wf(self) -> bool {
        &&& -SCALE <= self.cos_fp <= SCALE
        &&& -SCALE <= self.sin_fp <= SCALE
    }
}

/// `frame` holds, LED by LED, the sample of the radius vector under the
/// angle whose trigonometric values are `cos` and `sin`.
pub open spec fn frame_matches_spec(
    frame: Seq<SampleColor>,
    img: WorkingImage,
    data: ImageData,
    cos: int,
    sin: int,
) -> bool {
    &&& frame.len() == data.strip_length
    &&& forall|i: int|
        0 <= i < frame.len() ==> (#[trigger] frame[i].r as int, frame[i].g as int, frame[i].b
            as int) == sample_spec(
            img,
            data,
            radius_fp_spec(data.strip_length as int, i),
            cos,
            sin,
        )
}

/// Builds one frame: samples every radius of the strip under one angle,
/// innermost LED first.
pub fn polar_to_cartesian(img: &WorkingImage, data: &ImageData, trig: AngleTrig) -> (frame: Vec<
    SampleColor,
>)
    requires
        compatible_spec(*img, *data),
        trig.wf(),
    ensures
        frame_matches_spec(frame@, *img, *data, trig.cos_fp as int, trig.sin_fp as int),
{
    let strip_length = data.strip_length;
    let mut frame: Vec<SampleColor> = Vec::new();
    let mut i: usize = 0;
    while i < strip_length
        invariant
            compatible_spec(*img, *data),
            trig.wf(),
            strip_length == data.strip_length,
            i <= strip_length,
            frame.len() == i,
            forall|j: int|
                0 <= j < i ==> (#[trigger] frame[j].r as int, frame[j].g as int, frame[j].b
                    as int) == sample_spec(
                    *img,
                    *data,
                    radius_fp_spec(data.strip_length as int, j),
                    trig.cos_fp as int,
                    trig.sin_fp as int,
                ),
        decreases strip_length - i,
    {
        proof {
            lemma_radius_fp_monotone(strip_length as int, i as int, strip_length as int - 1);
        }
        let c = sample(img, data, data.radius_vector[i], trig.cos_fp, trig.sin_fp);
        frame.push(c);
        i = i + 1;
    }
    frame
}

/// The angles of one revolution, inclusive of the closing frame: the
/// `angle_step_count + 1` angles `i * 2 * pi / angle_step_count` for `i`
/// from zero through `angle_step_count`, each rounded down to a
/// fixed-point unit.  The sweep keeps the angle that lands on the full
/// turn itself, one step past the nominal count.
pub fn angle_schedule(angle_step_count: u32) -> (thetas: Vec<i64>)
    requires
        1 <= angle_step_count <= TWO_PI_FP,
    ensures
        thetas.len() == angle_step_count + 1,
        forall|i: int|
            0 <= i < thetas.len() ==> #[trigger] thetas[i] == (i * TWO_PI_FP)
                / (angle_step_count as int),
        forall|i: int| 0 <= i < thetas.len() ==> 0 <= #[trigger] thetas[i] <= TWO_PI_FP,
        thetas[0] == 0,
        thetas[thetas.len() - 1] == TWO_PI_FP,
{
    let mut thetas: Vec<i64> = Vec::new();
    let mut i: u32 = 0;
    while i <= angle_step_count
        invariant
            1 <= angle_step_count <= TWO_PI_FP,
            i <= angle_step_count + 1,
            thetas.len() == i,
            forall|j: int|
                0 <= j < i ==> #[trigger] thetas[j] == (j * TWO_PI_FP)
                    / (angle_step_count as int),
            forall|j: int| 0 <= j < i ==> 0 <= #[trigger] thetas[j] <= TWO_PI_FP,
        decreases angle_step_count + 1 - i,
    {
        proof {
            lemma_angle_of_index_in_turn(i as int, angle_step_count as int);
        }
        let theta: i64 = ((i as i64) * TWO_PI_FP) / (angle_step_count as i64);
        thetas.push(theta);
        i = i + 1;
    }
    proof {
        lemma_div_of0(angle_step_count as int);
        assert(0int * TWO_PI_FP == 0) by (nonlinear_arith);
        lemma_div_multiples_vanish(TWO_PI_FP as int, angle_step_count as int);
        assert((angle_step_count as int) * TWO_PI_FP == TWO_PI_FP * (angle_step_count as int))
            by (nonlinear_arith);
    }
    thetas
}

/// The angle of schedule index `i` stays within the full turn: for
/// `0 <= i <= count`, `(i * TWO_PI_FP) / count` lies in `[0, TWO_PI_FP]`.
proof fn lemma_angle_of_index_in_turn(i: int, count: int)
    requires
        1 <= count <= TWO_PI_FP,
        0 <= i <= count,
    ensures
        0 <= (i * TWO_PI_FP) / count <= TWO_PI_FP,
        0 <= i * TWO_PI_FP <= 0x28_0000_0000,
{
    lemma_mul_inequality(i, count, TWO_PI_FP as int);
    assert(0 <= i * TWO_PI_FP <= 0x28_0000_0000) by (nonlinear_arith)
        requires
            0 <= i <= 411775,
        ;
    lemma_div_pos_is_pos(i * TWO_PI_FP, count);
    lemma_div_is_ordered(i * TWO_PI_FP, count * TWO_PI_FP, count);
    lemma_div_multiples_vanish(TWO_PI_FP as int, count);
    assert(count * TWO_PI_FP == TWO_PI_FP * count) by (nonlinear_arith);
}

/// The full animation: one frame per angle of `trig_schedule`, in the
/// schedule's order.
pub fn prepare_color_vector(
    img: &WorkingImage,
    data: &ImageData,
    trig_schedule: &Vec<AngleTrig>,
) -> (buffer: Vec<Vec<SampleColor>>)
    requires
        compatible_spec(*img, *data),
        forall|i: int| 0 <= i < trig_schedule.len() ==> (#[trigger] trig_schedule[i]).wf(),
    ensures
        buffer.len() == trig_schedule.len(),
        forall|i: int|
            0 <= i < buffer.len() ==> frame_matches_spec(
                #[trigger] buffer[i]@,
                *img,
                *data,
                trig_schedule[i].cos_fp as int,
                trig_schedule[i].sin_fp as int,
            ),
{
    let mut buffer: Vec<Vec<SampleColor>> = Vec::new();
    let mut k: usize = 0;
    while k < trig_schedule.len()
        invariant
            compatible_spec(*img, *data),
            forall|i: int| 0 <= i < trig_schedule.len() ==> (#[trigger] trig_schedule[i]).wf(),
            k <= trig_schedule.len(),
            buffer.len() == k,
            forall|i: int|
                0 <= i < k ==> frame_matches_spec(
                    #[trigger] buffer[i]@,
                    *img,
                    *data,
                    trig_schedule[i].cos_fp as int,
                    trig_schedule[i].sin_fp as int,
                ),
        decreases trig_schedule.len() - k,
    {
        let frame = polar_to_cartesian(img, data, trig_schedule[k]);
        buffer.push(frame);
        k = k + 1;
    }
    buffer
}

} // verus!
