//! Scoring decisions and the perturbation of controller inputs.

use vstd::prelude::*;
use crate::bounds::{yaw_of, yaw_value, CommonMarioData, IsInBounds};
use crate::bruteforce_params::{Target, Weights};
use crate::ieee::{Double, Single};

verus! {

/// The controller input of one tick. Perturbation changes the two stick axes
/// and never the buttons.
#[derive(Clone, Copy, Debug, PartialEq, Eq, Structural)]
pub struct InputFrame {
    pub stick_x: i8,
    pub stick_y: i8,
    pub buttons: u16,
}

/// The distance between two integers.
pub open spec fn distance(a: int, b: int) -> int {
    if a >= b {
        a - b
    } else {
        b - a
    }
}

/// The distances to the target of the six integer features, each taken
/// exactly, before any weight is applied.
#[derive(Clone, Copy, Debug, PartialEq, Eq)]
pub struct AngleDistances {
    pub face_angle: [u32; 3],
    pub angle_vel: [u32; 3],
}

fn distance_of(a: i32, b: i32) -> (r: u32)
    ensures
        r == distance(a as int, b as int),
{
    let wide_a: i64 = a as i64;
    let wide_b: i64 = b as i64;
    if wide_a >= wide_b {
        (wide_a - wide_b) as u32
    } else {
        (wide_b - wide_a) as u32
    }
}

/// Measures how far the observed angles and angular velocities are from the
/// target. The yaw is measured from its [`yaw_value`], pitch and roll from
/// their signed values. No input overflows: the distances are those of the
/// integers themselves.
pub fn angle_distances(mario_data: &CommonMarioData, target: &Target) -> (r: AngleDistances)
    ensures
        r.face_angle[0] == distance(target.face_angle[0] as int, mario_data.face_angle[0] as int),
        r.face_angle[1] == distance(
            target.face_angle[1] as int,
            yaw_value(mario_data.face_angle[1]),
        ),
        r.face_angle[2] == distance(target.face_angle[2] as int, mario_data.face_angle[2] as int),
        r.angle_vel[0] == distance(target.angle_vel[0] as int, mario_data.angle_vel[0] as int),
        r.angle_vel[1] == distance(target.angle_vel[1] as int, mario_data.angle_vel[1] as int),
        r.angle_vel[2] == distance(target.angle_vel[2] as int, mario_data.angle_vel[2] as int),
{
    AngleDistances {
        face_angle: [
            distance_of(target.face_angle[0], mario_data.face_angle[0] as i32),
            distance_of(target.face_angle[1], yaw_of(mario_data.face_angle[1])),
            distance_of(target.face_angle[2], mario_data.face_angle[2] as i32),
        ],
        angle_vel: [
            distance_of(target.angle_vel[0] as i32, mario_data.angle_vel[0] as i32),
            distance_of(target.angle_vel[1] as i32, mario_data.angle_vel[1] as i32),
            distance_of(target.angle_vel[2] as i32, mario_data.angle_vel[2] as i32),
        ],
    }
}

/// The weights that a candidate is scored with, or `None` where it is rejected
/// without being scored.
pub open spec fn spec_scoring_weights(
    bound_correction: bool,
    weights: Weights,
    inflated: Weights,
    in_bounds: IsInBounds,
    r: Option<Weights>,
) -> bool {
    if bound_correction {
        r is Some && r->Some_0.is_penalised(weights, in_bounds, inflated)
    } else if in_bounds.all_true() {
        r == Some(weights)
    } else {
        r is None
    }
}

/// Chooses the weights that a candidate is scored with.
///
/// With bound correction the configured weights are penalised for each violated
/// bound, on a copy: `weights` itself is left as it is. Without it the
/// configured weights apply where every bound holds, and a candidate that
/// violates any is not scored at all.
pub fn scoring_weights(
    bound_correction: bool,
    weights: &Weights,
    inflated: &Weights,
    in_bounds: &IsInBounds,
) -> (r: Option<Weights>)
    ensures
        spec_scoring_weights(bound_correction, *weights, *inflated, *in_bounds, r),
        in_bounds.all_true() ==> r == Some(*weights),
{
    if bound_correction {
        let mut new_weights: Weights = *weights;
        new_weights.penalise_bounds(in_bounds, inflated);
        Some(new_weights)
    } else if in_bounds.check_if_all_true() {
        Some(*weights)
    } else {
        None
    }
}

/// The score of a candidate whose weighted distance to the target is
/// `weighted_distance`.
pub open spec fn spec_score(
    bound_correction: bool,
    in_bounds: IsInBounds,
    weighted_distance: Double,
) -> Double {
    if bound_correction || in_bounds.all_true() {
        weighted_distance
    } else {
        Double::spec_infinity()
    }
}

/// Without bound correction, a candidate that violates any bound scores
/// positive infinity, whatever its distance to the target.
pub proof fn lemma_hard_mode_rejects(in_bounds: IsInBounds, weighted_distance: Double)
    requires
        !in_bounds.all_true(),
    ensures
        spec_score(false, in_bounds, weighted_distance) == Double::spec_infinity(),
{
}

/// With bound correction the score is the weighted distance itself: no
/// violation turns a finite distance into infinity.
pub proof fn lemma_soft_mode_scores(in_bounds: IsInBounds, weighted_distance: Double)
    ensures
        spec_score(true, in_bounds, weighted_distance) == weighted_distance,
        weighted_distance != Double::spec_infinity() ==> spec_score(
            true,
            in_bounds,
            weighted_distance,
        ) != Double::spec_infinity(),
{
}

/// Scores a candidate; lower is better.
///
/// `weighted_distance` is the sum, over the ten features, of the distance to
/// the target times the weight that [`scoring_weights`] chose. With bound
/// correction that sum is the score. Without it the sum is the score only
/// where every bound holds: a candidate that violates any bound scores
/// positive infinity, whatever its distance.
pub fn calculate_score_bound_correction(
    bound_correction: bool,
    in_bounds: &IsInBounds,
    weighted_distance: Double,
) -> (r: Double)
    ensures
        r == spec_score(bound_correction, *in_bounds, weighted_distance),
{
    if bound_correction || in_bounds.check_if_all_true() {
        weighted_distance
    } else {
        Double::infinity()
    }
}

/// A stick value moved by `delta` and held at the ends of the signed 8-bit
/// range.
pub open spec fn saturated(stick: i8, delta: i16) -> i8 {
    if stick + delta > 127 {
        127i8
    } else if stick + delta < -128 {
        -128i8
    } else {
        (stick + delta) as i8
    }
}

/// A stick at either end of its range stays there under any delta that points
/// outwards, and a delta of zero moves nothing.
pub proof fn lemma_saturation(stick: i8, delta: i16)
    ensures
        delta >= 0 ==> saturated(127i8, delta) == 127,
        delta <= 0 ==> saturated(-128i8, delta) == -128,
        saturated(stick, 0i16) == stick,
        -128 <= stick + delta <= 127 ==> saturated(stick, delta) == stick + delta,
{
}

fn saturating_move(stick: i8, delta: i16) -> (r: i8)
    ensures
        r == saturated(stick, delta),
{
    let moved: i32 = stick as i32 + delta as i32;
    if moved > 127 {
        127
    } else if moved < -128 {
        -128
    } else {
        moved as i8
    }
}

/// A frame with both sticks moved and the buttons kept.
pub open spec fn spec_perturb_frame(frame: InputFrame, dx: i16, dy: i16) -> InputFrame {
    InputFrame {
        stick_x: saturated(frame.stick_x, dx),
        stick_y: saturated(frame.stick_y, dy),
        buttons: frame.buttons,
    }
}

/// Moves both sticks of a frame, saturating at the ends of the signed 8-bit
/// range, and keeps the buttons.
pub fn perturb_frame(frame: InputFrame, dx: i16, dy: i16) -> (r: InputFrame)
    ensures
        r == spec_perturb_frame(frame, dx, dy),
{
    InputFrame {
        stick_x: saturating_move(frame.stick_x, dx),
        stick_y: saturating_move(frame.stick_y, dy),
        buttons: frame.buttons,
    }
}

/// Whether a frame is up for perturbation, given the sample drawn for it: the
/// sample must not exceed the frequency, and a frequency of zero perturbs
/// nothing.
pub open spec fn spec_should_perturb(sample: Single, perm_freq: Single) -> bool {
    !perm_freq.spec_is_zero() && !perm_freq.spec_lt(sample)
}

/// Decides whether a frame is up for perturbation.
pub fn should_perturb(sample: Single, perm_freq: Single) -> (r: bool)
    ensures
        r == spec_should_perturb(sample, perm_freq),
{
    !perm_freq.is_zero() && !sample.gt(perm_freq)
}

/// Whether `after` can come of `before` in one perturbation: unchanged where
/// the frame was not up for it or the magnitude is zero, and otherwise moved on
/// each axis by some delta with `-perm_size <= delta < perm_size`.
pub open spec fn is_perturbation(
    after: InputFrame,
    before: InputFrame,
    perm_size: u8,
    chosen: bool,
) -> bool {
    if chosen && perm_size > 0 {
        exists|dx: i16, dy: i16|
            -perm_size <= dx < perm_size && -perm_size <= dy < perm_size
                && after == #[trigger] spec_perturb_frame(before, dx, dy)
    } else {
        after == before
    }
}

/// With a frequency or a magnitude of zero, a perturbation leaves every frame
/// as it was, whatever sample was drawn for it.
pub proof fn lemma_nothing_to_perturb(
    after: InputFrame,
    before: InputFrame,
    perm_size: u8,
    sample: Single,
    perm_freq: Single,
)
    requires
        perm_freq.spec_is_zero() || perm_size == 0,
        is_perturbation(after, before, perm_size, spec_should_perturb(sample, perm_freq)),
    ensures
        after == before,
{
}

/// Draws an integer with `lo <= r < hi` from the thread-local generator, by
/// `rand::random_range`. That function panics on an empty range, which the
/// precondition excludes. Which integer of the range comes back is left open.
#[verifier::external_body]
fn draw_between(lo: i16, hi: i16) -> (r: i16)
    requires
        lo < hi,
    ensures
        lo <= r < hi,
{
    rand::random_range(lo..hi)
}

/// Perturbs the frames `start_frame <= i < end_frame` of a trajectory.
///
/// `samples` holds one uniform sample from `[0, 1)` per frame of the window,
/// in order. A frame whose sample exceeds `perm_freq` is left as it is. For
/// every other frame two deltas are drawn, independently and uniformly from
/// `-perm_size <= delta < perm_size`, and added to the two stick axes,
/// saturating. With a frequency or a magnitude of zero nothing changes.
/// Frames outside the window, and all buttons, are never touched.
pub fn perturb_inputs_simple(
    inputs: &mut Vec<InputFrame>,
    start_frame: u32,
    end_frame: u32,
    perm_size: u8,
    perm_freq: Single,
    samples: &Vec<Single>,
)
    requires
        start_frame < end_frame ==> end_frame <= old(inputs).len(),
        start_frame < end_frame && perm_size > 0 && !perm_freq.spec_is_zero() ==> samples.len()
            >= end_frame - start_frame,
    ensures
        final(inputs).len() == old(inputs).len(),
        forall|i: int|
            0 <= i < old(inputs).len() && !(start_frame <= i < end_frame) ==> final(inputs)[i]
                == old(inputs)[i],
        forall|i: int|
            start_frame <= i < end_frame ==> is_perturbation(
                #[trigger] final(inputs)[i],
                old(inputs)[i],
                perm_size,
                spec_should_perturb(samples[i - start_frame], perm_freq),
            ),
        perm_freq.spec_is_zero() || perm_size == 0 ==> final(inputs)@ == old(inputs)@,
{
    if start_frame >= end_frame || perm_size == 0 || perm_freq.is_zero() {
        return ;
    }
    let size: i16 = perm_size as i16;
    let mut frame: u32 = start_frame;
    while frame < end_frame
        invariant
            start_frame <= frame <= end_frame,
            end_frame <= inputs.len(),
            samples.len() >= end_frame - start_frame,
            inputs.len() == old(inputs).len(),
            size == perm_size,
            perm_size > 0,
            forall|i: int|
                0 <= i < inputs.len() && !(start_frame <= i < frame) ==> inputs[i] == old(
                    inputs,
                )[i],
            forall|i: int|
                start_frame <= i < frame ==> is_perturbation(
                    #[trigger] inputs[i],
                    old(inputs)[i],
                    perm_size,
                    spec_should_perturb(samples[i - start_frame], perm_freq),
                ),
        decreases end_frame - frame,
    {
        let sample: Single = samples[(frame - start_frame) as usize];
        if should_perturb(sample, perm_freq) {
            let before: InputFrame = inputs[frame as usize];
            let rand_x: i16 = draw_between(-size, size);
            let rand_y: i16 = draw_between(-size, size);
            inputs[frame as usize] = perturb_frame(before, rand_x, rand_y);
        }
        frame = frame + 1;
    }
}

} // verus!
