//! What a run is configured with: the target, the weights of the score and the
//! parameters of the search.

use vstd::prelude::*;
use crate::bounds::IsInBounds;
use crate::ieee::{Double, Single};

verus! {

/// The parameters of one run, fixed for its lifetime.
///
/// The search mutates the frames `start_frame <= i < end_frame` and no others.
/// `perm_freq` is the chance, from 0 to 1, for each frame to be perturbed, and
/// `perm_size` the bound on the change to either stick axis. With
/// `bound_correction` a violated bound inflates the weight of its feature;
/// without it a violated bound rejects the candidate outright. The best
/// trajectory is written out every `checkpoint_interval` iterations.
#[derive(Clone, Copy, Debug)]
pub struct BruteforceConfig {
    pub start_frame: u32,
    pub end_frame: u32,
    pub perm_freq: Single,
    pub perm_size: u8,
    pub wafel_path: &'static str,
    pub version: &'static str,
    pub output_name: &'static str,
    pub thread_num: u16,
    pub bound_penalty: Double,
    pub bound_correction: bool,
    pub checkpoint_interval: u64,
}

impl BruteforceConfig {
    pub fn new(
        start_frame: u32,
        end_frame: u32,
        perm_freq: Single,
        perm_size: u8,
        wafel_path: &'static str,
        version: &'static str,
        output_name: &'static str,
        thread_num: u16,
        bound_penalty: Double,
        bound_correction: bool,
        checkpoint_interval: u64,
    ) -> (r: Self)
        ensures
            r.start_frame == start_frame,
            r.end_frame == end_frame,
            r.perm_freq == perm_freq,
            r.perm_size == perm_size,
            r.wafel_path == wafel_path,
            r.version == version,
            r.output_name == output_name,
            r.thread_num == thread_num,
            r.bound_penalty == bound_penalty,
            r.bound_correction == bound_correction,
            r.checkpoint_interval == checkpoint_interval,
    {
        Self {
            start_frame,
            end_frame,
            perm_freq,
            perm_size,
            wafel_path,
            version,
            output_name,
            thread_num,
            bound_penalty,
            bound_correction,
            checkpoint_interval,
        }
    }
}

/// The state that the search steers towards. The yaw, the middle entry of
/// `face_angle`, is given in the range 0 to 65535. `coins` takes no part in
/// the score.
#[derive(Clone, Copy, Debug, PartialEq, Eq)]
pub struct Target {
    pub pos: [Single; 3],
    pub face_angle: [i32; 3],
    pub angle_vel: [i16; 3],
    pub hspd: Single,
    pub coins: u16,
}

impl Target {
    pub fn new(
        pos: [Single; 3],
        face_angle: [i32; 3],
        angle_vel: [i16; 3],
        hspd: Single,
        coins: u16,
    ) -> (r: Self)
        ensures
            r.pos == pos,
            r.face_angle == face_angle,
            r.angle_vel == angle_vel,
            r.hspd == hspd,
            r.coins == coins,
    {
        Self { pos, face_angle, angle_vel, hspd, coins }
    }
}

/// One multiplier per feature, by which its distance to the target enters the
/// score.
#[derive(Clone, Copy, Debug, PartialEq, Eq)]
pub struct Weights {
    pub pos_weights: [Double; 3],
    pub face_angle_weights: [Double; 3],
    pub angle_vel_weights: [Double; 3],
    pub hspd_weight: Double,
}

/// The weight of one feature after penalisation: the inflated one where the
/// bound is violated, the weight itself where it holds.
pub open spec fn penalised_weight(in_bounds: bool, weight: Double, inflated: Double) -> Double {
    if in_bounds {
        weight
    } else {
        inflated
    }
}

fn pick_weight(in_bounds: bool, weight: Double, inflated: Double) -> (r: Double)
    ensures
        r == penalised_weight(in_bounds, weight, inflated),
{
    if in_bounds {
        weight
    } else {
        inflated
    }
}

impl Weights {
    pub fn new(
        pos_weights: [Double; 3],
        face_angle_weights: [Double; 3],
        angle_vel_weights: [Double; 3],
        hspd_weight: Double,
    ) -> (r: Self)
        ensures
            r.pos_weights == pos_weights,
            r.face_angle_weights == face_angle_weights,
            r.angle_vel_weights == angle_vel_weights,
            r.hspd_weight == hspd_weight,
    {
        Self { pos_weights, face_angle_weights, angle_vel_weights, hspd_weight }
    }

    /// Whether `self` is `before` penalised for the violations that `in_bounds`
    /// records, feature by feature and each independently of the others.
    pub open spec fn is_penalised(self, before: Weights, in_bounds: IsInBounds, inflated: Weights) -> bool {
        &&& self.pos_weights[0] == penalised_weight(
            in_bounds.pos_limits.pos_x,
            before.pos_weights[0],
            inflated.pos_weights[0],
        )
        &&& self.pos_weights[1] == penalised_weight(
            in_bounds.pos_limits.pos_y,
            before.pos_weights[1],
            inflated.pos_weights[1],
        )
        &&& self.pos_weights[2] == penalised_weight(
            in_bounds.pos_limits.pos_z,
            before.pos_weights[2],
            inflated.pos_weights[2],
        )
        &&& self.face_angle_weights[0] == penalised_weight(
            in_bounds.face_angle_limits.face_angle_x,
            before.face_angle_weights[0],
            inflated.face_angle_weights[0],
        )
        &&& self.face_angle_weights[1] == penalised_weight(
            in_bounds.face_angle_limits.face_angle_y,
            before.face_angle_weights[1],
            inflated.face_angle_weights[1],
        )
        &&& self.face_angle_weights[2] == penalised_weight(
            in_bounds.face_angle_limits.face_angle_z,
            before.face_angle_weights[2],
            inflated.face_angle_weights[2],
        )
        &&& self.angle_vel_weights[0] == penalised_weight(
            in_bounds.angle_vel_limits.angle_vel_x,
            before.angle_vel_weights[0],
            inflated.angle_vel_weights[0],
        )
        &&& self.angle_vel_weights[1] == penalised_weight(
            in_bounds.angle_vel_limits.angle_vel_y,
            before.angle_vel_weights[1],
            inflated.angle_vel_weights[1],
        )
        &&& self.angle_vel_weights[2] == penalised_weight(
            in_bounds.angle_vel_limits.angle_vel_z,
            before.angle_vel_weights[2],
            inflated.angle_vel_weights[2],
        )
        &&& self.hspd_weight == penalised_weight(
            in_bounds.hspd_limits.hspd,
            before.hspd_weight,
            inflated.hspd_weight,
        )
    }

    /// Where every bound holds, penalisation returns the weights as they were.
    pub proof fn lemma_satisfied_bounds_keep_weights(
        after: Weights,
        before: Weights,
        in_bounds: IsInBounds,
        inflated: Weights,
    )
        requires
            after.is_penalised(before, in_bounds, inflated),
            in_bounds.all_true(),
        ensures
            after == before,
    {
        assert(after.pos_weights =~= before.pos_weights);
        assert(after.face_angle_weights =~= before.face_angle_weights);
        assert(after.angle_vel_weights =~= before.angle_vel_weights);
    }

    /// Penalises the weights for the violations that `in_bounds` records.
    ///
    /// `inflated` holds, for each feature, the weight as a violation leaves it:
    /// one more than the weight, times the penalty multiplier. The caller does
    /// that arithmetic; this method decides where its outcome applies. Call it
    /// on a copy of the configured weights, so that penalties never compound
    /// from one iteration to the next.
    pub fn penalise_bounds(&mut self, in_bounds: &IsInBounds, inflated: &Weights)
        ensures
            final(self).is_penalised(*old(self), *in_bounds, *inflated),
            in_bounds.all_true() ==> *final(self) == *old(self),
    {
        if in_bounds.check_if_all_true() {
            return ;
        }
        self.pos_weights = [
            pick_weight(in_bounds.pos_limits.pos_x, self.pos_weights[0], inflated.pos_weights[0]),
            pick_weight(in_bounds.pos_limits.pos_y, self.pos_weights[1], inflated.pos_weights[1]),
            pick_weight(in_bounds.pos_limits.pos_z, self.pos_weights[2], inflated.pos_weights[2]),
        ];
        self.face_angle_weights = [
            pick_weight(
                in_bounds.face_angle_limits.face_angle_x,
                self.face_angle_weights[0],
                inflated.face_angle_weights[0],
            ),
            pick_weight(
                in_bounds.face_angle_limits.face_angle_y,
                self.face_angle_weights[1],
                inflated.face_angle_weights[1],
            ),
            pick_weight(
                in_bounds.face_angle_limits.face_angle_z,
                self.face_angle_weights[2],
                inflated.face_angle_weights[2],
            ),
        ];
        self.angle_vel_weights = [
            pick_weight(
                in_bounds.angle_vel_limits.angle_vel_x,
                self.angle_vel_weights[0],
                inflated.angle_vel_weights[0],
            ),
            pick_weight(
                in_bounds.angle_vel_limits.angle_vel_y,
                self.angle_vel_weights[1],
                inflated.angle_vel_weights[1],
            ),
            pick_weight(
                in_bounds.angle_vel_limits.angle_vel_z,
                self.angle_vel_weights[2],
                inflated.angle_vel_weights[2],
            ),
        ];
        self.hspd_weight = pick_weight(
            in_bounds.hspd_limits.hspd,
            self.hspd_weight,
            inflated.hspd_weight,
        );
    }
}

} // verus!
