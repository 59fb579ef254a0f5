//! The observed state of the simulated character, the open intervals that
//! constrain it, and the evaluation of the one against the other.

use vstd::prelude::*;
use crate::ieee::Single;

verus! {

/// Whether a real-valued feature lies strictly inside its interval. Both ends
/// are excluded; an undefined value or an undefined end is a violation.
pub open spec fn within_single(value: Single, limits: (Single, Single)) -> bool {
    limits.0.spec_lt(value) && value.spec_lt(limits.1)
}

/// Whether an integer feature lies strictly inside its interval.
pub open spec fn within_int(value: int, lo: int, hi: int) -> bool {
    lo < value < hi
}

/// The yaw as it is compared and measured: the 16 bits of the angle read as an
/// unsigned quantity, so a negative angle stands for `angle + 65536`. Pitch and
/// roll keep their sign; the yaw is the only axis treated this way.
pub open spec fn yaw_value(angle: i16) -> int {
    if angle < 0 {
        angle + 65536
    } else {
        angle as int
    }
}

/// Computes [`yaw_value`].
pub fn yaw_of(angle: i16) -> (r: i32)
    ensures
        r == yaw_value(angle),
        0 <= r <= 65535,
{
    if angle < 0 {
        angle as i32 + 65536
    } else {
        angle as i32
    }
}

/// A value equal to either end of its interval violates the bound.
pub proof fn lemma_single_ends_excluded(value: Single, limits: (Single, Single))
    requires
        value.spec_same(limits.0) || value.spec_same(limits.1),
    ensures
        !within_single(value, limits),
{
}

/// A value equal to either end of its interval violates the bound.
pub proof fn lemma_int_ends_excluded(value: int, lo: int, hi: int)
    requires
        value == lo || value == hi,
    ensures
        !within_int(value, lo, hi),
{
}

/// What is read of the character each tick. The fields mirror those of the
/// weights and the bounds.
#[derive(Clone, Copy, Debug, PartialEq, Eq)]
pub struct CommonMarioData {
    pub pos: [Single; 3],
    pub face_angle: [i16; 3],
    pub angle_vel: [i16; 3],
    pub forward_vel: Single,
}

impl CommonMarioData {
    pub fn new(
        pos: [Single; 3],
        face_angle: [i16; 3],
        angle_vel: [i16; 3],
        forward_vel: Single,
    ) -> (r: Self)
        ensures
            r.pos == pos,
            r.face_angle == face_angle,
            r.angle_vel == angle_vel,
            r.forward_vel == forward_vel,
    {
        Self { pos, face_angle, angle_vel, forward_vel }
    }
}

impl Default for CommonMarioData {
    /// The character at rest at the origin.
    fn default() -> (r: Self)
        ensures
            forall|i: int| 0 <= i < 3 ==> r.pos[i] == (Single { bits: 0 }),
            forall|i: int| 0 <= i < 3 ==> r.face_angle[i] == 0,
            forall|i: int| 0 <= i < 3 ==> r.angle_vel[i] == 0,
            r.forward_vel == (Single { bits: 0 }),
    {
        let zero: Single = Single { bits: 0 };
        Self { pos: [zero, zero, zero], face_angle: [0, 0, 0], angle_vel: [0, 0, 0], forward_vel: zero }
    }
}

/// One open interval `(lo, hi)` per feature. The yaw interval, the middle one
/// of `face_angle_limits`, is held against [`yaw_value`] and so speaks of the
/// range 0 to 65535; the pitch and roll intervals speak of signed angles.
#[derive(Clone, Copy, Debug, PartialEq, Eq)]
pub struct Bounds {
    pub pos_limits: [(Single, Single); 3],
    pub face_angle_limits: [(i32, i32); 3],
    pub angle_vel_limits: [(i16, i16); 3],
    pub hspd_limits: (Single, Single),
}

impl Bounds {
    pub fn new(
        pos_limits: [(Single, Single); 3],
        face_angle_limits: [(i32, i32); 3],
        angle_vel_limits: [(i16, i16); 3],
        hspd_limits: (Single, Single),
    ) -> (r: Self)
        ensures
            r.pos_limits == pos_limits,
            r.face_angle_limits == face_angle_limits,
            r.angle_vel_limits == angle_vel_limits,
            r.hspd_limits == hspd_limits,
    {
        Bounds { pos_limits, face_angle_limits, angle_vel_limits, hspd_limits }
    }
}

/// Which position axes are in bounds.
#[derive(Clone, Copy, Debug, PartialEq, Eq, Structural)]
pub struct InPosBounds {
    pub pos_x: bool,
    pub pos_y: bool,
    pub pos_z: bool,
}

impl InPosBounds {
    pub open spec fn evaluated(pos: [Single; 3], pos_limits: [(Single, Single); 3]) -> Self {
        InPosBounds {
            pos_x: within_single(pos[0], pos_limits[0]),
            pos_y: within_single(pos[1], pos_limits[1]),
            pos_z: within_single(pos[2], pos_limits[2]),
        }
    }

    pub open spec fn all_true(self) -> bool {
        self.pos_x && self.pos_y && self.pos_z
    }

    pub fn new() -> (r: Self)
        ensures
            r == (InPosBounds { pos_x: true, pos_y: true, pos_z: true }),
    {
        InPosBounds { pos_x: true, pos_y: true, pos_z: true }
    }

    /// Sets each flag to whether the position on that axis lies strictly inside
    /// its interval.
    pub fn evaluate_within_bounds(&mut self, pos: [Single; 3], pos_limits: [(Single, Single); 3])
        ensures
            *final(self) == Self::evaluated(pos, pos_limits),
    {
        self.pos_x = pos_limits[0].0.lt(pos[0]) && pos[0].lt(pos_limits[0].1);
        self.pos_y = pos_limits[1].0.lt(pos[1]) && pos[1].lt(pos_limits[1].1);
        self.pos_z = pos_limits[2].0.lt(pos[2]) && pos[2].lt(pos_limits[2].1);
    }

    pub fn check_if_all_true(&self) -> (r: bool)
        ensures
            r == self.all_true(),
    {
        self.pos_x && self.pos_y && self.pos_z
    }
}

impl Default for InPosBounds {
    /// No flag set.
    fn default() -> (r: Self)
        ensures
            r == (InPosBounds { pos_x: false, pos_y: false, pos_z: false }),
    {
        InPosBounds { pos_x: false, pos_y: false, pos_z: false }
    }
}

/// Which angular velocities are in bounds.
#[derive(Clone, Copy, Debug, PartialEq, Eq, Structural)]
pub struct InAngleVelBounds {
    pub angle_vel_x: bool,
    pub angle_vel_y: bool,
    pub angle_vel_z: bool,
}

impl InAngleVelBounds {
    pub open spec fn evaluated(angle_vel: [i16; 3], angle_vel_limits: [(i16, i16); 3]) -> Self {
        InAngleVelBounds {
            angle_vel_x: within_int(
                angle_vel[0] as int,
                angle_vel_limits[0].0 as int,
                angle_vel_limits[0].1 as int,
            ),
            angle_vel_y: within_int(
                angle_vel[1] as int,
                angle_vel_limits[1].0 as int,
                angle_vel_limits[1].1 as int,
            ),
            angle_vel_z: within_int(
                angle_vel[2] as int,
                angle_vel_limits[2].0 as int,
                angle_vel_limits[2].1 as int,
            ),
        }
    }

    pub open spec fn all_true(self) -> bool {
        self.angle_vel_x && self.angle_vel_y && self.angle_vel_z
    }

    pub fn new() -> (r: Self)
        ensures
            r == (InAngleVelBounds { angle_vel_x: true, angle_vel_y: true, angle_vel_z: true }),
    {
        InAngleVelBounds { angle_vel_x: true, angle_vel_y: true, angle_vel_z: true }
    }

    /// Sets each flag to whether the angular velocity on that axis lies strictly
    /// inside its interval.
    pub fn evaluate_within_bounds(
        &mut self,
        angle_vel: [i16; 3],
        angle_vel_limits: &[(i16, i16); 3],
    )
        ensures
            *final(self) == Self::evaluated(angle_vel, *angle_vel_limits),
    {
        self.angle_vel_x = (angle_vel_limits[0].0 < angle_vel[0]) && (angle_vel[0]
            < angle_vel_limits[0].1);
        self.angle_vel_y = (angle_vel_limits[1].0 < angle_vel[1]) && (angle_vel[1]
            < angle_vel_limits[1].1);
        self.angle_vel_z = (angle_vel_limits[2].0 < angle_vel[2]) && (angle_vel[2]
            < angle_vel_limits[2].1);
    }

    pub fn check_if_all_true(&self) -> (r: bool)
        ensures
            r == self.all_true(),
    {
        self.angle_vel_x && self.angle_vel_y && self.angle_vel_z
    }
}

impl Default for InAngleVelBounds {
    /// No flag set.
    fn default() -> (r: Self)
        ensures
            r == (InAngleVelBounds { angle_vel_x: false, angle_vel_y: false, angle_vel_z: false }),
    {
        InAngleVelBounds { angle_vel_x: false, angle_vel_y: false, angle_vel_z: false }
    }
}

/// Which facing angles are in bounds: pitch, yaw and roll, in that order.
#[derive(Clone, Copy, Debug, PartialEq, Eq, Structural)]
pub struct InFaceAngleBounds {
    pub face_angle_x: bool,
    pub face_angle_y: bool,
    pub face_angle_z: bool,
}

impl InFaceAngleBounds {
    /// Pitch and roll are compared as signed angles, the yaw as [`yaw_value`].
    pub open spec fn evaluated(angle: [i16; 3], face_angle_limits: [(i32, i32); 3]) -> Self {
        InFaceAngleBounds {
            face_angle_x: within_int(
                angle[0] as int,
                face_angle_limits[0].0 as int,
                face_angle_limits[0].1 as int,
            ),
            face_angle_y: within_int(
                yaw_value(angle[1]),
                face_angle_limits[1].0 as int,
                face_angle_limits[1].1 as int,
            ),
            face_angle_z: within_int(
                angle[2] as int,
                face_angle_limits[2].0 as int,
                face_angle_limits[2].1 as int,
            ),
        }
    }

    pub open spec fn all_true(self) -> bool {
        self.face_angle_x && self.face_angle_y && self.face_angle_z
    }

    pub fn new() -> (r: Self)
        ensures
            r == (InFaceAngleBounds { face_angle_x: true, face_angle_y: true, face_angle_z: true }),
    {
        InFaceAngleBounds { face_angle_x: true, face_angle_y: true, face_angle_z: true }
    }

    /// Sets each flag to whether the angle on that axis lies strictly inside its
    /// interval. All three axes are evaluated, each on its own.
    pub fn evaluate_within_bounds(&mut self, angle: [i16; 3], face_angle_limits: [(i32, i32); 3])
        ensures
            *final(self) == Self::evaluated(angle, face_angle_limits),
    {
        let pitch: i32 = angle[0] as i32;
        let yaw: i32 = yaw_of(angle[1]);
        let roll: i32 = angle[2] as i32;
        self.face_angle_x = (face_angle_limits[0].0 < pitch) && (pitch < face_angle_limits[0].1);
        self.face_angle_y = (face_angle_limits[1].0 < yaw) && (yaw < face_angle_limits[1].1);
        self.face_angle_z = (face_angle_limits[2].0 < roll) && (roll < face_angle_limits[2].1);
    }

    pub fn check_if_all_true(&self) -> (r: bool)
        ensures
            r == self.all_true(),
    {
        self.face_angle_x && self.face_angle_y && self.face_angle_z
    }
}

impl Default for InFaceAngleBounds {
    /// No flag set.
    fn default() -> (r: Self)
        ensures
            r == (InFaceAngleBounds {
                face_angle_x: false,
                face_angle_y: false,
                face_angle_z: false,
            }),
    {
        InFaceAngleBounds { face_angle_x: false, face_angle_y: false, face_angle_z: false }
    }
}

/// Whether the horizontal speed is in bounds.
#[derive(Clone, Copy, Debug, PartialEq, Eq, Structural)]
pub struct InHspdBounds {
    pub hspd: bool,
}

impl InHspdBounds {
    pub open spec fn evaluated(hspd: Single, hspd_limits: (Single, Single)) -> Self {
        InHspdBounds { hspd: within_single(hspd, hspd_limits) }
    }

    pub fn new() -> (r: Self)
        ensures
            r == (InHspdBounds { hspd: true }),
    {
        InHspdBounds { hspd: true }
    }

    /// Sets the flag to whether the speed lies strictly inside its interval.
    pub fn evaluate_within_bounds(&mut self, hspd: Single, hspd_limits: (Single, Single))
        ensures
            *final(self) == Self::evaluated(hspd, hspd_limits),
    {
        self.hspd = hspd_limits.0.lt(hspd) && hspd.lt(hspd_limits.1);
    }
}

/// The outcome of holding an observation against the bounds: one flag per
/// feature. A violation is ordinary feedback to the search, never a fault.
#[derive(Clone, Copy, Debug, PartialEq, Eq, Structural)]
pub struct IsInBounds {
    pub pos_limits: InPosBounds,
    pub angle_vel_limits: InAngleVelBounds,
    pub face_angle_limits: InFaceAngleBounds,
    pub hspd_limits: InHspdBounds,
}

impl IsInBounds {
    /// The flags that an observation earns under the given bounds.
    pub open spec fn evaluated(mario_data: CommonMarioData, bounds: Bounds) -> Self {
        IsInBounds {
            pos_limits: InPosBounds::evaluated(mario_data.pos, bounds.pos_limits),
            angle_vel_limits: InAngleVelBounds::evaluated(
                mario_data.angle_vel,
                bounds.angle_vel_limits,
            ),
            face_angle_limits: InFaceAngleBounds::evaluated(
                mario_data.face_angle,
                bounds.face_angle_limits,
            ),
            hspd_limits: InHspdBounds::evaluated(mario_data.forward_vel, bounds.hspd_limits),
        }
    }

    /// The conjunction of all ten flags.
    pub open spec fn all_true(self) -> bool {
        self.pos_limits.all_true() && self.angle_vel_limits.all_true()
            && self.face_angle_limits.all_true() && self.hspd_limits.hspd
    }

    /// All flags set.
    pub fn new() -> (r: Self)
        ensures
            r == (IsInBounds {
                pos_limits: InPosBounds { pos_x: true, pos_y: true, pos_z: true },
                angle_vel_limits: InAngleVelBounds {
                    angle_vel_x: true,
                    angle_vel_y: true,
                    angle_vel_z: true,
                },
                face_angle_limits: InFaceAngleBounds {
                    face_angle_x: true,
                    face_angle_y: true,
                    face_angle_z: true,
                },
                hspd_limits: InHspdBounds { hspd: true },
            }),
    {
        Self {
            pos_limits: InPosBounds::new(),
            angle_vel_limits: InAngleVelBounds::new(),
            face_angle_limits: InFaceAngleBounds::new(),
            hspd_limits: InHspdBounds::new(),
        }
    }

    /// Replaces every flag by what the observation earns under `bounds`.
    pub fn update_from_mario_data(&mut self, mario_data: &CommonMarioData, bounds: &Bounds)
        ensures
            *final(self) == Self::evaluated(*mario_data, *bounds),
    {
        self.pos_limits.evaluate_within_bounds(mario_data.pos, bounds.pos_limits);
        self.face_angle_limits.evaluate_within_bounds(
            mario_data.face_angle,
            bounds.face_angle_limits,
        );
        self.angle_vel_limits.evaluate_within_bounds(
            mario_data.angle_vel,
            &bounds.angle_vel_limits,
        );
        self.hspd_limits.evaluate_within_bounds(mario_data.forward_vel, bounds.hspd_limits);
    }

    /// Holds an observation against the bounds.
    pub fn new_from_mario_data(mario_data: &CommonMarioData, bounds: &Bounds) -> (r: Self)
        ensures
            r == Self::evaluated(*mario_data, *bounds),
    {
        let mut is_in_bounds: Self = Self::new();
        is_in_bounds.update_from_mario_data(mario_data, bounds);
        is_in_bounds
    }

    pub fn check_if_all_true(&self) -> (r: bool)
        ensures
            r == self.all_true(),
    {
        self.pos_limits.check_if_all_true() && self.angle_vel_limits.check_if_all_true()
            && self.face_angle_limits.check_if_all_true() && self.hspd_limits.hspd
    }
}

} // verus!
