//! The steps of a tick, as values.
//!
//! A tick turns the three moving frames about the outer circle's centre, then
//! turns the arm and the traced point about the rolling circle's centre, then
//! renormalises the orientations. Each step is described here by what it is
//! handed and what it returns; to carry it out is arithmetic on the values,
//! which the caller provides.

use vstd::prelude::*;
use crate::frame::GeometricFrame;
use crate::frame::Quaternion;
use crate::frame::Vector3;
use crate::gearing::Gearing;
use crate::scalar::Scalar;
use crate::scalar::HALF_BITS;
use crate::scalar::ONE_BITS;

verus! {

/// How the axis of a tick's two rotations is chosen. It is settled when the
/// tracker is built.
#[derive(Clone, Copy, Debug, PartialEq, Eq, Structural)]
pub enum AxisMode {
    /// Always the given direction: the path stays in one plane.
    FixedAxis(Vector3),
    /// The rolling circle's own axis, as its frame is turned at that moment.
    EvolvingLocalAxis,
}

/// The axis of one rotation.
#[derive(Clone, Copy, Debug, PartialEq, Eq, Structural)]
pub enum RotationAxis {
    /// The given direction.
    Fixed(Vector3),
    /// The local axis of a frame with the given orientation.
    LocalTo(Quaternion),
}

impl AxisMode {
    /// The axis to turn about while the rolling circle's frame is turned by
    /// `orientation`.
    pub open spec fn resolved(self, orientation: Quaternion) -> RotationAxis {
        match self {
            AxisMode::FixedAxis(direction) => RotationAxis::Fixed(direction),
            AxisMode::EvolvingLocalAxis => RotationAxis::LocalTo(orientation),
        }
    }

    pub fn resolve(&self, orientation: Quaternion) -> (axis: RotationAxis)
        ensures
            axis == self.resolved(orientation),
    {
        match self {
            AxisMode::FixedAxis(direction) => RotationAxis::Fixed(*direction),
            AxisMode::EvolvingLocalAxis => RotationAxis::LocalTo(orientation),
        }
    }
}

/// The three frames that move: the rolling circle, the arm from its centre to
/// the traced point, and the traced point.
#[derive(Clone, Copy, Debug, PartialEq, Eq, Structural)]
pub struct RollingFrames {
    pub inner: GeometricFrame,
    pub arm: GeometricFrame,
    pub point: GeometricFrame,
}

impl RollingFrames {
    pub open spec fn finite(self) -> bool {
        self.inner.finite() && self.arm.finite() && self.point.finite()
    }

    pub fn is_finite(&self) -> (b: bool)
        ensures
            b == self.finite(),
    {
        self.inner.is_finite() && self.arm.is_finite() && self.point.is_finite()
    }
}

/// Where a moving frame starts: at the starting pose, moved along the pose's
/// axis by `outer_radius - inner_share * inner_radius`. The difference and the
/// product are the caller's arithmetic.
#[derive(Clone, Copy, Debug, PartialEq, Eq, Structural)]
pub struct Placement {
    pub pose: GeometricFrame,
    pub outer_radius: Scalar,
    pub inner_radius: Scalar,
    /// The part of the inner radius to take off the outer one.
    pub inner_share: Scalar,
}

/// Where the rolling circle starts: its centre lies `R - r` from the outer
/// circle's, so that it touches the outer circle from inside.
pub open spec fn inner_placement(
    pose: GeometricFrame,
    inner_radius: Scalar,
    outer_radius: Scalar,
) -> Placement {
    Placement { pose, outer_radius, inner_radius, inner_share: Scalar { bits: ONE_BITS } }
}

/// Where the arm starts: its centre lies `R - r / 2` from the outer circle's,
/// halfway between the rolling circle's centre and the traced point.
pub open spec fn arm_placement(
    pose: GeometricFrame,
    inner_radius: Scalar,
    outer_radius: Scalar,
) -> Placement {
    Placement { pose, outer_radius, inner_radius, inner_share: Scalar { bits: HALF_BITS } }
}

/// Where the traced point starts: `R` from the outer circle's centre, on the
/// rim of both circles.
pub open spec fn point_placement(
    pose: GeometricFrame,
    inner_radius: Scalar,
    outer_radius: Scalar,
) -> Placement {
    Placement { pose, outer_radius, inner_radius, inner_share: Scalar { bits: 0 } }
}

/// The first rotation of a tick: the three moving frames go round the outer
/// circle's centre together, as if fixed to a rod from it.
#[derive(Clone, Copy, Debug, PartialEq, Eq, Structural)]
pub struct Revolution {
    /// The point turned about: the outer circle's centre.
    pub pivot: Vector3,
    pub axis: RotationAxis,
    /// The angle to turn by: the revolution rate.
    pub angle: Scalar,
    /// The frames to turn, as they stand.
    pub frames: RollingFrames,
}

/// The second rotation of a tick: the arm and the traced point turn about the
/// rolling circle's centre. The rolling circle itself is not among the frames:
/// turning it about its own centre would not move that centre.
#[derive(Clone, Copy, Debug, PartialEq, Eq, Structural)]
pub struct Spin {
    /// The point turned about: the rolling circle's centre after the first
    /// rotation.
    pub pivot: Vector3,
    pub axis: RotationAxis,
    /// What the angle to turn by is computed from: it is `-(R / r)` times the
    /// revolution rate.
    pub gearing: Gearing,
    /// The arm after the first rotation.
    pub arm: GeometricFrame,
    /// The traced point after the first rotation.
    pub point: GeometricFrame,
}

/// The arm and the traced point, as the second rotation leaves them.
#[derive(Clone, Copy, Debug, PartialEq, Eq, Structural)]
pub struct SpunFrames {
    pub arm: GeometricFrame,
    pub point: GeometricFrame,
}

/// The outcome of a tick's arithmetic.
#[derive(Clone, Copy, Debug, PartialEq, Eq, Structural)]
pub struct TickUpdate {
    /// The moving frames after both rotations, orientations renormalised.
    pub frames: RollingFrames,
    /// The direction along the arm.
    pub forward: Vector3,
}

impl TickUpdate {
    pub open spec fn finite(self) -> bool {
        self.frames.finite() && self.forward.finite()
    }

    pub fn is_finite(&self) -> (b: bool)
        ensures
            b == self.finite(),
    {
        self.frames.is_finite() && self.forward.is_finite()
    }
}

/// `f` has one outcome for each input: whatever it may return for `x`, it is
/// the same each time.
pub open spec fn single_valued<A, B, F: Fn(A) -> B>(f: F) -> bool {
    forall|x: A, y: B, z: B|
        #![trigger call_ensures(f, (x,), y), call_ensures(f, (x,), z)]
        call_ensures(f, (x,), y) && call_ensures(f, (x,), z) ==> y == z
}

} // verus!
