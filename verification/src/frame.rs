//! Positions, orientations and rigid frames.
//!
//! The values are encodings (see [`crate::scalar`]); this module classifies
//! them. Rotating a frame and renormalising its orientation are arithmetic on
//! the values and are done by the caller.

use vstd::prelude::*;
use crate::scalar::Scalar;
use crate::scalar::ONE_BITS;

verus! {

/// A position or a direction in space.
#[derive(Clone, Copy, Debug, PartialEq, Eq, Structural)]
pub struct Vector3 {
    pub x: Scalar,
    pub y: Scalar,
    pub z: Scalar,
}

impl Vector3 {
    /// All three components are finite.
    pub open spec fn finite(self) -> bool {
        self.x.finite() && self.y.finite() && self.z.finite()
    }

    pub fn new(x: Scalar, y: Scalar, z: Scalar) -> (v: Vector3)
        ensures
            v == (Vector3 { x, y, z }),
    {
        Vector3 { x, y, z }
    }

    /// The origin.
    pub fn origin() -> (v: Vector3)
        ensures
            v.x.bits == 0,
            v.y.bits == 0,
            v.z.bits == 0,
            v.finite(),
    {
        Vector3 { x: Scalar::zero_value(), y: Scalar::zero_value(), z: Scalar::zero_value() }
    }

    /// The two vectors are equal component by component, as values: `-0.0`
    /// equals `0.0`, and a NaN equals nothing.
    pub open spec fn same_value(self, other: Vector3) -> bool {
        self.x.same_value(other.x) && self.y.same_value(other.y) && self.z.same_value(other.z)
    }

    pub fn is_finite(&self) -> (b: bool)
        ensures
            b == self.finite(),
    {
        self.x.is_finite() && self.y.is_finite() && self.z.is_finite()
    }

    pub fn eq_value(&self, other: &Vector3) -> (b: bool)
        ensures
            b == self.same_value(*other),
    {
        self.x.eq_value(&other.x) && self.y.eq_value(&other.y) && self.z.eq_value(&other.z)
    }
}

/// An orientation, as the four components of a quaternion. A quaternion
/// stands for a rotation only while its norm is one; keeping it so is the
/// caller's arithmetic.
#[derive(Clone, Copy, Debug, PartialEq, Eq, Structural)]
pub struct Quaternion {
    pub x: Scalar,
    pub y: Scalar,
    pub z: Scalar,
    pub w: Scalar,
}

impl Quaternion {
    /// All four components are finite.
    pub open spec fn finite(self) -> bool {
        self.x.finite() && self.y.finite() && self.z.finite() && self.w.finite()
    }

    pub fn new(x: Scalar, y: Scalar, z: Scalar, w: Scalar) -> (q: Quaternion)
        ensures
            q == (Quaternion { x, y, z, w }),
    {
        Quaternion { x, y, z, w }
    }

    /// The rotation that turns nothing: `(0, 0, 0, 1)`.
    pub fn identity() -> (q: Quaternion)
        ensures
            q.x.bits == 0,
            q.y.bits == 0,
            q.z.bits == 0,
            q.w.bits == ONE_BITS,
            q.finite(),
    {
        Quaternion {
            x: Scalar::zero_value(),
            y: Scalar::zero_value(),
            z: Scalar::zero_value(),
            w: Scalar::one_value(),
        }
    }

    pub fn is_finite(&self) -> (b: bool)
        ensures
            b == self.finite(),
    {
        self.x.is_finite() && self.y.is_finite() && self.z.is_finite() && self.w.is_finite()
    }
}

/// A rigid transform: where a body is and how it is turned.
#[derive(Clone, Copy, Debug, PartialEq, Eq, Structural)]
pub struct GeometricFrame {
    pub position: Vector3,
    pub orientation: Quaternion,
}

impl GeometricFrame {
    /// Neither the position nor the orientation holds an infinity or a NaN.
    pub open spec fn finite(self) -> bool {
        self.position.finite() && self.orientation.finite()
    }

    pub fn new(position: Vector3, orientation: Quaternion) -> (f: GeometricFrame)
        ensures
            f == (GeometricFrame { position, orientation }),
    {
        GeometricFrame { position, orientation }
    }

    /// The frame at the origin, turned by nothing.
    pub fn identity() -> (f: GeometricFrame)
        ensures
            f.position.x.bits == 0,
            f.position.y.bits == 0,
            f.position.z.bits == 0,
            f.orientation.x.bits == 0,
            f.orientation.y.bits == 0,
            f.orientation.z.bits == 0,
            f.orientation.w.bits == ONE_BITS,
            f.finite(),
    {
        GeometricFrame { position: Vector3::origin(), orientation: Quaternion::identity() }
    }

    pub fn is_finite(&self) -> (b: bool)
        ensures
            b == self.finite(),
    {
        self.position.is_finite() && self.orientation.is_finite()
    }
}

} // verus!
