//! Coordinates, rotations and time stamps.
//!
//! Nothing in this crate computes with a coordinate: values are carried from
//! where they were measured to where they are published. A coordinate is
//! therefore held as the 64 bits of its IEEE 754 double-precision encoding,
//! and "unchanged" means equal bit for bit.

use vstd::prelude::*;

verus! {

/// The encoding of zero.
pub const ZERO_BITS: u64 = 0;

/// The encoding of one.
pub const ONE_BITS: u64 = 0x3FF0_0000_0000_0000;

/// The encoding of the double nearest to the square root of one half.
pub const SQRT_HALF_BITS: u64 = 0x3FE6_A09E_667F_3BCD;

/// One double-precision number, by its bits.
#[derive(Clone, Copy, Debug, PartialEq, Eq, Structural)]
pub struct Scalar {
    pub bits: u64,
}

impl Scalar {
    pub open spec fn spec_zero() -> Scalar {
        Scalar { bits: ZERO_BITS }
    }

    pub open spec fn spec_one() -> Scalar {
        Scalar { bits: ONE_BITS }
    }

    pub open spec fn spec_sqrt_half() -> Scalar {
        Scalar { bits: SQRT_HALF_BITS }
    }

    #[verifier::when_used_as_spec(spec_zero)]
    pub fn zero() -> (s: Scalar)
        ensures
            s == Scalar::spec_zero(),
    {
        Scalar { bits: ZERO_BITS }
    }

    #[verifier::when_used_as_spec(spec_one)]
    pub fn one() -> (s: Scalar)
        ensures
            s == Scalar::spec_one(),
    {
        Scalar { bits: ONE_BITS }
    }

    #[verifier::when_used_as_spec(spec_sqrt_half)]
    pub fn sqrt_half() -> (s: Scalar)
        ensures
            s == Scalar::spec_sqrt_half(),
    {
        Scalar { bits: SQRT_HALF_BITS }
    }
}

/// A displacement, or a point taken as the displacement from the origin.
#[derive(Clone, Copy, Debug, PartialEq, Eq, Structural)]
pub struct Vector3 {
    pub x: Scalar,
    pub y: Scalar,
    pub z: Scalar,
}

/// A rotation as a quaternion, scalar part last.
#[derive(Clone, Copy, Debug, PartialEq, Eq, Structural)]
pub struct Quaternion {
    pub x: Scalar,
    pub y: Scalar,
    pub z: Scalar,
    pub w: Scalar,
}

/// Where something is and how it is turned, as a user edits it.
#[derive(Clone, Copy, Debug, PartialEq, Eq, Structural)]
pub struct Pose {
    pub position: Vector3,
    pub orientation: Quaternion,
}

/// The rigid motion that takes a child frame into its parent.
#[derive(Clone, Copy, Debug, PartialEq, Eq, Structural)]
pub struct Transform {
    pub translation: Vector3,
    pub rotation: Quaternion,
}

/// A point in time: whole seconds and the nanoseconds past them.
#[derive(Clone, Copy, Debug, PartialEq, Eq, Structural)]
pub struct Stamp {
    pub sec: i32,
    pub nanosec: u32,
}

impl Vector3 {
    pub open spec fn spec_zero() -> Vector3 {
        Vector3 { x: Scalar::spec_zero(), y: Scalar::spec_zero(), z: Scalar::spec_zero() }
    }

    /// The origin.
    #[verifier::when_used_as_spec(spec_zero)]
    pub fn zero() -> (v: Vector3)
        ensures
            v == Vector3::spec_zero(),
    {
        Vector3 { x: Scalar::zero(), y: Scalar::zero(), z: Scalar::zero() }
    }
}

impl Quaternion {
    pub open spec fn spec_identity() -> Quaternion {
        Quaternion {
            x: Scalar::spec_zero(),
            y: Scalar::spec_zero(),
            z: Scalar::spec_zero(),
            w: Scalar::spec_one(),
        }
    }

    /// The rotation that turns nothing.
    #[verifier::when_used_as_spec(spec_identity)]
    pub fn identity() -> (q: Quaternion)
        ensures
            q == Quaternion::spec_identity(),
    {
        Quaternion { x: Scalar::zero(), y: Scalar::zero(), z: Scalar::zero(), w: Scalar::one() }
    }
}

impl Pose {
    pub open spec fn spec_identity() -> Pose {
        Pose { position: Vector3::spec_zero(), orientation: Quaternion::spec_identity() }
    }

    /// At the origin, not turned.
    #[verifier::when_used_as_spec(spec_identity)]
    pub fn identity() -> (p: Pose)
        ensures
            p == Pose::spec_identity(),
    {
        Pose { position: Vector3::zero(), orientation: Quaternion::identity() }
    }

    pub open spec fn spec_to_transform(self) -> Transform {
        Transform { translation: self.position, rotation: self.orientation }
    }

    /// The transform with this pose's position as translation and its
    /// orientation as rotation, every coordinate as it is.
    #[verifier::when_used_as_spec(spec_to_transform)]
    pub fn to_transform(self) -> (t: Transform)
        ensures
            t == self.spec_to_transform(),
    {
        Transform {
            translation: Vector3 { x: self.position.x, y: self.position.y, z: self.position.z },
            rotation: Quaternion {
                x: self.orientation.x,
                y: self.orientation.y,
                z: self.orientation.z,
                w: self.orientation.w,
            },
        }
    }
}

impl Transform {
    pub open spec fn spec_identity() -> Transform {
        Transform { translation: Vector3::spec_zero(), rotation: Quaternion::spec_identity() }
    }

    /// No displacement, no rotation.
    #[verifier::when_used_as_spec(spec_identity)]
    pub fn identity() -> (t: Transform)
        ensures
            t == Transform::spec_identity(),
    {
        Transform { translation: Vector3::zero(), rotation: Quaternion::identity() }
    }
}

impl Stamp {
    pub open spec fn spec_zero() -> Stamp {
        Stamp { sec: 0, nanosec: 0 }
    }

    /// The stamp of a record that carries no time.
    #[verifier::when_used_as_spec(spec_zero)]
    pub fn zero() -> (s: Stamp)
        ensures
            s == Stamp::spec_zero(),
    {
        Stamp { sec: 0, nanosec: 0 }
    }
}

} // verus!
