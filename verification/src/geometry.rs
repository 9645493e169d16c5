//! Positions and placements in the scene, as plain records of scalars.

use crate::scalar::Scalar;
use vstd::prelude::*;

verus! {

/// A point or direction in the plane.
#[derive(Clone, Copy, Debug, PartialEq, Eq, Structural)]
pub struct Vec2 {
    pub x: Scalar,
    pub y: Scalar,
}

/// A point or direction in space. In a node's local offset, `z` is the
/// depth: what lies at a smaller `z` is drawn behind.
#[derive(Clone, Copy, Debug, PartialEq, Eq, Structural)]
pub struct Vec3 {
    pub x: Scalar,
    pub y: Scalar,
    pub z: Scalar,
}

/// A rotation, as the four coefficients of a quaternion.
#[derive(Clone, Copy, Debug, PartialEq, Eq, Structural)]
pub struct Quat {
    pub x: Scalar,
    pub y: Scalar,
    pub z: Scalar,
    pub w: Scalar,
}

/// Where a node stands relative to its parent.
#[derive(Clone, Copy, Debug, PartialEq, Eq, Structural)]
pub struct Transform {
    pub translation: Vec3,
    pub rotation: Quat,
    pub scale: Vec3,
}

impl Vec2 {
    /// The vector with these two coordinates.
    pub fn new(x: Scalar, y: Scalar) -> (v: Vec2)
        ensures
            v == (Vec2 { x, y }),
    {
        Vec2 { x, y }
    }
}

impl Vec3 {
    /// The origin, with three positive zeros.
    pub open spec fn spec_zero() -> Vec3 {
        Vec3 { x: Scalar::zero(), y: Scalar::zero(), z: Scalar::zero() }
    }

    /// The vector with `1` in every coordinate.
    pub open spec fn spec_one() -> Vec3 {
        Vec3 { x: Scalar::one(), y: Scalar::one(), z: Scalar::one() }
    }

    /// The vector with these three coordinates.
    pub fn new(x: Scalar, y: Scalar, z: Scalar) -> (v: Vec3)
        ensures
            v == (Vec3 { x, y, z }),
    {
        Vec3 { x, y, z }
    }

    /// The origin.
    #[verifier::when_used_as_spec(spec_zero)]
    pub fn zero() -> (v: Vec3)
        ensures
            v == Vec3::spec_zero(),
    {
        Vec3 { x: Scalar::zero(), y: Scalar::zero(), z: Scalar::zero() }
    }

    /// The vector with `1` in every coordinate.
    #[verifier::when_used_as_spec(spec_one)]
    pub fn one() -> (v: Vec3)
        ensures
            v == Vec3::spec_one(),
    {
        Vec3 { x: Scalar::one(), y: Scalar::one(), z: Scalar::one() }
    }
}

impl Quat {
    /// The rotation that turns nothing.
    pub open spec fn spec_identity() -> Quat {
        Quat { x: Scalar::zero(), y: Scalar::zero(), z: Scalar::zero(), w: Scalar::one() }
    }

    /// The rotation that turns nothing.
    #[verifier::when_used_as_spec(spec_identity)]
    pub fn identity() -> (q: Quat)
        ensures
            q == Quat::spec_identity(),
    {
        Quat { x: Scalar::zero(), y: Scalar::zero(), z: Scalar::zero(), w: Scalar::one() }
    }
}

impl Transform {
    /// The placement that moves, turns and scales nothing.
    pub open spec fn spec_identity() -> Transform {
        Transform { translation: Vec3::zero(), rotation: Quat::identity(), scale: Vec3::one() }
    }

    /// The placement that only moves by `translation`.
    pub open spec fn spec_from_translation(translation: Vec3) -> Transform {
        Transform { translation, rotation: Quat::identity(), scale: Vec3::one() }
    }

    /// The placement that moves, turns and scales nothing.
    #[verifier::when_used_as_spec(spec_identity)]
    pub fn identity() -> (t: Transform)
        ensures
            t == Transform::spec_identity(),
    {
        Transform { translation: Vec3::zero(), rotation: Quat::identity(), scale: Vec3::one() }
    }

    /// The placement that only moves by `translation`.
    #[verifier::when_used_as_spec(spec_from_translation)]
    pub fn from_translation(translation: Vec3) -> (t: Transform)
        ensures
            t == Transform::spec_from_translation(translation),
    {
        Transform { translation, rotation: Quat::identity(), scale: Vec3::one() }
    }

    /// This placement with its scale replaced.
    pub fn with_scale(self, scale: Vec3) -> (t: Transform)
        ensures
            t == (Transform { scale, ..self }),
    {
        Transform { scale, ..self }
    }
}

impl Default for Transform {
    fn default() -> (t: Transform)
        ensures
            t == Transform::identity(),
    {
        Transform::identity()
    }
}

} // verus!
