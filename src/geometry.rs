//! Rigid-motion values and the two fixed axis remappings between the camera
//! (solver) convention and the field convention.
use vstd::prelude::*;

verus! {

/// The sign bit of an IEEE-754 binary64 value.
pub const SIGN_BIT: u64 = 0x8000_0000_0000_0000;

/// An IEEE-754 binary64 value, held as its bit pattern.
#[derive(Clone, Copy, PartialEq, Eq, Structural, Debug)]
pub struct Scalar {
    pub bits: u64,
}

/// A 3-vector of scalars.
#[derive(Clone, Copy, PartialEq, Eq, Structural, Debug)]
pub struct Vec3 {
    pub x: Scalar,
    pub y: Scalar,
    pub z: Scalar,
}

/// A rotation as a unit quaternion `(w, x, y, z)`.
#[derive(Clone, Copy, PartialEq, Eq, Structural, Debug)]
pub struct Quat {
    pub w: Scalar,
    pub x: Scalar,
    pub y: Scalar,
    pub z: Scalar,
}

/// A rigid transform: a translation and a unit-quaternion rotation.
#[derive(Clone, Copy, PartialEq, Eq, Structural, Debug)]
pub struct Pose {
    pub translation: Vec3,
    pub rotation: Quat,
}

/// A rigid transform given as a translation and an angle-axis rotation vector.
#[derive(Clone, Copy, PartialEq, Eq, Structural, Debug)]
pub struct AxisAngleMotion {
    pub translation: Vec3,
    pub rotation: Vec3,
}

/// IEEE-754 negation: the same value with its sign bit flipped.
pub open spec fn neg(s: Scalar) -> Scalar {
    Scalar { bits: s.bits ^ SIGN_BIT }
}

/// Field-frame `(z, -x, -y)` of a camera-frame vector.
pub open spec fn camera_to_field_vec(v: Vec3) -> Vec3 {
    Vec3 { x: v.z, y: neg(v.x), z: neg(v.y) }
}

/// Camera-frame `(-y, -z, x)` of a field-frame vector.
pub open spec fn field_to_camera_vec(p: Vec3) -> Vec3 {
    Vec3 { x: neg(p.y), y: neg(p.z), z: p.x }
}

impl Scalar {
    /// The negation of this value (exactly what `-x` gives on binary64).
    pub fn negate(self) -> (r: Scalar)
        ensures
            r == neg(self),
    {
        Scalar { bits: self.bits ^ SIGN_BIT }
    }
}

/// Negating twice gives back the original bit pattern.
pub proof fn lemma_neg_involutive(s: Scalar)
    ensures
        neg(neg(s)) == s,
{
    let b = s.bits;
    assert((b ^ 0x8000_0000_0000_0000u64) ^ 0x8000_0000_0000_0000u64 == b) by (bit_vector);
}

/// Converts a camera-frame translation `t` and angle-axis rotation `r` (as a
/// pose solver reports them) to the field convention: translation
/// `(tz, -tx, -ty)`, rotation vector `(rz, -rx, -ry)`.
pub fn isometry_from_opencv(t: Vec3, r: Vec3) -> (m: AxisAngleMotion)
    ensures
        m.translation == camera_to_field_vec(t),
        m.rotation == camera_to_field_vec(r),
{
    AxisAngleMotion {
        translation: Vec3 { x: t.z, y: t.x.negate(), z: t.y.negate() },
        rotation: Vec3 { x: r.z, y: r.x.negate(), z: r.y.negate() },
    }
}

/// Converts a field-frame translation `(x, y, z)` to the camera-frame point
/// `(-y, -z, x)` used as solver input.
pub fn translation_to_opencv(translation: Vec3) -> (p: Vec3)
    ensures
        p == field_to_camera_vec(translation),
{
    Vec3 { x: translation.y.negate(), y: translation.z.negate(), z: translation.x }
}

/// The two remappings are mutual inverses on translations: going from the
/// camera convention to the field convention and back, or the other way
/// round, gives back the original vector exactly.
pub proof fn lemma_remapping_inverse(p: Vec3)
    ensures
        field_to_camera_vec(camera_to_field_vec(p)) == p,
        camera_to_field_vec(field_to_camera_vec(p)) == p,
{
    lemma_neg_involutive(p.x);
    lemma_neg_involutive(p.y);
    lemma_neg_involutive(p.z);
}

} // verus!
