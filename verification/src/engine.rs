//! The engine's math types and the calls into them that the rotation logic
//! makes. The types are declared so that values of them can be carried
//! through verified code; each call stands behind a small trusted function
//! whose contract names the call's result, since the engine computes with
//! floating-point values that verified code cannot hold directly.

use bevy::ecs::entity::Entity;
use bevy::math::{Dir3, Quat, Vec3};
use bevy::transform::components::{GlobalTransform, Transform};
use vstd::prelude::*;

verus! {

#[verifier::external_type_specification]
#[verifier::external_body]
pub struct ExEntity(Entity);

#[verifier::external_type_specification]
#[verifier::external_body]
pub struct ExVec3(Vec3);

#[verifier::external_type_specification]
#[verifier::external_body]
pub struct ExDir3(Dir3);

#[verifier::external_type_specification]
#[verifier::external_body]
pub struct ExQuat(Quat);

#[verifier::external_type_specification]
#[verifier::external_body]
pub struct ExTransform(Transform);

#[verifier::external_type_specification]
#[verifier::external_body]
pub struct ExGlobalTransform(GlobalTransform);

// The scale/rotation/translation decomposition of a world transform, as
// `GlobalTransform::compute_transform` returns it.
pub uninterp spec fn spec_compute_transform(gt: GlobalTransform) -> Transform;

// The value of a transform's public `translation` field.
pub uninterp spec fn spec_transform_translation(t: Transform) -> Vec3;

// The value of a transform's public `rotation` field.
pub uninterp spec fn spec_transform_rotation(t: Transform) -> Quat;

// The rotation `Transform::looking_at` produces: forward axis pointed from
// `translation` toward `target`, with `up` as the up reference. The engine
// reads nothing of the transform but its translation, so the name takes the
// translation alone: the rotator's rotation and scale cannot enter the result.
pub uninterp spec fn spec_looking_at(translation: Vec3, target: Vec3, up: Dir3) -> Quat;

// The half-turn rotation about `up`.
pub uninterp spec fn spec_flip_quat(up: Dir3) -> Quat;

// The composition of two rotations, `a * b`.
pub uninterp spec fn spec_quat_mul(a: Quat, b: Quat) -> Quat;

// The inverse of a unit rotation, `Quat::inverse`.
pub uninterp spec fn spec_quat_inverse(q: Quat) -> Quat;

// Whether two rotations differ by at most the crate's tolerance in every
// component, as `Quat::abs_diff_eq` at that tolerance decides it.
pub uninterp spec fn spec_quat_approx_eq(a: Quat, b: Quat) -> bool;

// Whether every component of the quaternion is finite, as `Quat::is_finite`
// decides it.
pub uninterp spec fn spec_quat_is_finite(q: Quat) -> bool;

// The world-space up axis of a world transform, as `GlobalTransform::up`
// returns it.
pub uninterp spec fn spec_gt_up(gt: GlobalTransform) -> Dir3;

// Whether the world transform's up axis is well defined: the y column of its
// matrix, normalized, passes the engine's unit-length check. False for the
// degenerate transforms (zero or non-finite y column) on which the engine
// cannot produce a direction.
pub uninterp spec fn spec_gt_up_defined(gt: GlobalTransform) -> bool;

// The global up axis, `Dir3::Y`; `spec_dir3_y(true)` names its value.
pub uninterp spec fn spec_dir3_y(positive: bool) -> Dir3;

/// Relies on `GlobalTransform::compute_transform`: the decomposition of the
/// world transform's affine matrix into scale, rotation and translation. The
/// result depends on the transform alone.
#[verifier::external_body]
pub(crate) fn compute_transform(gt: &GlobalTransform) -> (t: Transform)
    ensures
        t == spec_compute_transform(*gt),
{
    gt.compute_transform()
}

/// Relies on the public `translation` field of `Transform`.
#[verifier::external_body]
pub(crate) fn transform_translation(t: &Transform) -> (translation: Vec3)
    ensures
        translation == spec_transform_translation(*t),
{
    t.translation
}

/// Relies on the public `rotation` field of `Transform`.
#[verifier::external_body]
pub(crate) fn transform_rotation(t: &Transform) -> (rotation: Quat)
    ensures
        rotation == spec_transform_rotation(*t),
{
    t.rotation
}

/// Relies on `Transform::looking_at`: the returned transform carries a
/// rotation whose forward axis points from the transform's translation toward
/// `target`, with `up` as the up reference; the call reads nothing of the
/// transform but its translation. When the direction is degenerate (zero, or
/// parallel with `up`) the engine picks a deterministic substitute axis, so
/// the result is a function of the arguments alone.
#[verifier::external_body]
pub(crate) fn looking_at_rotation(t: &Transform, target: Vec3, up: Dir3) -> (rotation: Quat)
    ensures
        rotation == spec_looking_at(spec_transform_translation(*t), target, up),
{
    t.looking_at(target, up).rotation
}

/// Relies on `Quat::from_axis_angle` for a half turn about `up`. The angle of
/// half a turn is obtained as `Vec3::Z.angle_between(Vec3::NEG_Z)`, which is
/// exactly that angle, since source under verification cannot hold a
/// floating-point literal.
#[verifier::external_body]
pub(crate) fn flip_about(up: Dir3) -> (flip: Quat)
    ensures
        flip == spec_flip_quat(up),
{
    Quat::from_axis_angle(up.normalize(), Vec3::Z.angle_between(Vec3::NEG_Z))
}

/// Relies on `Mul<Quat> for Quat`: the composition of the two rotations,
/// `a` applied after `b`.
#[verifier::external_body]
pub(crate) fn quat_mul(a: Quat, b: Quat) -> (product: Quat)
    ensures
        product == spec_quat_mul(a, b),
{
    a * b
}

/// Relies on `Quat::inverse`: the conjugate of a unit quaternion, the
/// rotation that undoes it.
#[verifier::external_body]
pub(crate) fn quat_inverse(q: &Quat) -> (inverse: Quat)
    ensures
        inverse == spec_quat_inverse(*q),
{
    q.inverse()
}

/// Relies on `Quat::abs_diff_eq` at the crate's tolerance of one millionth:
/// true exactly when every component of the two quaternions differs by at
/// most that much. `spec_quat_is_finite` names `Quat::is_finite`; a finite
/// quaternion is within tolerance of itself, every componentwise difference
/// being exactly zero. The tolerance is spelled as a string because source
/// under verification cannot hold a floating-point literal.
#[verifier::external_body]
pub(crate) fn quat_within_tolerance(a: &Quat, b: &Quat) -> (close: bool)
    ensures
        close == spec_quat_approx_eq(*a, *b),
        (*a == *b && spec_quat_is_finite(*a)) ==> close,
{
    a.abs_diff_eq(*b, "1e-6".parse().unwrap())
}

/// Relies on `Quat::is_finite`: whether every component of the quaternion is
/// finite, the condition under which the tolerance check counts a rotation as
/// within tolerance of itself.
#[verifier::external_body]
pub(crate) fn quat_is_finite(q: &Quat) -> (finite: bool)
    ensures
        finite == spec_quat_is_finite(*q),
{
    q.is_finite()
}

/// Relies on `GlobalTransform::up`: the world-space up axis of the transform,
/// the normalized image of the y axis under its matrix. On a degenerate
/// transform the engine's direction constructor asserts, in builds with debug
/// assertions, that the normalized axis is unit length, and panics when it is
/// not; the precondition leaves those transforms out, and `gt_up_defined`
/// tests it.
#[verifier::external_body]
pub(crate) fn gt_up(gt: &GlobalTransform) -> (up: Dir3)
    requires
        spec_gt_up_defined(*gt),
    ensures
        up == spec_gt_up(*gt),
{
    gt.up()
}

/// Relies on the same expression `GlobalTransform::up` computes, the
/// normalized y column of the matrix, tested with `Vec3::is_normalized`. That
/// check is strictly tighter than the one the engine's direction constructor
/// panics on in builds with debug assertions, so a transform that passes here
/// cannot make `GlobalTransform::up` panic; a zero or non-finite column
/// normalizes to a non-finite vector and fails it.
#[verifier::external_body]
pub(crate) fn gt_up_defined(gt: &GlobalTransform) -> (defined: bool)
    ensures
        defined == spec_gt_up_defined(*gt),
{
    (gt.affine().matrix3 * Vec3::Y).normalize().is_normalized()
}

/// Relies on `Dir3::Y`: the constant unit direction along the positive y
/// axis, the engine's global up.
#[verifier::external_body]
pub(crate) fn dir3_y() -> (up: Dir3)
    ensures
        up == spec_dir3_y(true),
{
    Dir3::Y
}

} // verus!
