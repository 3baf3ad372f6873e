use bevy::math::{Dir3, Quat, Vec3};
use bevy::transform::components::{GlobalTransform, Transform};
use rotate_towards::{calculate_local_rotation_to_target, resolve_up, try_resolve_up, UpDirection};

fn close(a: Vec3, b: Vec3) -> bool {
    (a - b).length() < 1e-4
}

#[test]
fn forward_axis_points_at_target() {
    let rotator = GlobalTransform::IDENTITY;
    let target = GlobalTransform::from(Transform::from_xyz(0.0, 0.0, -5.0));
    let q = calculate_local_rotation_to_target(&rotator, &target, None, Dir3::Y, false);
    assert!(close(q * Vec3::NEG_Z, Vec3::new(0.0, 0.0, -1.0)));
    assert!(close(q * Vec3::Y, Vec3::new(0.0, 1.0, 0.0)));
}

#[test]
fn flipped_forward_axis_reverses() {
    let rotator = GlobalTransform::IDENTITY;
    let target = GlobalTransform::from(Transform::from_xyz(0.0, 0.0, -5.0));
    let q = calculate_local_rotation_to_target(&rotator, &target, None, Dir3::Y, true);
    assert!(close(q * Vec3::NEG_Z, Vec3::new(0.0, 0.0, 1.0)));
    assert!(close(q * Vec3::Y, Vec3::new(0.0, 1.0, 0.0)));
}

#[test]
fn double_flip_restores_rotation() {
    let rotator = GlobalTransform::IDENTITY;
    let target = GlobalTransform::from(Transform::from_xyz(2.0, 0.0, -5.0));
    let base = calculate_local_rotation_to_target(&rotator, &target, None, Dir3::Y, false);
    let flipped = calculate_local_rotation_to_target(&rotator, &target, None, Dir3::Y, true);
    let twice = Quat::from_axis_angle(Vec3::Y, std::f32::consts::PI) * flipped;
    // As rotations the two are equal; as quaternions they may differ by sign.
    assert!(twice.abs_diff_eq(base, 1e-5) || twice.abs_diff_eq(-base, 1e-5));
}

#[test]
fn forward_axis_parallel_to_offset() {
    let rotator = GlobalTransform::from(Transform::from_xyz(1.0, 2.0, 3.0));
    let target = GlobalTransform::from(Transform::from_xyz(-4.0, 0.5, 7.0));
    let q = calculate_local_rotation_to_target(&rotator, &target, None, Dir3::Y, false);
    let forward = q * Vec3::NEG_Z;
    let offset = (Vec3::new(-4.0, 0.5, 7.0) - Vec3::new(1.0, 2.0, 3.0)).normalize();
    assert!(close(forward, offset));
}

#[test]
fn local_rotation_accounts_for_parent() {
    let parent = GlobalTransform::from(Transform::from_rotation(Quat::from_rotation_y(
        std::f32::consts::FRAC_PI_2,
    )));
    // Child at the parent's origin with an identity local transform.
    let rotator = parent;
    let target = GlobalTransform::from(Transform::from_xyz(0.0, 0.0, -5.0));
    let local =
        calculate_local_rotation_to_target(&rotator, &target, Some(&parent), Dir3::Y, false);
    // Composed with the parent's world rotation, the forward axis points at the target.
    let world = parent.compute_transform().rotation * local;
    assert!(close(world * Vec3::NEG_Z, Vec3::new(0.0, 0.0, -1.0)));
    // In the parent's frame the rotation compensates for the parent's quarter turn.
    assert!(close(local * Vec3::NEG_Z, Vec3::new(1.0, 0.0, 0.0)));
}

#[test]
fn coincident_positions_fall_back_deterministically() {
    let rotator = GlobalTransform::IDENTITY;
    let target = GlobalTransform::IDENTITY;
    let q = calculate_local_rotation_to_target(&rotator, &target, None, Dir3::Y, false);
    assert!(q.abs_diff_eq(Quat::IDENTITY, 1e-6));
}

#[test]
fn parent_up_fallback_matches_fixed_direction() {
    let target = GlobalTransform::from(Transform::from_xyz(1.0, 2.0, 3.0));
    let a = resolve_up(&UpDirection::Parent, &target, None);
    let b = resolve_up(&UpDirection::Dir(Dir3::Y), &target, None);
    assert_eq!(a, b);
}

#[test]
fn target_up_policy_follows_target() {
    // A target rotated a quarter turn about z carries its up axis to -x.
    let target = GlobalTransform::from(Transform::from_rotation(Quat::from_rotation_z(
        std::f32::consts::FRAC_PI_2,
    )));
    let up = resolve_up(&UpDirection::Target, &target, None);
    assert!(close(up.as_vec3(), Vec3::new(-1.0, 0.0, 0.0)));
}

#[test]
fn parent_up_policy_uses_parent() {
    let parent = GlobalTransform::from(Transform::from_rotation(Quat::from_rotation_z(
        std::f32::consts::FRAC_PI_2,
    )));
    let target = GlobalTransform::IDENTITY;
    let up = resolve_up(&UpDirection::Parent, &target, Some(&parent));
    assert!(close(up.as_vec3(), Vec3::new(-1.0, 0.0, 0.0)));
}

#[test]
fn fixed_up_direction_is_respected() {
    // Looking straight down -z with x as the up reference rolls the object
    // a quarter turn; up in world space becomes x.
    let rotator = GlobalTransform::IDENTITY;
    let target = GlobalTransform::from(Transform::from_xyz(0.0, 0.0, -5.0));
    let q = calculate_local_rotation_to_target(&rotator, &target, None, Dir3::X, false);
    assert!(close(q * Vec3::NEG_Z, Vec3::new(0.0, 0.0, -1.0)));
    assert!(close(q * Vec3::Y, Vec3::new(1.0, 0.0, 0.0)));
}

#[test]
fn try_resolve_up_rejects_degenerate_target() {
    // A target scaled to zero along y has no up axis to synchronize with.
    let degenerate = GlobalTransform::from(
        Transform::from_xyz(1.0, 2.0, 3.0).with_scale(Vec3::new(1.0, 0.0, 1.0)),
    );
    assert_eq!(try_resolve_up(&UpDirection::Target, &degenerate, None), None);
    // The same transform is no obstacle to the other policies.
    assert_eq!(
        try_resolve_up(&UpDirection::Dir(Dir3::X), &degenerate, None),
        Some(Dir3::X)
    );
    assert_eq!(
        try_resolve_up(&UpDirection::Parent, &degenerate, None),
        Some(Dir3::Y)
    );
}

#[test]
fn try_resolve_up_matches_resolve_up() {
    let target = GlobalTransform::from(Transform::from_rotation(Quat::from_rotation_z(
        std::f32::consts::FRAC_PI_2,
    )));
    assert_eq!(
        try_resolve_up(&UpDirection::Target, &target, None),
        Some(resolve_up(&UpDirection::Target, &target, None))
    );
}
