//! The orientation math: the local rotation an object must have so that its
//! forward axis points at a target object, with a configurable up reference,
//! and the policy that selects that up reference.

use crate::engine::{
    compute_transform, dir3_y, flip_about, gt_up, gt_up_defined, looking_at_rotation,
    quat_inverse, quat_mul, spec_compute_transform, spec_dir3_y, spec_flip_quat, spec_gt_up,
    spec_gt_up_defined, spec_looking_at, spec_quat_inverse, spec_quat_mul,
    spec_transform_rotation, spec_transform_translation, transform_rotation,
    transform_translation,
};
use bevy::ecs::entity::Entity;
use bevy::math::{Dir3, Quat};
use bevy::transform::components::GlobalTransform;
use vstd::prelude::*;

verus! {

/// Configuration attached to an object that should keep facing another
/// object: the forward axis of the carrying object is rotated, every tick,
/// toward the object named here.
#[derive(Clone, Copy, Debug)]
pub struct RotateTo {
    /// Handle of the object to face; it must currently resolve to a world
    /// transform, or the carrying object is reported and left alone this tick.
    pub entity: Entity,
    /// Which direction counts as up while facing the target.
    pub updir: UpDirection,
    /// Rotate the result half a turn about the up direction, mirroring the
    /// forward axis while preserving up.
    pub flip_vertical: bool,
}

/// The up-direction policy of a rotated object.
#[derive(Clone, Copy, Debug, PartialEq)]
pub enum UpDirection {
    /// Use the target's current world up axis.
    Target,
    /// Use the parent's current world up axis; without a parent, fall back to
    /// the global up axis.
    Parent,
    /// Use this fixed direction; a direction is unit length by construction.
    Dir(Dir3),
}

/// The parent's world transform as an owned value, when one was handed in.
pub open spec fn spec_opt_transform(parent_gt: Option<&GlobalTransform>) -> Option<
    GlobalTransform,
> {
    match parent_gt {
        Option::Some(gt) => Option::Some(*gt),
        Option::None => Option::None,
    }
}

/// The up direction a policy selects: the target's up axis for `Target`, the
/// given direction for `Dir`, and the parent's up axis for `Parent`, falling
/// back to the global up axis when there is no parent.
pub open spec fn spec_resolve_up(
    updir: UpDirection,
    target_gt: GlobalTransform,
    parent_gt: Option<GlobalTransform>,
) -> Dir3 {
    match updir {
        UpDirection::Target => spec_gt_up(target_gt),
        UpDirection::Dir(dir) => dir,
        UpDirection::Parent => match parent_gt {
            Option::Some(parent) => spec_gt_up(parent),
            Option::None => spec_dir3_y(true),
        },
    }
}

/// The world-space rotation that points the rotated object's forward axis
/// from its own world position toward the target's, with `updir` as the up
/// reference; composed with a half turn about `updir` when `flip_vertical`
/// is set, the flip applied in world space.
pub open spec fn spec_world_rotation(
    rotator_gt: GlobalTransform,
    target_gt: GlobalTransform,
    updir: Dir3,
    flip_vertical: bool,
) -> Quat {
    let base = spec_looking_at(
        spec_transform_translation(spec_compute_transform(rotator_gt)),
        spec_transform_translation(spec_compute_transform(target_gt)),
        updir,
    );
    if flip_vertical {
        spec_quat_mul(spec_flip_quat(updir), base)
    } else {
        base
    }
}

/// The rotation of `spec_world_rotation`, carried into the parent's local
/// frame when the rotated object has a parent: the inverse of the parent's
/// world rotation composed with the world-space rotation. Without a parent
/// the world-space rotation is itself the local rotation.
pub open spec fn spec_local_rotation(
    rotator_gt: GlobalTransform,
    target_gt: GlobalTransform,
    parent_gt: Option<GlobalTransform>,
    updir: Dir3,
    flip_vertical: bool,
) -> Quat {
    let world = spec_world_rotation(rotator_gt, target_gt, updir, flip_vertical);
    match parent_gt {
        Option::Some(parent) => spec_quat_mul(
            spec_quat_inverse(spec_transform_rotation(spec_compute_transform(parent))),
            world,
        ),
        Option::None => world,
    }
}

/// The policy's up direction is well defined: the world transform it reads
/// an up axis from, if any, has one. A degenerate transform (zero or
/// non-finite y column) has none, and the engine cannot produce a direction
/// from it.
pub open spec fn spec_up_defined(
    updir: UpDirection,
    target_gt: GlobalTransform,
    parent_gt: Option<GlobalTransform>,
) -> bool {
    match updir {
        UpDirection::Target => spec_gt_up_defined(target_gt),
        UpDirection::Dir(_) => true,
        UpDirection::Parent => match parent_gt {
            Option::Some(parent) => spec_gt_up_defined(parent),
            Option::None => true,
        },
    }
}

/// Selects the concrete up direction for a policy, from the target's world
/// transform and the parent's, when present. The transform the policy reads
/// must have a well-defined up axis, or the engine's accessor could panic;
/// `try_resolve_up` tests that first and never demands it.
pub fn resolve_up(
    updir: &UpDirection,
    target_gt: &GlobalTransform,
    parent_gt: Option<&GlobalTransform>,
) -> (up: Dir3)
    requires
        spec_up_defined(*updir, *target_gt, spec_opt_transform(parent_gt)),
    ensures
        up == spec_resolve_up(*updir, *target_gt, spec_opt_transform(parent_gt)),
{
    match updir {
        UpDirection::Target => gt_up(target_gt),
        UpDirection::Dir(dir) => *dir,
        UpDirection::Parent => match parent_gt {
            Option::Some(parent) => gt_up(parent),
            Option::None => dir3_y(),
        },
    }
}

/// Selects the concrete up direction for a policy, first testing that the
/// transform the policy reads has a well-defined up axis: the direction where
/// it has, and nothing where it has not.
pub fn try_resolve_up(
    updir: &UpDirection,
    target_gt: &GlobalTransform,
    parent_gt: Option<&GlobalTransform>,
) -> (up: Option<Dir3>)
    ensures
        up is Some <==> spec_up_defined(*updir, *target_gt, spec_opt_transform(parent_gt)),
        spec_up_defined(*updir, *target_gt, spec_opt_transform(parent_gt)) ==> up
            == Option::Some(spec_resolve_up(*updir, *target_gt, spec_opt_transform(parent_gt))),
{
    match updir {
        UpDirection::Target => {
            if gt_up_defined(target_gt) {
                Option::Some(gt_up(target_gt))
            } else {
                Option::None
            }
        },
        UpDirection::Dir(dir) => Option::Some(*dir),
        UpDirection::Parent => match parent_gt {
            Option::Some(parent) => {
                if gt_up_defined(parent) {
                    Option::Some(gt_up(parent))
                } else {
                    Option::None
                }
            },
            Option::None => Option::Some(dir3_y()),
        },
    }
}

/// Calculates the local rotation on a rotator towards a target, adjusting for
/// rotations of eventual parents, with the selected rotator up direction.
///
/// When rotator and target stand at the same world position the forward
/// direction is degenerate; the engine's look-at construction then falls back
/// to a deterministic substitute axis, so the result is still pinned by the
/// contract.
pub fn calculate_local_rotation_to_target(
    rotator_gt: &GlobalTransform,
    target_gt: &GlobalTransform,
    parent_gt: Option<&GlobalTransform>,
    updir: Dir3,
    flip_vertical: bool,
) -> (rotation: Quat)
    ensures
        rotation == spec_local_rotation(
            *rotator_gt,
            *target_gt,
            spec_opt_transform(parent_gt),
            updir,
            flip_vertical,
        ),
{
    let target_gt_computed = compute_transform(target_gt);
    let rotator_gt_computed = compute_transform(rotator_gt);
    let mut rotation = looking_at_rotation(
        &rotator_gt_computed,
        transform_translation(&target_gt_computed),
        updir,
    );
    if flip_vertical {
        rotation = quat_mul(flip_about(updir), rotation);
    }
    match parent_gt {
        Option::Some(parent) => {
            let parent_gt_computed = compute_transform(parent);
            quat_mul(quat_inverse(&transform_rotation(&parent_gt_computed)), rotation)
        },
        Option::None => rotation,
    }
}

/// The `Parent` policy without a parent present resolves to exactly the same
/// up direction as a fixed direction equal to the global up axis.
pub proof fn lemma_parent_up_fallback(target_gt: GlobalTransform)
    ensures
        spec_resolve_up(UpDirection::Parent, target_gt, Option::None) == spec_resolve_up(
            UpDirection::Dir(spec_dir3_y(true)),
            target_gt,
            Option::None,
        ),
{
}

} // verus!
