//! The per-tick update: for every object carrying a directive, decide what
//! this tick does to its local rotation, and the refresh decision that keeps
//! cached world transforms consistent afterwards.

use crate::engine::{
    quat_is_finite, quat_within_tolerance, spec_quat_approx_eq, spec_quat_is_finite,
};
use crate::rotation::{
    calculate_local_rotation_to_target, spec_local_rotation, spec_resolve_up, spec_up_defined,
    try_resolve_up, RotateTo,
};
use bevy::ecs::entity::Entity;
use bevy::math::{Dir3, Quat};
use bevy::transform::components::GlobalTransform;
use vstd::prelude::*;

verus! {

/// The two error kinds the update can report.
#[derive(Clone, Copy, Debug, PartialEq)]
pub enum RotateError {
    /// The directive's target handle did not resolve to an object with a
    /// world transform. Non-fatal and local: the rotated object keeps its
    /// previous rotation this tick, and every other object is processed
    /// normally.
    TargetNotFound {
        /// The object carrying the directive.
        rotator: Entity,
        /// The handle that did not resolve.
        target: Entity,
    },
    /// Recomputing the object's world transform failed, so dependents would
    /// read a stale value; surfaced to the host, never swallowed.
    RefreshFailed {
        /// The object whose refresh failed.
        entity: Entity,
    },
}

/// The rotated object's parent link, as the host resolved it this tick.
/// A parent whose world transform could not be resolved is not the same as
/// no parent: a failed lookup leaves the object untouched this tick, while
/// an object without a parent is rotated in world space.
#[derive(Clone, Copy, Debug, PartialEq)]
pub enum ParentLink {
    /// The object has no parent: it sits at the scene root.
    Root,
    /// The parent's world transform, from this tick's propagation pass.
    Resolved(GlobalTransform),
    /// The object has a parent whose world transform the host could not
    /// resolve.
    Unresolved,
}

/// Everything the per-tick update reads about one object carrying a
/// directive, resolved by the host from its scene graph: the object's own
/// world transform and current local rotation, the directive, the target's
/// world transform where its handle resolved, and the parent link.
#[derive(Clone, Copy, Debug)]
pub struct RotatorRecord {
    /// The object being rotated.
    pub entity: Entity,
    /// Its world transform, from this tick's propagation pass.
    pub world: GlobalTransform,
    /// Its currently stored local rotation.
    pub rotation: Quat,
    /// The directive attached to it.
    pub directive: RotateTo,
    /// The target's world transform, when the directive's handle resolved.
    pub target_world: Option<GlobalTransform>,
    /// The parent link, as the host resolved it.
    pub parent_world: ParentLink,
}

/// What the update decides for one object this tick.
#[derive(Clone, Copy, Debug, PartialEq)]
pub enum RotateOutcome {
    /// Overwrite the stored local rotation with this value.
    Rotate(Quat),
    /// The stored rotation is already within tolerance of the wanted one:
    /// no write, so no change event and no downstream recomputation.
    Unchanged,
    /// The object has a parent whose lookup failed: the stored rotation is
    /// left at its prior value, nothing is computed or written this tick.
    ParentUnresolved,
    /// The transform the up policy reads has no well-defined up axis (a
    /// degenerate matrix): the stored rotation is left as it was, rather
    /// than an undefined direction propagated.
    UpUndefined,
    /// Report this error and leave the stored rotation as it was.
    Report(RotateError),
}

/// The parent's world transform, where the link resolved to one.
pub open spec fn spec_parent_transform(link: ParentLink) -> Option<GlobalTransform> {
    match link {
        ParentLink::Resolved(gt) => Option::Some(gt),
        ParentLink::Root => Option::None,
        ParentLink::Unresolved => Option::None,
    }
}

/// The up direction the record's directive selects, once the target resolved.
pub open spec fn spec_record_up(rec: RotatorRecord, target_gt: GlobalTransform) -> Dir3 {
    spec_resolve_up(rec.directive.updir, target_gt, spec_parent_transform(rec.parent_world))
}

/// The record's up policy reads a transform with a well-defined up axis.
pub open spec fn spec_record_up_defined(rec: RotatorRecord) -> bool {
    match rec.target_world {
        Option::Some(target_gt) => spec_up_defined(
            rec.directive.updir,
            target_gt,
            spec_parent_transform(rec.parent_world),
        ),
        Option::None => false,
    }
}

/// The local rotation the update wants the record's object to have: the one
/// that points its forward axis at the target under the directive's up policy
/// and flip flag. Where the target did not resolve, or a parent link did not,
/// the stored rotation stands.
pub open spec fn spec_desired_rotation(rec: RotatorRecord) -> Quat {
    match rec.target_world {
        Option::Some(target_gt) => {
            if rec.parent_world is Unresolved {
                rec.rotation
            } else {
                spec_local_rotation(
                    rec.world,
                    target_gt,
                    spec_parent_transform(rec.parent_world),
                    spec_record_up(rec, target_gt),
                    rec.directive.flip_vertical,
                )
            }
        },
        Option::None => rec.rotation,
    }
}

/// The outcome the update owes one record: a missing target is reported and
/// nothing is written; a failed parent lookup, or an up policy left without a
/// usable axis, writes nothing either; otherwise the wanted rotation is
/// computed and written only when it is not already within tolerance of the
/// stored one.
pub open spec fn spec_rotate_outcome(rec: RotatorRecord) -> RotateOutcome {
    match rec.target_world {
        Option::None => RotateOutcome::Report(
            RotateError::TargetNotFound { rotator: rec.entity, target: rec.directive.entity },
        ),
        Option::Some(_) => {
            if rec.parent_world is Unresolved {
                RotateOutcome::ParentUnresolved
            } else if !spec_record_up_defined(rec) {
                RotateOutcome::UpUndefined
            } else if spec_quat_approx_eq(spec_desired_rotation(rec), rec.rotation) {
                RotateOutcome::Unchanged
            } else {
                RotateOutcome::Rotate(spec_desired_rotation(rec))
            }
        },
    }
}

/// The record is settled: every lookup resolved, the up axis is well defined,
/// and the stored rotation is already exactly the wanted one, as when target,
/// parent and rotator world positions are unchanged since the previous tick
/// wrote it, and finite.
pub open spec fn spec_settled(rec: RotatorRecord) -> bool {
    &&& rec.target_world is Some
    &&& !(rec.parent_world is Unresolved)
    &&& spec_record_up_defined(rec)
    &&& rec.rotation == spec_desired_rotation(rec)
    &&& spec_quat_is_finite(rec.rotation)
}

/// Decides one object's update for this tick.
///
/// The last clause is the update's idempotence: a settled object gets no
/// write, so no change event and no downstream recomputation.
pub fn rotation_outcome(rec: &RotatorRecord) -> (outcome: RotateOutcome)
    ensures
        outcome == spec_rotate_outcome(*rec),
        rec.target_world is None ==> outcome == (RotateOutcome::Report(
            RotateError::TargetNotFound { rotator: rec.entity, target: rec.directive.entity },
        )),
        (rec.target_world is Some && rec.parent_world is Unresolved) ==> outcome
            == RotateOutcome::ParentUnresolved,
        spec_settled(*rec) ==> outcome == RotateOutcome::Unchanged,
{
    match rec.target_world {
        Option::None => RotateOutcome::Report(
            RotateError::TargetNotFound { rotator: rec.entity, target: rec.directive.entity },
        ),
        Option::Some(target_gt) => {
            let parent_ref: Option<&GlobalTransform> = match &rec.parent_world {
                ParentLink::Resolved(parent_gt) => Option::Some(parent_gt),
                ParentLink::Root => Option::None,
                ParentLink::Unresolved => {
                    return RotateOutcome::ParentUnresolved;
                },
            };
            let updir = match try_resolve_up(&rec.directive.updir, &target_gt, parent_ref) {
                Option::Some(up) => up,
                Option::None => {
                    return RotateOutcome::UpUndefined;
                },
            };
            let rotation = calculate_local_rotation_to_target(
                &rec.world,
                &target_gt,
                parent_ref,
                updir,
                rec.directive.flip_vertical,
            );
            if quat_within_tolerance(&rotation, &rec.rotation) {
                RotateOutcome::Unchanged
            } else {
                RotateOutcome::Rotate(rotation)
            }
        },
    }
}

/// Runs the per-tick update over every object carrying a directive: one
/// outcome per record, in order, each depending on its own record alone, so
/// that a failed lookup on one object never affects another's processing.
/// A settled object (nothing moved since the previous tick wrote it) gets no
/// write.
pub fn rotate_towards(records: &Vec<RotatorRecord>) -> (outcomes: Vec<RotateOutcome>)
    ensures
        outcomes@.len() == records@.len(),
        forall|i: int|
            0 <= i < records@.len() ==> outcomes@[i] == spec_rotate_outcome(
                #[trigger] records@[i],
            ),
        forall|i: int|
            0 <= i < records@.len() && spec_settled(#[trigger] records@[i])
                ==> outcomes@[i] == RotateOutcome::Unchanged,
{
    let mut outcomes: Vec<RotateOutcome> = Vec::new();
    let mut idx: usize = 0;
    while idx < records.len()
        invariant
            idx <= records@.len(),
            outcomes@.len() == idx,
            forall|i: int|
                0 <= i < idx ==> outcomes@[i] == spec_rotate_outcome(#[trigger] records@[i]),
            forall|i: int|
                0 <= i < idx && spec_settled(#[trigger] records@[i]) ==> outcomes@[i]
                    == RotateOutcome::Unchanged,
        decreases records@.len() - idx,
    {
        let outcome = rotation_outcome(&records[idx]);
        outcomes.push(outcome);
        idx = idx + 1;
    }
    outcomes
}

/// Whether a rotation is finite in every component. A rotation the update
/// wrote that passes this test makes its record settled on the next tick when
/// nothing has moved (see `lemma_second_tick_settled`): a non-finite rotation
/// differs from itself under the engine's tolerance metric and is rewritten
/// every tick.
pub fn rotation_is_finite(rotation: &Quat) -> (finite: bool)
    ensures
        finite == spec_quat_is_finite(*rotation),
{
    quat_is_finite(rotation)
}

/// The refresh decision for one object whose local transform was written this
/// tick: a recomputed world transform is handed back to be cached, and a
/// failed recomputation is surfaced as an error.
pub open spec fn spec_refresh_outcome(entity: Entity, recomputed: Option<GlobalTransform>) -> Result<
    GlobalTransform,
    RotateError,
> {
    match recomputed {
        Option::Some(gt) => Result::Ok(gt),
        Option::None => Result::Err(RotateError::RefreshFailed { entity }),
    }
}

/// Decides the refresh of one object's cached world transform after its local
/// rotation was written this tick. `recomputed` is what the host's
/// recomputation from the current hierarchy returned, when it succeeded:
/// success hands the transform back to be cached, and failure (a broken
/// ancestor chain) is surfaced as `RefreshFailed`, never ignored.
pub fn refresh_world_transform(entity: Entity, recomputed: Option<GlobalTransform>) -> (refreshed:
    Result<GlobalTransform, RotateError>)
    ensures
        refreshed == spec_refresh_outcome(entity, recomputed),
        recomputed is Some ==> refreshed is Ok,
        recomputed is None ==> refreshed is Err,
{
    match recomputed {
        Option::Some(gt) => Result::Ok(gt),
        Option::None => Result::Err(RotateError::RefreshFailed { entity }),
    }
}

/// Idempotence across ticks: where a first tick resolved its lookups, had a
/// well-defined up axis and wrote the wanted rotation, and the world
/// transforms of rotator, target and parent are unchanged at the second tick,
/// the second tick's record is settled, and by the update's contract a
/// settled record gets no write. The wanted rotation must be finite; a
/// degenerate stored rotation is rewritten every tick.
pub proof fn lemma_second_tick_settled(first: RotatorRecord, second: RotatorRecord)
    requires
        first.target_world is Some,
        !(first.parent_world is Unresolved),
        spec_record_up_defined(first),
        second.entity == first.entity,
        second.world == first.world,
        second.directive == first.directive,
        second.target_world == first.target_world,
        second.parent_world == first.parent_world,
        second.rotation == spec_desired_rotation(first),
        spec_quat_is_finite(second.rotation),
    ensures
        spec_settled(second),
{
}

/// A missing target is reported, identifying the rotated object and the
/// handle that did not resolve, and nothing is written for that object; the
/// outcome of a record depends on that record alone, so no other object's
/// processing is affected.
pub proof fn lemma_missing_target_reported(rec: RotatorRecord)
    requires
        rec.target_world is None,
    ensures
        spec_rotate_outcome(rec) == (RotateOutcome::Report(
            RotateError::TargetNotFound { rotator: rec.entity, target: rec.directive.entity },
        )),
{
}

/// A failed parent lookup leaves the object untouched this tick: nothing is
/// computed and nothing is written, whatever the stored rotation holds.
pub proof fn lemma_unresolved_parent_skipped(rec: RotatorRecord)
    requires
        rec.target_world is Some,
        rec.parent_world is Unresolved,
    ensures
        spec_rotate_outcome(rec) == RotateOutcome::ParentUnresolved,
{
}

} // verus!
