//! Keeps objects facing a target. Each tick, for every object carrying a
//! [`RotateTo`] directive, the crate computes the local rotation that points
//! the object's forward axis at the target's current world position, with a
//! configurable up reference, converts it into the parent's local frame, and
//! decides whether the stored rotation must be overwritten; afterwards it
//! decides the refresh of the cached world transform of every object that was
//! written, so dependents read a consistent value within the same tick.
//!
//! The host scene graph stays outside: the host resolves handles to world
//! transforms, hands the crate one [`RotatorRecord`] per object, and applies
//! the returned outcomes.

use vstd::prelude::*;

pub mod engine;
pub mod rotation;
pub mod update;

pub use rotation::calculate_local_rotation_to_target;
pub use rotation::lemma_parent_up_fallback;
pub use rotation::resolve_up;
pub use rotation::try_resolve_up;
pub use rotation::RotateTo;
pub use rotation::UpDirection;
pub use update::lemma_missing_target_reported;
pub use update::lemma_second_tick_settled;
pub use update::lemma_unresolved_parent_skipped;
pub use update::refresh_world_transform;
pub use update::rotate_towards;
pub use update::rotation_is_finite;
pub use update::rotation_outcome;
pub use update::ParentLink;
pub use update::RotateError;
pub use update::RotateOutcome;
pub use update::RotatorRecord;

verus! {

/// Systems that rotate an object so that its forward axis tracks a target.
/// The crate's name for the set; the host's scheduling trait cannot be
/// implemented on a verified type, so the glue that wires the systems into an
/// engine carries its own copy of this enum.
#[derive(Debug, Hash, PartialEq, Eq, Clone)]
pub enum RotateTowardsSystems {
    /// The system that applies the rotation toward the target.
    ApplyRotation,
}

/// The plugin that, wired into a host loop, runs the per-tick rotation update
/// and then the refresh of cached world transforms, after the host's own
/// transform propagation. The crate's name for it; the host's plugin trait
/// cannot be implemented on a verified type, so the glue that registers the
/// systems carries its own copy of this struct.
pub struct RotateTowardsPlugin;

} // verus!
