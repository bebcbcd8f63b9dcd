//! The verified core of the per-frame routine: the policy for the
//! unique-window and unique-camera lookups, and the projection pipeline that
//! turns one anchored node's target into a viewport position.

use vstd::prelude::*;

use bevy::ecs::entity::Entity;
use bevy::math::Vec3;
use bevy::render::camera::Camera;
use bevy::transform::components::GlobalTransform;
use bevy::transform::helper::TransformHelper;

use crate::anchor::AnchorUiConfig;
use crate::host::compute_global_transform;
use crate::host::translation;
use crate::host::translation_of;
use crate::host::vec3_add;
use crate::host::vec3_sum;
use crate::host::viewport_of;
use crate::host::world_to_viewport_with_depth;

verus! {

/// Marks a UI node as anchored: the node follows the screen-space projection
/// of the target entity's world position.
#[derive(Clone, Copy, Debug, PartialEq)]
pub struct AnchorUiNode {
    /// The UI node is placed on the screen where this entity is located in
    /// the world.
    pub target: Entity,
}

impl AnchorUiNode {
    /// Anchors the UI node to the given entity's world position.
    pub fn to_entity(entity: Entity) -> (r: Self)
        ensures
            r.target == entity,
    {
        AnchorUiNode { target: entity }
    }
}

/// What a lookup for a unique entity produced: no match, exactly one, or
/// several.
pub enum SingleQueryOutcome<T> {
    NoMatch,
    One(T),
    Multiple,
}

/// How the per-frame pass reacts to what one of its preparatory steps
/// produced.
#[derive(Debug, PartialEq, Eq)]
pub enum SingleResolution<T> {
    /// The step produced a value; the pass works with it.
    Use(T),
    /// There is nothing to update; the pass ends quietly.
    SkipQuietly,
    /// The pass ends, and the cause is worth reporting.
    SkipAndReport,
}

/// The per-frame pass needs exactly one primary window and exactly one camera
/// with the marker component. This is its policy for each of those lookups:
/// use a unique match, end the pass quietly when there is none, and end it
/// with a report when there are several.
pub fn resolve_single<T>(outcome: SingleQueryOutcome<T>) -> (r: SingleResolution<T>)
    ensures
        match outcome {
            SingleQueryOutcome::One(v) => r == SingleResolution::Use(v),
            SingleQueryOutcome::NoMatch => r == SingleResolution::<T>::SkipQuietly,
            SingleQueryOutcome::Multiple => r == SingleResolution::<T>::SkipAndReport,
        },
{
    match outcome {
        SingleQueryOutcome::One(v) => SingleResolution::Use(v),
        SingleQueryOutcome::NoMatch => SingleResolution::SkipQuietly,
        SingleQueryOutcome::Multiple => SingleResolution::SkipAndReport,
    }
}

/// The pass also needs the camera entity's own global transform: with a
/// computed transform it goes on, without one there is nothing to place
/// against, so it ends and the failure is worth reporting.
pub fn camera_transform_resolution(t: Option<GlobalTransform>) -> (r: SingleResolution<
    GlobalTransform,
>)
    ensures
        t is Some ==> r == SingleResolution::Use(t->0),
        t is None ==> r == SingleResolution::<GlobalTransform>::SkipAndReport,
{
    match t {
        Some(transform) => SingleResolution::Use(transform),
        None => SingleResolution::SkipAndReport,
    }
}

/// The world position a node tracks: the given position, shifted by the
/// configured offset when one is set, unchanged when none is.
pub open spec fn offset_target(position: Vec3, offset: Option<Vec3>) -> Vec3 {
    match offset {
        Some(o) => vec3_sum(position, o),
        None => position,
    }
}

/// Computes [`offset_target`]: the given position, shifted by the configured
/// offset when one is set, unchanged when none is.
pub fn apply_offset(position: Vec3, offset: Option<Vec3>) -> (r: Vec3)
    ensures
        r == offset_target(position, offset),
{
    match offset {
        Some(o) => vec3_add(position, o),
        None => position,
    }
}

/// Why a node's viewport position could not be computed this frame.
#[derive(Clone, Copy, Debug, PartialEq, Eq, Structural)]
pub enum AnchorProjectionError {
    /// The target entity's global transform could not be computed; the node
    /// is left where it is.
    TargetTransform,
    /// The tracked position does not project onto the camera's viewport; the
    /// node is offscreen and left where it is.
    Offscreen,
}

/// The first decision of the pipeline: a computed global transform is passed
/// on, a failed lookup becomes the target-transform error.
pub fn transform_or_error(t: Option<GlobalTransform>) -> (r: Result<
    GlobalTransform,
    AnchorProjectionError,
>)
    ensures
        t is Some ==> r == Ok::<GlobalTransform, AnchorProjectionError>(t->0),
        t is None ==> r == Err::<GlobalTransform, AnchorProjectionError>(
            AnchorProjectionError::TargetTransform,
        ),
{
    match t {
        Some(transform) => Ok(transform),
        None => Err(AnchorProjectionError::TargetTransform),
    }
}

/// The last decision of the pipeline: a projected position is passed on, a
/// point that did not land on the viewport becomes the offscreen error.
pub fn viewport_or_offscreen(p: Option<Vec3>) -> (r: Result<Vec3, AnchorProjectionError>)
    ensures
        p is Some ==> r == Ok::<Vec3, AnchorProjectionError>(p->0),
        p is None ==> r == Err::<Vec3, AnchorProjectionError>(AnchorProjectionError::Offscreen),
{
    match p {
        Some(position) => Ok(position),
        None => Err(AnchorProjectionError::Offscreen),
    }
}

/// The projection pipeline for one anchored node: compute the target entity's
/// global transform, take its translation, shift it by the configured offset,
/// and project the result into viewport coordinates with the given camera.
/// The depth of the point is kept in the z component of the result.
///
/// Each decision along the way is made by a verified stage:
/// [`transform_or_error`] maps the transform lookup's outcome,
/// [`apply_offset`] shifts the translation, and [`viewport_or_offscreen`]
/// maps the projection's outcome. A returned position is the projection of
/// some transform's translation, shifted by the configured offset; which
/// transform the lookup produced depends on the world the helper queries, so
/// no more is stated of it.
pub fn project_anchor(
    helper: &TransformHelper,
    camera: &Camera,
    camera_transform: &GlobalTransform,
    node: &AnchorUiNode,
    config: &AnchorUiConfig,
) -> (r: Result<Vec3, AnchorProjectionError>)
    ensures
        r is Ok ==> exists|gt: GlobalTransform|
            Some(r->Ok_0) == viewport_of(
                *camera,
                *camera_transform,
                offset_target(#[trigger] translation_of(gt), config.offset),
            ),
{
    let target_transform = match transform_or_error(
        compute_global_transform(helper, node.target),
    ) {
        Ok(t) => t,
        Err(e) => {
            return Err(e);
        },
    };
    let world_position = apply_offset(translation(&target_transform), config.offset);
    let projected = world_to_viewport_with_depth(camera, camera_transform, world_position);
    let result = viewport_or_offscreen(projected);
    proof {
        if result is Ok {
            assert(Some(result->Ok_0) == viewport_of(
                *camera,
                *camera_transform,
                offset_target(translation_of(target_transform), config.offset),
            ));
        }
    }
    result
}

} // verus!
