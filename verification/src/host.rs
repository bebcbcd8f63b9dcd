//! The host runtime's types and calls that the library leans on.
//!
//! Everything here is trusted: the type declarations make bevy's types known
//! to the verifier as opaque values, and each wrapper hands one bevy call
//! through. The doc comment of each wrapper names the call relied on.

use vstd::prelude::*;

use bevy::ecs::entity::Entity;
use bevy::math::Vec3;
use bevy::render::camera::Camera;
use bevy::transform::components::GlobalTransform;
use bevy::transform::helper::TransformHelper;

verus! {

/// bevy's entity id. Opaque: the library only stores it and hands it back to
/// the host runtime.
#[verifier::external_type_specification]
#[verifier::external_body]
pub struct ExEntity(Entity);

/// bevy's 3-component float vector. Opaque: the library carries positions and
/// offsets through without looking inside.
#[verifier::external_type_specification]
#[verifier::external_body]
pub struct ExVec3(Vec3);

/// bevy's global (world-space) transform component.
#[verifier::external_type_specification]
#[verifier::external_body]
pub struct ExGlobalTransform(GlobalTransform);

/// bevy's camera component.
#[verifier::external_type_specification]
#[verifier::external_body]
pub struct ExCamera(Camera);

/// bevy's system parameter for recomputing global transforms on demand.
#[verifier::external_type_specification]
#[verifier::external_body]
pub struct ExTransformHelper<'w, 's>(TransformHelper<'w, 's>);

/// What `GlobalTransform::translation` returns for a given transform: its
/// translation part, a world-space position.
pub uninterp spec fn translation_of(transform: GlobalTransform) -> Vec3;

/// What adding two `Vec3` values yields: their componentwise floating-point
/// sum.
pub uninterp spec fn vec3_sum(a: Vec3, b: Vec3) -> Vec3;

/// What `Camera::world_to_viewport_with_depth` yields for a given camera,
/// camera transform and world position: the point's viewport coordinates, or
/// nothing when the camera's viewport size is unknown or the point does not
/// land on the viewport.
pub uninterp spec fn viewport_of(
    camera: Camera,
    camera_transform: GlobalTransform,
    world_position: Vec3,
) -> Option<Vec3>;

/// Relies on `TransformHelper::compute_global_transform`: recomputes the
/// entity's global transform from its own and its ancestors' transforms.
/// Whether it succeeds depends on the world the helper queries (the entity
/// and every ancestor must exist and carry a transform), so nothing is
/// promised of the outcome.
#[verifier::external_body]
pub(crate) fn compute_global_transform(
    helper: &TransformHelper,
    entity: Entity,
) -> Option<GlobalTransform> {
    helper.compute_global_transform(entity).ok()
}

/// Relies on `GlobalTransform::translation`: the translation part of the
/// transform, a world-space position, a function of the transform alone.
#[verifier::external_body]
pub(crate) fn translation(transform: &GlobalTransform) -> (r: Vec3)
    ensures
        r == translation_of(*transform),
{
    transform.translation()
}

/// Relies on the `Add` impl of bevy's `Vec3` (glam): componentwise
/// floating-point addition, a function of the two operands alone.
#[verifier::external_body]
pub(crate) fn vec3_add(a: Vec3, b: Vec3) -> (r: Vec3)
    ensures
        r == vec3_sum(a, b),
{
    a + b
}

/// Relies on `Camera::world_to_viewport_with_depth`: projects a world-space
/// point into viewport coordinates (origin at the top left corner, depth of
/// the point in the z component). It fails when the camera's viewport size is
/// unknown or the point does not land on the viewport, and reads nothing but
/// its arguments, so its outcome is a function of them alone.
#[verifier::external_body]
pub(crate) fn world_to_viewport_with_depth(
    camera: &Camera,
    camera_transform: &GlobalTransform,
    world_position: Vec3,
) -> (r: Option<Vec3>)
    ensures
        r == viewport_of(*camera, *camera_transform, world_position),
{
    camera.world_to_viewport_with_depth(camera_transform, world_position).ok()
}

} // verus!
