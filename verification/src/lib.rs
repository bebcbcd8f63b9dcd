//! Anchor UI nodes to positions in the 3D world.
//!
//! A UI node tagged with [`AnchorUiNode`] follows the screen-space projection
//! of a target entity's world position. [`AnchorUiConfig`] chooses the point
//! on the node that is pinned to that position (a corner, an edge midpoint or
//! the center, via [`AnchorPoint`]) and an optional world-space offset that is
//! added before projecting.
//!
//! The host application runs a per-frame system that queries the primary
//! window, the marked camera and the anchored nodes, and then moves each node.
//! The pieces of that routine that decide and compute live here, verified:
//! the policy for the unique-window and unique-camera lookups
//! ([`resolve_single`]) and the projection pipeline for one node
//! ([`project_anchor`]), which leans on bevy's transform and camera helpers.

pub mod anchor;
pub mod host;
pub mod tracking;

pub use anchor::AnchorPoint;
pub use anchor::AnchorUiConfig;
pub use anchor::HorizontalAnchor;
pub use anchor::VerticalAnchor;
pub use anchor::horizontal_half_insets;
pub use anchor::vertical_half_insets;
pub use host::translation_of;
pub use host::vec3_sum;
pub use host::viewport_of;
pub use tracking::AnchorProjectionError;
pub use tracking::AnchorUiNode;
pub use tracking::SingleQueryOutcome;
pub use tracking::SingleResolution;
pub use tracking::apply_offset;
pub use tracking::camera_transform_resolution;
pub use tracking::offset_target;
pub use tracking::project_anchor;
pub use tracking::resolve_single;
pub use tracking::transform_or_error;
pub use tracking::viewport_or_offscreen;
