//! Where on a UI node the anchor point sits, and how a node's anchoring is
//! configured.

use vstd::prelude::*;

use bevy::math::Vec3;

verus! {

/// Where on the height of an anchored UI node the anchor point is located.
#[derive(Clone, Copy, Debug, PartialEq, Eq, PartialOrd, Ord, Structural)]
pub enum VerticalAnchor {
    Top,
    Mid,
    Bottom,
}

/// Where on the width of an anchored UI node the anchor point is located.
#[derive(Clone, Copy, Debug, PartialEq, Eq, Structural)]
pub enum HorizontalAnchor {
    Left,
    Mid,
    Right,
}

impl Default for VerticalAnchor {
    fn default() -> (r: Self)
        ensures
            r == VerticalAnchor::Mid,
    {
        VerticalAnchor::Mid
    }
}

impl Default for HorizontalAnchor {
    fn default() -> (r: Self)
        ensures
            r == HorizontalAnchor::Mid,
    {
        HorizontalAnchor::Mid
    }
}

/// The point on a UI node that is kept on the screen-space projection of the
/// tracked world position.
#[derive(Clone, Copy, Debug, PartialEq, Eq, Structural)]
pub struct AnchorPoint {
    /// Where on the node's width the anchor point is located.
    pub horizontal: HorizontalAnchor,
    /// Where on the node's height the anchor point is located.
    pub vertical: VerticalAnchor,
}

impl AnchorPoint {
    pub fn topleft() -> (r: Self)
        ensures
            r == (AnchorPoint { horizontal: HorizontalAnchor::Left, vertical: VerticalAnchor::Top }),
    {
        AnchorPoint { horizontal: HorizontalAnchor::Left, vertical: VerticalAnchor::Top }
    }

    pub fn topright() -> (r: Self)
        ensures
            r == (AnchorPoint { horizontal: HorizontalAnchor::Right, vertical: VerticalAnchor::Top }),
    {
        AnchorPoint { horizontal: HorizontalAnchor::Right, vertical: VerticalAnchor::Top }
    }

    pub fn bottomleft() -> (r: Self)
        ensures
            r == (AnchorPoint {
                horizontal: HorizontalAnchor::Left,
                vertical: VerticalAnchor::Bottom,
            }),
    {
        AnchorPoint { horizontal: HorizontalAnchor::Left, vertical: VerticalAnchor::Bottom }
    }

    pub fn bottomright() -> (r: Self)
        ensures
            r == (AnchorPoint {
                horizontal: HorizontalAnchor::Right,
                vertical: VerticalAnchor::Bottom,
            }),
    {
        AnchorPoint { horizontal: HorizontalAnchor::Right, vertical: VerticalAnchor::Bottom }
    }

    pub fn middle() -> (r: Self)
        ensures
            r == (AnchorPoint { horizontal: HorizontalAnchor::Mid, vertical: VerticalAnchor::Mid }),
    {
        AnchorPoint { horizontal: HorizontalAnchor::Mid, vertical: VerticalAnchor::Mid }
    }
}

impl Default for AnchorPoint {
    /// The default anchor point is the center of the node.
    fn default() -> (r: Self)
        ensures
            r == (AnchorPoint { horizontal: HorizontalAnchor::Mid, vertical: VerticalAnchor::Mid }),
    {
        AnchorPoint { horizontal: HorizontalAnchor::Mid, vertical: VerticalAnchor::Mid }
    }
}

/// How far the anchor point sits into the node's width, counted in
/// half-widths: the number of half-widths to subtract from the projected x
/// position to reach the node's left edge.
pub fn horizontal_half_insets(horizontal: HorizontalAnchor) -> (r: u8)
    ensures
        horizontal == HorizontalAnchor::Left ==> r == 0,
        horizontal == HorizontalAnchor::Mid ==> r == 1,
        horizontal == HorizontalAnchor::Right ==> r == 2,
{
    match horizontal {
        HorizontalAnchor::Left => 0,
        HorizontalAnchor::Mid => 1,
        HorizontalAnchor::Right => 2,
    }
}

/// How far the anchor point sits into the node's height, counted in
/// half-heights: the number of half-heights to subtract, beside the projected
/// y position, from the window height to reach the node's bottom edge.
pub fn vertical_half_insets(vertical: VerticalAnchor) -> (r: u8)
    ensures
        vertical == VerticalAnchor::Top ==> r == 2,
        vertical == VerticalAnchor::Mid ==> r == 1,
        vertical == VerticalAnchor::Bottom ==> r == 0,
{
    match vertical {
        VerticalAnchor::Top => 2,
        VerticalAnchor::Mid => 1,
        VerticalAnchor::Bottom => 0,
    }
}

/// How a UI node is anchored to the world position it tracks.
#[derive(Clone, Copy, Debug, PartialEq)]
pub struct AnchorUiConfig {
    /// Where on the UI node the anchor point is located.
    pub anchorpoint: AnchorPoint,
    /// A world-space offset added to the tracked position before projecting,
    /// useful to place the node away from what it points at.
    pub offset: Option<Vec3>,
}

impl AnchorUiConfig {
    pub fn with_offset(self, offset: Vec3) -> (r: Self)
        ensures
            r.offset == Some(offset),
            r.anchorpoint == self.anchorpoint,
    {
        AnchorUiConfig { offset: Some(offset), ..self }
    }

    pub fn with_horizontal_anchoring(self, horizontal: HorizontalAnchor) -> (r: Self)
        ensures
            r.anchorpoint.horizontal == horizontal,
            r.anchorpoint.vertical == self.anchorpoint.vertical,
            r.offset == self.offset,
    {
        AnchorUiConfig {
            anchorpoint: AnchorPoint { horizontal, vertical: self.anchorpoint.vertical },
            ..self
        }
    }

    pub fn with_vertical_anchoring(self, vertical: VerticalAnchor) -> (r: Self)
        ensures
            r.anchorpoint.vertical == vertical,
            r.anchorpoint.horizontal == self.anchorpoint.horizontal,
            r.offset == self.offset,
    {
        AnchorUiConfig {
            anchorpoint: AnchorPoint { horizontal: self.anchorpoint.horizontal, vertical },
            ..self
        }
    }
}

impl Default for AnchorUiConfig {
    /// By default the center of the node sits on the tracked position, with
    /// no offset.
    fn default() -> (r: Self)
        ensures
            r.anchorpoint == (AnchorPoint {
                horizontal: HorizontalAnchor::Mid,
                vertical: VerticalAnchor::Mid,
            }),
            r.offset is None,
    {
        AnchorUiConfig { anchorpoint: AnchorPoint::default(), offset: None }
    }
}

} // verus!
