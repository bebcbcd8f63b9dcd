use bevy::math::Vec3;
use bevy_ui_anchor::AnchorPoint;
use bevy_ui_anchor::AnchorUiConfig;
use bevy_ui_anchor::HorizontalAnchor;
use bevy_ui_anchor::VerticalAnchor;
use bevy_ui_anchor::horizontal_half_insets;
use bevy_ui_anchor::vertical_half_insets;

#[test]
fn default_vertical_anchor_is_mid() {
    assert_eq!(VerticalAnchor::default(), VerticalAnchor::Mid);
}

#[test]
fn default_horizontal_anchor_is_mid() {
    assert_eq!(HorizontalAnchor::default(), HorizontalAnchor::Mid);
}

#[test]
fn default_anchor_point_is_middle() {
    assert_eq!(AnchorPoint::default(), AnchorPoint::middle());
}

#[test]
fn anchor_point_corners() {
    assert_eq!(
        AnchorPoint::topleft(),
        AnchorPoint { horizontal: HorizontalAnchor::Left, vertical: VerticalAnchor::Top }
    );
    assert_eq!(
        AnchorPoint::topright(),
        AnchorPoint { horizontal: HorizontalAnchor::Right, vertical: VerticalAnchor::Top }
    );
    assert_eq!(
        AnchorPoint::bottomleft(),
        AnchorPoint { horizontal: HorizontalAnchor::Left, vertical: VerticalAnchor::Bottom }
    );
    assert_eq!(
        AnchorPoint::bottomright(),
        AnchorPoint { horizontal: HorizontalAnchor::Right, vertical: VerticalAnchor::Bottom }
    );
    assert_eq!(
        AnchorPoint::middle(),
        AnchorPoint { horizontal: HorizontalAnchor::Mid, vertical: VerticalAnchor::Mid }
    );
}

#[test]
fn horizontal_insets_count_half_widths_from_the_left_edge() {
    assert_eq!(horizontal_half_insets(HorizontalAnchor::Left), 0);
    assert_eq!(horizontal_half_insets(HorizontalAnchor::Mid), 1);
    assert_eq!(horizontal_half_insets(HorizontalAnchor::Right), 2);
}

#[test]
fn vertical_insets_count_half_heights_from_the_bottom_edge() {
    assert_eq!(vertical_half_insets(VerticalAnchor::Bottom), 0);
    assert_eq!(vertical_half_insets(VerticalAnchor::Mid), 1);
    assert_eq!(vertical_half_insets(VerticalAnchor::Top), 2);
}

#[test]
fn default_config_is_centered_without_offset() {
    let config = AnchorUiConfig::default();
    assert_eq!(config.anchorpoint, AnchorPoint::middle());
    assert_eq!(config.offset, None);
}

#[test]
fn with_offset_sets_the_offset_and_keeps_the_anchor() {
    let config = AnchorUiConfig::default().with_offset(Vec3::new(1.0, -2.0, 3.5));
    assert_eq!(config.offset, Some(Vec3::new(1.0, -2.0, 3.5)));
    assert_eq!(config.anchorpoint, AnchorPoint::middle());
}

#[test]
fn with_horizontal_anchoring_changes_only_the_horizontal_part() {
    let config = AnchorUiConfig::default()
        .with_offset(Vec3::new(4.0, 5.0, 6.0))
        .with_horizontal_anchoring(HorizontalAnchor::Right);
    assert_eq!(config.anchorpoint.horizontal, HorizontalAnchor::Right);
    assert_eq!(config.anchorpoint.vertical, VerticalAnchor::Mid);
    assert_eq!(config.offset, Some(Vec3::new(4.0, 5.0, 6.0)));
}

#[test]
fn with_vertical_anchoring_changes_only_the_vertical_part() {
    let config = AnchorUiConfig::default()
        .with_horizontal_anchoring(HorizontalAnchor::Left)
        .with_vertical_anchoring(VerticalAnchor::Bottom);
    assert_eq!(config.anchorpoint.vertical, VerticalAnchor::Bottom);
    assert_eq!(config.anchorpoint.horizontal, HorizontalAnchor::Left);
    assert_eq!(config.offset, None);
}

#[test]
fn chained_anchoring_builds_each_corner() {
    let topleft = AnchorUiConfig::default()
        .with_horizontal_anchoring(HorizontalAnchor::Left)
        .with_vertical_anchoring(VerticalAnchor::Top);
    assert_eq!(topleft.anchorpoint, AnchorPoint::topleft());
    let bottomright = AnchorUiConfig::default()
        .with_horizontal_anchoring(HorizontalAnchor::Right)
        .with_vertical_anchoring(VerticalAnchor::Bottom);
    assert_eq!(bottomright.anchorpoint, AnchorPoint::bottomright());
}
