use reveal_winui::placement::{
    margin_direction, point_alignment, point_initial_side, tool_tip_sides, ExtentShift,
    FlyoutPlacementMode, MajorPlacementMode, PlacementMode, PointPlacementKind,
    PreferredJustification, TextDirection,
};

#[test]
fn top_tries_bottom_before_the_horizontal_sides() {
    let side = FlyoutPlacementMode::Top.major(TextDirection::Ltr);
    assert_eq!(side, MajorPlacementMode::Top);
    assert_eq!(
        side.fallbacks(),
        [
            MajorPlacementMode::Top,
            MajorPlacementMode::Bottom,
            MajorPlacementMode::Left,
            MajorPlacementMode::Right
        ]
    );
}

#[test]
fn rtl_turns_a_left_side_right_and_keeps_the_edge_alignment() {
    let mode = FlyoutPlacementMode::LeftEdgeAlignedBottom;
    assert_eq!(mode.major(TextDirection::Rtl), MajorPlacementMode::Right);
    assert_eq!(mode.major(TextDirection::Ltr), MajorPlacementMode::Left);
    assert_eq!(mode.justification(), PreferredJustification::End);
}

#[test]
fn every_side_tries_its_opposite_second() {
    for side in [
        MajorPlacementMode::Top,
        MajorPlacementMode::Bottom,
        MajorPlacementMode::Left,
        MajorPlacementMode::Right,
    ] {
        let order = side.fallbacks();
        assert_eq!(order[0], side);
        assert_eq!(order[1].vertical(), side.vertical());
        assert_ne!(order[1], side);
        assert_ne!(order[2].vertical(), side.vertical());
        assert_ne!(order[3].vertical(), side.vertical());
        assert_ne!(order[2], order[3]);
    }
}

#[test]
fn left_falls_back_to_right_then_the_vertical_sides() {
    assert_eq!(
        MajorPlacementMode::Left.fallbacks(),
        [
            MajorPlacementMode::Left,
            MajorPlacementMode::Right,
            MajorPlacementMode::Top,
            MajorPlacementMode::Bottom
        ]
    );
}

#[test]
fn rtl_mirrors_only_the_horizontal_sides() {
    assert_eq!(FlyoutPlacementMode::Right.major(TextDirection::Rtl), MajorPlacementMode::Left);
    assert_eq!(FlyoutPlacementMode::Top.major(TextDirection::Rtl), MajorPlacementMode::Top);
    assert_eq!(
        FlyoutPlacementMode::BottomEdgeAlignedRight.major(TextDirection::Rtl),
        MajorPlacementMode::Bottom
    );
    assert_eq!(FlyoutPlacementMode::Full.major(TextDirection::Rtl), MajorPlacementMode::Full);
}

#[test]
fn justification_follows_the_edge_named_by_the_mode() {
    assert_eq!(FlyoutPlacementMode::Top.justification(), PreferredJustification::Center);
    assert_eq!(FlyoutPlacementMode::Full.justification(), PreferredJustification::Center);
    assert_eq!(
        FlyoutPlacementMode::TopEdgeAlignedLeft.justification(),
        PreferredJustification::Start
    );
    assert_eq!(
        FlyoutPlacementMode::RightEdgeAlignedTop.justification(),
        PreferredJustification::Start
    );
    assert_eq!(
        FlyoutPlacementMode::BottomEdgeAlignedRight.justification(),
        PreferredJustification::End
    );
}

#[test]
fn default_modes() {
    assert_eq!(FlyoutPlacementMode::default(), FlyoutPlacementMode::Top);
    assert_eq!(PointPlacementKind::default(), PointPlacementKind::Flyout);
    assert_eq!(PlacementMode::default(), PlacementMode::Top);
}

#[test]
fn vertical_sides() {
    assert!(MajorPlacementMode::Top.vertical());
    assert!(MajorPlacementMode::Bottom.vertical());
    assert!(!MajorPlacementMode::Left.vertical());
    assert!(!MajorPlacementMode::Right.vertical());
    assert!(!MajorPlacementMode::Full.vertical());
}

#[test]
fn point_placement_alignment_by_kind() {
    assert_eq!(
        point_alignment(FlyoutPlacementMode::Top, PointPlacementKind::Flyout),
        (ExtentShift::Half, ExtentShift::Whole)
    );
    assert_eq!(
        point_alignment(FlyoutPlacementMode::Left, PointPlacementKind::Flyout),
        (ExtentShift::Whole, ExtentShift::Half)
    );
    assert_eq!(
        point_alignment(FlyoutPlacementMode::Top, PointPlacementKind::Menu),
        (ExtentShift::Zero, ExtentShift::Zero)
    );
    assert_eq!(
        point_alignment(FlyoutPlacementMode::Bottom, PointPlacementKind::TouchMenu),
        (ExtentShift::Zero, ExtentShift::Whole)
    );
    assert_eq!(
        point_alignment(FlyoutPlacementMode::LeftEdgeAlignedBottom, PointPlacementKind::Flyout),
        (ExtentShift::Whole, ExtentShift::Whole)
    );
}

#[test]
fn touch_menus_start_above_the_point() {
    assert_eq!(
        point_initial_side(
            FlyoutPlacementMode::Bottom,
            TextDirection::Ltr,
            PointPlacementKind::TouchMenu
        ),
        MajorPlacementMode::Top
    );
    assert_eq!(
        point_initial_side(FlyoutPlacementMode::Bottom, TextDirection::Ltr, PointPlacementKind::Menu),
        MajorPlacementMode::Bottom
    );
    assert_eq!(
        point_initial_side(FlyoutPlacementMode::Left, TextDirection::Rtl, PointPlacementKind::Flyout),
        MajorPlacementMode::Right
    );
}

#[test]
fn margin_moves_away_from_the_target() {
    assert_eq!(margin_direction(MajorPlacementMode::Top), (0, -1));
    assert_eq!(margin_direction(MajorPlacementMode::Bottom), (0, 1));
    assert_eq!(margin_direction(MajorPlacementMode::Left), (-1, 0));
    assert_eq!(margin_direction(MajorPlacementMode::Right), (1, 0));
}

#[test]
fn tooltip_mouse_placement_tries_sides_like_top() {
    assert_eq!(tool_tip_sides(PlacementMode::Mouse), tool_tip_sides(PlacementMode::Top));
    let top = tool_tip_sides(PlacementMode::Top);
    assert_eq!(top[0], PlacementMode::Top);
    assert_eq!(top[1], PlacementMode::Bottom);
    let left = tool_tip_sides(PlacementMode::Left);
    assert_eq!(left[0], PlacementMode::Left);
    assert_eq!(left[1], PlacementMode::Right);
}
