use bevy_wry::components::bounds::{add_positions, to_webview_bounds, Anchor, Bounds};
use bevy_wry::dpi::{
    LogicalPosition, LogicalSize, PhysicalPosition, PhysicalSize, Position, Rect, ScaleFactor, Size,
};

fn logical(x: i64, y: i64, width: u32, height: u32) -> Rect {
    Rect {
        position: Position::Logical(LogicalPosition::new(x, y)),
        size: Size::Logical(LogicalSize::new(width, height)),
    }
}

fn resolve(anchor: Anchor) -> Rect {
    to_webview_bounds(
        anchor,
        Position::Logical(LogicalPosition::new(10, 10)),
        Size::Logical(LogicalSize::new(100, 50)),
        Size::Logical(LogicalSize::new(800, 600)),
        ScaleFactor::identity(),
    )
}

#[test]
fn center_adds_the_offset_to_the_center() {
    assert_eq!(resolve(Anchor::Center), logical(410, 310, 100, 50));
}

#[test]
fn full_screen_is_the_whole_window() {
    assert_eq!(resolve(Anchor::FullScreen), logical(0, 0, 800, 600));
}

#[test]
fn top_stretch_ignores_the_offset() {
    assert_eq!(resolve(Anchor::TopStretch), logical(0, 0, 800, 50));
}

#[test]
fn edge_anchors_pin_to_the_middle_of_their_edge() {
    assert_eq!(resolve(Anchor::Top), logical(410, 10, 100, 50));
    assert_eq!(resolve(Anchor::Bottom), logical(410, 610, 100, 50));
    assert_eq!(resolve(Anchor::Left), logical(10, 310, 100, 50));
    assert_eq!(resolve(Anchor::Right), logical(810, 310, 100, 50));
}

#[test]
fn corner_anchors_pin_to_their_corner() {
    assert_eq!(resolve(Anchor::TopLeft), logical(10, 10, 100, 50));
    assert_eq!(resolve(Anchor::TopRight), logical(810, 10, 100, 50));
    assert_eq!(resolve(Anchor::BottomLeft), logical(10, 610, 100, 50));
    assert_eq!(resolve(Anchor::BottomRight), logical(810, 610, 100, 50));
}

#[test]
fn edge_stretches_fill_one_axis() {
    assert_eq!(resolve(Anchor::BottomStretch), logical(0, 550, 800, 50));
    assert_eq!(resolve(Anchor::LeftStretch), logical(0, 0, 100, 600));
    assert_eq!(resolve(Anchor::RightStretch), logical(700, 0, 100, 600));
}

#[test]
fn center_stretches_fill_one_axis_through_the_center() {
    assert_eq!(resolve(Anchor::CenterVerticalStretch), logical(400, 0, 100, 600));
    assert_eq!(resolve(Anchor::CenterHorizontalStretch), logical(0, 300, 800, 50));
}

#[test]
fn resolving_twice_gives_the_same_rectangle() {
    let anchors = [
        Anchor::FullScreen,
        Anchor::Top,
        Anchor::Bottom,
        Anchor::Left,
        Anchor::Right,
        Anchor::Center,
        Anchor::TopStretch,
        Anchor::BottomStretch,
        Anchor::LeftStretch,
        Anchor::RightStretch,
        Anchor::TopLeft,
        Anchor::TopRight,
        Anchor::BottomLeft,
        Anchor::BottomRight,
        Anchor::CenterVerticalStretch,
        Anchor::CenterHorizontalStretch,
    ];
    for anchor in anchors {
        assert_eq!(resolve(anchor), resolve(anchor));
    }
}

#[test]
fn stretch_anchors_give_the_same_rectangle_for_every_offset() {
    let stretches = [
        Anchor::FullScreen,
        Anchor::TopStretch,
        Anchor::BottomStretch,
        Anchor::LeftStretch,
        Anchor::RightStretch,
        Anchor::CenterVerticalStretch,
        Anchor::CenterHorizontalStretch,
    ];
    for anchor in stretches {
        let moved = to_webview_bounds(
            anchor,
            Position::Physical(PhysicalPosition::new(-77, 12345)),
            Size::Logical(LogicalSize::new(100, 50)),
            Size::Logical(LogicalSize::new(800, 600)),
            ScaleFactor::identity(),
        );
        assert_eq!(moved, resolve(anchor));
    }
}

#[test]
fn point_anchor_takes_a_negative_offset() {
    let rect = to_webview_bounds(
        Anchor::BottomRight,
        Position::Logical(LogicalPosition::new(-100, -50)),
        Size::Logical(LogicalSize::new(100, 50)),
        Size::Logical(LogicalSize::new(800, 600)),
        ScaleFactor::identity(),
    );
    assert_eq!(rect, logical(700, 550, 100, 50));
}

#[test]
fn center_is_rounded_down() {
    let rect = to_webview_bounds(
        Anchor::Center,
        Position::Logical(LogicalPosition::new(0, 0)),
        Size::Logical(LogicalSize::new(1, 1)),
        Size::Logical(LogicalSize::new(801, 601)),
        ScaleFactor::identity(),
    );
    assert_eq!(rect, logical(400, 300, 1, 1));
}

#[test]
fn physical_lengths_are_divided_by_the_scale_factor() {
    let scale = ScaleFactor::new(2, 1).unwrap();
    let size = Size::Physical(PhysicalSize::new(200, 100));
    let rect = to_webview_bounds(
        Anchor::Center,
        Position::Physical(PhysicalPosition::new(20, -21)),
        size,
        Size::Physical(PhysicalSize::new(1600, 1200)),
        scale,
    );
    // A point anchor hands the size back as it came, unit and all.
    assert_eq!(
        rect,
        Rect { position: Position::Logical(LogicalPosition::new(410, 290)), size }
    );
    let stretched = to_webview_bounds(
        Anchor::RightStretch,
        Position::Physical(PhysicalPosition::new(20, -21)),
        size,
        Size::Physical(PhysicalSize::new(1600, 1200)),
        scale,
    );
    assert_eq!(stretched, logical(700, 0, 100, 600));
}

#[test]
fn fractional_scale_factor_rounds_toward_zero() {
    let scale = ScaleFactor::new(3, 2).unwrap();
    assert_eq!(scale.numer(), 3);
    assert_eq!(scale.denom(), 2);
    assert_eq!(scale.to_logical_len(100), 66);
    assert_eq!(
        PhysicalSize::new(100, 3).to_logical(scale),
        LogicalSize::new(66, 2)
    );
    assert_eq!(
        PhysicalPosition::new(-100, 100).to_logical(scale),
        LogicalPosition::new(-66, 66)
    );
    assert_eq!(
        LogicalSize::new(66, 1).to_physical(scale),
        PhysicalSize::new(99, 1)
    );
    assert_eq!(
        LogicalPosition::new(-67, 67).to_physical(scale),
        PhysicalPosition::new(-100, 100)
    );
}

#[test]
fn conversions_keep_a_value_that_is_in_the_unit_already() {
    let scale = ScaleFactor::new(5, 4).unwrap();
    let size = LogicalSize::new(7, 9);
    assert_eq!(Size::Logical(size).to_logical(scale), size);
    let position = LogicalPosition::new(-7, 9);
    assert_eq!(Position::Logical(position).to_logical(scale), position);
    let physical = PhysicalSize::new(7, 9);
    assert_eq!(Size::Physical(physical).to_physical(scale), physical);
    let point = PhysicalPosition::new(-7, 9);
    assert_eq!(Position::Physical(point).to_physical(scale), point);
    assert_eq!(Size::Logical(LogicalSize::new(8, 4)).to_physical(scale), PhysicalSize::new(10, 5));
    assert_eq!(
        Position::Logical(LogicalPosition::new(8, -4)).to_physical(scale),
        PhysicalPosition::new(10, -5)
    );
}

#[test]
fn scale_factor_has_positive_parts() {
    assert_eq!(ScaleFactor::new(0, 1), None);
    assert_eq!(ScaleFactor::new(1, 0), None);
    assert_eq!(ScaleFactor::new(0, 0), None);
    assert!(ScaleFactor::new(1, 1).is_some());
    assert_eq!(ScaleFactor::new(1, 1), Some(ScaleFactor::identity()));
}

#[test]
fn lengths_beyond_32_bits_are_held_to_the_largest() {
    // One device pixel is 1000 logical units: the logical width does not fit.
    let scale = ScaleFactor::new(1, 1000).unwrap();
    assert_eq!(
        PhysicalSize::new(u32::MAX, 5).to_logical(scale),
        LogicalSize::new(u32::MAX, 5000)
    );
    let wide = ScaleFactor::new(1000, 1).unwrap();
    assert_eq!(
        LogicalSize::new(u32::MAX, 5).to_physical(wide),
        PhysicalSize::new(u32::MAX, 5000)
    );
    assert_eq!(
        LogicalPosition::new(i64::MAX, i64::MIN).to_physical(wide),
        PhysicalPosition::new(i32::MAX, i32::MIN)
    );
}

#[test]
fn sum_of_positions_is_held_to_64_bits() {
    let scale = ScaleFactor::identity();
    let far = Position::Logical(LogicalPosition::new(i64::MAX, i64::MIN));
    let step = Position::Logical(LogicalPosition::new(1, -1));
    assert_eq!(
        add_positions(&far, &step, scale),
        Position::Logical(LogicalPosition::new(i64::MAX, i64::MIN))
    );
    let a = Position::Physical(PhysicalPosition::new(4, 6));
    let b = Position::Logical(LogicalPosition::new(10, -10));
    assert_eq!(
        add_positions(&a, &b, ScaleFactor::new(2, 1).unwrap()),
        Position::Logical(LogicalPosition::new(12, -7))
    );
}

#[test]
fn window_without_size_gives_rectangles_at_the_origin() {
    let empty = Size::Logical(LogicalSize::new(0, 0));
    let size = Size::Logical(LogicalSize::new(100, 50));
    let origin = Position::Logical(LogicalPosition::new(0, 0));
    let scale = ScaleFactor::identity();
    assert_eq!(
        to_webview_bounds(Anchor::FullScreen, origin, size, empty, scale),
        logical(0, 0, 0, 0)
    );
    assert_eq!(
        to_webview_bounds(Anchor::BottomStretch, origin, size, empty, scale),
        logical(0, 0, 0, 50)
    );
    assert_eq!(
        to_webview_bounds(Anchor::RightStretch, origin, size, empty, scale),
        logical(0, 0, 100, 0)
    );
    assert_eq!(
        to_webview_bounds(Anchor::BottomRight, origin, size, empty, scale),
        logical(0, 0, 100, 50)
    );
    assert_eq!(
        to_webview_bounds(Anchor::Center, origin, size, empty, scale),
        logical(0, 0, 100, 50)
    );
}

#[test]
fn stretch_larger_than_the_window_is_pinned_at_zero() {
    let rect = to_webview_bounds(
        Anchor::BottomStretch,
        Position::Logical(LogicalPosition::new(0, 0)),
        Size::Logical(LogicalSize::new(10, 700)),
        Size::Logical(LogicalSize::new(800, 600)),
        ScaleFactor::identity(),
    );
    assert_eq!(rect, logical(0, 0, 800, 700));
}

#[test]
fn bounds_resolve_by_their_kind() {
    let window = Size::Physical(PhysicalSize::new(1600, 1200));
    let scale = ScaleFactor::new(2, 1).unwrap();
    assert_eq!(Bounds::FullScreen.to_webview_bounds(window, scale), logical(0, 0, 800, 600));
    let fixed = Rect {
        position: Position::Physical(PhysicalPosition::new(5, 6)),
        size: Size::Physical(PhysicalSize::new(7, 8)),
    };
    assert_eq!(Bounds::Absolute(fixed).to_webview_bounds(window, scale), fixed);
    let relative = Bounds::Relative { anchor: Anchor::Center, bounds: logical(10, 10, 100, 50) };
    assert_eq!(relative.to_webview_bounds(window, scale), logical(410, 310, 100, 50));
    let covering = Bounds::Relative { anchor: Anchor::FullScreen, bounds: logical(10, 10, 100, 50) };
    assert_eq!(covering.to_webview_bounds(window, scale), logical(0, 0, 800, 600));
}

#[test]
fn positions_and_sizes_are_tagged_with_their_unit() {
    assert_eq!(
        Position::from(LogicalPosition::new(1, -2)),
        Position::Logical(LogicalPosition::new(1, -2))
    );
    assert_eq!(
        Position::from(PhysicalPosition::new(1, -2)),
        Position::Physical(PhysicalPosition::new(1, -2))
    );
    let size: Size = LogicalSize::new(3, 4).into();
    assert_eq!(size, Size::Logical(LogicalSize::new(3, 4)));
    let size: Size = PhysicalSize::new(3, 4).into();
    assert_eq!(size, Size::Physical(PhysicalSize::new(3, 4)));
    let rect = to_webview_bounds(
        Anchor::TopRight,
        LogicalPosition::new(-100, 0).into(),
        LogicalSize::new(100, 50).into(),
        PhysicalSize::new(800, 600).into(),
        ScaleFactor::identity(),
    );
    assert_eq!(rect, logical(700, 0, 100, 50));
}
