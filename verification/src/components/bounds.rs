//! Where a webview sits in its window: the anchors, and the rectangle that an
//! anchor, an offset and a size come to in a window of a given size.
//!
//! A point anchor pins a widget of fixed size near a point of the window and
//! lets the offset nudge it. A stretch anchor fills one axis of the window;
//! its place is fixed by the edge it is pinned to, so it takes no offset.

use crate::dpi::{
    clamp, LogicalPosition, LogicalSize, Position as WryPosition, Rect, ScaleFactor,
    Size as WrySize,
};
use vstd::prelude::*;

verus! {

/// The point, edge or axis of the window that a webview is attached to.
#[derive(Clone, Copy, Debug, PartialEq, Eq, Structural)]
pub enum Anchor {
    /// Stretch to fill whole window
    FullScreen,
    /// Maintain position relative to the top edge of the window
    Top,
    /// Maintain position relative to the bottom edge of the window
    Bottom,
    /// Maintain position relative to the left edge of the window
    Left,
    /// Maintain position relative to the right edge of the window
    Right,
    /// Maintain position relative to the center of the window
    Center,
    /// Stretch on the top edge of the window
    TopStretch,
    /// Stretch on the bottom edge of the window
    BottomStretch,
    /// Stretch on the left edge of the window
    LeftStretch,
    /// Stretch on the right edge of the window
    RightStretch,
    /// Maintain position relative to the top left corner of the window
    TopLeft,
    /// Maintain position relative to the top right corner of the window
    TopRight,
    /// Maintain position relative to the bottom left corner of the window
    BottomLeft,
    /// Maintain position relative to the bottom right corner of the window
    BottomRight,
    /// Stretch from the bottom edge to the top edge, maintaining position relative to the center
    CenterVerticalStretch,
    /// Stretch from the left edge to the right edge, maintaining position relative to the center
    CenterHorizontalStretch,
}

impl Anchor {
    /// The resolved rectangle is as wide as the window.
    pub open spec fn spans_width(self) -> bool {
        self is FullScreen || self is TopStretch || self is BottomStretch
            || self is CenterHorizontalStretch
    }

    /// The resolved rectangle is as high as the window.
    pub open spec fn spans_height(self) -> bool {
        self is FullScreen || self is LeftStretch || self is RightStretch
            || self is CenterVerticalStretch
    }

    /// A point anchor: it spans neither axis, keeps the size it is given and
    /// adds the offset to its pin.
    pub open spec fn is_point(self) -> bool {
        !self.spans_width() && !self.spans_height()
    }

    /// The x coordinate of the pin, in a window `window` wide, for a
    /// rectangle `extent` wide.
    pub open spec fn pin_x(self, window: int, extent: int) -> int {
        match self {
            Anchor::Top | Anchor::Bottom | Anchor::Center | Anchor::CenterVerticalStretch => window
                / 2,
            Anchor::Right | Anchor::TopRight | Anchor::BottomRight => window,
            Anchor::RightStretch => clamp(window - extent, 0, window),
            _ => 0,
        }
    }

    /// The y coordinate of the pin, in a window `window` high, for a
    /// rectangle `extent` high.
    pub open spec fn pin_y(self, window: int, extent: int) -> int {
        match self {
            Anchor::Left | Anchor::Right | Anchor::Center | Anchor::CenterHorizontalStretch => window
                / 2,
            Anchor::Bottom | Anchor::BottomLeft | Anchor::BottomRight => window,
            Anchor::BottomStretch => clamp(window - extent, 0, window),
            _ => 0,
        }
    }
}

/// The offset of a webview from its anchor.
#[derive(Clone, Copy, Debug, PartialEq, Eq, Structural)]
pub struct Position(pub WryPosition);

/// The size of a webview.
#[derive(Clone, Copy, Debug, PartialEq, Eq, Structural)]
pub struct Size(pub WrySize);

/// The sum of two coordinates, held to what 64 bits can hold.
pub open spec fn sum_of_coordinates(a: int, b: int) -> int {
    clamp(a + b, i64::MIN as int, i64::MAX as int)
}

/// The sum of two positions, in logical units.
pub open spec fn sum_of_positions(
    position_a: WryPosition,
    position_b: WryPosition,
    scale_factor: ScaleFactor,
) -> WryPosition {
    let a = position_a.logical(scale_factor);
    let b = position_b.logical(scale_factor);
    WryPosition::Logical(
        LogicalPosition {
            x: sum_of_coordinates(a.x as int, b.x as int) as i64,
            y: sum_of_coordinates(a.y as int, b.y as int) as i64,
        },
    )
}

fn add_coordinates(a: i64, b: i64) -> (sum: i64)
    ensures
        sum == sum_of_coordinates(a as int, b as int),
{
    match a.checked_add(b) {
        Some(sum) => sum,
        None => if a > 0 {
            i64::MAX
        } else {
            i64::MIN
        },
    }
}

/// Adds two positions, each taken in logical units.
pub fn add_positions(
    position_a: &WryPosition,
    position_b: &WryPosition,
    scale_factor: ScaleFactor,
) -> (sum: WryPosition)
    ensures
        sum == sum_of_positions(*position_a, *position_b, scale_factor),
{
    let logical_a: LogicalPosition = position_a.to_logical(scale_factor);
    let logical_b: LogicalPosition = position_b.to_logical(scale_factor);

    WryPosition::Logical(
        LogicalPosition {
            x: add_coordinates(logical_a.x, logical_b.x),
            y: add_coordinates(logical_a.y, logical_b.y),
        },
    )
}

/// The rectangle that a webview anchored at `anchor` takes in a window of
/// size `window_size`.
///
/// Every length is first taken in logical units. The pin is the point of the
/// window that the anchor names; the center is at half the width and half the
/// height, rounded down. A point anchor gives the pin plus `position`, and
/// `size` as it came. Any other anchor gives the pin alone, and a logical size
/// that is the window's along each axis it spans and `size`'s along the other.
pub open spec fn resolved_bounds(
    anchor: Anchor,
    position: WryPosition,
    size: WrySize,
    window_size: WrySize,
    scale_factor: ScaleFactor,
) -> Rect {
    let window = window_size.logical(scale_factor);
    let current = size.logical(scale_factor);
    let pin = LogicalPosition {
        x: anchor.pin_x(window.width as int, current.width as int) as i64,
        y: anchor.pin_y(window.height as int, current.height as int) as i64,
    };
    if anchor.is_point() {
        Rect {
            position: sum_of_positions(WryPosition::Logical(pin), position, scale_factor),
            size,
        }
    } else {
        Rect {
            position: WryPosition::Logical(pin),
            size: WrySize::Logical(
                LogicalSize {
                    width: if anchor.spans_width() {
                        window.width
                    } else {
                        current.width
                    },
                    height: if anchor.spans_height() {
                        window.height
                    } else {
                        current.height
                    },
                },
            ),
        }
    }
}

fn logical_rect(x: u32, y: u32, width: u32, height: u32) -> (rect: Rect)
    ensures
        rect == (Rect {
            position: WryPosition::Logical(LogicalPosition { x: x as i64, y: y as i64 }),
            size: WrySize::Logical(LogicalSize { width, height }),
        }),
{
    Rect {
        position: WryPosition::Logical(LogicalPosition { x: x as i64, y: y as i64 }),
        size: WrySize::Logical(LogicalSize { width, height }),
    }
}

fn pinned(x: u32, y: u32, size: WrySize) -> (rect: Rect)
    ensures
        rect == (Rect {
            position: WryPosition::Logical(LogicalPosition { x: x as i64, y: y as i64 }),
            size,
        }),
{
    Rect { position: WryPosition::Logical(LogicalPosition { x: x as i64, y: y as i64 }), size }
}

/// Resolves an anchor, an offset and a size to the rectangle that the webview
/// takes in a window of size `window_size`.
pub fn to_webview_bounds(
    anchor: Anchor,
    position: WryPosition,
    size: WrySize,
    window_size: WrySize,
    scale_factor: ScaleFactor,
) -> (rect: Rect)
    ensures
        rect == resolved_bounds(anchor, position, size, window_size, scale_factor),
{
    let window: LogicalSize = window_size.to_logical(scale_factor);
    let window_width: u32 = window.width;
    let window_height: u32 = window.height;

    let center_x: u32 = window_width / 2;
    let center_y: u32 = window_height / 2;
    let current_size: LogicalSize = size.to_logical(scale_factor);
    let relative_bounds = match anchor {
        Anchor::FullScreen => {
            return logical_rect(0, 0, window_width, window_height);
        },
        Anchor::Top => pinned(center_x, 0, size),
        Anchor::Bottom => pinned(center_x, window_height, size),
        Anchor::Left => pinned(0, center_y, size),
        Anchor::Right => pinned(window_width, center_y, size),
        Anchor::Center => pinned(center_x, center_y, size),
        Anchor::TopStretch => logical_rect(0, 0, window_width, current_size.height),
        Anchor::BottomStretch => logical_rect(
            0,
            window_height.saturating_sub(current_size.height),
            window_width,
            current_size.height,
        ),
        Anchor::LeftStretch => logical_rect(0, 0, current_size.width, window_height),
        Anchor::RightStretch => logical_rect(
            window_width.saturating_sub(current_size.width),
            0,
            current_size.width,
            window_height,
        ),
        Anchor::TopLeft => pinned(0, 0, size),
        Anchor::TopRight => pinned(window_width, 0, size),
        Anchor::BottomLeft => pinned(0, window_height, size),
        Anchor::BottomRight => pinned(window_width, window_height, size),
        Anchor::CenterVerticalStretch => logical_rect(
            center_x,
            0,
            current_size.width,
            window_height,
        ),
        Anchor::CenterHorizontalStretch => logical_rect(
            0,
            center_y,
            window_width,
            current_size.height,
        ),
    };

    match anchor {
        Anchor::TopStretch
        | Anchor::BottomStretch
        | Anchor::LeftStretch
        | Anchor::RightStretch
        | Anchor::CenterVerticalStretch
        | Anchor::CenterHorizontalStretch => relative_bounds,
        _ => Rect {
            position: add_positions(&relative_bounds.position, &position, scale_factor),
            size: relative_bounds.size,
        },
    }
}

/// Position of the WebView
#[derive(Clone, Copy, Debug, PartialEq, Eq, Structural)]
pub enum Bounds {
    /// WebView covers whole window
    FullScreen,
    /// Position and size doesn't change - always relative to the top left corner of the window
    Absolute(Rect),
    /// Position relative to the anchor point
    Relative { anchor: Anchor, bounds: Rect },
}

impl Bounds {
    /// The rectangle that these bounds come to in a window of size
    /// `window_size`: the whole window, the fixed rectangle, or what the
    /// anchor resolves to.
    pub open spec fn resolved(self, window_size: WrySize, scale_factor: ScaleFactor) -> Rect {
        match self {
            Bounds::FullScreen => Rect {
                position: WryPosition::Logical(LogicalPosition { x: 0, y: 0 }),
                size: WrySize::Logical(window_size.logical(scale_factor)),
            },
            Bounds::Absolute(rect) => rect,
            Bounds::Relative { anchor, bounds } => resolved_bounds(
                anchor,
                bounds.position,
                bounds.size,
                window_size,
                scale_factor,
            ),
        }
    }

    pub fn to_webview_bounds(&self, window_size: WrySize, scale_factor: ScaleFactor) -> (rect: Rect)
        ensures
            rect == self.resolved(window_size, scale_factor),
    {
        match self {
            Bounds::FullScreen => {
                let window: LogicalSize = window_size.to_logical(scale_factor);
                logical_rect(0, 0, window.width, window.height)
            },
            Bounds::Absolute(rect) => *rect,
            Bounds::Relative { anchor, bounds } => to_webview_bounds(
                *anchor,
                bounds.position,
                bounds.size,
                window_size,
                scale_factor,
            ),
        }
    }
}

/// Resolving has no hidden state: equal inputs give equal rectangles.
pub proof fn lemma_resolving_is_a_function(
    anchor_a: Anchor,
    position_a: WryPosition,
    size_a: WrySize,
    window_a: WrySize,
    scale_a: ScaleFactor,
    anchor_b: Anchor,
    position_b: WryPosition,
    size_b: WrySize,
    window_b: WrySize,
    scale_b: ScaleFactor,
)
    requires
        anchor_a == anchor_b,
        position_a == position_b,
        size_a == size_b,
        window_a == window_b,
        scale_a == scale_b,
    ensures
        resolved_bounds(anchor_a, position_a, size_a, window_a, scale_a) == resolved_bounds(
            anchor_b,
            position_b,
            size_b,
            window_b,
            scale_b,
        ),
{
}

/// A point anchor keeps the size it is given, unit and all, and puts the
/// rectangle at its pin plus the offset.
pub proof fn lemma_point_anchor_keeps_size(
    anchor: Anchor,
    position: WryPosition,
    size: WrySize,
    window_size: WrySize,
    scale_factor: ScaleFactor,
)
    requires
        anchor.is_point(),
    ensures
        resolved_bounds(anchor, position, size, window_size, scale_factor).size == size,
        resolved_bounds(anchor, position, size, window_size, scale_factor).position
            is Logical,
{
}

/// A point anchor follows its offset: where no coordinate leaves the range
/// of 64 bits, moving the offset by `(dx, dy)` moves the rectangle by as much.
pub proof fn lemma_point_anchor_follows_offset(
    anchor: Anchor,
    offset: LogicalPosition,
    dx: int,
    dy: int,
    size: WrySize,
    window_size: WrySize,
    scale_factor: ScaleFactor,
)
    requires
        anchor.is_point(),
        offset.x <= i64::MAX - u32::MAX,
        offset.y <= i64::MAX - u32::MAX,
        i64::MIN <= offset.x + dx <= i64::MAX - u32::MAX,
        i64::MIN <= offset.y + dy <= i64::MAX - u32::MAX,
    ensures
        ({
            let moved = LogicalPosition { x: (offset.x + dx) as i64, y: (offset.y + dy) as i64 };
            let before = resolved_bounds(
                anchor,
                WryPosition::Logical(offset),
                size,
                window_size,
                scale_factor,
            ).position->Logical_0;
            let after = resolved_bounds(
                anchor,
                WryPosition::Logical(moved),
                size,
                window_size,
                scale_factor,
            ).position->Logical_0;
            after.x == before.x + dx && after.y == before.y + dy
        }),
{
}

/// An anchor that stretches takes no offset: whatever the position, the
/// rectangle is the same.
pub proof fn lemma_stretch_anchor_ignores_position(
    anchor: Anchor,
    position_a: WryPosition,
    position_b: WryPosition,
    size: WrySize,
    window_size: WrySize,
    scale_factor: ScaleFactor,
)
    requires
        !anchor.is_point(),
    ensures
        resolved_bounds(anchor, position_a, size, window_size, scale_factor) == resolved_bounds(
            anchor,
            position_b,
            size,
            window_size,
            scale_factor,
        ),
{
}

/// Along an axis that it spans, the rectangle starts at the window's edge and
/// is as long as the window. Along the other axis it has the length of the
/// size it was given, in logical units.
pub proof fn lemma_stretch_anchor_fills_its_axis(
    anchor: Anchor,
    position: WryPosition,
    size: WrySize,
    window_size: WrySize,
    scale_factor: ScaleFactor,
)
    requires
        !anchor.is_point(),
    ensures
        ({
            let rect = resolved_bounds(anchor, position, size, window_size, scale_factor);
            let window = window_size.logical(scale_factor);
            let current = size.logical(scale_factor);
            &&& rect.position is Logical
            &&& rect.size is Logical
            &&& anchor.spans_width() ==> rect.position->Logical_0.x == 0
                && rect.size->Logical_0.width == window.width
            &&& !anchor.spans_width() ==> rect.size->Logical_0.width == current.width
            &&& anchor.spans_height() ==> rect.position->Logical_0.y == 0
                && rect.size->Logical_0.height == window.height
            &&& !anchor.spans_height() ==> rect.size->Logical_0.height == current.height
        }),
{
}

/// A rectangle stretched along the bottom or the right edge ends at that
/// edge, where the window is large enough to hold it.
pub proof fn lemma_far_edge_stretch_ends_at_the_edge(
    position: WryPosition,
    size: WrySize,
    window_size: WrySize,
    scale_factor: ScaleFactor,
)
    ensures
        ({
            let window = window_size.logical(scale_factor);
            let current = size.logical(scale_factor);
            let bottom = resolved_bounds(
                Anchor::BottomStretch,
                position,
                size,
                window_size,
                scale_factor,
            );
            let right = resolved_bounds(
                Anchor::RightStretch,
                position,
                size,
                window_size,
                scale_factor,
            );
            &&& current.height <= window.height ==> bottom.position->Logical_0.y
                + bottom.size->Logical_0.height == window.height
            &&& current.height > window.height ==> bottom.position->Logical_0.y == 0
            &&& current.width <= window.width ==> right.position->Logical_0.x
                + right.size->Logical_0.width == window.width
            &&& current.width > window.width ==> right.position->Logical_0.x == 0
        }),
{
}

/// The full-screen anchor gives the whole window, whatever position and size
/// it is handed: the same rectangle as full-screen bounds.
pub proof fn lemma_full_screen_covers_the_window(
    position: WryPosition,
    size: WrySize,
    window_size: WrySize,
    scale_factor: ScaleFactor,
)
    ensures
        resolved_bounds(Anchor::FullScreen, position, size, window_size, scale_factor) == (Rect {
            position: WryPosition::Logical(LogicalPosition { x: 0, y: 0 }),
            size: WrySize::Logical(window_size.logical(scale_factor)),
        }),
        resolved_bounds(Anchor::FullScreen, position, size, window_size, scale_factor)
            == Bounds::FullScreen.resolved(window_size, scale_factor),
{
}

/// Absolute bounds do not depend on the window: in every window, at every
/// scale factor, they come to the rectangle they hold.
pub proof fn lemma_absolute_bounds_ignore_the_window(
    rect: Rect,
    window_size: WrySize,
    scale_factor: ScaleFactor,
)
    ensures
        Bounds::Absolute(rect).resolved(window_size, scale_factor) == rect,
{
}

/// In a window without width every pin lies at x = 0, and a rectangle that
/// spans the width has none; likewise for a window without height.
pub proof fn lemma_empty_window_collapses(
    anchor: Anchor,
    size: WrySize,
    window_size: WrySize,
    scale_factor: ScaleFactor,
)
    ensures
        ({
            let window = window_size.logical(scale_factor);
            let current = size.logical(scale_factor);
            let origin = WryPosition::Logical(LogicalPosition { x: 0, y: 0 });
            let rect = resolved_bounds(anchor, origin, size, window_size, scale_factor);
            &&& rect.position is Logical
            &&& window.width == 0 ==> rect.position->Logical_0.x == 0
            &&& window.height == 0 ==> rect.position->Logical_0.y == 0
            &&& window.width == 0 && anchor.spans_width() ==> rect.size->Logical_0.width == 0
            &&& window.height == 0 && anchor.spans_height() ==> rect.size->Logical_0.height == 0
        }),
{
}

} // verus!
