//! Screen geometry: pointer location, display frame, and the bounds payload
//! delivered with each trigger notification.

use vstd::prelude::*;

verus! {

/// A pointer location in the platform's native space, whose origin is the
/// bottom-left corner of the primary display.
#[derive(Clone, Copy, Debug, PartialEq, Eq, Structural)]
pub struct PointerLocation {
    pub x: i32,
    pub y: i32,
}

/// The frame of the primary display; only its height takes part in the
/// change of origin.
#[derive(Clone, Copy, Debug, PartialEq, Eq, Structural)]
pub struct ScreenFrame {
    pub width: i32,
    pub height: i32,
}

/// Screen-space bounds with a top-left origin. For a pure pointer query the
/// width and height are zero, meaning "not applicable".
#[derive(Clone, Copy, Debug, PartialEq, Eq, Structural)]
pub struct TextFieldBounds {
    pub x: i64,
    pub y: i64,
    pub width: i64,
    pub height: i64,
}

/// The vertical coordinate of `y_bottom_left` measured from the top edge of a
/// display of height `screen_height`.
pub open spec fn flip_y(screen_height: int, y_bottom_left: int) -> int {
    screen_height - y_bottom_left
}

/// The bounds that anchor an overlay at the pointer: the pointer converted to
/// top-left-origin coordinates, with zero width and height.
pub open spec fn pointer_anchor(p: PointerLocation, screen: ScreenFrame) -> TextFieldBounds {
    TextFieldBounds {
        x: p.x as i64,
        y: flip_y(screen.height as int, p.y as int) as i64,
        width: 0,
        height: 0,
    }
}

/// Converts the pointer location from bottom-left-origin to top-left-origin
/// coordinates. Every path that reports a position goes through here.
pub fn to_top_left(p: PointerLocation, screen: ScreenFrame) -> (r: TextFieldBounds)
    ensures
        r == pointer_anchor(p, screen),
        r.x == p.x,
        r.y == screen.height - p.y,
        r.width == 0,
        r.height == 0,
{
    let y: i64 = screen.height as i64 - p.y as i64;
    TextFieldBounds { x: p.x as i64, y, width: 0, height: 0 }
}

} // verus!
