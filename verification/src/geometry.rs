//! Screen-space data and the anchoring computation: where the window's
//! top-left corner goes so that the window hangs centered under the tray
//! icon, its top edge flush with the icon's bottom edge.

use vstd::prelude::*;

verus! {

/// The tray icon's bounding box at click time, in device pixels.
#[derive(Clone, Copy, Debug, PartialEq, Eq)]
pub struct TrayRect {
    pub x: i32,
    pub y: i32,
    pub width: u32,
    pub height: u32,
}

/// The window's outer size, in device pixels.
#[derive(Clone, Copy, Debug, PartialEq, Eq)]
pub struct WindowSize {
    pub width: u32,
    pub height: u32,
}

/// A window position (top-left corner), in device pixels.
#[derive(Clone, Copy, Debug, PartialEq, Eq)]
pub struct Position {
    pub x: i32,
    pub y: i32,
}

/// The anchored x coordinate: the window horizontally centered under the
/// icon, with widths halved by integer division.
pub open spec fn anchored_x(rect: TrayRect, size: WindowSize) -> int {
    rect.x + rect.width as int / 2 - size.width as int / 2
}

/// The anchored y coordinate: the window's top edge flush with the icon's
/// bottom edge.
pub open spec fn anchored_y(rect: TrayRect) -> int {
    rect.y + rect.height as int
}

/// The anchored position, when both coordinates are representable in device
/// pixels; positioning is best-effort, so an unrepresentable anchor is
/// simply not requested.
pub open spec fn spec_anchored_position(rect: TrayRect, size: WindowSize) -> Option<Position> {
    let x = anchored_x(rect, size);
    let y = anchored_y(rect);
    if i32::MIN <= x <= i32::MAX && i32::MIN <= y <= i32::MAX {
        Some(Position { x: x as i32, y: y as i32 })
    } else {
        None
    }
}

/// Computes the anchor under the tray icon, or `None` when it does not fit
/// in the coordinate range.
pub fn anchored_position(rect: &TrayRect, size: &WindowSize) -> (p: Option<Position>)
    ensures
        p == spec_anchored_position(*rect, *size),
{
    let half_icon: u32 = rect.width / 2;
    let half_window: u32 = size.width / 2;
    let x: i64 = rect.x as i64 + half_icon as i64 - half_window as i64;
    let y: i64 = rect.y as i64 + rect.height as i64;
    if i32::MIN as i64 <= x && x <= i32::MAX as i64 && i32::MIN as i64 <= y && y <= i32::MAX as i64 {
        Some(Position { x: x as i32, y: y as i32 })
    } else {
        None
    }
}

} // verus!
