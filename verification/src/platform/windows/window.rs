//! Windows on Windows: their frames, and the arguments of the calls that
//! move them.

use vstd::prelude::*;
use crate::geometry::clamp_coordinate;
use crate::geometry::clamp_to_i32;
use crate::geometry::Point;
use crate::geometry::Rect;

use crate::platform::windows::WinRect;

verus! {

/// The window manager of Windows.
#[derive(Debug, Clone, Copy, PartialEq, Eq, Structural)]
pub struct WinWindowManager;

impl WinWindowManager {
    pub fn new() -> (manager: WinWindowManager) {
        WinWindowManager
    }

    /// Gives the frame of a window from its rectangle, or `None` where the
    /// rectangle cannot be had or its edges are not in order.
    pub fn get_window_frame(&self, rect: Option<WinRect>) -> (frame: Option<Rect>)
        ensures
            frame == match rect {
                Some(rect) => rect.spec_to_rect(),
                None => None,
            },
    {
        match rect {
            Some(rect) => rect.to_rect(),
            None => None,
        }
    }

    /// Tells whether the walk from a window to its root has arrived:
    /// `ancestor` is what the system names as the root of `current`, or
    /// zero where it names none.
    pub fn is_root(&self, current: isize, ancestor: isize) -> (arrived: bool)
        ensures
            arrived == (ancestor == 0 || ancestor == current),
    {
        ancestor == 0 || ancestor == current
    }

    /// The arguments `x` and `y` with which a window is put at `position`:
    /// the coordinates, each held to what an `i32` holds.
    pub fn position_args(&self, position: Point) -> (args: (i32, i32))
        ensures
            args.0 == clamp_to_i32(position.x as int),
            args.1 == clamp_to_i32(position.y as int),
    {
        (clamp_coordinate(position.x), clamp_coordinate(position.y))
    }

    /// The arguments `cx` and `cy` with which a window is given the size
    /// `width` by `height`: the sides, each held to what an `i32` holds.
    pub fn size_args(&self, width: u32, height: u32) -> (args: (i32, i32))
        ensures
            args.0 == clamp_to_i32(width as int),
            args.1 == clamp_to_i32(height as int),
    {
        (clamp_coordinate(width as i64), clamp_coordinate(height as i64))
    }
}

} // verus!
