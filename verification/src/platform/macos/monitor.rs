//! The screens of macOS as monitors.
//!
//! AppKit places the origin at the bottom left of the main screen and lets
//! `y` grow upward. Windows are placed in the coordinates of Quartz, whose
//! origin is at the top left of the main screen, with `y` growing downward.

use vstd::prelude::*;
use crate::geometry::clamp_coordinate;
use crate::geometry::clamp_to_i32;
use crate::geometry::Rect;
use crate::monitor::monitor_for_window;
use crate::monitor::spec_monitor_for_window;
use crate::monitor::MonitorInfo;

verus! {

/// One screen as AppKit reports it: its frame and the part of it that is
/// left to windows, both in AppKit's coordinates.
#[derive(Debug, Clone, Copy, PartialEq, Eq, Structural)]
pub struct ScreenFrame {
    pub frame: Rect,
    pub visible_frame: Rect,
}

/// The top edge, in Quartz's coordinates, of a rectangle whose bottom edge
/// is at `y` in AppKit's and that is `height` high, where the main screen
/// is `global_height` high.
pub open spec fn flipped_y(global_height: int, y: int, height: int) -> int {
    global_height - (y + height)
}

/// The rectangle `rect` of AppKit's coordinates in Quartz's: the same size
/// at the same `x`, its top edge at `flipped_y`, held to what an `i32`
/// holds.
pub open spec fn spec_to_quartz(rect: Rect, global_height: int) -> Rect {
    Rect {
        x: rect.x,
        y: clamp_to_i32(flipped_y(global_height, rect.y as int, rect.height as int)) as i32,
        width: rect.width,
        height: rect.height,
    }
}

/// The monitor that the screen `index` of `screens` is: its index is its id,
/// and the first screen is the main screen, whose height turns the
/// coordinates over.
pub open spec fn spec_monitor_of_screen(screens: Seq<ScreenFrame>, index: int) -> MonitorInfo {
    let global_height = screens[0].frame.height as int;
    MonitorInfo {
        id: index as u64,
        bounds: spec_to_quartz(screens[index].frame, global_height),
        work_area: spec_to_quartz(screens[index].visible_frame, global_height),
    }
}

/// Turns a rectangle of AppKit's coordinates into Quartz's.
pub fn to_quartz(rect: &Rect, global_height: u32) -> (flipped: Rect)
    ensures
        flipped == spec_to_quartz(*rect, global_height as int),
{
    let top: i64 = global_height as i64 - (rect.y as i64 + rect.height as i64);
    Rect { x: rect.x, y: clamp_coordinate(top), width: rect.width, height: rect.height }
}

/// Turning a rectangle over twice gives it back, where its top edge stays
/// within what an `i32` holds in between.
pub proof fn lemma_to_quartz_twice(rect: Rect, global_height: int)
    requires
        i32::MIN <= flipped_y(global_height, rect.y as int, rect.height as int) <= i32::MAX,
    ensures
        spec_to_quartz(spec_to_quartz(rect, global_height), global_height) == rect,
{
}

/// A rectangle within the main screen stays within it when turned over:
/// where the main screen is `global_height` high, what lies between its
/// bottom and top edges in AppKit's coordinates lies between its top and
/// bottom edges in Quartz's.
pub proof fn lemma_to_quartz_within_main(rect: Rect, global_height: int)
    requires
        0 <= rect.y,
        rect.y + rect.height <= global_height <= i32::MAX,
    ensures
        0 <= spec_to_quartz(rect, global_height).spec_min_y(),
        spec_to_quartz(rect, global_height).spec_max_y() <= global_height,
{
}

/// The monitor directory of macOS.
#[derive(Debug, Clone, Copy, PartialEq, Eq, Structural)]
pub struct MacMonitorManager;

impl MacMonitorManager {
    pub fn new() -> (manager: MacMonitorManager) {
        MacMonitorManager
    }

    /// Lists the monitors for the screens that AppKit reports, in their
    /// order. The first screen is the main screen.
    pub fn get_monitors(&self, screens: &[ScreenFrame]) -> (monitors: Vec<MonitorInfo>)
        ensures
            monitors@.len() == screens@.len(),
            forall|index: int|
                0 <= index < screens@.len() ==> #[trigger] monitors@[index]
                    == spec_monitor_of_screen(screens@, index),
    {
        let mut monitors: Vec<MonitorInfo> = Vec::new();
        if screens.len() == 0 {
            return monitors;
        }
        let global_height: u32 = screens[0].frame.height;
        let mut index: usize = 0;
        while index < screens.len()
            invariant
                index <= screens.len(),
                screens.len() > 0,
                global_height == screens@[0].frame.height,
                monitors@.len() == index,
                forall|done: int|
                    0 <= done < index ==> #[trigger] monitors@[done] == spec_monitor_of_screen(
                        screens@,
                        done,
                    ),
            decreases screens.len() - index,
        {
            let screen = &screens[index];
            monitors.push(
                MonitorInfo {
                    id: index as u64,
                    bounds: to_quartz(&screen.frame, global_height),
                    work_area: to_quartz(&screen.visible_frame, global_height),
                },
            );
            index += 1;
        }
        monitors
    }

    /// Finds the monitor that a window is on, from the window's frame.
    pub fn get_monitor_for_window(&self, frame: Option<Rect>, monitors: &[MonitorInfo]) -> (found:
        Option<MonitorInfo>)
        ensures
            found == spec_monitor_for_window(frame, monitors@),
    {
        monitor_for_window(frame, monitors)
    }
}

} // verus!
