//! The monitors of Windows, from what the system reports of each.

use vstd::prelude::*;
use crate::geometry::Rect;
use crate::monitor::monitor_for_window;
use crate::monitor::spec_monitor_for_window;
use crate::monitor::MonitorInfo;
use crate::platform::windows::WinRect;

verus! {

/// The monitor with the id `id` whose area is `monitor` and whose work area
/// is `work`, or `None` where the edges of either are not in order.
pub open spec fn spec_monitor_from_rects(id: u64, monitor: WinRect, work: WinRect) -> Option<
    MonitorInfo,
> {
    match (monitor.spec_to_rect(), work.spec_to_rect()) {
        (Some(bounds), Some(work_area)) => Some(MonitorInfo { id, bounds, work_area }),
        _ => None,
    }
}

/// The monitor directory of Windows.
#[derive(Debug, Clone, Copy, PartialEq, Eq, Structural)]
pub struct WinMonitorManager;

impl WinMonitorManager {
    pub fn new() -> (manager: WinMonitorManager) {
        WinMonitorManager
    }

    /// Makes a monitor of the rectangles that the system reports for it.
    pub fn monitor_from_rects(&self, id: u64, monitor: &WinRect, work: &WinRect) -> (info: Option<
        MonitorInfo,
    >)
        ensures
            info == spec_monitor_from_rects(id, *monitor, *work),
    {
        match (monitor.to_rect(), work.to_rect()) {
            (Some(bounds), Some(work_area)) => Some(MonitorInfo { id, bounds, work_area }),
            _ => None,
        }
    }

    /// Takes in one monitor during an enumeration: `report` holds the
    /// monitor's area and work area, or `None` where the system gave no
    /// information on it. The monitor is added at the end of `monitors`
    /// where it can be made; else `monitors` stays as it is.
    pub fn enum_monitor(
        &self,
        monitors: &mut Vec<MonitorInfo>,
        id: u64,
        report: Option<(WinRect, WinRect)>,
    )
        ensures
            final(monitors)@ == match report {
                Some((monitor, work)) => match spec_monitor_from_rects(id, monitor, work) {
                    Some(info) => old(monitors)@.push(info),
                    None => old(monitors)@,
                },
                None => old(monitors)@,
            },
    {
        match report {
            Some((monitor, work)) => {
                match self.monitor_from_rects(id, &monitor, &work) {
                    Some(info) => {
                        monitors.push(info);
                    },
                    None => {},
                }
            },
            None => {},
        }
    }

    /// Finds the monitor that a window is on, from the window's frame.
    pub fn get_monitor_for_window(&self, frame: Option<Rect>, monitors: &[MonitorInfo]) -> (found:
        Option<MonitorInfo>)
        ensures
            found == spec_monitor_for_window(frame, monitors@),
    {
        monitor_for_window(frame, monitors)
    }
}

} // verus!
