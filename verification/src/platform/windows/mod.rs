//! Windows: windows are `HWND`s, and rectangles are given by their four
//! edges.

pub mod autostart;
pub mod hittest;
pub mod hook;
pub mod monitor;
pub mod window;

use vstd::prelude::*;
use crate::decision::TitleBarTest;
use crate::geometry::Rect;
use crate::gesture::GestureSettings;
use crate::platform::windows::autostart::WinAutoStart;
use crate::platform::windows::hittest::WinHitTester;
use crate::platform::windows::hook::WinMouseHook;
use crate::platform::windows::monitor::WinMonitorManager;
use crate::platform::windows::window::WinWindowManager;

verus! {

/// A window on Windows: the value of its `HWND`.
#[derive(Debug, Clone, Copy, PartialEq, Eq, Structural)]
pub struct WinWindowHandle {
    pub hwnd: isize,
}

/// A rectangle as Windows gives it: by its four edges.
#[derive(Debug, Clone, Copy, PartialEq, Eq, Structural)]
pub struct WinRect {
    pub left: i32,
    pub top: i32,
    pub right: i32,
    pub bottom: i32,
}

impl WinRect {
    /// Whether the edges are in order, so that the rectangle has a width
    /// and a height.
    pub open spec fn is_ordered(self) -> bool {
        self.left <= self.right && self.top <= self.bottom
    }

    /// The rectangle by its corner and size, or `None` where the edges are
    /// not in order.
    pub open spec fn spec_to_rect(self) -> Option<Rect> {
        if self.is_ordered() {
            Some(
                Rect {
                    x: self.left,
                    y: self.top,
                    width: (self.right - self.left) as u32,
                    height: (self.bottom - self.top) as u32,
                },
            )
        } else {
            None
        }
    }

    /// Gives the rectangle by its corner and size: the corner is the left
    /// and top edge, the width `right - left` and the height `bottom - top`.
    /// There is none where an edge lies before the one it should follow.
    pub fn to_rect(&self) -> (rect: Option<Rect>)
        ensures
            rect == self.spec_to_rect(),
            rect matches Some(rect) ==> {
                &&& rect.spec_min_x() == self.left
                &&& rect.spec_max_x() == self.right
                &&& rect.spec_min_y() == self.top
                &&& rect.spec_max_y() == self.bottom
            },
    {
        if self.left <= self.right && self.top <= self.bottom {
            let width: i64 = self.right as i64 - self.left as i64;
            let height: i64 = self.bottom as i64 - self.top as i64;
            Some(Rect { x: self.left, y: self.top, width: width as u32, height: height as u32 })
        } else {
            None
        }
    }
}

/// The parts of the Windows platform.
#[derive(Debug, Clone, Copy, PartialEq, Eq, Structural)]
pub struct WinPlatform {
    pub hook: WinMouseHook,
    pub window_manager: WinWindowManager,
    pub hit_tester: WinHitTester,
    pub monitor_manager: WinMonitorManager,
    pub auto_start: WinAutoStart,
}

impl WinPlatform {
    /// The platform as it is at start: the hook is not installed.
    pub open spec fn at_start() -> WinPlatform {
        WinPlatform {
            hook: WinMouseHook::not_installed(),
            window_manager: WinWindowManager,
            hit_tester: WinHitTester,
            monitor_manager: WinMonitorManager,
            auto_start: WinAutoStart,
        }
    }

    /// Makes the platform as it is at start: its hook is not installed.
    pub fn new() -> (platform: WinPlatform)
        ensures
            platform == Self::at_start(),
            !platform.hook.installed(),
    {
        WinPlatform {
            hook: WinMouseHook::new(),
            window_manager: WinWindowManager::new(),
            hit_tester: WinHitTester::new(),
            monitor_manager: WinMonitorManager::new(),
            auto_start: WinAutoStart::new(),
        }
    }

    /// How gestures are evaluated on Windows: the system's own hit test
    /// finds the title bar, and a maximized window is restored before it
    /// moves.
    pub fn gesture_settings(&self) -> (settings: GestureSettings)
        ensures
            settings == (GestureSettings {
                title_bar: TitleBarTest::Native,
                restore_maximized: true,
            }),
    {
        GestureSettings { title_bar: TitleBarTest::Native, restore_maximized: true }
    }
}

} // verus!
