//! macOS: windows are accessibility elements, and screens have their origin
//! at the bottom left.

pub mod autostart;
pub mod hittest;
pub mod hook;
pub mod monitor;
pub mod window;

use vstd::prelude::*;
use crate::config::DEFAULT_TITLE_BAR_HEIGHT;
use crate::decision::TitleBarTest;
use crate::gesture::GestureSettings;
use crate::platform::macos::autostart::MacAutoStart;
use crate::platform::macos::hittest::MacHitTester;
use crate::platform::macos::hook::MacMouseHook;
use crate::platform::macos::monitor::MacMonitorManager;
use crate::platform::macos::window::MacWindowManager;

verus! {

/// A window on macOS: the address of its accessibility element, and the
/// process that owns it.
#[derive(Debug, Clone, Copy, PartialEq, Eq, Structural)]
pub struct MacWindowHandle {
    pub ax_element: usize,
    pub pid: i32,
}

/// The parts of the macOS platform.
#[derive(Debug, Clone, Copy, PartialEq, Eq, Structural)]
pub struct MacPlatform {
    pub hook: MacMouseHook,
    pub window_manager: MacWindowManager,
    pub hit_tester: MacHitTester,
    pub monitor_manager: MacMonitorManager,
    pub auto_start: MacAutoStart,
}

impl MacPlatform {
    /// The platform as it is at start: the hook is not installed, and the
    /// title band has its default height.
    pub open spec fn at_start() -> MacPlatform {
        MacPlatform {
            hook: MacMouseHook::not_installed(),
            window_manager: MacWindowManager,
            hit_tester: MacHitTester { title_bar_height: DEFAULT_TITLE_BAR_HEIGHT },
            monitor_manager: MacMonitorManager,
            auto_start: MacAutoStart,
        }
    }

    /// Makes the platform as it is at start: its hook is not installed,
    /// and its title band has the default height.
    pub fn new() -> (platform: MacPlatform)
        ensures
            platform == Self::at_start(),
            !platform.hook.installed(),
            platform.hit_tester.title_bar_height == DEFAULT_TITLE_BAR_HEIGHT,
    {
        MacPlatform {
            hook: MacMouseHook::new(),
            window_manager: MacWindowManager::new(),
            hit_tester: MacHitTester::new(),
            monitor_manager: MacMonitorManager::new(),
            auto_start: MacAutoStart::new(),
        }
    }

    /// How gestures are evaluated on macOS: the title bar is the band at
    /// the top of the frame, as high as the hit tester has it, and no
    /// window is restored before it moves.
    pub fn gesture_settings(&self) -> (settings: GestureSettings)
        ensures
            settings == (GestureSettings {
                title_bar: TitleBarTest::Band(self.hit_tester.title_bar_height),
                restore_maximized: false,
            }),
    {
        GestureSettings {
            title_bar: TitleBarTest::Band(self.hit_tester.title_bar_height),
            restore_maximized: false,
        }
    }
}

} // verus!
