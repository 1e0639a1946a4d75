//! What is decided on each platform's side of the gesture.
//!
//! The calls into the operating system are made by the program that uses
//! this library. What it reads there it hands over as plain values, and the
//! types here say what follows from them.

pub mod macos;
pub mod windows;

use vstd::prelude::*;
use crate::decision::TitleBarTest;
use crate::geometry::Point;
use crate::gesture::GestureSettings;
use crate::platform::macos::MacPlatform;
use crate::platform::macos::MacWindowHandle;
use crate::platform::windows::WinPlatform;
use crate::platform::windows::WinWindowHandle;

verus! {

/// The number that both platforms give the middle mouse button.
pub const MIDDLE_BUTTON: u32 = 2;

/// One press of a mouse button.
#[derive(Debug, Clone, Copy, PartialEq, Eq, Structural)]
pub struct MouseEvent {
    /// Where the pointer was.
    pub point: Point,
    /// Which button was pressed; the middle button is `MIDDLE_BUTTON`.
    pub button: u32,
}

/// A top-level window, as the platform that reported it names it.
///
/// A handle is carried from the answer that named the window to the
/// requests and commands that concern it, and is never looked into.
#[derive(Debug, Clone, Copy, PartialEq, Eq, Structural)]
pub enum WindowHandle {
    Mac(MacWindowHandle),
    Windows(WinWindowHandle),
}

/// The operating system that the program runs on.
#[derive(Debug, Clone, Copy, PartialEq, Eq, Structural)]
pub enum TargetOs {
    MacOs,
    Windows,
    /// Any other system. Windows cannot be moved there.
    Other,
}

/// The parts of the platform that the program runs on.
#[derive(Debug, Clone, Copy, PartialEq, Eq, Structural)]
pub enum Platform {
    Mac(MacPlatform),
    Windows(WinPlatform),
}

impl Platform {
    /// How gestures are evaluated on the platform.
    pub open spec fn spec_gesture_settings(self) -> GestureSettings {
        match self {
            Platform::Mac(platform) => GestureSettings {
                title_bar: TitleBarTest::Band(platform.hit_tester.title_bar_height),
                restore_maximized: false,
            },
            Platform::Windows(_) => GestureSettings {
                title_bar: TitleBarTest::Native,
                restore_maximized: true,
            },
        }
    }

    /// Gives the way in which gestures are evaluated on the platform.
    pub fn gesture_settings(&self) -> (settings: GestureSettings)
        ensures
            settings == self.spec_gesture_settings(),
    {
        match self {
            Platform::Mac(platform) => platform.gesture_settings(),
            Platform::Windows(platform) => platform.gesture_settings(),
        }
    }
}

/// The platform for the system `os`, as it is at start. There is none for
/// a system other than macOS and Windows.
pub open spec fn spec_create_platform(os: TargetOs) -> Option<Platform> {
    match os {
        TargetOs::MacOs => Some(Platform::Mac(MacPlatform::at_start())),
        TargetOs::Windows => Some(Platform::Windows(WinPlatform::at_start())),
        TargetOs::Other => None,
    }
}

/// Makes the platform for the system that the program runs on.
pub fn create_platform(os: TargetOs) -> (platform: Option<Platform>)
    ensures
        platform == spec_create_platform(os),
{
    match os {
        TargetOs::MacOs => Some(Platform::Mac(MacPlatform::new())),
        TargetOs::Windows => Some(Platform::Windows(WinPlatform::new())),
        TargetOs::Other => None,
    }
}

} // verus!
