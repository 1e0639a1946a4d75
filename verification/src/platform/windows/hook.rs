//! The low-level mouse hook of Windows: which messages are middle clicks,
//! and whether the hook is in place.

use vstd::prelude::*;
use crate::geometry::Point;
use crate::platform::MouseEvent;
use crate::platform::MIDDLE_BUTTON;

verus! {

/// The message of a press of the middle button.
pub const WM_MBUTTONDOWN: u32 = 0x0207;

/// What the hook procedure returns for a message that it keeps from the
/// rest of the hook chain.
pub const MESSAGE_HANDLED: isize = 1;

/// Why the hook could not be installed.
#[derive(Debug, Clone, Copy, PartialEq, Eq, Structural)]
pub enum WinHookError {
    /// The handle of the running module could not be had.
    NoModuleHandle,
    /// The system did not set the hook.
    HookNotSet,
}

/// The press of the middle button that a message to the hook stands for,
/// if it stands for one: it does where the hook is to process it
/// (`n_code` is not negative) and it is `WM_MBUTTONDOWN`.
pub open spec fn spec_classify_message(n_code: i32, message: u32, x: i32, y: i32) -> Option<
    MouseEvent,
> {
    if n_code >= 0 && message == WM_MBUTTONDOWN {
        Some(MouseEvent { point: Point { x: x as i64, y: y as i64 }, button: MIDDLE_BUTTON })
    } else {
        None
    }
}

/// The mouse hook of Windows: whether the hook is installed.
///
/// The hook has one handler. Installing it again puts the new handler in
/// the place of the one before.
#[derive(Debug, Clone, Copy, PartialEq, Eq, Structural)]
pub struct WinMouseHook {
    active: bool,
}

impl WinMouseHook {
    /// Whether the hook is installed.
    pub closed spec fn installed(self) -> bool {
        self.active
    }

    /// The hook before any attempt to install it.
    pub closed spec fn not_installed() -> WinMouseHook {
        WinMouseHook { active: false }
    }

    /// A hook that is not installed.
    pub fn new() -> (hook: WinMouseHook)
        ensures
            hook == Self::not_installed(),
            !hook.installed(),
    {
        WinMouseHook { active: false }
    }

    /// Whether the hook is installed.
    pub fn is_active(&self) -> (active: bool)
        ensures
            active == self.installed(),
    {
        self.active
    }

    /// Records an attempt to install the hook, of which `module_found` and
    /// `hook_set` say how far it got.
    ///
    /// The attempt fails where the module handle was not found, or it was
    /// but the hook was not set. The hook is installed after an attempt
    /// that succeeds, and is what it was after one that fails.
    pub fn install_hook(&mut self, module_found: bool, hook_set: bool) -> (installed: Result<
        (),
        WinHookError,
    >)
        ensures
            installed is Ok <==> module_found && hook_set,
            !module_found ==> installed == Err::<(), WinHookError>(WinHookError::NoModuleHandle),
            module_found && !hook_set ==> installed == Err::<(), WinHookError>(
                WinHookError::HookNotSet,
            ),
            final(self).installed() == (old(self).installed() || installed is Ok),
    {
        if !module_found {
            return Err(WinHookError::NoModuleHandle);
        }
        if !hook_set {
            return Err(WinHookError::HookNotSet);
        }
        self.active = true;
        Ok(())
    }

    /// Records that the hook was removed. It always succeeds, and the hook
    /// is not installed afterwards.
    pub fn uninstall_hook(&mut self) -> (removed: Result<(), WinHookError>)
        ensures
            removed is Ok,
            !final(self).installed(),
    {
        self.active = false;
        Ok(())
    }

    /// Tells whether a message to the hook is a press of the middle button,
    /// and gives the event if it is.
    pub fn classify_message(n_code: i32, message: u32, x: i32, y: i32) -> (event: Option<
        MouseEvent,
    >)
        ensures
            event == spec_classify_message(n_code, message, x, y),
    {
        if n_code >= 0 && message == WM_MBUTTONDOWN {
            Some(MouseEvent { point: Point { x: x as i64, y: y as i64 }, button: MIDDLE_BUTTON })
        } else {
            None
        }
    }
}

} // verus!
