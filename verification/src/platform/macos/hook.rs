//! The event tap of macOS: which events are middle clicks, and whether the
//! tap is in place.

use vstd::prelude::*;
use crate::geometry::Point;
use crate::platform::MouseEvent;
use crate::platform::MIDDLE_BUTTON;

verus! {

/// The event type of a press of a button other than the left and the
/// right one.
pub const EVENT_OTHER_MOUSE_DOWN: u32 = 25;

/// The event type of the release of such a button.
pub const EVENT_OTHER_MOUSE_UP: u32 = 26;

/// The events that the tap asks for: presses and releases of the other
/// buttons.
pub const EVENT_MASK: u64 = (1 << 25) | (1 << 26);

/// The event type by which the system says that it has disabled the tap
/// because the tap was too slow.
pub const TAP_DISABLED_BY_TIMEOUT: u32 = 0xFFFF_FFFE;

/// The event type by which the system says that it has disabled the tap
/// because of user input.
pub const TAP_DISABLED_BY_USER_INPUT: u32 = 0xFFFF_FFFF;

/// The field of a mouse event that holds the number of the button.
pub const BUTTON_NUMBER_FIELD: u32 = 3;

/// What an event that reaches the tap is.
#[derive(Debug, Clone, Copy, PartialEq, Eq, Structural)]
pub enum TapEvent {
    /// The system's notice that it has disabled the tap.
    Disabled,
    /// An event that is no press of the middle button.
    Ignored,
    /// A press of the middle button.
    MiddleDown(MouseEvent),
}

/// What an event of type `event_type` is, with the button `button_number`
/// at `location`.
pub open spec fn spec_classify_event(
    event_type: u32,
    button_number: i64,
    location: Point,
) -> TapEvent {
    if event_type == TAP_DISABLED_BY_TIMEOUT || event_type == TAP_DISABLED_BY_USER_INPUT {
        TapEvent::Disabled
    } else if event_type == EVENT_OTHER_MOUSE_DOWN && button_number == MIDDLE_BUTTON {
        TapEvent::MiddleDown(MouseEvent { point: location, button: MIDDLE_BUTTON })
    } else {
        TapEvent::Ignored
    }
}

/// Why the event tap could not be installed.
#[derive(Debug, Clone, Copy, PartialEq, Eq, Structural)]
pub enum HookError {
    /// The system made no event tap; the accessibility permission may be
    /// missing.
    TapNotCreated,
    /// The system made no run loop source for the tap.
    SourceNotCreated,
}

/// The mouse hook of macOS: whether the event tap counts as installed.
///
/// The tap has one handler. Installing it again puts the new handler in
/// the place of the one before.
#[derive(Debug, Clone, Copy, PartialEq, Eq, Structural)]
pub struct MacMouseHook {
    active: bool,
}

impl MacMouseHook {
    /// Whether the hook counts as installed.
    pub closed spec fn installed(self) -> bool {
        self.active
    }

    /// The hook before any attempt to install it.
    pub closed spec fn not_installed() -> MacMouseHook {
        MacMouseHook { active: false }
    }

    /// A hook that is not installed.
    pub fn new() -> (hook: MacMouseHook)
        ensures
            hook == Self::not_installed(),
            !hook.installed(),
    {
        MacMouseHook { active: false }
    }

    /// Whether the hook counts as installed.
    pub fn is_active(&self) -> (active: bool)
        ensures
            active == self.installed(),
    {
        self.active
    }

    /// Records an attempt to install the event tap, of which `tap_created`
    /// and `source_created` say how far it got.
    ///
    /// The hook counts as installed from the attempt on, whether or not
    /// the attempt succeeds. The attempt fails where the tap was not
    /// created, or the tap was but its run loop source was not.
    pub fn install_event_tap(&mut self, tap_created: bool, source_created: bool) -> (installed:
        Result<(), HookError>)
        ensures
            final(self).installed(),
            installed is Ok <==> tap_created && source_created,
            !tap_created ==> installed == Err::<(), HookError>(HookError::TapNotCreated),
            tap_created && !source_created ==> installed == Err::<(), HookError>(
                HookError::SourceNotCreated,
            ),
    {
        self.active = true;
        if !tap_created {
            Err(HookError::TapNotCreated)
        } else if !source_created {
            Err(HookError::SourceNotCreated)
        } else {
            Ok(())
        }
    }

    /// Tells what an event that reaches the tap is: the notice that the tap
    /// was disabled, a press of the middle button, or neither.
    pub fn classify_event(event_type: u32, button_number: i64, location: Point) -> (event:
        TapEvent)
        ensures
            event == spec_classify_event(event_type, button_number, location),
            event is MiddleDown <==> event_type == EVENT_OTHER_MOUSE_DOWN && button_number
                == MIDDLE_BUTTON,
    {
        if event_type == TAP_DISABLED_BY_TIMEOUT || event_type == TAP_DISABLED_BY_USER_INPUT {
            TapEvent::Disabled
        } else if event_type == EVENT_OTHER_MOUSE_DOWN && button_number == MIDDLE_BUTTON as i64 {
            TapEvent::MiddleDown(MouseEvent { point: location, button: MIDDLE_BUTTON })
        } else {
            TapEvent::Ignored
        }
    }
}

} // verus!
