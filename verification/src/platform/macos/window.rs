//! Windows on macOS, as far as they are found by their role.

use vstd::prelude::*;
use crate::platform::macos::hittest::AxRole;
use crate::platform::WindowHandle;

verus! {

/// How many elements of an ancestry are looked at for the window, the
/// starting element included.
pub const MAX_WINDOW_DEPTH: usize = 20;

/// How many elements of the ancestry `roles` the search for the window
/// looks at.
pub open spec fn window_walk_len(roles: Seq<Option<AxRole>>) -> int {
    if roles.len() <= MAX_WINDOW_DEPTH {
        roles.len() as int
    } else {
        MAX_WINDOW_DEPTH as int
    }
}

/// Whether the element `depth` steps above the starting one is the first
/// window that the search up `roles` meets.
pub open spec fn is_first_window(roles: Seq<Option<AxRole>>, depth: int) -> bool {
    &&& 0 <= depth < window_walk_len(roles)
    &&& roles[depth] == Some(AxRole::Window)
    &&& forall|below: int| 0 <= below < depth ==> #[trigger] roles[below] != Some(AxRole::Window)
}

/// The window manager of macOS.
#[derive(Debug, Clone, Copy, PartialEq, Eq, Structural)]
pub struct MacWindowManager;

impl MacWindowManager {
    pub fn new() -> (manager: MacWindowManager) {
        MacWindowManager
    }

    /// Finds the window that an element belongs to, from the roles of the
    /// element and of those above it: `roles[0]` is the element's, and
    /// `None` stands for a role that could not be read. Returns how many
    /// steps up the window is. The ancestry ends where an element has no
    /// parent; no more than `MAX_WINDOW_DEPTH` of it is looked at.
    pub fn walk_up_to_window(&self, roles: &[Option<AxRole>]) -> (found: Option<usize>)
        ensures
            match found {
                Some(depth) => is_first_window(roles@, depth as int),
                None => forall|depth: int|
                    0 <= depth < window_walk_len(roles@) ==> #[trigger] roles@[depth] != Some(
                        AxRole::Window,
                    ),
            },
    {
        let mut depth: usize = 0;
        while depth < MAX_WINDOW_DEPTH && depth < roles.len()
            invariant
                depth <= window_walk_len(roles@),
                forall|below: int|
                    0 <= below < depth ==> #[trigger] roles@[below] != Some(AxRole::Window),
            decreases window_walk_len(roles@) - depth,
        {
            match roles[depth] {
                Some(AxRole::Window) => {
                    return Some(depth);
                },
                _ => {},
            }
            depth += 1;
        }
        None
    }

    /// Whether a window is maximized. macOS has no such state, so none is.
    pub fn is_maximized(&self, handle: &WindowHandle) -> (maximized: bool)
        ensures
            !maximized,
    {
        false
    }
}

} // verus!
