//! Start at logon on Windows, through a scheduled task.

use vstd::prelude::*;
use vstd::string::StringExecFns;

verus! {

/// The name of the scheduled task.
pub const TASK_NAME: &'static str = "ScreenHop";

/// The arguments of `schtasks.exe` that ask whether the task exists, in
/// one line.
pub const QUERY_ARGUMENTS: &'static str = "/Query /TN ScreenHop";

/// The arguments of `schtasks.exe` that delete the task, in one line.
pub const DELETE_ARGUMENTS: &'static str = "/Delete /TN ScreenHop /F";

/// The arguments of `schtasks.exe`, in one line, that create the task for
/// the program at the path `exe`: the task runs the program, whose path
/// stands in quotes, at every logon and with the highest privileges, and
/// takes the place of a task of the same name.
pub open spec fn spec_create_arguments(exe: Seq<char>) -> Seq<char> {
    "/Create /TN \"ScreenHop\" /TR \"\\\""@ + exe + "\\\"\" /SC ONLOGON /RL HIGHEST /F"@
}

/// The start-at-logon switch of Windows.
#[derive(Debug, Clone, Copy, PartialEq, Eq, Structural)]
pub struct WinAutoStart;

impl WinAutoStart {
    pub fn new() -> (auto_start: WinAutoStart) {
        WinAutoStart
    }

    /// Tells whether start at logon is on, from the query for the task:
    /// `query` holds whether the query found the task, or `None` where the
    /// query could not be run. It is on exactly where the task was found.
    pub fn is_enabled(&self, query: Option<bool>) -> (enabled: bool)
        ensures
            enabled == (query == Some(true)),
    {
        match query {
            Some(found) => found,
            None => false,
        }
    }

    /// Gives the arguments of `schtasks.exe` that create the task for the
    /// program at the path `exe`, in one line.
    pub fn create_arguments(&self, exe: &str) -> (arguments: String)
        ensures
            arguments@ == spec_create_arguments(exe@),
    {
        let mut arguments = "/Create /TN \"ScreenHop\" /TR \"\\\"".to_owned();
        arguments.append(exe);
        arguments.append("\\\"\" /SC ONLOGON /RL HIGHEST /F");
        arguments
    }
}

} // verus!
