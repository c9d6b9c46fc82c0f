//! The result of a remote command.

use crate::tasks::response::TaskResponse;
use vstd::prelude::*;

verus! {

/// The command text that was issued, what it printed, and its return code.
#[derive(Debug)]
pub struct CommandResult {
    pub cmd: String,
    pub out: String,
    pub rc: i32,
}

pub struct CommandView {
    pub cmd: Seq<char>,
    pub out: Seq<char>,
    pub rc: int,
}

impl View for CommandResult {
    type V = CommandView;

    open spec fn view(&self) -> CommandView {
        CommandView { cmd: self.cmd@, out: self.out@, rc: self.rc as int }
    }
}

impl CommandResult {
    pub fn duplicate(&self) -> (r: CommandResult)
        ensures
            r@ == self@,
    {
        CommandResult { cmd: self.cmd.clone(), out: self.out.clone(), rc: self.rc }
    }
}

/// The view of a command result that may be absent.
pub open spec fn command_option(o: Option<CommandResult>) -> Option<CommandView> {
    match o {
        Some(c) => Some(c@),
        None => None,
    }
}

/// Whether the remote process may use the credentials of the connection to
/// authenticate onward.
#[derive(Debug, Copy, Clone, PartialEq, Eq, Structural)]
pub enum Forward {
    Yes,
    No,
}

/// The return code and the output of the command behind a response.
pub fn cmd_info(info: &TaskResponse) -> (r: (i32, String))
    requires
        info.command_result is Some,
    ensures
        r.0 == info.command_result->0.rc,
        r.1@ == info.command_result->0.out@,
{
    match &info.command_result {
        Some(result) => (result.rc, result.out.clone()),
        None => (0, String::new()),
    }
}

} // verus!
