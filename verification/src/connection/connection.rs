//! What a transport to a host has to offer.

use crate::connection::command::{CommandResult, Forward};
use crate::tasks::response::TaskResponse;
use vstd::prelude::*;

verus! {

/// A transport to one host. Each operation returns a value or a structured
/// failure. Nothing is promised of what a transport returns: the library
/// decides on whatever comes back.
pub trait Connection: Send + Sync {
    /// Establishes or verifies that the host can be reached.
    fn connect(&mut self) -> Result<(), String>;

    /// Overwrites the content of a remote file.
    fn write_data(&self, data: &str, remote_path: &str) -> Result<(), TaskResponse>;

    /// Copies a local file to a remote path.
    fn copy_file(&self, src: &str, dest: &str) -> Result<(), TaskResponse>;

    /// The identity under which commands run on the host.
    fn whoami(&self) -> Result<String, String>;

    /// Runs a command on the host.
    fn run_command(&self, cmd: &str, forward: Forward) -> Result<CommandResult, TaskResponse>;
}

} // verus!
