//! Conventions of services that offer a shell command.

use vstd::prelude::*;
use crate::errno::Error;

verus! {

/// Property key under which a command service gives the command's name.
pub const COMMAND_NAME: &'static str = "command.name";

/// Property key under which a command service gives the command's usage.
pub const COMMAND_USAGE: &'static str = "command.usage";

/// Property key under which a command service describes the command.
pub const COMMAND_DESCRIPTION: &'static str = "command.description";

/// A shell command, to be published as a service.
pub trait RustShellCommand {
    /// Runs the command on a complete command line.
    fn execute_command(&self, command_line: &str) -> Result<(), Error>;
}

} // verus!
