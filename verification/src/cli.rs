//! The commands a program invocation can carry. Argument parsing itself is
//! the platform layer's job; it hands over one of these plain values.

use vstd::prelude::*;

use crate::thread_id::ThreadId;

verus! {

/// A parsed invocation.
#[derive(Debug)]
pub struct Args {
    pub command: Command,
}

/// The subcommands.
#[derive(Debug)]
pub enum Command {
    Run(Run),
    Stop(Stop),
    Reload(Reload),
    Clean(Clean),
    PrintOutput(PrintOutput),
    Adjust(Adjust),
    Config(Config),
}

/// Start the background instance (or, with `foreground`, become it).
#[derive(Debug, Copy, Clone, PartialEq, Eq, Structural)]
pub struct Run {
    /// Run the daemon loop in this process instead of spawning one.
    pub foreground: bool,
    /// The spawning process's message thread, for the startup handshake;
    /// set when the daemon was spawned rather than started by hand.
    pub parent_thread: Option<ThreadId>,
}

/// Stop the running instance.
#[derive(Debug, Copy, Clone, PartialEq, Eq, Structural)]
pub struct Stop {}

/// Make the running instance reload its configuration.
#[derive(Debug, Copy, Clone, PartialEq, Eq, Structural)]
pub struct Reload {}

/// Delete state left over by improper termination.
#[derive(Debug, Copy, Clone, PartialEq, Eq, Structural)]
pub struct Clean {}

/// Print the output the running instance accumulated since last checked.
#[derive(Debug, Copy, Clone, PartialEq, Eq, Structural)]
pub struct PrintOutput {}

/// Interactively adjust one process's sensitivity.
#[derive(Debug)]
pub struct Adjust {
    /// The executable (name or path) whose entry to adjust.
    pub process: Vec<u8>,
}

/// Print the configuration file's path, creating the file if needed.
#[derive(Debug, Copy, Clone, PartialEq, Eq, Structural)]
pub struct Config {}

} // verus!
