//! Plain data types for the command-line surface of the tool.
//!
//! The argument-parsing layer outside the library mirrors these types
//! and converts into them; the library itself only carries the parsed
//! command as data.

use vstd::prelude::*;

verus! {

/// A state-change request directed at a device node.
#[derive(Debug, Clone, Copy, PartialEq, Eq, Structural)]
pub enum Message {
    Enable,
    Disable,
}

/// The command selected on the command line.
#[derive(Debug, Clone)]
pub enum MainCommand {
    List,
    Enable { id: String },
    Disable { id: String },
}

/// The parsed command-line arguments.
#[derive(Debug, Clone)]
pub struct Args {
    pub command: MainCommand,
}

} // verus!
