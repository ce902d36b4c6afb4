//! The command vocabulary of the tool.
//!
//! The argument-parsing surface lives with the caller; these types are the
//! plain command model it hands over after parsing.

use vstd::prelude::*;

verus! {

/// A parsed invocation: exactly one command.
#[derive(Clone, Copy, Debug, PartialEq, Eq, Structural)]
pub struct Cli {
    pub command: Commands,
}

/// The operations the tool offers.
#[derive(Clone, Copy, Debug, PartialEq, Eq, Structural)]
pub enum Commands {
    /// Display the current telemetry identifiers.
    Ids,
    /// Replace the telemetry identifiers with fresh random values.
    RandomIds,
    /// Delete the configuration file, after confirmation.
    Delete,
    /// Terminate the target application's processes.
    Kill,
}

impl Commands {
    /// Whether running this command terminates the target's processes
    /// before any dependent work: replacing identifiers must first stop
    /// the application that holds the configuration file open.
    pub fn triggers_termination(&self) -> (r: bool)
        ensures
            r == (*self is RandomIds || *self is Kill),
    {
        match self {
            Commands::RandomIds => true,
            Commands::Kill => true,
            Commands::Ids => false,
            Commands::Delete => false,
        }
    }
}

} // verus!
