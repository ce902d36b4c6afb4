//! Discovery and termination of a target application's processes.
//!
//! The crate models the two components a caller consumes in sequence:
//! a locator, which parses a process listing and selects the entries whose
//! name equals one of a small set of target name variants (compared
//! case-insensitively), and a terminator, which walks the selected
//! identifiers with a graceful-then-forced escalation policy and aggregates
//! the per-identifier outcomes into a summary.  All decisions are made here
//! under contract; the operating-system edges (running the listing tool,
//! delivering signals, touching the configuration file) live with the caller.

pub mod cli;
pub mod ids;
pub mod listing;
pub mod matching;
pub mod process;
pub mod termination;
