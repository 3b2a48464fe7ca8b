//! The command-line surface: the parsed invocation and the verbosity rule.
//!
//! Argument parsing itself is glue around the library; these are the plain
//! shapes it produces and the one decision it takes from them.

use vstd::prelude::*;

verus! {

/// The subcommand to run.
#[derive(Debug, Clone)]
pub enum CliCommand {
    Build,
}

/// A parsed invocation: the subcommand and the two verbosity flags.
#[derive(Debug)]
pub struct Cli {
    pub command: CliCommand,
    pub verbose: bool,
    pub quiet: bool,
}

/// How much the build run prints.
#[derive(Debug, Clone, Copy, PartialEq, Eq, Structural)]
pub enum LogLevel {
    Verbose,
    Quiet,
    Default,
}

impl LogLevel {
    /// The level the two flags select. Asking for both at once is answered
    /// with the louder one; the caller may warn about the contradiction,
    /// which [`Cli::flags_conflict`] detects.
    pub fn from_flags(quiet: bool, verbose: bool) -> (r: LogLevel)
        ensures
            r == (if verbose {
                LogLevel::Verbose
            } else if quiet {
                LogLevel::Quiet
            } else {
                LogLevel::Default
            }),
    {
        match (quiet, verbose) {
            (true, true) => LogLevel::Verbose,
            (true, false) => LogLevel::Quiet,
            (false, true) => LogLevel::Verbose,
            (false, false) => LogLevel::Default,
        }
    }
}

impl Cli {
    /// Whether the invocation asked for quiet and verbose at once.
    pub fn flags_conflict(&self) -> (r: bool)
        ensures
            r == (self.quiet && self.verbose),
    {
        self.quiet && self.verbose
    }
}

} // verus!
