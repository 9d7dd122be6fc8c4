//! The tool's command surface, as plain data: the surrounding program
//! parses its arguments into these types and dispatches on them.

use vstd::prelude::*;

verus! {

/// A parsed invocation of the tool.
#[derive(Clone, Debug)]
pub struct Cli {
    pub command: Option<Commands>,
}

/// The tool's subcommands.
#[derive(Clone, Debug)]
pub enum Commands {
    /// Run the readiness checks; `full` also runs the smoke chain.
    Preflight { full: bool },
    /// Run the services' test suites, optionally filtered to services
    /// whose name contains `service`, in parallel unless disabled, with
    /// coverage reporting when asked.
    Test { service: Option<String>, parallel: bool, coverage: bool },
}

} // verus!
