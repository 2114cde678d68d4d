//! Command-line surface of the emulator, as plain data.  The front end parses
//! the process arguments into these types; the core only defines them.

use vstd::prelude::*;

verus! {

/// The run mode and its arguments.
pub struct GameboyArgs {
    pub run_type: RunType,
}

/// The two subcommands: run a ROM, or run in test mode with a trace log.
pub enum RunType {
    Run(RunCommand),
    Test(TestCommand),
}

/// Arguments of the `run` subcommand.
pub struct RunCommand {
    pub rom: String,
}

/// Arguments of the `test` subcommand.
pub struct TestCommand {
    pub rom: String,
    pub log: String,
}

} // verus!
