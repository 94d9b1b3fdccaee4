//! The command surface as plain data: what the argument parser hands over.

use vstd::prelude::*;

verus! {

/// The parsed command line.
#[derive(Debug, PartialEq, Eq)]
pub struct Opts {
    pub subcmd: SubCommand,
}

/// The four modes of the command line.
#[derive(Debug, PartialEq, Eq)]
pub enum SubCommand {
    Repl(Repl),
    Eval(Eval),
    Run(Run),
    Fmt(Fmt),
}

/// Read Eval Print Loop.
#[derive(Clone, Debug, PartialEq, Eq)]
pub struct Repl {}

/// Evaluate code given on the command line.
#[derive(Clone, Debug, PartialEq, Eq)]
pub struct Eval {
    /// Inspect interactively after running the code.
    pub inspect: bool,
    /// The code, followed by whatever else was given.
    pub code_args: Vec<String>,
}

/// Run a program given a filename.
#[derive(Clone, Debug, PartialEq, Eq)]
pub struct Run {
    /// Inspect interactively after running the script.
    pub inspect: bool,
    /// The script, followed by whatever else was given.
    pub script_args: Vec<String>,
}

/// Format a source file.
#[derive(Clone, Debug, PartialEq, Eq)]
pub struct Fmt {
    pub filename: String,
    pub format_args: Vec<String>,
}

} // verus!
