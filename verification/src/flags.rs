//! Flags: the settings a command line comes down to.

use vstd::prelude::*;
use crate::text::{strip_leading, without_leading};

verus! {

/// The subcommand the flags were made from.
#[derive(Clone, Debug, PartialEq, Eq)]
pub enum GLanguageSubCommand {
    Repl,
    Eval { source: String },
}

impl Default for GLanguageSubCommand {
    fn default() -> (subcommand: Self)
        ensures
            subcommand is Repl,
    {
        GLanguageSubCommand::Repl
    }
}

/// The settings of one invocation.
#[derive(Clone, Debug, PartialEq, Eq)]
pub struct Flags {
    pub argv: Vec<String>,
    pub subcommand: GLanguageSubCommand,
    pub repl: bool,
}

impl Default for Flags {
    fn default() -> (flags: Self)
        ensures
            flags.argv@.len() == 0,
            flags.subcommand is Repl,
            !flags.repl,
    {
        Flags { argv: Vec::new(), subcommand: GLanguageSubCommand::default(), repl: false }
    }
}

/// Which subcommand the argument parser found.
#[derive(Debug)]
pub enum Matched {
    /// `repl`.
    Repl,
    /// `eval`, with its source.
    Eval { source: String },
    /// No subcommand.
    Neither,
}

impl Flags {
    /// The flags for what the argument parser found. `eval` keeps its source;
    /// everything else, no subcommand included, means the interactive loop.
    /// The loop is switched on in every case, and no arguments are kept.
    pub fn from_matches(matched: Matched) -> (flags: Flags)
        ensures
            flags.repl,
            flags.argv@.len() == 0,
            match matched {
                Matched::Eval { source } => flags.subcommand matches GLanguageSubCommand::Eval {
                    source: kept,
                } && kept@ == source@,
                _ => flags.subcommand is Repl,
            },
    {
        let mut flags = Flags::default();
        match matched {
            Matched::Eval { source } => eval_parse(&mut flags, source),
            _ => repl_parse(&mut flags),
        }
        flags
    }
}

fn repl_parse(flags: &mut Flags)
    ensures
        final(flags).repl,
        final(flags).subcommand is Repl,
        final(flags).argv == old(flags).argv,
{
    flags.repl = true;
    flags.subcommand = GLanguageSubCommand::Repl;
}

fn eval_parse(flags: &mut Flags, source: String)
    ensures
        final(flags).repl,
        final(flags).subcommand == (GLanguageSubCommand::Eval { source }),
        final(flags).argv == old(flags).argv,
{
    flags.repl = true;
    flags.subcommand = GLanguageSubCommand::Eval { source };
}

/// The words every message of the argument parser begins with.
pub open spec fn error_label() -> Seq<char> {
    "error: "@
}

/// The message of the argument parser without its leading `error: `, however
/// often that stands in front.
pub fn plain_message(message: &str) -> (plain: String)
    ensures
        plain@ == without_leading(message@, error_label()),
{
    strip_leading(message, "error: ")
}

} // verus!
