//! The mode dispatcher: which mode a command line selects, which module
//! identity its session gets, and whether the interactive loop follows.

use vstd::prelude::*;
use crate::cli::{Eval, Fmt, Opts, Repl, Run, SubCommand};
use crate::pipeline::{echoes, report, report_of, Echo, EchoView, Finished, FinishedView};
use crate::repl::{restored, start_repl, Interactive, LoopView, Phase};
use crate::session::{Session, SessionView};

verus! {

/// What the argument parser made of the command line.
#[derive(Debug)]
pub enum Parsed {
    /// A well-formed command line.
    Matched(Opts),
    /// No subcommand was given at all.
    NoSubcommand,
    /// Anything else: the parser shows its message and the process ends.
    Refused,
}

/// Picks the subcommand to run: the one that was given, or the interactive
/// loop if none was. `None` means that the command line was refused and that
/// nothing is to be run.
pub fn resolve(parsed: Parsed) -> (subcmd: Option<SubCommand>)
    ensures
        match parsed {
            Parsed::Matched(opts) => subcmd == Some(opts.subcmd),
            Parsed::NoSubcommand => subcmd matches Some(SubCommand::Repl(_)),
            Parsed::Refused => subcmd is None,
        },
{
    match parsed {
        Parsed::Matched(opts) => Some(opts.subcmd),
        Parsed::NoSubcommand => Some(SubCommand::Repl(Repl {})),
        Parsed::Refused => None,
    }
}

/// A mode with what it needs to run.
#[derive(Debug, PartialEq, Eq)]
pub enum Mode {
    /// The interactive loop.
    Repl,
    /// One-shot evaluation of `source`.
    Eval { source: String, inspect: bool },
    /// Execution of the script `filename`.
    Run { filename: String, inspect: bool },
    /// Reformatting of the file `filename`.
    Fmt { filename: String },
}

/// What a mode is, for contracts.
pub ghost enum ModeView {
    Repl,
    Eval { source: Seq<char>, inspect: bool },
    Run { filename: Seq<char>, inspect: bool },
    Fmt { filename: Seq<char> },
}

impl View for Mode {
    type V = ModeView;

    open spec fn view(&self) -> ModeView {
        match self {
            Mode::Repl => ModeView::Repl,
            Mode::Eval { source, inspect } => ModeView::Eval {
                source: source@,
                inspect: *inspect,
            },
            Mode::Run { filename, inspect } => ModeView::Run {
                filename: filename@,
                inspect: *inspect,
            },
            Mode::Fmt { filename } => ModeView::Fmt { filename: filename@ },
        }
    }
}

/// A command line that names a mode but not what the mode is to work on.
#[derive(Clone, Copy, Debug, PartialEq, Eq, Structural)]
pub enum Malformed {
    /// `eval` without code.
    NoCode,
    /// `run` without a script.
    NoScript,
}

/// The mode a subcommand selects. The first of the arguments of `eval` is
/// the code, the first of `run` the script; what follows them is not used.
pub open spec fn mode_of(subcmd: SubCommand) -> Result<ModeView, Malformed> {
    match subcmd {
        SubCommand::Repl(_) => Ok(ModeView::Repl),
        SubCommand::Eval(eval) => if eval.code_args@.len() == 0 {
            Err(Malformed::NoCode)
        } else {
            Ok(ModeView::Eval { source: eval.code_args@[0]@, inspect: eval.inspect })
        },
        SubCommand::Run(run) => if run.script_args@.len() == 0 {
            Err(Malformed::NoScript)
        } else {
            Ok(ModeView::Run { filename: run.script_args@[0]@, inspect: run.inspect })
        },
        SubCommand::Fmt(fmt) => Ok(ModeView::Fmt { filename: fmt.filename@ }),
    }
}

/// The view of a selection.
pub open spec fn selection_view(selected: Result<Mode, Malformed>) -> Result<
    ModeView,
    Malformed,
> {
    match selected {
        Ok(mode) => Ok(mode@),
        Err(fault) => Err(fault),
    }
}

/// Selects the mode for a subcommand.
pub fn select(subcmd: SubCommand) -> (selected: Result<Mode, Malformed>)
    ensures
        selection_view(selected) == mode_of(subcmd),
{
    match subcmd {
        SubCommand::Repl(_) => Ok(Mode::Repl),
        SubCommand::Eval(Eval { inspect, code_args }) => {
            let mut code_args = code_args;
            if code_args.len() == 0 {
                Err(Malformed::NoCode)
            } else {
                let source = code_args.remove(0);
                Ok(Mode::Eval { source, inspect })
            }
        },
        SubCommand::Run(Run { inspect, script_args }) => {
            let mut script_args = script_args;
            if script_args.len() == 0 {
                Err(Malformed::NoScript)
            } else {
                let filename = script_args.remove(0);
                Ok(Mode::Run { filename, inspect })
            }
        },
        SubCommand::Fmt(Fmt { filename, format_args }) => Ok(Mode::Fmt { filename }),
    }
}

/// The status the process ends with. Only a fault of the command line makes
/// it non-zero: once a mode is selected the process ends with success,
/// whatever the pipeline or the validation of a path came to.
pub open spec fn status_of(selected: Result<ModeView, Malformed>) -> i32 {
    match selected {
        Ok(_) => 0i32,
        Err(_) => 2i32,
    }
}

/// The exit status for a selection.
pub fn exit_status(selected: &Result<Mode, Malformed>) -> (status: i32)
    ensures
        status == status_of(selection_view(*selected)),
{
    match selected {
        Ok(_) => 0,
        Err(_) => 2,
    }
}

/// The module identity of the session a mode runs in: a fixed name for the
/// interactive loop and for one-shot evaluation, the path of the script for a
/// file run. Formatting has no session.
pub open spec fn identity_of(mode: ModeView) -> Option<Seq<char>> {
    match mode {
        ModeView::Repl => Some("repl"@),
        ModeView::Eval { .. } => Some("eval"@),
        ModeView::Run { filename, .. } => Some(filename),
        ModeView::Fmt { .. } => None,
    }
}

/// Opens the one session of a mode over `environment`, under the module
/// identity the mode calls for. For formatting, which runs without a
/// session, the environment comes back unused.
pub fn open<E>(mode: &Mode, environment: E) -> (opened: Result<Session<E>, E>)
    ensures
        match opened {
            Ok(session) => identity_of(mode@) == Some(session@.module) && session@.environment
                == environment,
            Err(unused) => identity_of(mode@) is None && unused == environment,
        },
{
    match mode {
        Mode::Repl => Ok(Session::new(environment, String::from_str("repl"))),
        Mode::Eval { .. } => Ok(Session::new(environment, String::from_str("eval"))),
        Mode::Run { filename, .. } => Ok(Session::new(environment, filename.clone())),
        Mode::Fmt { .. } => Err(environment),
    }
}

/// What follows a mode that has run to its end.
pub enum Next<E> {
    /// Nothing more: show the lines, and the process is done.
    Done { show: Vec<Echo>, session: Session<E> },
    /// Show the lines, then run the interactive loop.
    Inspect { show: Vec<Echo>, repl: Interactive<E> },
}

/// What the next step is, for contracts.
pub ghost enum NextView<E> {
    Done { show: Seq<EchoView>, session: SessionView<E> },
    Inspect { show: Seq<EchoView>, repl: LoopView<E> },
}

impl<E> View for Next<E> {
    type V = NextView<E>;

    open spec fn view(&self) -> NextView<E> {
        match self {
            Next::Done { show, session } => NextView::Done {
                show: echoes(show@),
                session: session@,
            },
            Next::Inspect { show, repl } => NextView::Inspect {
                show: echoes(show@),
                repl: repl@,
            },
        }
    }
}

/// The lines shown when a mode has ended: what the mode itself had to show,
/// then the failure it passed on, if any, and, before the interactive loop
/// opens, an empty line.
pub open spec fn shown<E>(end: FinishedView<E>, inspect: bool) -> Seq<EchoView> {
    let own = match end.echo {
        Some(echo) => seq![echo],
        None => Seq::empty(),
    };
    let failure = match report_of(end.result) {
        Some(echo) => seq![echo],
        None => Seq::empty(),
    };
    let gap = if inspect {
        seq![EchoView::Stdout(Seq::empty())]
    } else {
        Seq::empty()
    };
    own + failure + gap
}

/// Chaining. Without the inspect flag the mode's end is the end. With it,
/// the interactive loop opens over the very session the mode ran in, whether
/// the mode failed or not: a failure is shown and does not keep the loop
/// from opening.
pub open spec fn next_of<E>(
    end: FinishedView<E>,
    inspect: bool,
    history: Seq<Seq<char>>,
) -> NextView<E> {
    if inspect {
        NextView::Inspect {
            show: shown(end, inspect),
            repl: LoopView { session: end.session, buffer: Seq::empty(), history, prompts: 0 },
        }
    } else {
        NextView::Done { show: shown(end, inspect), session: end.session }
    }
}

/// Decides what follows a one-shot evaluation or a file run that has ended.
/// `loaded` is what the history file held, `None` if it could not be read; it
/// is used only if the loop opens.
pub fn chain<E>(end: Finished<E>, inspect: bool, loaded: Option<Vec<String>>) -> (next: Next<E>)
    ensures
        next@ == next_of(end@, inspect, restored(loaded)),
        next matches Next::Inspect { repl, .. } ==> repl@.wf() && repl@.phase()
            == Phase::AwaitingInput,
{
    let Finished { session, echo, result } = end;
    let mut show: Vec<Echo> = Vec::new();
    if let Some(line) = echo {
        show.push(line);
    }
    if let Some(line) = report(result) {
        show.push(line);
    }
    if inspect {
        show.push(Echo::Stdout(String::new()));
        assert(echoes(show@) =~= shown(end@, inspect));
        Next::Inspect { show, repl: start_repl(session, loaded) }
    } else {
        assert(echoes(show@) =~= shown(end@, inspect));
        Next::Done { show, session }
    }
}

} // verus!
