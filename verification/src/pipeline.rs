//! What one pass of the pipeline (lex, parse, execute) hands back, as plain
//! values, and what the harness shows of it.

use vstd::prelude::*;
use crate::session::{Session, SessionView};
use crate::source::{SourceUnit, SourceView};

verus! {

/// A place in a source unit.
#[derive(Clone, Copy, Debug, PartialEq, Eq, Structural)]
pub struct Position {
    pub line: u64,
    pub column: u64,
}

/// What a failure is, for contracts.
pub ghost struct FailureView {
    pub message: Seq<char>,
    pub position: Option<Position>,
}

/// A failure of the pipeline: a message for the reader and, where the
/// pipeline knows it, the place in the source.
#[derive(Clone, Debug, PartialEq, Eq)]
pub struct Failure {
    pub message: String,
    pub position: Option<Position>,
}

impl View for Failure {
    type V = FailureView;

    open spec fn view(&self) -> FailureView {
        FailureView { message: self.message@, position: self.position }
    }
}

/// What an outcome is, for contracts.
pub ghost enum OutcomeView {
    Nothing,
    Value(Seq<char>),
    Failed(FailureView),
}

/// The result of one pipeline invocation.
#[derive(Clone, Debug, PartialEq, Eq)]
pub enum Outcome {
    /// The pipeline ran and produced its "no value" result.
    Nothing,
    /// The pipeline produced a value; this is its printed form.
    Value(String),
    /// The pipeline failed.
    Failed(Failure),
}

impl View for Outcome {
    type V = OutcomeView;

    open spec fn view(&self) -> OutcomeView {
        match self {
            Outcome::Nothing => OutcomeView::Nothing,
            Outcome::Value(text) => OutcomeView::Value(text@),
            Outcome::Failed(failure) => OutcomeView::Failed(failure@),
        }
    }
}

/// The view of a result that carries a failure.
pub open spec fn result_view(result: Result<(), Failure>) -> Result<(), FailureView> {
    match result {
        Ok(()) => Ok(()),
        Err(failure) => Err(failure@),
    }
}

/// A line to show, and the stream it belongs on.
#[derive(Clone, Debug, PartialEq, Eq)]
pub enum Echo {
    /// For standard output.
    Stdout(String),
    /// For the error stream.
    Stderr(String),
}

/// What an echo is, for contracts.
pub ghost enum EchoView {
    Stdout(Seq<char>),
    Stderr(Seq<char>),
}

impl View for Echo {
    type V = EchoView;

    open spec fn view(&self) -> EchoView {
        match self {
            Echo::Stdout(line) => EchoView::Stdout(line@),
            Echo::Stderr(line) => EchoView::Stderr(line@),
        }
    }
}

/// The view of an echo that may be absent.
pub open spec fn echo_view(echo: Option<Echo>) -> Option<EchoView> {
    match echo {
        Some(echo) => Some(echo@),
        None => None,
    }
}

/// What an invocation is, for contracts.
pub ghost struct InvocationView<E> {
    pub session: SessionView<E>,
    pub unit: SourceView,
}

/// One pipeline invocation that is due: a unit, and the session it is to
/// run in. The caller runs the pipeline on the unit, against the environment
/// lent by [`Invocation::environment`] and under the module identity given by
/// [`Invocation::module`], and then hands the invocation back.
pub struct Invocation<E> {
    session: Session<E>,
    unit: SourceUnit,
}

impl<E> View for Invocation<E> {
    type V = InvocationView<E>;

    closed spec fn view(&self) -> InvocationView<E> {
        InvocationView { session: self.session@, unit: self.unit@ }
    }
}

impl<E> Invocation<E> {
    /// An invocation of `unit` in `session`.
    pub fn new(session: Session<E>, unit: SourceUnit) -> (call: Self)
        ensures
            call@ == (InvocationView { session: session@, unit: unit@ }),
    {
        Invocation { session, unit }
    }

    /// The unit to run.
    pub fn unit(&self) -> (unit: &SourceUnit)
        ensures
            unit@ == self@.unit,
    {
        &self.unit
    }

    /// The module identity under which the unit runs.
    pub fn module(&self) -> (name: &str)
        ensures
            name@ == self@.session.module,
    {
        self.session.module()
    }

    /// Lends the session's environment to the pipeline. What the pipeline
    /// leaves in it stays in the session; nothing else changes.
    pub fn environment(&mut self) -> (lent: &mut E)
        ensures
            *lent == old(self)@.session.environment,
            final(self)@ == (InvocationView {
                session: SessionView {
                    environment: *final(lent),
                    module: old(self)@.session.module,
                },
                unit: old(self)@.unit,
            }),
    {
        self.session.environment()
    }

    /// Ends the invocation and gives the session back.
    pub fn finish(self) -> (session: Session<E>)
        ensures
            session@ == self@.session,
    {
        self.session
    }
}

/// What a finished mode is, for contracts.
pub ghost struct FinishedView<E> {
    pub session: SessionView<E>,
    pub echo: Option<EchoView>,
    pub result: Result<(), FailureView>,
}

/// A mode that has run to its end: the session it ran in, a line to show if
/// there is one, and the failure to pass on if the pipeline failed.
pub struct Finished<E> {
    pub session: Session<E>,
    pub echo: Option<Echo>,
    pub result: Result<(), Failure>,
}

impl<E> View for Finished<E> {
    type V = FinishedView<E>;

    open spec fn view(&self) -> FinishedView<E> {
        FinishedView {
            session: self.session@,
            echo: echo_view(self.echo),
            result: result_view(self.result),
        }
    }
}

/// The views of a list of echoes.
pub open spec fn echoes(lines: Seq<Echo>) -> Seq<EchoView> {
    Seq::new(lines.len(), |i: int| lines[i]@)
}

/// How a failure that reaches the command surface is shown: its message, on
/// the error stream. Success shows nothing.
pub open spec fn report_of(result: Result<(), FailureView>) -> Option<EchoView> {
    match result {
        Err(failure) => Some(EchoView::Stderr(failure.message)),
        Ok(()) => None,
    }
}

/// The line to show for the result a mode passed on, if any.
pub fn report(result: Result<(), Failure>) -> (echo: Option<Echo>)
    ensures
        echo_view(echo) == report_of(result_view(result)),
{
    match result {
        Err(failure) => Some(Echo::Stderr(failure.message)),
        Ok(()) => None,
    }
}

} // verus!
