//! The file runner: one script file, one pipeline invocation, run for its
//! effects.

use vstd::prelude::*;
use crate::pipeline::{
    Echo, EchoView, FailureView, Finished, FinishedView, Invocation, InvocationView, Outcome,
    OutcomeView,
};
use crate::script::{complaint, describe, extension, validate, verdict, Probe, Rejection};
use crate::text::ends_with;
use crate::session::{Session, SessionView};
use crate::source::{Origin, SourceUnit, SourceView};

verus! {

/// What a file that waits to be read is, for contracts.
pub ghost struct LoadingView<E> {
    pub session: SessionView<E>,
    pub path: Seq<char>,
}

/// A script that passed validation and is to be read in full.
pub struct Loading<E> {
    session: Session<E>,
    path: String,
}

impl<E> View for Loading<E> {
    type V = LoadingView<E>;

    closed spec fn view(&self) -> LoadingView<E> {
        LoadingView { session: self.session@, path: self.path@ }
    }
}

/// How a file run begins.
pub enum RunStart<E> {
    /// The path was turned away; the run is over before it began.
    Rejected(Finished<E>),
    /// Read the file, then run its contents.
    Load(Loading<E>),
}

/// What the start of a file run is, for contracts.
pub ghost enum RunStartView<E> {
    Rejected(FinishedView<E>),
    Load(LoadingView<E>),
}

impl<E> View for RunStart<E> {
    type V = RunStartView<E>;

    open spec fn view(&self) -> RunStartView<E> {
        match self {
            RunStart::Rejected(end) => RunStartView::Rejected(end@),
            RunStart::Load(file) => RunStartView::Load(file@),
        }
    }
}

/// How a run of `filename` begins: a path that fails validation ends the run
/// with a complaint for the error stream and no failure; any other path is
/// to be read.
pub open spec fn run_start<E>(
    filename: Seq<char>,
    probe: Probe,
    session: SessionView<E>,
) -> RunStartView<E> {
    match verdict(filename, probe) {
        Err(rejection) => RunStartView::Rejected(
            FinishedView {
                session,
                echo: Some(EchoView::Stderr(complaint(rejection, filename))),
                result: Ok(()),
            },
        ),
        Ok(()) => RunStartView::Load(LoadingView { session, path: filename }),
    }
}

/// Begins a file run in `session`. `probe` is what the file system says of
/// `filename`. No invocation is prepared for a path that is turned away.
pub fn start_run<E>(filename: String, probe: Probe, session: Session<E>) -> (start: RunStart<E>)
    ensures
        start@ == run_start(filename@, probe, session@),
{
    match validate(filename.as_str(), probe) {
        Err(rejection) => RunStart::Rejected(
            Finished {
                session,
                echo: Some(Echo::Stderr(describe(rejection, filename.as_str()))),
                result: Ok(()),
            },
        ),
        Ok(()) => RunStart::Load(Loading { session, path: filename }),
    }
}

impl<E> Loading<E> {
    /// The path to read.
    pub fn path(&self) -> (path: &str)
        ensures
            path@ == self@.path,
    {
        self.path.as_str()
    }

    /// Prepares the single invocation of the run: the whole of the file, as
    /// one unit.
    pub fn loaded(self, contents: String) -> (call: Invocation<E>)
        ensures
            call@ == (InvocationView {
                session: self@.session,
                unit: SourceView { origin: Origin::File, text: contents@ },
            }),
    {
        Invocation::new(self.session, SourceUnit::new(Origin::File, contents))
    }

    /// Gives the run up because the file could not be read after all: the
    /// same complaint as for a missing file, and no failure.
    pub fn unreadable(self) -> (end: Finished<E>)
        ensures
            end@ == (FinishedView {
                session: self@.session,
                echo: Some(
                    EchoView::Stderr(complaint(Rejection::NoSuchFile, self@.path)),
                ),
                result: Ok(()),
            }),
    {
        let line = describe(Rejection::NoSuchFile, self.path.as_str());
        Finished { session: self.session, echo: Some(Echo::Stderr(line)), result: Ok(()) }
    }
}

/// What a file run ends with: the value is dropped, a failure is passed on.
pub open spec fn run_end<E>(call: InvocationView<E>, outcome: OutcomeView) -> FinishedView<E> {
    FinishedView {
        session: call.session,
        echo: None,
        result: match outcome {
            OutcomeView::Failed(failure) => Err(failure),
            _ => Ok(()),
        },
    }
}

/// Ends the run with what the pipeline returned.
pub fn finish_run<E>(call: Invocation<E>, outcome: Outcome) -> (end: Finished<E>)
    ensures
        end@ == run_end(call@, outcome@),
{
    let session = call.finish();
    match outcome {
        Outcome::Failed(failure) => Finished { session, echo: None, result: Err(failure) },
        _ => Finished { session, echo: None, result: Ok(()) },
    }
}

/// Fail-fast validation. A path that does not end in the extension is turned
/// away whatever the file system says of it: the run ends where it begins,
/// with a complaint and without a failure, and no invocation is ever
/// prepared. The session comes back as it was.
pub proof fn lemma_wrong_extension_never_runs<E>(
    filename: Seq<char>,
    probe: Probe,
    session: SessionView<E>,
)
    requires
        !ends_with(filename, extension()),
    ensures
        run_start(filename, probe, session) matches RunStartView::Rejected(end) && end.session
            == session && end.result == Ok::<(), FailureView>(()) && end.echo matches Some(
            EchoView::Stderr(_),
        ),
{
}

} // verus!
