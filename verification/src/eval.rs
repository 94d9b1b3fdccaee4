//! One-shot evaluation: one unit given inline, one pipeline invocation.

use vstd::prelude::*;
use crate::pipeline::{
    Echo, EchoView, Finished, FinishedView, Invocation, InvocationView, Outcome, OutcomeView,
};
use crate::session::Session;
use crate::source::{Origin, SourceUnit, SourceView};

verus! {

/// Prepares the single invocation of this mode: `source` as an inline unit,
/// to be run in `session`.
pub fn start_eval<E>(source: String, session: Session<E>) -> (call: Invocation<E>)
    ensures
        call@ == (InvocationView {
            session: session@,
            unit: SourceView { origin: Origin::Inline, text: source@ },
        }),
{
    Invocation::new(session, SourceUnit::new(Origin::Inline, source))
}

/// What the mode shows and passes on for an outcome: a value is printed, the
/// "no value" result is not, and a failure is passed on to the caller.
pub open spec fn eval_end<E>(call: InvocationView<E>, outcome: OutcomeView) -> FinishedView<E> {
    FinishedView {
        session: call.session,
        echo: match outcome {
            OutcomeView::Value(text) => Some(EchoView::Stdout(text)),
            _ => None,
        },
        result: match outcome {
            OutcomeView::Failed(failure) => Err(failure),
            _ => Ok(()),
        },
    }
}

/// Ends the mode with what the pipeline returned.
pub fn finish_eval<E>(call: Invocation<E>, outcome: Outcome) -> (end: Finished<E>)
    ensures
        end@ == eval_end(call@, outcome@),
{
    let session = call.finish();
    match outcome {
        Outcome::Nothing => Finished { session, echo: None, result: Ok(()) },
        Outcome::Value(text) => Finished {
            session,
            echo: Some(Echo::Stdout(text)),
            result: Ok(()),
        },
        Outcome::Failed(failure) => Finished { session, echo: None, result: Err(failure) },
    }
}

} // verus!
