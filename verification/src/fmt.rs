//! The formatter: a file is parsed and rendered anew, and written back only
//! if that went through. No session is involved.

use vstd::prelude::*;
use crate::pipeline::{result_view, EchoView, Failure, FailureView};
use crate::run::{run_start, RunStartView};
use crate::script::{complaint, describe, validate, verdict, Probe};
use crate::session::SessionView;

verus! {

/// How formatting begins: with a complaint for the error stream if the path
/// is turned away, else with reading the file.
pub open spec fn fmt_start(filename: Seq<char>, probe: Probe) -> Option<Seq<char>> {
    match verdict(filename, probe) {
        Err(rejection) => Some(complaint(rejection, filename)),
        Ok(()) => None,
    }
}

/// Begins formatting `filename`. `probe` is what the file system says of it.
/// Returns the complaint to show if the path is turned away, in which case
/// nothing is read or written; `None` if the file is to be read and rendered.
pub fn start_fmt(filename: &str, probe: Probe) -> (turned_away: Option<String>)
    ensures
        match turned_away {
            Some(line) => fmt_start(filename@, probe) == Some(line@),
            None => fmt_start(filename@, probe) is None,
        },
{
    match validate(filename, probe) {
        Err(rejection) => Some(describe(rejection, filename)),
        Ok(()) => None,
    }
}

/// How formatting ends.
pub struct Formatted {
    /// The text to overwrite the file with; `None` leaves the file as it is.
    pub write: Option<String>,
    /// The failure to pass on, if rendering failed.
    pub result: Result<(), Failure>,
}

/// What the end of formatting is, for contracts.
pub ghost struct FormattedView {
    pub write: Option<Seq<char>>,
    pub result: Result<(), FailureView>,
}

impl View for Formatted {
    type V = FormattedView;

    open spec fn view(&self) -> FormattedView {
        FormattedView {
            write: match self.write {
                Some(text) => Some(text@),
                None => None,
            },
            result: result_view(self.result),
        }
    }
}

/// The file is overwritten with the rendered text if there is one; a failure
/// leaves the file alone and is passed on.
pub open spec fn fmt_end(rendered: Result<Seq<char>, FailureView>) -> FormattedView {
    match rendered {
        Ok(text) => FormattedView { write: Some(text), result: Ok(()) },
        Err(failure) => FormattedView { write: None, result: Err(failure) },
    }
}

/// The view of what rendering returned.
pub open spec fn rendered_view(rendered: Result<String, Failure>) -> Result<
    Seq<char>,
    FailureView,
> {
    match rendered {
        Ok(text) => Ok(text@),
        Err(failure) => Err(failure@),
    }
}

/// Ends formatting with what parsing and rendering returned.
pub fn finish_fmt(rendered: Result<String, Failure>) -> (end: Formatted)
    ensures
        end@ == fmt_end(rendered_view(rendered)),
{
    match rendered {
        Ok(text) => Formatted { write: Some(text), result: Ok(()) },
        Err(failure) => Formatted { write: None, result: Err(failure) },
    }
}

/// The formatter validates as the file runner does: it turns away exactly
/// the paths that the runner turns away, with the same complaint.
pub proof fn lemma_fmt_validates_as_run<E>(
    filename: Seq<char>,
    probe: Probe,
    session: SessionView<E>,
)
    ensures
        match run_start(filename, probe, session) {
            RunStartView::Rejected(end) => match fmt_start(filename, probe) {
                Some(line) => end.echo == Some(EchoView::Stderr(line)),
                None => false,
            },
            RunStartView::Load(_) => fmt_start(filename, probe) is None,
        },
{
}

/// What the file holds once formatting has ended: the text that was written,
/// or what it held before if nothing was.
pub open spec fn file_after(
    contents: Seq<char>,
    rendered: Result<Seq<char>, FailureView>,
) -> Seq<char> {
    match fmt_end(rendered).write {
        Some(text) => text,
        None => contents,
    }
}

/// The formatter adds nothing of its own to what rendering returns. So if
/// rendering leaves its own output as it is, formatting a file a second time
/// leaves the file as the first time left it. `render` stands for parsing and
/// rendering, of which this library knows nothing else.
pub proof fn lemma_second_format_keeps_file(
    render: spec_fn(Seq<char>) -> Result<Seq<char>, FailureView>,
    contents: Seq<char>,
)
    requires
        forall|text: Seq<char>| #[trigger] render(text) is Ok ==> render(render(text)->Ok_0)
            == render(text),
    ensures
        ({
            let once = file_after(contents, render(contents));
            file_after(once, render(once)) == once
        }),
{
}

} // verus!
