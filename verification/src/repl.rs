//! The interactive loop as a state machine. The caller reads lines and runs
//! the pipeline; this module decides, after each thing that happens, what
//! comes next: read on, run a unit, or leave.
//!
//! Each state is a type of its own, so that only what may follow a state can
//! be asked of it. An [`Interactive`] waits for a line, either for the first
//! of a unit or, while brackets are open, for a further one. Feeding it what
//! the input device returned gives a [`Turn`]: the loop reads on, or the
//! entry was interrupted and dropped, or a complete unit is submitted as a
//! [`Pending`], or the loop has ended and leaves a [`Closing`]. A `Pending`
//! is completed with the outcome of the pipeline and gives back an
//! `Interactive` that awaits input, whatever the outcome was.

use vstd::prelude::*;
use crate::brackets::{balance_of, balanced, check, pending, Balance};
use crate::paint::{green, painted, red, yellow, Hue};
use crate::pipeline::{Echo, EchoView, Invocation, Outcome, OutcomeView, echo_view};
use crate::session::{Session, SessionView};
use crate::source::{Origin, SourceUnit, SourceView};
use crate::text::{decimal, to_decimal};

verus! {

/// Where a loop that waits for a line stands.
#[derive(Clone, Copy, Debug, PartialEq, Eq, Structural)]
pub enum Phase {
    /// Nothing has been entered for the next unit.
    AwaitingInput,
    /// Some lines have been entered, and their brackets are not yet balanced.
    Accumulating,
}

/// What came back from the input device.
#[derive(Clone, Debug, PartialEq, Eq)]
pub enum Input {
    /// One physical line, without its line ending.
    Line(String),
    /// The user cancelled the entry.
    Interrupted,
    /// The input has ended.
    EndOfInput,
    /// The device failed; the text says how.
    Broken(String),
}

/// What an input is, for contracts.
pub ghost enum InputView {
    Line(Seq<char>),
    Interrupted,
    EndOfInput,
    Broken(Seq<char>),
}

impl View for Input {
    type V = InputView;

    open spec fn view(&self) -> InputView {
        match self {
            Input::Line(line) => InputView::Line(line@),
            Input::Interrupted => InputView::Interrupted,
            Input::EndOfInput => InputView::EndOfInput,
            Input::Broken(reason) => InputView::Broken(reason@),
        }
    }
}

/// A loop that waits for a line, for contracts.
pub ghost struct LoopView<E> {
    /// The session every unit of this loop runs in.
    pub session: SessionView<E>,
    /// The lines entered so far for the next unit, joined by line feeds.
    pub buffer: Seq<char>,
    /// Every unit submitted so far, oldest first.
    pub history: Seq<Seq<char>>,
    /// How many numbered prompts have been answered.
    pub prompts: nat,
}

impl<E> LoopView<E> {
    /// The phase follows from the buffer: an unfinished unit is never empty.
    pub open spec fn phase(self) -> Phase {
        if self.buffer.len() == 0 {
            Phase::AwaitingInput
        } else {
            Phase::Accumulating
        }
    }

    /// What is held back in the buffer is never a complete unit, and the
    /// prompt counter fits its machine word.
    pub open spec fn wf(self) -> bool {
        &&& self.buffer.len() > 0 ==> !balanced(self.buffer)
        &&& self.prompts <= u64::MAX
    }
}

/// A loop whose unit is with the pipeline, for contracts.
pub ghost struct PendingView<E> {
    pub session: SessionView<E>,
    /// The unit that was submitted.
    pub unit: SourceView,
    /// The history, with the text of the unit as its newest entry.
    pub history: Seq<Seq<char>>,
    pub prompts: nat,
}

/// A loop that has ended, for contracts.
pub ghost struct ClosingView<E> {
    pub session: SessionView<E>,
    /// The history to write back.
    pub history: Seq<Seq<char>>,
    /// What to tell the user on the error stream, if the device failed.
    pub complaint: Option<Seq<char>>,
}

/// What a turn is, for contracts.
pub ghost enum TurnView<E> {
    Read(LoopView<E>),
    Cancelled { notice: Seq<char>, next: LoopView<E> },
    Submit(PendingView<E>),
    Exit(ClosingView<E>),
}

/// The buffer after one more line: lines are joined by a line feed.
pub open spec fn joined(buffer: Seq<char>, line: Seq<char>) -> Seq<char> {
    if buffer.len() == 0 {
        line
    } else {
        buffer + seq!['\n'] + line
    }
}

/// The prompt counter after an input has come in. Only the first line of a
/// unit is asked for with a numbered prompt; the counter stops at its
/// largest value.
pub open spec fn counted<E>(before: LoopView<E>) -> nat {
    if before.buffer.len() == 0 && before.prompts < u64::MAX {
        before.prompts + 1
    } else {
        before.prompts
    }
}

/// The words shown when an entry is interrupted, and under the banner.
pub open spec fn exit_hint() -> Seq<char> {
    "exit using ctrl+d or close()"@
}

/// What is said when the input device fails.
pub open spec fn device_complaint(reason: Seq<char>) -> Seq<char> {
    "Error: "@ + reason
}

/// The decision of the loop: what follows when `input` comes in while the
/// loop stands at `before`.
pub open spec fn turn_after<E>(before: LoopView<E>, input: InputView) -> TurnView<E> {
    match input {
        InputView::Line(line) => {
            let text = joined(before.buffer, line);
            if balanced(text) {
                TurnView::Submit(
                    PendingView {
                        session: before.session,
                        unit: SourceView { origin: Origin::Prompt, text },
                        history: before.history.push(text),
                        prompts: counted(before),
                    },
                )
            } else {
                TurnView::Read(
                    LoopView {
                        session: before.session,
                        buffer: text,
                        history: before.history,
                        prompts: counted(before),
                    },
                )
            }
        },
        InputView::Interrupted => TurnView::Cancelled {
            notice: painted(Hue::Yellow, exit_hint()),
            next: LoopView {
                session: before.session,
                buffer: Seq::empty(),
                history: before.history,
                prompts: counted(before),
            },
        },
        InputView::EndOfInput => TurnView::Exit(
            ClosingView { session: before.session, history: before.history, complaint: None },
        ),
        InputView::Broken(reason) => TurnView::Exit(
            ClosingView {
                session: before.session,
                history: before.history,
                complaint: Some(device_complaint(reason)),
            },
        ),
    }
}

/// The loop after a turn: the unit is gone from the buffer, the rest stays.
pub open spec fn settled<E>(turn: PendingView<E>) -> LoopView<E> {
    LoopView {
        session: turn.session,
        buffer: Seq::empty(),
        history: turn.history,
        prompts: turn.prompts,
    }
}

/// What is shown of an outcome: a value on standard output, a failure in red
/// on the error stream, and nothing of the "no value" result.
pub open spec fn echo_of(outcome: OutcomeView) -> Option<EchoView> {
    match outcome {
        OutcomeView::Nothing => None,
        OutcomeView::Value(text) => Some(EchoView::Stdout(text)),
        OutcomeView::Failed(failure) => Some(EchoView::Stderr(painted(Hue::Red, failure.message))),
    }
}

/// The prompt for the next line: the number of the unit while nothing has
/// been entered, dots while a unit is being continued.
pub open spec fn prompt_of<E>(at: LoopView<E>) -> Seq<char> {
    if at.buffer.len() == 0 {
        painted(Hue::Green, "["@ + decimal(at.prompts) + "]-> "@)
    } else {
        painted(Hue::Green, "... "@)
    }
}

/// The texts of a list of strings.
pub open spec fn texts(entries: Seq<String>) -> Seq<Seq<char>> {
    Seq::new(entries.len(), |i: int| entries[i]@)
}

/// The interactive loop while it waits for a line.
pub struct Interactive<E> {
    session: Session<E>,
    buffer: String,
    history: Vec<String>,
    prompts: u64,
}

impl<E> View for Interactive<E> {
    type V = LoopView<E>;

    closed spec fn view(&self) -> LoopView<E> {
        LoopView {
            session: self.session@,
            buffer: self.buffer@,
            history: texts(self.history@),
            prompts: self.prompts as nat,
        }
    }
}

/// The interactive loop while one unit is with the pipeline.
pub struct Pending<E> {
    call: Invocation<E>,
    history: Vec<String>,
    prompts: u64,
}

impl<E> View for Pending<E> {
    type V = PendingView<E>;

    closed spec fn view(&self) -> PendingView<E> {
        PendingView {
            session: self.call@.session,
            unit: self.call@.unit,
            history: texts(self.history@),
            prompts: self.prompts as nat,
        }
    }
}

/// What is left when the loop has ended: the session goes back to whoever
/// opened it, and the history is to be written back.
pub struct Closing<E> {
    pub session: Session<E>,
    pub history: Vec<String>,
    pub complaint: Option<String>,
}

impl<E> View for Closing<E> {
    type V = ClosingView<E>;

    open spec fn view(&self) -> ClosingView<E> {
        ClosingView {
            session: self.session@,
            history: texts(self.history@),
            complaint: match self.complaint {
                Some(line) => Some(line@),
                None => None,
            },
        }
    }
}

/// What the caller does next.
pub enum Turn<E> {
    /// Show the prompt and read a line.
    Read(Interactive<E>),
    /// The entry was dropped: show the notice, then the prompt, and read.
    Cancelled { notice: String, next: Interactive<E> },
    /// Run the pipeline on the unit, then report what came of it.
    Submit(Pending<E>),
    /// Leave the loop.
    Exit(Closing<E>),
}

impl<E> View for Turn<E> {
    type V = TurnView<E>;

    open spec fn view(&self) -> TurnView<E> {
        match self {
            Turn::Read(next) => TurnView::Read(next@),
            Turn::Cancelled { notice, next } => TurnView::Cancelled {
                notice: notice@,
                next: next@,
            },
            Turn::Submit(turn) => TurnView::Submit(turn@),
            Turn::Exit(end) => TurnView::Exit(end@),
        }
    }
}

/// The two lines shown when the loop opens.
pub open spec fn banner_of(version: Seq<char>) -> Seq<Seq<char>> {
    seq!["GL "@ + version, exit_hint()]
}

/// The lines to show when the loop opens: the name with the version, and how
/// to leave.
pub fn banner(version: &str) -> (lines: Vec<String>)
    ensures
        texts(lines@) == banner_of(version@),
{
    let mut title = String::from_str("GL ");
    title.append(version);
    let mut lines: Vec<String> = Vec::new();
    lines.push(title);
    lines.push(String::from_str("exit using ctrl+d or close()"));
    assert(texts(lines@) =~= banner_of(version@));
    lines
}

/// The name of the history file, relative to where the program runs.
pub const HISTORY_FILE: &'static str = ".gl_history";

/// The history a loop begins with: what the history file held, and nothing
/// where the file was missing or could not be read.
pub open spec fn restored(loaded: Option<Vec<String>>) -> Seq<Seq<char>> {
    match loaded {
        Some(entries) => texts(entries@),
        None => Seq::empty(),
    }
}

/// Opens the interactive loop over `session`. `loaded` is what the history
/// file held, oldest entry first; `None` says that there was no file or that
/// it could not be read, which is no fault.
pub fn start_repl<E>(session: Session<E>, loaded: Option<Vec<String>>) -> (repl: Interactive<E>)
    ensures
        repl@ == (LoopView {
            session: session@,
            buffer: Seq::empty(),
            history: restored(loaded),
            prompts: 0,
        }),
        repl@.phase() == Phase::AwaitingInput,
        repl@.wf(),
{
    let history = match loaded {
        Some(entries) => entries,
        None => {
            let entries: Vec<String> = Vec::new();
            assert(texts(entries@) =~= Seq::<Seq<char>>::empty());
            entries
        },
    };
    Interactive { session, buffer: String::new(), history, prompts: 0 }
}

impl<E> Interactive<E> {
    /// Whether a unit is being continued.
    pub fn phase(&self) -> (phase: Phase)
        ensures
            phase == self@.phase(),
    {
        if self.buffer.as_str().is_empty() {
            Phase::AwaitingInput
        } else {
            Phase::Accumulating
        }
    }

    /// The prompt to show before the next line is read.
    pub fn prompt(&self) -> (text: String)
        ensures
            text@ == prompt_of(self@),
    {
        if self.buffer.as_str().is_empty() {
            let mut label = String::from_str("[");
            let number = to_decimal(self.prompts);
            label.append(number.as_str());
            label.append("]-> ");
            green(label.as_str())
        } else {
            green("... ")
        }
    }

    /// The units submitted so far, oldest first.
    pub fn history(&self) -> (entries: &Vec<String>)
        ensures
            texts(entries@) == self@.history,
    {
        &self.history
    }

    /// The module identity of the session.
    pub fn module(&self) -> (name: &str)
        ensures
            name@ == self@.session.module,
    {
        self.session.module()
    }

    /// Takes in what the input device returned and decides what comes next.
    ///
    /// A line is added to the buffer; the buffer is submitted as soon as its
    /// brackets are balanced, and not before. A submitted unit is entered in
    /// the history at once, whatever will come of it. An interrupt drops the
    /// buffer and nothing else. The end of input, or a failing device, ends
    /// the loop. The session is handed on untouched in every case.
    pub fn feed(self, input: Input) -> (turn: Turn<E>)
        ensures
            turn@ == turn_after(self@, input@),
            turn matches Turn::Read(next) ==> next@.wf(),
            turn matches Turn::Cancelled { next, .. } ==> next@.wf() && next@.phase()
                == Phase::AwaitingInput,
    {
        let Interactive { session, buffer, history, prompts } = self;
        let prompts = if buffer.as_str().is_empty() && prompts < u64::MAX {
            prompts + 1
        } else {
            prompts
        };
        match input {
            Input::Line(line) => {
                let ghost before = buffer@;
                let mut text = buffer;
                if !text.as_str().is_empty() {
                    proof {
                        reveal_strlit("\n");
                    }
                    text.append("\n");
                    assert("\n"@ =~= seq!['\n']);
                }
                text.append(line.as_str());
                assert(text@ =~= joined(before, line@));
                match check(text.as_str()) {
                    Balance::Complete => {
                        let mut history = history;
                        let ghost earlier = texts(history@);
                        history.push(text.clone());
                        assert(texts(history@) =~= earlier.push(text@));
                        let unit = SourceUnit::new(Origin::Prompt, text);
                        let call = Invocation::new(session, unit);
                        Turn::Submit(Pending { call, history, prompts })
                    },
                    _ => Turn::Read(Interactive { session, buffer: text, history, prompts }),
                }
            },
            Input::Interrupted => Turn::Cancelled {
                notice: yellow("exit using ctrl+d or close()"),
                next: Interactive { session, buffer: String::new(), history, prompts },
            },
            Input::EndOfInput => Turn::Exit(Closing { session, history, complaint: None }),
            Input::Broken(reason) => {
                let mut line = String::from_str("Error: ");
                line.append(reason.as_str());
                Turn::Exit(Closing { session, history, complaint: Some(line) })
            },
        }
    }
}

impl<E> Pending<E> {
    /// The unit to run.
    pub fn unit(&self) -> (unit: &SourceUnit)
        ensures
            unit@ == self@.unit,
    {
        self.call.unit()
    }

    /// The module identity under which the unit runs.
    pub fn module(&self) -> (name: &str)
        ensures
            name@ == self@.session.module,
    {
        self.call.module()
    }

    /// Lends the session's environment to the pipeline for this unit. What
    /// the pipeline leaves in it is what the next unit will find.
    pub fn environment(&mut self) -> (lent: &mut E)
        ensures
            *lent == old(self)@.session.environment,
            final(self)@ == (PendingView {
                session: SessionView {
                    environment: *final(lent),
                    module: old(self)@.session.module,
                },
                ..old(self)@
            }),
    {
        self.call.environment()
    }

    /// Closes the turn with what the pipeline returned. The loop goes back to
    /// waiting for input whether the pipeline succeeded or failed, and keeps
    /// its session and history.
    pub fn complete(self, outcome: Outcome) -> (done: (Interactive<E>, Option<Echo>))
        ensures
            done.0@ == settled(self@),
            done.0@.phase() == Phase::AwaitingInput,
            done.0@.wf(),
            echo_view(done.1) == echo_of(outcome@),
    {
        let Pending { call, history, prompts } = self;
        let session = call.finish();
        let echo = match outcome {
            Outcome::Nothing => None,
            Outcome::Value(text) => Some(Echo::Stdout(text)),
            Outcome::Failed(failure) => Some(Echo::Stderr(red(failure.message.as_str()))),
        };
        (Interactive { session, buffer: String::new(), history, prompts }, echo)
    }
}

/// Lines joined by line feeds.
pub open spec fn join_lines(lines: Seq<Seq<char>>) -> Seq<char>
    decreases lines.len(),
{
    if lines.len() == 0 {
        Seq::empty()
    } else if lines.len() == 1 {
        lines[0]
    } else {
        join_lines(lines.drop_last()) + seq!['\n'] + lines.last()
    }
}

/// The loop after `lines` have come in one by one, as long as none of them
/// completed a unit; `None` as soon as one did.
pub open spec fn after_lines<E>(start: LoopView<E>, lines: Seq<Seq<char>>) -> Option<
    LoopView<E>,
>
    decreases lines.len(),
{
    if lines.len() == 0 {
        Some(start)
    } else {
        match after_lines(start, lines.drop_last()) {
            Some(before) => match turn_after(before, InputView::Line(lines.last())) {
                TurnView::Read(next) => Some(next),
                _ => None,
            },
            None => None,
        }
    }
}

/// Whatever comes in, the loop that reads on is well formed.
pub proof fn lemma_turn_keeps_wf<E>(before: LoopView<E>, input: InputView)
    requires
        before.wf(),
    ensures
        turn_after(before, input) matches TurnView::Read(next) ==> next.wf() && next.phase()
            == Phase::Accumulating,
        turn_after(before, input) matches TurnView::Cancelled { next, .. } ==> next.wf()
            && next.phase() == Phase::AwaitingInput,
        turn_after(before, input) matches TurnView::Submit(turn) ==> balanced(turn.unit.text)
            && settled(turn).wf() && settled(turn).phase() == Phase::AwaitingInput,
{
    if let InputView::Line(line) = input {
        let text = joined(before.buffer, line);
        if !balanced(text) {
            assert(pending(Seq::<char>::empty()) == Some(Seq::<char>::empty()));
            assert(text.len() > 0);
        }
    }
}

/// The loop ends only when the input does: at its end, which ends the loop
/// without a complaint, or when the device fails. Neither a line nor an
/// interrupt ever ends it.
pub proof fn lemma_only_the_input_ends_the_loop<E>(before: LoopView<E>, input: InputView)
    ensures
        turn_after(before, input) is Exit <==> input is EndOfInput || input is Broken,
        turn_after(before, input) matches TurnView::Exit(end) ==> (end.complaint is None
            <==> input is EndOfInput),
{
}

/// The history only grows, and only by the units that are submitted: a
/// submission adds its text at the end, and nothing else changes the history.
pub proof fn lemma_history_append_only<E>(before: LoopView<E>, input: InputView)
    ensures
        match turn_after(before, input) {
            TurnView::Read(next) => next.history == before.history,
            TurnView::Cancelled { next, .. } => next.history == before.history,
            TurnView::Submit(turn) => turn.history == before.history.push(turn.unit.text)
                && settled(turn).history == turn.history,
            TurnView::Exit(end) => end.history == before.history,
        },
{
}

/// A buffer in which a closer has failed is never submitted, whatever lines
/// follow: only an interrupt gets rid of it.
pub proof fn lemma_mismatch_is_never_submitted<E>(before: LoopView<E>, line: Seq<char>)
    requires
        balance_of(before.buffer) == Balance::Mismatched,
    ensures
        turn_after(before, InputView::Line(line)) matches TurnView::Read(next) && balance_of(
            next.buffer,
        ) == Balance::Mismatched,
{
    assert(pending(Seq::<char>::empty()) == Some(Seq::<char>::empty()));
    assert(before.buffer.len() > 0);
    crate::brackets::lemma_mismatch_stays(before.buffer, seq!['\n'] + line);
    assert(before.buffer + (seq!['\n'] + line) =~= joined(before.buffer, line));
}

/// While lines come in without completing a unit, the session and the
/// history stay as they were.
pub proof fn lemma_reading_keeps_session<E>(start: LoopView<E>, lines: Seq<Seq<char>>)
    requires
        after_lines(start, lines) is Some,
    ensures
        after_lines(start, lines)->0.session == start.session,
        after_lines(start, lines)->0.history == start.history,
    decreases lines.len(),
{
    if lines.len() > 0 {
        lemma_reading_keeps_session(start, lines.drop_last());
    }
}

/// Multi-line accumulation. Let lines come in, one by one, to a loop that
/// awaits input, and let no proper prefix of them be balanced when joined.
/// Then none of the earlier lines is submitted; they are gathered in the
/// buffer. The last line brings a submission exactly if all the lines, joined,
/// are balanced, and the unit submitted is then that joined text, in the
/// session the loop began with.
pub proof fn lemma_submits_at_first_balance<E>(start: LoopView<E>, lines: Seq<Seq<char>>)
    requires
        start.buffer.len() == 0,
        lines.len() > 0,
        forall|k: int| 0 < k < lines.len() ==> !balanced(#[trigger] join_lines(lines.take(k))),
    ensures
        after_lines(start, lines.drop_last()) is Some,
        ({
            let before = after_lines(start, lines.drop_last())->0;
            let text = join_lines(lines);
            &&& before.session == start.session
            &&& before.history == start.history
            &&& turn_after(before, InputView::Line(lines.last())) == if balanced(text) {
                TurnView::Submit(
                    PendingView {
                        session: start.session,
                        unit: SourceView { origin: Origin::Prompt, text },
                        history: start.history.push(text),
                        prompts: counted(start),
                    },
                )
            } else {
                TurnView::Read(
                    LoopView {
                        session: start.session,
                        buffer: text,
                        history: start.history,
                        prompts: counted(start),
                    },
                )
            }
        }),
    decreases lines.len(),
{
    let earlier = lines.drop_last();
    assert(pending(Seq::<char>::empty()) == Some(Seq::<char>::empty()));
    if lines.len() == 1 {
        assert(after_lines(start, earlier) == Some(start));
    } else {
        assert forall|k: int| 0 < k < earlier.len() implies !balanced(
            #[trigger] join_lines(earlier.take(k)),
        ) by {
            assert(earlier.take(k) =~= lines.take(k));
        }
        lemma_submits_at_first_balance(start, earlier);
        assert(lines.take(earlier.len() as int) =~= earlier);
        assert(!balanced(join_lines(earlier)));
        assert(join_lines(earlier).len() > 0);
    }
}

/// State persistence. After a turn, whatever its outcome, the loop reads on
/// in the session that the turn ran in, with the environment as the pipeline
/// left it; and whichever unit is submitted next runs in that same session.
pub proof fn lemma_next_turn_same_session<E>(turn: PendingView<E>, lines: Seq<Seq<char>>)
    requires
        lines.len() > 0,
        after_lines(settled(turn), lines.drop_last()) is Some,
    ensures
        settled(turn).session == turn.session,
        match turn_after(
            after_lines(settled(turn), lines.drop_last())->0,
            InputView::Line(lines.last()),
        ) {
            TurnView::Submit(next) => next.session == turn.session,
            TurnView::Read(next) => next.session == turn.session,
            _ => false,
        },
{
    lemma_reading_keeps_session(settled(turn), lines.drop_last());
}

} // verus!
