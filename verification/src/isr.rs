//! The decisions of the touch interrupt handler.
//!
//! The handler runs to completion inside one exclusive-access scope. It
//! asks the hardware two things in turn, whether data is pending and what
//! the next event is, and decides after each answer what to do next. The
//! decisions are `step`; the caller performs the hardware operation that an
//! action names and hands the answer back as the next event.
//!
//! The handler keeps nothing between two interrupts: each one starts in
//! `IsrState::Entered`.

use vstd::prelude::*;
use crate::event::TouchEvent;
use crate::lines::{decode_error, decode_error_line, event_lines, report_event, text};
use crate::shared::SharedTouchState;

verus! {

/// Where the handler stands.
#[derive(Clone, Copy, Debug, PartialEq, Eq, Structural)]
pub enum IsrState {
    /// The interrupt has fired and nothing has been asked yet.
    Entered,
    /// Waiting to learn whether data is pending.
    Polling,
    /// Waiting for the decoded event.
    Decoding,
    /// The handler has returned.
    Done,
}

/// What the handler learns.
#[derive(Debug, PartialEq, Eq)]
pub enum IsrEvent {
    /// The interrupt fired; `handle_present` says whether a handle was installed.
    Triggered { handle_present: bool },
    /// The controller answered whether data is pending.
    Polled(bool),
    /// The controller could not be asked.
    PollFailed,
    /// One event was decoded.
    Decoded(TouchEvent),
    /// The event could not be decoded; the text describes why.
    DecodeFailed(String),
}

/// What the handler does next.
#[derive(Debug, PartialEq, Eq)]
pub enum IsrAction {
    /// Ask the controller whether data is pending.
    Poll,
    /// Read and decode one event.
    Decode,
    /// Print these lines, possibly none, and return.
    Finish(Vec<String>),
}

/// An event with its text as a sequence of characters.
pub enum IsrEventView {
    Triggered { handle_present: bool },
    Polled(bool),
    PollFailed,
    Decoded(TouchEvent),
    DecodeFailed(Seq<char>),
}

/// An action with its lines as sequences of characters.
pub enum IsrActionView {
    Poll,
    Decode,
    Finish(Seq<Seq<char>>),
}

impl View for IsrEvent {
    type V = IsrEventView;

    open spec fn view(&self) -> IsrEventView {
        match *self {
            IsrEvent::Triggered { handle_present } => IsrEventView::Triggered { handle_present },
            IsrEvent::Polled(pending) => IsrEventView::Polled(pending),
            IsrEvent::PollFailed => IsrEventView::PollFailed,
            IsrEvent::Decoded(event) => IsrEventView::Decoded(event),
            IsrEvent::DecodeFailed(diagnostic) => IsrEventView::DecodeFailed(diagnostic@),
        }
    }
}

impl View for IsrAction {
    type V = IsrActionView;

    open spec fn view(&self) -> IsrActionView {
        match *self {
            IsrAction::Poll => IsrActionView::Poll,
            IsrAction::Decode => IsrActionView::Decode,
            IsrAction::Finish(lines) => IsrActionView::Finish(text(lines@)),
        }
    }
}

/// The handler's rule: the state and the action that follow an event.
///
/// With a handle installed the handler polls; with data pending it decodes;
/// a decoded event is printed, a failed decode is reported in one line. In
/// every other case, among them a missing handle, a failed poll and no data
/// pending, the handler returns and prints nothing.
pub open spec fn next(state: IsrState, event: IsrEventView) -> (IsrState, IsrActionView) {
    match (state, event) {
        (IsrState::Entered, IsrEventView::Triggered { handle_present: true }) => (
            IsrState::Polling,
            IsrActionView::Poll,
        ),
        (IsrState::Polling, IsrEventView::Polled(true)) => (
            IsrState::Decoding,
            IsrActionView::Decode,
        ),
        (IsrState::Decoding, IsrEventView::Decoded(decoded)) => (
            IsrState::Done,
            IsrActionView::Finish(event_lines(decoded)),
        ),
        (IsrState::Decoding, IsrEventView::DecodeFailed(diagnostic)) => (
            IsrState::Done,
            IsrActionView::Finish(seq![decode_error_line(diagnostic)]),
        ),
        _ => (IsrState::Done, IsrActionView::Finish(Seq::empty())),
    }
}

/// The lines that one interrupt prints, given what the hardware answers in
/// turn. Answers that arrive after the handler has returned are not read.
pub open spec fn interrupt_lines(state: IsrState, answers: Seq<IsrEventView>) -> Seq<Seq<char>>
    decreases answers.len(),
{
    if answers.len() == 0 {
        Seq::empty()
    } else {
        let (following, action) = next(state, answers[0]);
        match action {
            IsrActionView::Finish(lines) => lines,
            _ => interrupt_lines(following, answers.drop_first()),
        }
    }
}

/// Decides what the handler does after `event`.
pub fn step(state: IsrState, event: IsrEvent) -> (result: (IsrState, IsrAction))
    ensures
        (result.0, result.1@) == next(state, event@),
{
    match (state, event) {
        (IsrState::Entered, IsrEvent::Triggered { handle_present: true }) => (
            IsrState::Polling,
            IsrAction::Poll,
        ),
        (IsrState::Polling, IsrEvent::Polled(true)) => (IsrState::Decoding, IsrAction::Decode),
        (IsrState::Decoding, IsrEvent::Decoded(decoded)) => (
            IsrState::Done,
            IsrAction::Finish(report_event(decoded)),
        ),
        (IsrState::Decoding, IsrEvent::DecodeFailed(diagnostic)) => {
            let mut lines: Vec<String> = Vec::new();
            lines.push(decode_error(diagnostic.as_str()));
            assert(text(lines@) =~= seq![decode_error_line(diagnostic@)]);
            (IsrState::Done, IsrAction::Finish(lines))
        },
        _ => {
            let lines: Vec<String> = Vec::new();
            assert(text(lines@) =~= Seq::<Seq<char>>::empty());
            (IsrState::Done, IsrAction::Finish(lines))
        },
    }
}

/// The lines that follow an attempt to decode one event.
pub open spec fn decode_lines(decoded: Result<TouchEvent, String>) -> Seq<Seq<char>> {
    match decoded {
        Ok(event) => event_lines(event),
        Err(diagnostic) => seq![decode_error_line(diagnostic@)],
    }
}

/// Services one interrupt on the shared state and returns the lines to
/// print.
///
/// `poll` asks the controller whether data is pending and `decode` reads
/// one event from it. With no handle installed neither is called. `decode`
/// is called only when `poll` answered `Ok(true)`; any other answer, a
/// failure among them, ends the interrupt without a line and with the
/// handle as it was. The handle stays installed whatever happens.
pub fn handle_interrupt<H, E, P, D>(shared: &mut SharedTouchState<H>, poll: P, decode: D) -> (lines:
    Vec<String>) where
    P: FnOnce(&H) -> Result<bool, E>,
    D: FnOnce(&mut H) -> Result<TouchEvent, String>,

    requires
        *old(shared) is Ready ==> poll.requires((&(*old(shared))->Ready_0,)),
        *old(shared) is Ready ==> forall|h: &mut H|
            *h == (*old(shared))->Ready_0 ==> #[trigger] decode.requires((h,)),
    ensures
        *old(shared) is Unconfigured ==> *final(shared) is Unconfigured && lines@.len() == 0,
        *old(shared) is Ready ==> *final(shared) is Ready,
        *old(shared) is Ready ==> exists|polled: Result<bool, E>|
            {
                &&& #[trigger] poll.ensures((&(*old(shared))->Ready_0,), polled)
                &&& if polled matches Ok(true) {
                    exists|h: &mut H, decoded: Result<TouchEvent, String>|
                        {
                            &&& *h == (*old(shared))->Ready_0
                            &&& *final(h) == (*final(shared))->Ready_0
                            &&& #[trigger] decode.ensures((h,), decoded)
                            &&& text(lines@) == decode_lines(decoded)
                        }
                } else {
                    lines@.len() == 0 && *final(shared) == *old(shared)
                }
            },
{
    let service = |handle: &mut H| -> (lines: Vec<String>)
        requires
            poll.requires((&*handle,)),
            forall|h: &mut H| *h == *handle ==> #[trigger] decode.requires((h,)),
        ensures
            exists|polled: Result<bool, E>|
                {
                    &&& #[trigger] poll.ensures((&*old(handle),), polled)
                    &&& if polled matches Ok(true) {
                        exists|h: &mut H, decoded: Result<TouchEvent, String>|
                            {
                                &&& *h == *old(handle)
                                &&& *final(h) == *final(handle)
                                &&& #[trigger] decode.ensures((h,), decoded)
                                &&& text(lines@) == decode_lines(decoded)
                            }
                    } else {
                        lines@.len() == 0 && *final(handle) == *old(handle)
                    }
                },
        {
            let ghost before = *handle;
            let (polling, _) = step(IsrState::Entered, IsrEvent::Triggered { handle_present: true });
            let polled = poll(&*handle);
            let answer = match polled {
                Ok(pending) => IsrEvent::Polled(pending),
                Err(_) => IsrEvent::PollFailed,
            };
            let (state, action) = step(polling, answer);
            match action {
                IsrAction::Decode => {
                    let decoded = decode(handle);
                    let ghost outcome = decoded;
                    let answer = match decoded {
                        Ok(event) => IsrEvent::Decoded(event),
                        Err(diagnostic) => IsrEvent::DecodeFailed(diagnostic),
                    };
                    let (_, action) = step(state, answer);
                    let lines = finished(action);
                    assert(exists|h: &mut H|
                        {
                            &&& *h == before
                            &&& *final(h) == *handle
                            &&& #[trigger] decode.ensures((h,), outcome)
                            &&& text(lines@) == decode_lines(outcome)
                        });
                    lines
                },
                _ => finished(action),
            }
        };
    let serviced = shared.with_exclusive_access(service);
    match serviced {
        Some(lines) => lines,
        None => Vec::new(),
    }
}

/// The lines of a final action; none for an action that is not final.
fn finished(action: IsrAction) -> (lines: Vec<String>)
    ensures
        action@ matches IsrActionView::Finish(printed) ==> text(lines@) == printed,
        action@ matches IsrActionView::Finish(printed) ==> lines@.len() == printed.len(),
        !(action@ is Finish) ==> lines@.len() == 0,
{
    match action {
        IsrAction::Finish(lines) => {
            assert(text(lines@).len() == lines@.len());
            lines
        },
        _ => Vec::new(),
    }
}

/// An interrupt that fires while no handle is installed prints nothing and
/// returns at once.
pub proof fn lemma_silent_without_handle(answers: Seq<IsrEventView>)
    requires
        answers.len() > 0,
        answers[0] == (IsrEventView::Triggered { handle_present: false }),
    ensures
        next(IsrState::Entered, answers[0]) == (
            IsrState::Done,
            IsrActionView::Finish(Seq::<Seq<char>>::empty()),
        ),
        interrupt_lines(IsrState::Entered, answers) == Seq::<Seq<char>>::empty(),
{
}

/// A poll that fails, like a poll that finds no data, ends the handler
/// without a line and without a decode.
pub proof fn lemma_silent_without_data(answers: Seq<IsrEventView>)
    requires
        answers.len() > 1,
        answers[0] == (IsrEventView::Triggered { handle_present: true }),
        answers[1] == IsrEventView::PollFailed || answers[1] == IsrEventView::Polled(false),
    ensures
        next(IsrState::Polling, answers[1]) == (
            IsrState::Done,
            IsrActionView::Finish(Seq::<Seq<char>>::empty()),
        ),
        interrupt_lines(IsrState::Entered, answers) == Seq::<Seq<char>>::empty(),
{
    reveal_with_fuel(interrupt_lines, 3);
    assert(answers.drop_first()[0] == answers[1]);
}

/// What an interrupt prints when data is pending: the lines of the decoded
/// event, or the single line of a failed decode.
pub proof fn lemma_lines_of_pending_data(answers: Seq<IsrEventView>)
    requires
        answers.len() > 2,
        answers[0] == (IsrEventView::Triggered { handle_present: true }),
        answers[1] == IsrEventView::Polled(true),
    ensures
        answers[2] matches IsrEventView::Decoded(decoded) ==> interrupt_lines(
            IsrState::Entered,
            answers,
        ) == event_lines(decoded),
        answers[2] matches IsrEventView::DecodeFailed(diagnostic) ==> interrupt_lines(
            IsrState::Entered,
            answers,
        ) == seq![decode_error_line(diagnostic)],
{
    reveal_with_fuel(interrupt_lines, 4);
    assert(answers.drop_first()[0] == answers[1]);
    assert(answers.drop_first().drop_first()[0] == answers[2]);
}

/// A failed decode on one interrupt leaves the next one untouched: the
/// first prints its single error line, and the second, which starts again
/// in `Entered`, prints the lines of its own event in full.
pub proof fn lemma_decode_failure_is_contained(diagnostic: Seq<char>, later: TouchEvent)
    ensures
        interrupt_lines(
            IsrState::Entered,
            seq![
                IsrEventView::Triggered { handle_present: true },
                IsrEventView::Polled(true),
                IsrEventView::DecodeFailed(diagnostic),
            ],
        ) == seq![decode_error_line(diagnostic)],
        next(IsrState::Decoding, IsrEventView::DecodeFailed(diagnostic)).0 == IsrState::Done,
        interrupt_lines(
            IsrState::Entered,
            seq![
                IsrEventView::Triggered { handle_present: true },
                IsrEventView::Polled(true),
                IsrEventView::Decoded(later),
            ],
        ) == event_lines(later),
{
    lemma_lines_of_pending_data(
        seq![
            IsrEventView::Triggered { handle_present: true },
            IsrEventView::Polled(true),
            IsrEventView::DecodeFailed(diagnostic),
        ],
    );
    lemma_lines_of_pending_data(
        seq![
            IsrEventView::Triggered { handle_present: true },
            IsrEventView::Polled(true),
            IsrEventView::Decoded(later),
        ],
    );
}

} // verus!
