//! The receiving unit: it reads frame after frame, classifies each, and ends
//! when the peer closes or the channel fails. It never writes.

use crate::frame::{process_message, verdict};
use crate::notice::{describe, frame_notice, Notice, NoticeView};
use crate::step::{noted, quiet, Action, ActionView, Event, EventView, Step, StepView};
use core::ops::ControlFlow;
use vstd::prelude::*;

verus! {

/// Where the receiving unit stands.
#[derive(Clone, Copy, Debug, PartialEq, Eq)]
pub enum ReceiverState {
    /// Waiting for the next frame, with this many classified so far.
    Listening(u64),
    /// Finished, with this many frames classified.
    Done(u64),
}

impl ReceiverState {
    /// The number of frames classified so far.
    pub open spec fn count(self) -> u64 {
        match self {
            ReceiverState::Listening(n) => n,
            ReceiverState::Done(n) => n,
        }
    }

    /// Whether the counter can take one more frame, should one arrive. A
    /// finished unit counts no more and so always has room.
    pub open spec fn has_room(self) -> bool {
        self matches ReceiverState::Listening(n) ==> n < u64::MAX
    }
}

/// The state in which the receiving unit starts.
pub open spec fn receiver_start() -> ReceiverState {
    ReceiverState::Listening(0)
}

/// What the receiving unit does with an event.
///
/// While it listens, a frame is counted and reported; a close frame ends the
/// unit with the count that includes it, any other frame makes it listen
/// again. A channel that yields nothing is reported and ends the unit with
/// the count so far, and so, without a word, does an event that the unit did
/// not ask for. Once done, it only repeats its count.
pub open spec fn receiver_step(state: ReceiverState, event: EventView) -> (ReceiverState, StepView) {
    match state {
        ReceiverState::Listening(count) => match event {
            EventView::Received(frame) => {
                let counted = (count + 1) as u64;
                if verdict(frame) is Break {
                    (
                        ReceiverState::Done(counted),
                        StepView { notice: frame_notice(frame), action: ActionView::Finish(counted) },
                    )
                } else {
                    (
                        ReceiverState::Listening(counted),
                        StepView { notice: frame_notice(frame), action: ActionView::Receive },
                    )
                }
            },
            EventView::Disconnected => (
                ReceiverState::Done(count),
                noted(NoticeView::Disconnected, ActionView::Finish(count)),
            ),
            _ => (ReceiverState::Done(count), quiet(ActionView::Finish(count))),
        },
        ReceiverState::Done(count) => (ReceiverState::Done(count), quiet(ActionView::Finish(count))),
    }
}

/// The receiving unit of one session.
pub struct Receiver {
    state: ReceiverState,
}

impl View for Receiver {
    type V = ReceiverState;

    closed spec fn view(&self) -> ReceiverState {
        self.state
    }
}

impl Receiver {
    /// Starts the unit: nothing is counted yet, and the first thing to do is
    /// to wait for a frame.
    pub fn start() -> (r: (Receiver, Step))
        ensures
            r.0@ == receiver_start(),
            r.1@ == quiet(ActionView::Receive),
    {
        (
            Receiver { state: ReceiverState::Listening(0) },
            Step { notice: None, action: Action::Receive },
        )
    }

    /// Where the unit stands.
    pub fn state(&self) -> (state: ReceiverState)
        ensures
            state == self@,
    {
        self.state
    }

    /// Takes the event that answers the last action and says what to do next.
    pub fn step(self, event: Event) -> (r: (Receiver, Step))
        requires
            self@.has_room(),
        ensures
            (r.0@, r.1@) == receiver_step(self@, event@),
    {
        match self.state {
            ReceiverState::Listening(count) => match event {
                Event::Received(frame) => {
                    let counted = count + 1;
                    let flow = process_message(&frame);
                    let notice = describe(frame);
                    match flow {
                        ControlFlow::Break(_) => (
                            Receiver { state: ReceiverState::Done(counted) },
                            Step { notice, action: Action::Finish(counted) },
                        ),
                        ControlFlow::Continue(_) => (
                            Receiver { state: ReceiverState::Listening(counted) },
                            Step { notice, action: Action::Receive },
                        ),
                    }
                },
                Event::Disconnected => (
                    Receiver { state: ReceiverState::Done(count) },
                    Step { notice: Some(Notice::Disconnected), action: Action::Finish(count) },
                ),
                _ => (
                    Receiver { state: ReceiverState::Done(count) },
                    Step { notice: None, action: Action::Finish(count) },
                ),
            },
            ReceiverState::Done(count) => (
                Receiver { state: ReceiverState::Done(count) },
                Step { notice: None, action: Action::Finish(count) },
            ),
        }
    }
}

} // verus!
