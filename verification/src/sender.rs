//! The sending unit: it writes a fixed number of messages, resting after
//! each, and then tries once to close the session.

use crate::notice::{Notice, NoticeView};
use crate::script::{
    farewell_frame, farewell_frame_view, message_frame, message_frame_view, MESSAGE_COUNT,
    MESSAGE_PAUSE_MS,
};
use crate::step::{noted, quiet, Action, ActionView, Event, EventView, Step, StepView};
use vstd::prelude::*;

verus! {

/// Where the sending unit stands.
#[derive(Clone, Copy, Debug, PartialEq, Eq)]
pub enum SenderState {
    /// The message with this index is being written; as many were written
    /// before it.
    Sending(u64),
    /// This many messages are written, and the unit rests.
    Pausing(u64),
    /// All messages are written, and the closing frame is being written.
    Closing,
    /// Finished, with this many messages written.
    Done(u64),
}

impl SenderState {
    /// The states that a sending unit can be in.
    pub open spec fn wf(self) -> bool {
        match self {
            SenderState::Sending(i) => i < MESSAGE_COUNT,
            SenderState::Pausing(n) => 1 <= n <= MESSAGE_COUNT,
            SenderState::Closing => true,
            SenderState::Done(n) => n <= MESSAGE_COUNT,
        }
    }

    /// The number of messages written so far.
    pub open spec fn written(self) -> u64 {
        match self {
            SenderState::Sending(i) => i,
            SenderState::Pausing(n) => n,
            SenderState::Closing => MESSAGE_COUNT,
            SenderState::Done(n) => n,
        }
    }
}

/// The state in which the sending unit starts.
pub open spec fn sender_start() -> SenderState {
    SenderState::Sending(0)
}

/// What the sending unit does with an event.
///
/// A written message is followed by a rest, a rest by the next message or,
/// after the last one, by the closing frame. A message that cannot be
/// written ends the unit with the number written before it. The closing
/// frame ends the unit with the full count whether it was written or not. An
/// event that the unit did not ask for ends it with what is written so far.
pub open spec fn sender_step(state: SenderState, event: EventView) -> (SenderState, StepView) {
    match state {
        SenderState::Sending(i) => match event {
            EventView::Sent => (
                SenderState::Pausing((i + 1) as u64),
                quiet(ActionView::Pause(MESSAGE_PAUSE_MS)),
            ),
            _ => (SenderState::Done(i), quiet(ActionView::Finish(i))),
        },
        SenderState::Pausing(n) => match event {
            EventView::Elapsed => if n < MESSAGE_COUNT {
                (SenderState::Sending(n), quiet(ActionView::Send(message_frame_view(n as nat))))
            } else {
                (
                    SenderState::Closing,
                    noted(NoticeView::Closing, ActionView::Send(farewell_frame_view())),
                )
            },
            _ => (SenderState::Done(n), quiet(ActionView::Finish(n))),
        },
        SenderState::Closing => match event {
            EventView::SendFailed(why) => (
                SenderState::Done(MESSAGE_COUNT),
                noted(NoticeView::CloseNotSent(why), ActionView::Finish(MESSAGE_COUNT)),
            ),
            _ => (SenderState::Done(MESSAGE_COUNT), quiet(ActionView::Finish(MESSAGE_COUNT))),
        },
        SenderState::Done(n) => (SenderState::Done(n), quiet(ActionView::Finish(n))),
    }
}

/// The sending unit of one session.
pub struct Sender {
    state: SenderState,
}

impl View for Sender {
    type V = SenderState;

    closed spec fn view(&self) -> SenderState {
        self.state
    }
}

impl Sender {
    #[verifier::type_invariant]
    spec fn well_formed(self) -> bool {
        self.state.wf()
    }

    /// Starts the unit: nothing is written yet, and the first thing to do is
    /// to write the first message.
    pub fn start() -> (r: (Sender, Step))
        ensures
            r.0@ == sender_start(),
            r.0@.wf(),
            r.1@ == quiet(ActionView::Send(message_frame_view(0))),
    {
        (
            Sender { state: SenderState::Sending(0) },
            Step { notice: None, action: Action::Send(message_frame(0)) },
        )
    }

    /// Where the unit stands.
    pub fn state(&self) -> (state: SenderState)
        ensures
            state == self@,
            state.wf(),
    {
        proof {
            use_type_invariant(self);
        }
        self.state
    }

    /// Takes the event that answers the last action and says what to do next.
    pub fn step(self, event: Event) -> (r: (Sender, Step))
        ensures
            (r.0@, r.1@) == sender_step(self@, event@),
            r.0@.wf(),
    {
        proof {
            use_type_invariant(&self);
        }
        match self.state {
            SenderState::Sending(i) => match event {
                Event::Sent => (
                    Sender { state: SenderState::Pausing(i + 1) },
                    Step { notice: None, action: Action::Pause(MESSAGE_PAUSE_MS) },
                ),
                _ => (
                    Sender { state: SenderState::Done(i) },
                    Step { notice: None, action: Action::Finish(i) },
                ),
            },
            SenderState::Pausing(n) => match event {
                Event::Elapsed => if n < MESSAGE_COUNT {
                    (
                        Sender { state: SenderState::Sending(n) },
                        Step { notice: None, action: Action::Send(message_frame(n)) },
                    )
                } else {
                    (
                        Sender { state: SenderState::Closing },
                        Step { notice: Some(Notice::Closing), action: Action::Send(farewell_frame()) },
                    )
                },
                _ => (
                    Sender { state: SenderState::Done(n) },
                    Step { notice: None, action: Action::Finish(n) },
                ),
            },
            SenderState::Closing => match event {
                Event::SendFailed(why) => (
                    Sender { state: SenderState::Done(MESSAGE_COUNT) },
                    Step {
                        notice: Some(Notice::CloseNotSent(why)),
                        action: Action::Finish(MESSAGE_COUNT),
                    },
                ),
                _ => (
                    Sender { state: SenderState::Done(MESSAGE_COUNT) },
                    Step { notice: None, action: Action::Finish(MESSAGE_COUNT) },
                ),
            },
            SenderState::Done(n) => (
                Sender { state: SenderState::Done(n) },
                Step { notice: None, action: Action::Finish(n) },
            ),
        }
    }
}

} // verus!
