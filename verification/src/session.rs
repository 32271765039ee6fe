//! The session itself: handshake, greeting, duplex exchange, end.

use crate::frame::{process_message, verdict};
use crate::notice::{describe, frame_notice, notice_view, Notice, NoticeView};
use crate::script::{
    greeting_frame, greeting_frame_view, ping_frame, ping_frame_view, GREETING_COUNT,
    GREETING_PAUSE_MS,
};
use crate::step::{noted, quiet, Action, ActionView, Event, EventView, Step, StepView};
use crate::supervisor::{resolution, resolve};
use core::ops::ControlFlow;
use vstd::prelude::*;

verus! {

/// The four phases that a session goes through, in this order.
#[derive(Clone, Copy, Debug, PartialEq, Eq)]
pub enum Phase {
    Handshake,
    Greeting,
    Duplex,
    Terminated,
}

impl Phase {
    /// The place of a phase in the order of phases.
    pub open spec fn rank(self) -> nat {
        match self {
            Phase::Handshake => 0,
            Phase::Greeting => 1,
            Phase::Duplex => 2,
            Phase::Terminated => 3,
        }
    }
}

/// Where a session stands.
#[derive(Clone, Copy, Debug, PartialEq, Eq)]
pub enum SessionState {
    /// The opening ping is being written.
    Pinging,
    /// The ping is written, and the session waits for any one frame.
    AwaitingReply,
    /// The greeting with this number is being written.
    Greeting(u64),
    /// The greeting with this number is written, and the session rests.
    Resting(u64),
    /// Both units run, and the supervisor waits for the first to finish.
    Racing,
    /// One unit has finished, and the other is being cancelled.
    Resolved,
    /// The session is over.
    Terminated,
}

impl SessionState {
    /// The phase that a state belongs to.
    pub open spec fn phase_of(self) -> Phase {
        match self {
            SessionState::Pinging => Phase::Handshake,
            SessionState::AwaitingReply => Phase::Handshake,
            SessionState::Greeting(_) => Phase::Greeting,
            SessionState::Resting(_) => Phase::Greeting,
            SessionState::Racing => Phase::Duplex,
            SessionState::Resolved => Phase::Duplex,
            SessionState::Terminated => Phase::Terminated,
        }
    }

    /// The phase that a state belongs to.
    #[verifier::when_used_as_spec(phase_of)]
    pub fn phase(self) -> (phase: Phase)
        ensures
            phase == self.phase_of(),
    {
        match self {
            SessionState::Pinging => Phase::Handshake,
            SessionState::AwaitingReply => Phase::Handshake,
            SessionState::Greeting(_) => Phase::Greeting,
            SessionState::Resting(_) => Phase::Greeting,
            SessionState::Racing => Phase::Duplex,
            SessionState::Resolved => Phase::Duplex,
            SessionState::Terminated => Phase::Terminated,
        }
    }
}

/// The state in which a session starts.
pub open spec fn session_start() -> SessionState {
    SessionState::Pinging
}

/// The step with which a session starts: it writes the opening ping.
pub open spec fn session_opening() -> StepView {
    quiet(ActionView::Send(ping_frame_view()))
}

/// The step that ends a session without a word.
pub open spec fn halt() -> (SessionState, StepView) {
    (SessionState::Terminated, quiet(ActionView::Stop))
}

/// The step that ends a session with one notice.
pub open spec fn halt_with(notice: NoticeView) -> (SessionState, StepView) {
    (SessionState::Terminated, noted(notice, ActionView::Stop))
}

/// What a session does with an event.
///
/// Handshake: once the ping is written the session waits for one frame; a
/// close frame, a failed write or a channel that yields nothing ends the
/// session, any other frame is reported and starts the greeting. Greeting:
/// each greeting is followed by a rest, each rest by the next greeting or,
/// after the last one, by the split; a failed write ends the session. Duplex:
/// the first unit to finish is reported and the other cancelled, and once the
/// cancellation is issued the session ends. An event that the session did
/// not ask for ends it at once, and an ended session only repeats that it
/// has ended.
pub open spec fn session_step(state: SessionState, event: EventView) -> (SessionState, StepView) {
    match state {
        SessionState::Pinging => match event {
            EventView::Sent => (
                SessionState::AwaitingReply,
                noted(NoticeView::Pinged, ActionView::Receive),
            ),
            EventView::SendFailed(_) => halt_with(NoticeView::PingFailed),
            _ => halt(),
        },
        SessionState::AwaitingReply => match event {
            EventView::Received(frame) => if verdict(frame) is Break {
                (
                    SessionState::Terminated,
                    StepView { notice: frame_notice(frame), action: ActionView::Stop },
                )
            } else {
                (
                    SessionState::Greeting(1),
                    StepView {
                        notice: frame_notice(frame),
                        action: ActionView::Send(greeting_frame_view(1)),
                    },
                )
            },
            EventView::Disconnected => halt_with(NoticeView::Disconnected),
            _ => halt(),
        },
        SessionState::Greeting(i) => match event {
            EventView::Sent => (SessionState::Resting(i), quiet(ActionView::Pause(GREETING_PAUSE_MS))),
            EventView::SendFailed(_) => halt_with(NoticeView::Disconnected),
            _ => halt(),
        },
        SessionState::Resting(i) => match event {
            EventView::Elapsed => if i < GREETING_COUNT {
                (
                    SessionState::Greeting((i + 1) as u64),
                    quiet(ActionView::Send(greeting_frame_view((i + 1) as nat))),
                )
            } else {
                (SessionState::Racing, quiet(ActionView::Split))
            },
            _ => halt(),
        },
        SessionState::Racing => match event {
            EventView::Finished(first, outcome) => (SessionState::Resolved, resolution(first, outcome)),
            _ => halt(),
        },
        SessionState::Resolved => match event {
            EventView::Cancelled => halt_with(NoticeView::Ended),
            _ => halt(),
        },
        SessionState::Terminated => halt(),
    }
}

/// One session, from the completed upgrade to its end.
pub struct Session {
    state: SessionState,
}

impl View for Session {
    type V = SessionState;

    closed spec fn view(&self) -> SessionState {
        self.state
    }
}

impl Session {
    /// Opens a session: the first thing to do is to write the ping.
    pub fn open() -> (r: (Session, Step))
        ensures
            r.0@ == session_start(),
            r.1@ == session_opening(),
    {
        (
            Session { state: SessionState::Pinging },
            Step { notice: None, action: Action::Send(ping_frame()) },
        )
    }

    /// Where the session stands.
    pub fn state(&self) -> (state: SessionState)
        ensures
            state == self@,
    {
        self.state
    }

    /// Takes the event that answers the last action and says what to do next.
    pub fn step(self, event: Event) -> (r: (Session, Step))
        ensures
            (r.0@, r.1@) == session_step(self@, event@),
    {
        match self.state {
            SessionState::Pinging => match event {
                Event::Sent => (
                    Session { state: SessionState::AwaitingReply },
                    Step { notice: Some(Notice::Pinged), action: Action::Receive },
                ),
                Event::SendFailed(_) => Session::end(Some(Notice::PingFailed)),
                _ => Session::end(None),
            },
            SessionState::AwaitingReply => match event {
                Event::Received(frame) => {
                    let flow = process_message(&frame);
                    let notice = describe(frame);
                    match flow {
                        ControlFlow::Break(_) => Session::end(notice),
                        ControlFlow::Continue(_) => (
                            Session { state: SessionState::Greeting(1) },
                            Step { notice, action: Action::Send(greeting_frame(1)) },
                        ),
                    }
                },
                Event::Disconnected => Session::end(Some(Notice::Disconnected)),
                _ => Session::end(None),
            },
            SessionState::Greeting(i) => match event {
                Event::Sent => (
                    Session { state: SessionState::Resting(i) },
                    Step { notice: None, action: Action::Pause(GREETING_PAUSE_MS) },
                ),
                Event::SendFailed(_) => Session::end(Some(Notice::Disconnected)),
                _ => Session::end(None),
            },
            SessionState::Resting(i) => match event {
                Event::Elapsed => if i < GREETING_COUNT {
                    (
                        Session { state: SessionState::Greeting(i + 1) },
                        Step { notice: None, action: Action::Send(greeting_frame(i + 1)) },
                    )
                } else {
                    (
                        Session { state: SessionState::Racing },
                        Step { notice: None, action: Action::Split },
                    )
                },
                _ => Session::end(None),
            },
            SessionState::Racing => match event {
                Event::Finished(first, outcome) => (
                    Session { state: SessionState::Resolved },
                    resolve(first, outcome),
                ),
                _ => Session::end(None),
            },
            SessionState::Resolved => match event {
                Event::Cancelled => Session::end(Some(Notice::Ended)),
                _ => Session::end(None),
            },
            SessionState::Terminated => Session::end(None),
        }
    }

    /// Ends the session with the given notice, if any.
    fn end(notice: Option<Notice>) -> (r: (Session, Step))
        ensures
            r.0@ == SessionState::Terminated,
            r.1@ == (StepView { notice: notice_view(notice), action: ActionView::Stop }),
    {
        (Session { state: SessionState::Terminated }, Step { notice, action: Action::Stop })
    }
}

} // verus!
