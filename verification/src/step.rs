//! What a machine is told and what it answers: events, actions and steps.

use crate::frame::{Frame, FrameView};
use crate::notice::{notice_view, Notice, NoticeView};
use vstd::prelude::*;

verus! {

/// One of the two units that run side by side once the session is duplex.
#[derive(Clone, Copy, Debug, PartialEq, Eq)]
pub enum Unit {
    Sender,
    Receiver,
}

/// How a unit ended, as its supervisor observes it.
#[derive(Clone, Debug, PartialEq, Eq)]
pub enum Outcome {
    /// The unit ran to its end and counted this many frames.
    Count(u64),
    /// The unit was cancelled or failed; the text says how.
    Aborted(String),
}

/// What an `Outcome` is, as mathematics.
pub enum OutcomeView {
    Count(u64),
    Aborted(Seq<char>),
}

impl View for Outcome {
    type V = OutcomeView;

    open spec fn view(&self) -> OutcomeView {
        match self {
            Outcome::Count(n) => OutcomeView::Count(*n),
            Outcome::Aborted(how) => OutcomeView::Aborted(how@),
        }
    }
}

/// What happened to the action that a machine asked for last.
#[derive(Clone, Debug, PartialEq, Eq)]
pub enum Event {
    /// The frame was written.
    Sent,
    /// The frame could not be written; the text says why.
    SendFailed(String),
    /// A frame arrived.
    Received(Frame),
    /// No frame will arrive: the channel ended or failed.
    Disconnected,
    /// The pause is over.
    Elapsed,
    /// A unit finished before the other.
    Finished(Unit, Outcome),
    /// The cancellation was issued.
    Cancelled,
}

/// What an `Event` is, as mathematics.
pub enum EventView {
    Sent,
    SendFailed(Seq<char>),
    Received(FrameView),
    Disconnected,
    Elapsed,
    Finished(Unit, OutcomeView),
    Cancelled,
}

impl View for Event {
    type V = EventView;

    open spec fn view(&self) -> EventView {
        match self {
            Event::Sent => EventView::Sent,
            Event::SendFailed(why) => EventView::SendFailed(why@),
            Event::Received(frame) => EventView::Received(frame@),
            Event::Disconnected => EventView::Disconnected,
            Event::Elapsed => EventView::Elapsed,
            Event::Finished(unit, outcome) => EventView::Finished(*unit, outcome@),
            Event::Cancelled => EventView::Cancelled,
        }
    }
}

/// What a machine asks its caller to do next.
#[derive(Clone, Debug, PartialEq, Eq)]
pub enum Action {
    /// Write this frame, then report `Sent` or `SendFailed`.
    Send(Frame),
    /// Wait for the next frame, then report `Received` or `Disconnected`.
    Receive,
    /// Rest for this many milliseconds, then report `Elapsed`.
    Pause(u64),
    /// Split the channel, start both units, and report the first to finish.
    Split,
    /// Cancel this unit without waiting for it, then report `Cancelled`.
    Cancel(Unit),
    /// End the unit with this count.
    Finish(u64),
    /// End the session.
    Stop,
}

/// What an `Action` is, as mathematics.
pub enum ActionView {
    Send(FrameView),
    Receive,
    Pause(u64),
    Split,
    Cancel(Unit),
    Finish(u64),
    Stop,
}

impl View for Action {
    type V = ActionView;

    open spec fn view(&self) -> ActionView {
        match self {
            Action::Send(frame) => ActionView::Send(frame@),
            Action::Receive => ActionView::Receive,
            Action::Pause(ms) => ActionView::Pause(*ms),
            Action::Split => ActionView::Split,
            Action::Cancel(unit) => ActionView::Cancel(*unit),
            Action::Finish(count) => ActionView::Finish(*count),
            Action::Stop => ActionView::Stop,
        }
    }
}

/// A machine's answer to an event: at most one notice for the log, and the
/// action to perform.
#[derive(Clone, Debug, PartialEq, Eq)]
pub struct Step {
    pub notice: Option<Notice>,
    pub action: Action,
}

/// What a `Step` is, as mathematics.
pub struct StepView {
    pub notice: Option<NoticeView>,
    pub action: ActionView,
}

impl View for Step {
    type V = StepView;

    open spec fn view(&self) -> StepView {
        StepView { notice: notice_view(self.notice), action: self.action@ }
    }
}

/// A step that says nothing and asks for the given action.
pub open spec fn quiet(action: ActionView) -> StepView {
    StepView { notice: None, action }
}

/// A step that gives one notice and asks for the given action.
pub open spec fn noted(notice: NoticeView, action: ActionView) -> StepView {
    StepView { notice: Some(notice), action }
}

} // verus!
