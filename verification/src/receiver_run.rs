//! Runs of the receiving unit: what holds of every sequence of events that
//! it may be fed from its start on.

use crate::frame::FrameView;
use crate::notice::{frame_notice, NoticeView};
use crate::receiver::{receiver_start, receiver_step, ReceiverState};
use crate::step::{quiet, ActionView, EventView, StepView};
use vstd::prelude::*;

verus! {

/// The state of a freshly started receiving unit after it was fed `events`
/// in order.
pub open spec fn receiver_after(events: Seq<EventView>) -> ReceiverState
    decreases events.len(),
{
    if events.len() == 0 {
        receiver_start()
    } else {
        receiver_step(receiver_after(events.drop_last()), events.last()).0
    }
}

/// The unit's answer to the last of `events`.
pub open spec fn receiver_answer(events: Seq<EventView>) -> StepView
    recommends
        events.len() > 0,
{
    receiver_step(receiver_after(events.drop_last()), events.last()).1
}

/// Whether every one of `events` is the arrival of a frame that does not
/// close.
pub open spec fn all_arrivals(events: Seq<EventView>) -> bool {
    forall|k: int|
        0 <= k < events.len() ==> (#[trigger] events[k] matches EventView::Received(frame)
            && !(frame is Close))
}

/// The receiving unit never writes: whatever its state and whatever it is
/// fed, it asks to wait for the next frame or ends.
pub proof fn lemma_receiver_never_writes(state: ReceiverState, event: EventView)
    ensures
        receiver_step(state, event).1.action is Receive || receiver_step(
            state,
            event,
        ).1.action is Finish,
{
}

/// A close frame ends the listening unit at once, is counted and reported,
/// and is not answered.
pub proof fn lemma_close_ends_receiver(count: u64, close: FrameView)
    requires
        close is Close,
        count < u64::MAX,
    ensures
        receiver_step(ReceiverState::Listening(count), EventView::Received(close)) == (
            ReceiverState::Done((count + 1) as u64),
            StepView {
                notice: frame_notice(close),
                action: ActionView::Finish((count + 1) as u64),
            },
        ),
{
}

/// A frame that does not close is counted and reported, and the unit goes
/// on listening.
pub proof fn lemma_other_frames_keep_receiver(count: u64, frame: FrameView)
    requires
        !(frame is Close),
        count < u64::MAX,
    ensures
        receiver_step(ReceiverState::Listening(count), EventView::Received(frame)) == (
            ReceiverState::Listening((count + 1) as u64),
            StepView { notice: frame_notice(frame), action: ActionView::Receive },
        ),
{
}

/// A channel that yields nothing ends the listening unit with the count so
/// far, and so does any other event that is no frame.
pub proof fn lemma_silence_ends_receiver(count: u64, event: EventView)
    requires
        !(event is Received),
    ensures
        receiver_step(ReceiverState::Listening(count), event).0 == ReceiverState::Done(count),
        receiver_step(ReceiverState::Listening(count), event).1.action == ActionView::Finish(
            count,
        ),
        receiver_step(ReceiverState::Listening(count), event).1.notice == (if event
            is Disconnected {
            Some(NoticeView::Disconnected)
        } else {
            None
        }),
{
}

/// A finished unit stays finished and keeps its count, whatever it is fed.
pub proof fn lemma_receiver_done_is_final(count: u64, event: EventView)
    ensures
        receiver_step(ReceiverState::Done(count), event) == (
            ReceiverState::Done(count),
            quiet(ActionView::Finish(count)),
        ),
{
}

/// The unit counts what it classifies: after a run of frames none of which
/// closes, it listens with as many frames counted as arrived.
pub proof fn lemma_receiver_counts_arrivals(events: Seq<EventView>)
    requires
        all_arrivals(events),
        events.len() <= u64::MAX,
    ensures
        receiver_after(events) == ReceiverState::Listening(events.len() as u64),
    decreases events.len(),
{
    if events.len() > 0 {
        lemma_receiver_counts_arrivals(events.drop_last());
    }
}

/// Frames are classified in the order in which they arrive: in a run of
/// frames none of which closes, the answer to each arrival reports that
/// frame and asks for the next.
pub proof fn lemma_receiver_reports_in_order(events: Seq<EventView>, k: int)
    requires
        all_arrivals(events),
        events.len() <= u64::MAX,
        0 <= k < events.len(),
    ensures
        receiver_answer(events.take(k + 1)) == (StepView {
            notice: frame_notice(events[k]->Received_0),
            action: ActionView::Receive,
        }),
{
    lemma_receiver_counts_arrivals(events.take(k));
    assert(events.take(k + 1).drop_last() =~= events.take(k));
}

/// The count that the unit reports is the number of frames it classified:
/// after a run of frames none of which closes, a close frame ends it with
/// one more than arrived before, and a channel that yields nothing with as
/// many as arrived.
pub proof fn lemma_receiver_reports_count(events: Seq<EventView>, close: FrameView)
    requires
        all_arrivals(events),
        events.len() < u64::MAX,
        close is Close,
    ensures
        receiver_answer(events.push(EventView::Received(close))).action == ActionView::Finish(
            (events.len() + 1) as u64,
        ),
        receiver_answer(events.push(EventView::Disconnected)).action == ActionView::Finish(
            events.len() as u64,
        ),
{
    lemma_receiver_counts_arrivals(events);
    assert(events.push(EventView::Received(close)).drop_last() =~= events);
    assert(events.push(EventView::Disconnected).drop_last() =~= events);
}

} // verus!
