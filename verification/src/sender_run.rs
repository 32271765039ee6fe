//! Runs of the sending unit: what holds of every sequence of events that it
//! may be fed from its start on.

use crate::frame::{CloseReasonView, FrameView};
use crate::script::{
    farewell_frame_view, message_frame_view, CLOSE_NORMAL, MESSAGE_COUNT, MESSAGE_PAUSE_MS,
};
use crate::sender::{sender_start, sender_step, SenderState};
use crate::step::{quiet, ActionView, EventView, StepView};
use crate::text::{decimal, lemma_decimal_short, server_message_text};
use vstd::prelude::*;

verus! {

/// The state of a freshly started sending unit after it was fed `events` in
/// order.
pub open spec fn sender_after(events: Seq<EventView>) -> SenderState
    decreases events.len(),
{
    if events.len() == 0 {
        sender_start()
    } else {
        sender_step(sender_after(events.drop_last()), events.last()).0
    }
}

/// The unit's answer to the last of `events`.
pub open spec fn sender_answer(events: Seq<EventView>) -> StepView
    recommends
        events.len() > 0,
{
    sender_step(sender_after(events.drop_last()), events.last()).1
}

/// The frames that the unit asked to write in the course of `events`, the
/// first message included, in order.
pub open spec fn sender_sends(events: Seq<EventView>) -> Seq<FrameView>
    decreases events.len(),
{
    if events.len() == 0 {
        seq![message_frame_view(0)]
    } else {
        let before = sender_sends(events.drop_last());
        match sender_answer(events).action {
            ActionView::Send(frame) => before.push(frame),
            _ => before,
        }
    }
}

/// The first `n` messages, in order.
pub open spec fn message_script(n: nat) -> Seq<FrameView> {
    Seq::new(n, |i: int| message_frame_view(i as nat))
}

/// All that an undisturbed sending unit writes: every message in order, and
/// then the closing frame.
pub open spec fn sender_script() -> Seq<FrameView> {
    message_script(MESSAGE_COUNT as nat).push(farewell_frame_view())
}

/// The events of an undisturbed run, as far as the first `n`: each write
/// succeeds and each rest comes to its end.
pub open spec fn smooth(n: nat) -> Seq<EventView> {
    Seq::new(
        n,
        |k: int|
            if k % 2 == 0 {
                EventView::Sent
            } else {
                EventView::Elapsed
            },
    )
}

/// What every run keeps true: the state is one that a sending unit can be
/// in, and the frames it has asked to write are the script as far as the
/// state tells.
proof fn lemma_sender_sends_track_state(events: Seq<EventView>)
    ensures
        sender_after(events).wf(),
        match sender_after(events) {
            SenderState::Sending(i) => sender_sends(events) == message_script((i + 1) as nat),
            SenderState::Pausing(n) => sender_sends(events) == message_script(n as nat),
            SenderState::Closing => sender_sends(events) == sender_script(),
            SenderState::Done(n) => {
                ||| sender_sends(events) == message_script(n as nat)
                ||| n < MESSAGE_COUNT && sender_sends(events) == message_script((n + 1) as nat)
                ||| n == MESSAGE_COUNT && sender_sends(events) == sender_script()
            },
        },
    decreases events.len(),
{
    if events.len() > 0 {
        lemma_sender_sends_track_state(events.drop_last());
        if let SenderState::Pausing(n) = sender_after(events.drop_last()) {
            if n < MESSAGE_COUNT {
                assert(message_script(n as nat).push(message_frame_view(n as nat))
                    =~= message_script((n + 1) as nat));
            }
        }
    }
}

/// Whatever a sending unit is fed, it stays in a state that a sending unit
/// can be in, and so never counts more messages than the script holds.
pub proof fn lemma_sender_stays_well_formed(events: Seq<EventView>)
    ensures
        sender_after(events).wf(),
        sender_after(events).written() <= MESSAGE_COUNT,
{
    lemma_sender_sends_track_state(events);
}

/// Whatever a sending unit is fed, the frames it asks to write are the
/// messages in order, as far as it got, and after the last of them the
/// closing frame and nothing else.
pub proof fn lemma_sender_sends_follow_script(events: Seq<EventView>)
    ensures
        sender_sends(events) == sender_script() || exists|n: nat|
            1 <= n <= MESSAGE_COUNT && sender_sends(events) == #[trigger] message_script(n),
{
    lemma_sender_sends_track_state(events);
    lemma_sender_sends_never_empty(events);
}

/// A sending unit has always asked for at least its first message.
proof fn lemma_sender_sends_never_empty(events: Seq<EventView>)
    ensures
        sender_sends(events).len() >= 1,
    decreases events.len(),
{
    if events.len() > 0 {
        lemma_sender_sends_never_empty(events.drop_last());
    }
}

/// How an undisturbed run proceeds: after `i` messages written and rested
/// for, the unit is writing the message with index `i`, and has asked for
/// the first `i + 1` messages and no other frame.
pub proof fn lemma_smooth_progress(i: nat)
    requires
        i < MESSAGE_COUNT,
    ensures
        sender_after(smooth(2 * i)) == SenderState::Sending(i as u64),
        sender_sends(smooth(2 * i)) == message_script(i + 1),
        sender_after(smooth(2 * i + 1)) == SenderState::Pausing((i + 1) as u64),
        sender_answer(smooth(2 * i + 1)) == quiet(ActionView::Pause(MESSAGE_PAUSE_MS)),
    decreases i,
{
    assert(smooth(2 * i + 1).drop_last() =~= smooth(2 * i));
    if i > 0 {
        lemma_smooth_progress((i - 1) as nat);
        assert(smooth(2 * i).drop_last() =~= smooth((2 * (i - 1) + 1) as nat));
    }
    lemma_sender_sends_track_state(smooth(2 * i));
}

/// A sending unit that nothing disturbs asks for every message in order,
/// each followed by a rest, then for the closing frame, and for no other
/// frame; whether or not the closing frame can be written, it ends with the
/// full count.
pub proof fn lemma_sender_undisturbed(last: EventView)
    ensures
        sender_after(smooth(2 * MESSAGE_COUNT as nat)) == SenderState::Closing,
        sender_sends(smooth(2 * MESSAGE_COUNT as nat)) == sender_script(),
        sender_after(smooth(2 * MESSAGE_COUNT as nat).push(last)) == SenderState::Done(
            MESSAGE_COUNT,
        ),
        sender_answer(smooth(2 * MESSAGE_COUNT as nat).push(last)).action == ActionView::Finish(
            MESSAGE_COUNT,
        ),
        sender_sends(smooth(2 * MESSAGE_COUNT as nat).push(last)) == sender_script(),
{
    let all = smooth(2 * MESSAGE_COUNT as nat);
    lemma_smooth_progress((MESSAGE_COUNT - 1) as nat);
    assert(all.drop_last() =~= smooth((2 * (MESSAGE_COUNT - 1) + 1) as nat));
    lemma_sender_sends_track_state(all);
    assert(all.push(last).drop_last() =~= all);
}

/// A message that cannot be written ends the unit at once, with the number
/// of messages written before it.
pub proof fn lemma_failed_write_reports_count(i: nat, why: Seq<char>)
    requires
        i < MESSAGE_COUNT,
    ensures
        sender_after(smooth(2 * i).push(EventView::SendFailed(why))) == SenderState::Done(i as u64),
        sender_answer(smooth(2 * i).push(EventView::SendFailed(why))) == quiet(
            ActionView::Finish(i as u64),
        ),
{
    lemma_smooth_progress(i);
    assert(smooth(2 * i).push(EventView::SendFailed(why)).drop_last() =~= smooth(2 * i));
}

/// A finished unit stays finished and keeps its count, whatever it is fed.
pub proof fn lemma_sender_done_is_final(count: u64, event: EventView)
    ensures
        sender_step(SenderState::Done(count), event) == (
            SenderState::Done(count),
            quiet(ActionView::Finish(count)),
        ),
{
}

/// The script of the sending unit, frame by frame: it holds one frame more
/// than there are messages, the message with index `i` reads
/// `Server message i...`, and the frame after the last message closes with
/// the code for a normal closure and the reason `Goodbye`.
pub proof fn lemma_sender_script_frame_by_frame(i: int)
    requires
        0 <= i < MESSAGE_COUNT,
    ensures
        sender_script().len() == MESSAGE_COUNT + 1,
        sender_script()[i] == FrameView::Text("Server message "@ + decimal(i as nat) + "..."@),
        sender_script()[MESSAGE_COUNT as int] == FrameView::Close(
            Some(CloseReasonView { code: CLOSE_NORMAL, text: "Goodbye"@ }),
        ),
{
}

/// The first and the last message of the script, spelled out.
pub proof fn lemma_sender_script_spelled_out()
    ensures
        sender_script()[0] == FrameView::Text("Server message 0..."@),
        sender_script()[9] == FrameView::Text("Server message 9..."@),
        sender_script()[10] == FrameView::Text("Server message 10..."@),
        sender_script()[19] == FrameView::Text("Server message 19..."@),
{
    reveal_strlit("Server message ");
    reveal_strlit("...");
    reveal_strlit("Server message 0...");
    reveal_strlit("Server message 9...");
    reveal_strlit("Server message 10...");
    reveal_strlit("Server message 19...");
    lemma_decimal_short(10);
    lemma_decimal_short(19);
    assert(server_message_text(0) =~= "Server message 0..."@);
    assert(server_message_text(9) =~= "Server message 9..."@);
    assert(server_message_text(10) =~= "Server message 10..."@);
    assert(server_message_text(19) =~= "Server message 19..."@);
}

} // verus!
