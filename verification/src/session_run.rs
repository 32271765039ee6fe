//! Runs of a session: what holds of every sequence of events that a session
//! may be fed from its opening on.

use crate::frame::FrameView;
use crate::script::{
    greeting_frame_view, ping_frame_view, GREETING_COUNT, GREETING_PAUSE_MS,
};
use crate::session::{session_start, session_step, Phase, SessionState};
use crate::step::{quiet, ActionView, EventView, OutcomeView, StepView, Unit};
use crate::supervisor::rival_of;
use crate::text::greeting_text;
use vstd::prelude::*;

verus! {

/// The state of a freshly opened session after it was fed `events` in order.
pub open spec fn session_after(events: Seq<EventView>) -> SessionState
    decreases events.len(),
{
    if events.len() == 0 {
        session_start()
    } else {
        session_step(session_after(events.drop_last()), events.last()).0
    }
}

/// The session's answer to the last of `events`.
pub open spec fn session_answer(events: Seq<EventView>) -> StepView
    recommends
        events.len() > 0,
{
    session_step(session_after(events.drop_last()), events.last()).1
}

/// The frames that the session asked to write in the course of `events`, the
/// opening ping included, in order.
pub open spec fn session_sends(events: Seq<EventView>) -> Seq<FrameView>
    decreases events.len(),
{
    if events.len() == 0 {
        seq![ping_frame_view()]
    } else {
        let before = session_sends(events.drop_last());
        match session_answer(events).action {
            ActionView::Send(frame) => before.push(frame),
            _ => before,
        }
    }
}

/// The units that the session asked to cancel in the course of `events`, in
/// order.
pub open spec fn session_cancels(events: Seq<EventView>) -> Seq<Unit>
    decreases events.len(),
{
    if events.len() == 0 {
        Seq::empty()
    } else {
        let before = session_cancels(events.drop_last());
        match session_answer(events).action {
            ActionView::Cancel(unit) => before.push(unit),
            _ => before,
        }
    }
}

/// The opening ping followed by the first `n` greetings.
pub open spec fn greeting_script(n: nat) -> Seq<FrameView>
    decreases n,
{
    if n == 0 {
        seq![ping_frame_view()]
    } else {
        greeting_script((n - 1) as nat).push(greeting_frame_view(n))
    }
}

/// An event that tells of a failed write, of a channel that yields nothing,
/// or of a peer that closes.
pub open spec fn is_failure(event: EventView) -> bool {
    ||| event is SendFailed
    ||| event is Disconnected
    ||| event matches EventView::Received(frame) && frame is Close
}

/// One step leaves the phase as it is, moves on to the next phase, or ends
/// the session: it never goes back and never passes over a phase on the way
/// to the duplex exchange.
pub proof fn lemma_step_keeps_phase_order(state: SessionState, event: EventView)
    ensures
        ({
            let next = session_step(state, event).0;
            ||| next.phase() == state.phase()
            ||| next.phase().rank() == state.phase().rank() + 1
            ||| next.phase() == Phase::Terminated
        }),
{
}

/// Along every run the phases come in the order handshake, greeting, duplex,
/// terminated: a later state is never in an earlier phase.
pub proof fn lemma_phases_in_order(events: Seq<EventView>, i: int, j: int)
    requires
        0 <= i <= j <= events.len(),
    ensures
        session_after(events.take(i)).phase().rank() <= session_after(events.take(j)).phase().rank(),
    decreases j - i,
{
    if i < j {
        lemma_phases_in_order(events, i, j - 1);
        assert(events.take(j).drop_last() =~= events.take(j - 1));
        lemma_step_keeps_phase_order(session_after(events.take(j - 1)), events.take(j).last());
    }
}

/// During handshake and greeting a failure ends the session at once, and no
/// frame is written in answer.
pub proof fn lemma_failure_ends_session(state: SessionState, event: EventView)
    requires
        state.phase() == Phase::Handshake || state.phase() == Phase::Greeting,
        is_failure(event),
    ensures
        session_step(state, event).0 == SessionState::Terminated,
        session_step(state, event).1.action == ActionView::Stop,
{
}

/// An ended session neither writes nor reads: whatever it is fed, it stays
/// ended and asks for nothing but to stop.
pub proof fn lemma_terminated_does_nothing(event: EventView)
    ensures
        session_step(SessionState::Terminated, event) == (
            SessionState::Terminated,
            quiet(ActionView::Stop),
        ),
{
}

/// An ended session stays ended, whatever it is fed.
pub proof fn lemma_terminated_is_final(events: Seq<EventView>, i: int, j: int)
    requires
        0 <= i <= j <= events.len(),
        session_after(events.take(i)) == SessionState::Terminated,
    ensures
        session_after(events.take(j)) == SessionState::Terminated,
    decreases j - i,
{
    if i < j {
        lemma_terminated_is_final(events, i, j - 1);
        assert(events.take(j).drop_last() =~= events.take(j - 1));
    }
}

/// The duplex exchange is never entered once handshake or greeting has
/// failed: after such a failure every later state is the terminated one.
pub proof fn lemma_no_duplex_after_failure(events: Seq<EventView>, k: int, j: int)
    requires
        0 <= k < j <= events.len(),
        session_after(events.take(k)).phase() == Phase::Handshake || session_after(
            events.take(k),
        ).phase() == Phase::Greeting,
        is_failure(events[k]),
    ensures
        session_after(events.take(j)) == SessionState::Terminated,
        session_after(events.take(j)).phase() != Phase::Duplex,
{
    assert(events.take(k + 1).drop_last() =~= events.take(k));
    lemma_failure_ends_session(session_after(events.take(k)), events[k]);
    lemma_terminated_is_final(events, k + 1, j);
}

/// How far the greeting script has been written when the session is in the
/// given state, where the state tells.
pub open spec fn greetings_begun(state: SessionState) -> nat {
    match state {
        SessionState::Pinging => 0,
        SessionState::AwaitingReply => 0,
        SessionState::Greeting(i) => i as nat,
        SessionState::Resting(i) => i as nat,
        _ => GREETING_COUNT as nat,
    }
}

/// What every run keeps true: before the session ends, the frames it has
/// asked to write are the script up to the greeting its state names; after
/// it ends, they are the script up to some greeting.
proof fn lemma_sends_track_state(events: Seq<EventView>)
    ensures
        ({
            let state = session_after(events);
            let sends = session_sends(events);
            &&& state matches SessionState::Greeting(i) ==> 1 <= i <= GREETING_COUNT
            &&& state matches SessionState::Resting(i) ==> 1 <= i <= GREETING_COUNT
            &&& state != SessionState::Terminated ==> sends == greeting_script(greetings_begun(state))
            &&& state == SessionState::Terminated ==> exists|n: nat|
                n <= GREETING_COUNT && sends == #[trigger] greeting_script(n)
        }),
    decreases events.len(),
{
    if events.len() > 0 {
        let earlier = events.drop_last();
        lemma_sends_track_state(earlier);
        let before = session_after(earlier);
        if before == SessionState::Terminated {
            let n = choose|n: nat|
                n <= GREETING_COUNT && session_sends(earlier) == #[trigger] greeting_script(n);
            assert(session_sends(events) == greeting_script(n));
        } else if session_after(events) == SessionState::Terminated {
            assert(session_sends(events) == greeting_script(greetings_begun(before)));
        } else {
            match before {
                SessionState::AwaitingReply => {
                    assert(greeting_script(1) == greeting_script(0).push(greeting_frame_view(1)));
                },
                SessionState::Resting(i) => {
                    if i < GREETING_COUNT {
                        assert(greeting_script((i + 1) as nat) == greeting_script(i as nat).push(
                            greeting_frame_view((i + 1) as nat),
                        ));
                    }
                },
                _ => {},
            }
        }
    }
}

/// Whatever a session is fed, the frames it asks to write are the opening
/// ping and then the greetings in order, as far as it got.
pub proof fn lemma_sends_follow_script(events: Seq<EventView>)
    ensures
        exists|n: nat| n <= GREETING_COUNT && session_sends(events) == #[trigger] greeting_script(n),
{
    lemma_sends_track_state(events);
    if session_after(events) != SessionState::Terminated {
        let n = greetings_begun(session_after(events));
        assert(session_sends(events) == greeting_script(n));
    }
}

/// From the duplex exchange on, a session asks for no frame to be written.
pub proof fn lemma_no_sends_after_greeting(events: Seq<EventView>, k: int)
    requires
        0 <= k <= events.len(),
        session_after(events.take(k)).phase().rank() >= Phase::Duplex.rank(),
    ensures
        session_sends(events) == session_sends(events.take(k)),
    decreases events.len() - k,
{
    if k < events.len() {
        let earlier = events.drop_last();
        assert(earlier.take(k) =~= events.take(k));
        lemma_no_sends_after_greeting(earlier, k);
        assert(events.take(events.len() as int) =~= events);
        assert(events.take(events.len() - 1) =~= earlier);
        lemma_phases_in_order(events, k, events.len() - 1);
    } else {
        assert(events.take(k) =~= events);
    }
}

/// A session that reaches the duplex exchange has asked for the opening ping
/// and all the greetings to be written, each once and in order, and asks for
/// no other frame in all its run.
pub proof fn lemma_greeting_complete(events: Seq<EventView>, k: int)
    requires
        0 <= k <= events.len(),
        session_after(events.take(k)).phase() == Phase::Duplex,
    ensures
        session_sends(events) == greeting_script(GREETING_COUNT as nat),
{
    lemma_sends_track_state(events.take(k));
    lemma_no_sends_after_greeting(events, k);
}

/// The events of a session in which nothing fails, as far as the first `n`:
/// the ping is written, `reply` arrives, and from then on each write
/// succeeds and each rest comes to its end.
pub open spec fn calm(reply: FrameView, n: nat) -> Seq<EventView> {
    Seq::new(
        n,
        |k: int|
            if k == 1 {
                EventView::Received(reply)
            } else if k % 2 == 0 {
                EventView::Sent
            } else {
                EventView::Elapsed
            },
    )
}

/// How a session proceeds in which nothing fails: once the reply is in and
/// `i` greetings are written and rested for, it is writing the next one, and
/// once that is written it rests.
pub proof fn lemma_calm_progress(reply: FrameView, i: nat)
    requires
        !(reply is Close),
        i < GREETING_COUNT,
    ensures
        session_after(calm(reply, 2 + 2 * i)) == SessionState::Greeting((i + 1) as u64),
        session_after(calm(reply, 3 + 2 * i)) == SessionState::Resting((i + 1) as u64),
        session_answer(calm(reply, 3 + 2 * i)) == quiet(
            ActionView::Pause(GREETING_PAUSE_MS),
        ),
    decreases i,
{
    assert(calm(reply, 3 + 2 * i).drop_last() =~= calm(reply, 2 + 2 * i));
    if i == 0 {
        assert(calm(reply, 2).drop_last() =~= calm(reply, 1));
    } else {
        lemma_calm_progress(reply, (i - 1) as nat);
        assert(calm(reply, 2 + 2 * i).drop_last() =~= calm(reply, (3 + 2 * (i - 1)) as nat));
    }
}

/// A session in which nothing fails reaches the duplex exchange: whatever
/// frame but a close frame answers the ping, after the last greeting and its
/// rest the session asks for the split, having asked for the ping and every
/// greeting to be written.
pub proof fn lemma_session_undisturbed(reply: FrameView)
    requires
        !(reply is Close),
    ensures
        session_after(calm(reply, 2 + 2 * GREETING_COUNT as nat)) == SessionState::Racing,
        session_answer(calm(reply, 2 + 2 * GREETING_COUNT as nat)) == quiet(ActionView::Split),
        session_sends(calm(reply, 2 + 2 * GREETING_COUNT as nat)) == greeting_script(
            GREETING_COUNT as nat,
        ),
{
    let all = calm(reply, 2 + 2 * GREETING_COUNT as nat);
    lemma_calm_progress(reply, (GREETING_COUNT - 1) as nat);
    assert(all.drop_last() =~= calm(reply, (3 + 2 * (GREETING_COUNT - 1)) as nat));
    assert(all.take(all.len() as int) =~= all);
    lemma_greeting_complete(all, all.len() as int);
}

/// The script of a completed greeting, spelled out.
pub proof fn lemma_greeting_script_spelled_out()
    ensures
        greeting_script(GREETING_COUNT as nat) == seq![
            FrameView::Ping(seq![1u8, 2u8, 3u8]),
            FrameView::Text("Hi 1 times!"@),
            FrameView::Text("Hi 2 times!"@),
            FrameView::Text("Hi 3 times!"@),
            FrameView::Text("Hi 4 times!"@),
            FrameView::Text("Hi 5 times!"@),
        ],
{
    reveal_strlit("Hi ");
    reveal_strlit(" times!");
    reveal_strlit("Hi 1 times!");
    reveal_strlit("Hi 2 times!");
    reveal_strlit("Hi 3 times!");
    reveal_strlit("Hi 4 times!");
    reveal_strlit("Hi 5 times!");
    assert(greeting_text(1) =~= "Hi 1 times!"@);
    assert(greeting_text(2) =~= "Hi 2 times!"@);
    assert(greeting_text(3) =~= "Hi 3 times!"@);
    assert(greeting_text(4) =~= "Hi 4 times!"@);
    assert(greeting_text(5) =~= "Hi 5 times!"@);
    reveal_with_fuel(greeting_script, 6);
}

/// A close frame is never answered with a frame: whatever state the session
/// is in, it ends.
pub proof fn lemma_close_is_not_answered(state: SessionState, close: FrameView)
    requires
        close is Close,
    ensures
        session_step(state, EventView::Received(close)).0 == SessionState::Terminated,
        session_step(state, EventView::Received(close)).1.action == ActionView::Stop,
{
}

/// No frame that arrives is sent back: the one frame that a session writes
/// in answer to an arrival is the first greeting, whatever arrived.
pub proof fn lemma_nothing_is_echoed(state: SessionState, arrived: FrameView)
    ensures
        match session_step(state, EventView::Received(arrived)).1.action {
            ActionView::Send(frame) => frame == greeting_frame_view(1),
            ActionView::Stop => true,
            _ => false,
        },
{
}

/// While both units run, the first to finish makes the supervisor ask for
/// the other to be cancelled, and the step after that ends the session,
/// whatever it is fed.
pub proof fn lemma_first_finisher_cancels_other(first: Unit, outcome: OutcomeView, next: EventView)
    ensures
        session_step(SessionState::Racing, EventView::Finished(first, outcome)).0
            == SessionState::Resolved,
        session_step(SessionState::Racing, EventView::Finished(first, outcome)).1.action
            == ActionView::Cancel(rival_of(first)),
        rival_of(first) != first,
        session_step(SessionState::Resolved, next).0 == SessionState::Terminated,
        session_step(SessionState::Resolved, next).1.action == ActionView::Stop,
{
}

/// What every run keeps true of cancellations: none before a unit has
/// finished, exactly one from then on.
proof fn lemma_cancels_track_state(events: Seq<EventView>)
    ensures
        session_after(events).phase().rank() < Phase::Duplex.rank() ==> session_cancels(events).len()
            == 0,
        session_after(events) == SessionState::Racing ==> session_cancels(events).len() == 0,
        session_after(events) == SessionState::Resolved ==> session_cancels(events).len() == 1,
        session_cancels(events).len() <= 1,
    decreases events.len(),
{
    if events.len() > 0 {
        lemma_cancels_track_state(events.drop_last());
    }
}

/// In all its run a session asks for at most one cancellation.
pub proof fn lemma_at_most_one_cancel(events: Seq<EventView>)
    ensures
        session_cancels(events).len() <= 1,
{
    lemma_cancels_track_state(events);
}

/// A session in which a unit finishes asks for exactly one cancellation in
/// all its run, that of the other unit, and is over two events after the
/// unit finished.
pub proof fn lemma_race_is_resolved_once(events: Seq<EventView>, k: int)
    requires
        0 <= k < events.len(),
        session_after(events.take(k)) == SessionState::Racing,
        events[k] is Finished,
    ensures
        session_cancels(events) == seq![rival_of(events[k]->Finished_0)],
        k + 2 <= events.len() ==> session_after(events.take(k + 2)) == SessionState::Terminated,
{
    lemma_cancels_track_state(events.take(k));
    assert(events.take(k + 1).drop_last() =~= events.take(k));
    assert(session_after(events.take(k + 1)) == SessionState::Resolved);
    lemma_cancels_stay(events, k + 1);
    if k + 2 <= events.len() {
        assert(events.take(k + 2).drop_last() =~= events.take(k + 1));
    }
}

/// Once a cancellation is asked for, no other follows.
proof fn lemma_cancels_stay(events: Seq<EventView>, k: int)
    requires
        0 <= k <= events.len(),
        session_cancels(events.take(k)).len() == 1,
    ensures
        session_cancels(events) == session_cancels(events.take(k)),
    decreases events.len() - k,
{
    if k < events.len() {
        let earlier = events.drop_last();
        assert(earlier.take(k) =~= events.take(k));
        lemma_cancels_stay(earlier, k);
        lemma_cancels_track_state(events);
    } else {
        assert(events.take(k) =~= events);
    }
}

} // verus!
