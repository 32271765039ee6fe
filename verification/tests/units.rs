use ws_session::frame::{CloseReason, Frame};
use ws_session::notice::Notice;
use ws_session::receiver::{Receiver, ReceiverState};
use ws_session::sender::{Sender, SenderState};
use ws_session::step::{Action, Event, Step};

fn quiet(action: Action) -> Step {
    Step { notice: None, action }
}

fn message(i: u64) -> Frame {
    Frame::Text(format!("Server message {}...", i))
}

fn goodbye() -> Frame {
    Frame::Close(Some(CloseReason { code: 1000, text: String::from("Goodbye") }))
}

/// Runs a sending unit whose first `written` writes succeed, up to the point
/// where it has asked for the next frame.
fn sender_after_writes(written: u64) -> (Sender, Step) {
    let (mut sender, mut step) = Sender::start();
    for _ in 0..written {
        (sender, step) = sender.step(Event::Sent);
        assert_eq!(step, quiet(Action::Pause(300)));
        (sender, step) = sender.step(Event::Elapsed);
    }
    (sender, step)
}

#[test]
fn sender_starts_with_the_first_message() {
    let (sender, step) = Sender::start();
    assert_eq!(sender.state(), SenderState::Sending(0));
    assert_eq!(step, quiet(Action::Send(message(0))));
}

#[test]
fn sender_rests_after_each_message() {
    let (sender, _) = Sender::start();
    let (sender, step) = sender.step(Event::Sent);
    assert_eq!(sender.state(), SenderState::Pausing(1));
    assert_eq!(step, quiet(Action::Pause(300)));
    let (sender, step) = sender.step(Event::Elapsed);
    assert_eq!(sender.state(), SenderState::Sending(1));
    assert_eq!(step, quiet(Action::Send(message(1))));
}

#[test]
fn undisturbed_sender_writes_the_whole_script() {
    let (mut sender, mut step) = Sender::start();
    let mut frames = Vec::new();
    let mut pauses = 0;
    let mut notices = Vec::new();
    let count = loop {
        if let Some(notice) = step.notice {
            notices.push(notice);
        }
        let event = match step.action {
            Action::Send(frame) => {
                frames.push(frame);
                Event::Sent
            }
            Action::Pause(ms) => {
                assert_eq!(ms, 300);
                pauses += 1;
                Event::Elapsed
            }
            Action::Finish(count) => break count,
            other => panic!("a sending unit asked for {:?}", other),
        };
        (sender, step) = sender.step(event);
    };
    assert_eq!(count, 20);
    assert_eq!(pauses, 20);
    assert_eq!(frames.len(), 21);
    for i in 0..20u64 {
        assert_eq!(frames[i as usize], message(i));
    }
    assert_eq!(frames[0], Frame::Text(String::from("Server message 0...")));
    assert_eq!(frames[19], Frame::Text(String::from("Server message 19...")));
    assert_eq!(frames[20], goodbye());
    assert_eq!(notices, vec![Notice::Closing]);
    assert_eq!(sender.state(), SenderState::Done(20));
}

#[test]
fn sender_announces_the_closing_frame() {
    let (sender, step) = sender_after_writes(20);
    assert_eq!(sender.state(), SenderState::Closing);
    assert_eq!(step, Step { notice: Some(Notice::Closing), action: Action::Send(goodbye()) });
}

#[test]
fn sender_keeps_its_count_when_the_closing_frame_fails() {
    let (sender, _) = sender_after_writes(20);
    let (sender, step) = sender.step(Event::SendFailed(String::from("broken pipe")));
    assert_eq!(sender.state(), SenderState::Done(20));
    assert_eq!(
        step,
        Step {
            notice: Some(Notice::CloseNotSent(String::from("broken pipe"))),
            action: Action::Finish(20),
        }
    );
}

#[test]
fn sender_finishes_quietly_when_the_closing_frame_is_written() {
    let (sender, _) = sender_after_writes(20);
    let (sender, step) = sender.step(Event::Sent);
    assert_eq!(sender.state(), SenderState::Done(20));
    assert_eq!(step, quiet(Action::Finish(20)));
}

#[test]
fn sender_reports_zero_when_the_first_write_fails() {
    let (sender, _) = Sender::start();
    let (sender, step) = sender.step(Event::SendFailed(String::from("gone")));
    assert_eq!(sender.state(), SenderState::Done(0));
    assert_eq!(step, quiet(Action::Finish(0)));
}

#[test]
fn sender_reports_what_was_written_before_a_failure() {
    for written in [1u64, 7, 19] {
        let (sender, step) = sender_after_writes(written);
        assert_eq!(step, quiet(Action::Send(message(written))));
        let (sender, step) = sender.step(Event::SendFailed(String::from("reset")));
        assert_eq!(sender.state(), SenderState::Done(written));
        assert_eq!(step, quiet(Action::Finish(written)));
    }
}

#[test]
fn sender_ends_on_an_event_it_did_not_ask_for() {
    let (sender, _) = sender_after_writes(3);
    let (sender, step) = sender.step(Event::Elapsed);
    assert_eq!(sender.state(), SenderState::Done(3));
    assert_eq!(step, quiet(Action::Finish(3)));

    let (sender, _) = sender_after_writes(3);
    let (sender, _) = sender.step(Event::Sent);
    let (sender, step) = sender.step(Event::Sent);
    assert_eq!(sender.state(), SenderState::Done(4));
    assert_eq!(step, quiet(Action::Finish(4)));

    let (sender, _) = sender_after_writes(20);
    let (sender, step) = sender.step(Event::Elapsed);
    assert_eq!(sender.state(), SenderState::Done(20));
    assert_eq!(step, quiet(Action::Finish(20)));
}

#[test]
fn sender_does_not_answer_a_frame() {
    let (sender, _) = sender_after_writes(2);
    let (sender, step) = sender.step(Event::Received(Frame::Close(None)));
    assert_eq!(sender.state(), SenderState::Done(2));
    assert_eq!(step, quiet(Action::Finish(2)));
}

#[test]
fn finished_sender_repeats_its_count() {
    let (sender, _) = sender_after_writes(5);
    let (sender, _) = sender.step(Event::SendFailed(String::new()));
    let (sender, step) = sender.step(Event::Sent);
    assert_eq!(step, quiet(Action::Finish(5)));
    let (sender, step) = sender.step(Event::Elapsed);
    assert_eq!(step, quiet(Action::Finish(5)));
    assert_eq!(sender.state(), SenderState::Done(5));
}

#[test]
fn receiver_starts_by_listening() {
    let (receiver, step) = Receiver::start();
    assert_eq!(receiver.state(), ReceiverState::Listening(0));
    assert_eq!(step, quiet(Action::Receive));
}

#[test]
fn receiver_counts_and_reports_each_frame() {
    let (receiver, _) = Receiver::start();
    let (receiver, step) = receiver.step(Event::Received(Frame::Text(String::from("one"))));
    assert_eq!(receiver.state(), ReceiverState::Listening(1));
    assert_eq!(
        step,
        Step { notice: Some(Notice::Text(String::from("one"))), action: Action::Receive }
    );
    let (receiver, step) = receiver.step(Event::Received(Frame::Binary(vec![1, 2])));
    assert_eq!(receiver.state(), ReceiverState::Listening(2));
    assert_eq!(
        step,
        Step { notice: Some(Notice::Binary { len: 2, data: vec![1, 2] }), action: Action::Receive }
    );
    let (receiver, step) = receiver.step(Event::Received(Frame::Ping(vec![9])));
    assert_eq!(receiver.state(), ReceiverState::Listening(3));
    assert_eq!(step, quiet(Action::Receive));
    let (receiver, step) = receiver.step(Event::Received(Frame::Pong(vec![9])));
    assert_eq!(receiver.state(), ReceiverState::Listening(4));
    assert_eq!(step, Step { notice: Some(Notice::Pong(vec![9])), action: Action::Receive });
}

#[test]
fn receiver_ends_on_close_and_counts_it() {
    let (receiver, _) = Receiver::start();
    let (receiver, _) = receiver.step(Event::Received(Frame::Text(String::from("a"))));
    let (receiver, _) = receiver.step(Event::Received(Frame::Text(String::from("b"))));
    let close = Frame::Close(Some(CloseReason { code: 1000, text: String::from("done") }));
    let (receiver, step) = receiver.step(Event::Received(close));
    assert_eq!(receiver.state(), ReceiverState::Done(3));
    assert_eq!(
        step,
        Step {
            notice: Some(Notice::Close { code: 1000, reason: String::from("done") }),
            action: Action::Finish(3),
        }
    );
}

#[test]
fn receiver_whose_first_frame_is_close_reports_one() {
    let (receiver, _) = Receiver::start();
    let (receiver, step) = receiver.step(Event::Received(Frame::Close(None)));
    assert_eq!(receiver.state(), ReceiverState::Done(1));
    assert_eq!(
        step,
        Step { notice: Some(Notice::CloseWithoutReason), action: Action::Finish(1) }
    );
}

#[test]
fn receiver_ends_when_the_channel_yields_nothing() {
    let (receiver, _) = Receiver::start();
    let (receiver, step) = receiver.step(Event::Disconnected);
    assert_eq!(receiver.state(), ReceiverState::Done(0));
    assert_eq!(step, Step { notice: Some(Notice::Disconnected), action: Action::Finish(0) });

    let (receiver, _) = Receiver::start();
    let (receiver, _) = receiver.step(Event::Received(Frame::Ping(Vec::new())));
    let (receiver, _) = receiver.step(Event::Received(Frame::Pong(Vec::new())));
    let (receiver, step) = receiver.step(Event::Disconnected);
    assert_eq!(receiver.state(), ReceiverState::Done(2));
    assert_eq!(step, Step { notice: Some(Notice::Disconnected), action: Action::Finish(2) });
}

#[test]
fn receiver_ends_on_an_event_it_did_not_ask_for() {
    for event in [Event::Sent, Event::SendFailed(String::new()), Event::Elapsed, Event::Cancelled] {
        let (receiver, _) = Receiver::start();
        let (receiver, _) = receiver.step(Event::Received(Frame::Text(String::new())));
        let (receiver, step) = receiver.step(event);
        assert_eq!(receiver.state(), ReceiverState::Done(1));
        assert_eq!(step, quiet(Action::Finish(1)));
    }
}

#[test]
fn receiver_never_asks_to_write() {
    let frames = vec![
        Frame::Text(String::from("echo me")),
        Frame::Binary(vec![1, 2, 3]),
        Frame::Ping(vec![4]),
        Frame::Pong(vec![5]),
        Frame::Close(None),
        Frame::Text(String::from("after close")),
    ];
    let (mut receiver, mut step) = Receiver::start();
    for frame in frames {
        assert!(matches!(step.action, Action::Receive | Action::Finish(_)));
        (receiver, step) = receiver.step(Event::Received(frame));
    }
    assert!(matches!(step.action, Action::Finish(_)));
}

#[test]
fn finished_receiver_repeats_its_count() {
    let (receiver, _) = Receiver::start();
    let (receiver, _) = receiver.step(Event::Received(Frame::Close(None)));
    let (receiver, step) = receiver.step(Event::Received(Frame::Text(String::from("late"))));
    assert_eq!(receiver.state(), ReceiverState::Done(1));
    assert_eq!(step, quiet(Action::Finish(1)));
    let (receiver, step) = receiver.step(Event::Disconnected);
    assert_eq!(receiver.state(), ReceiverState::Done(1));
    assert_eq!(step, quiet(Action::Finish(1)));
}

#[test]
fn receiver_counts_a_long_run() {
    let (mut receiver, mut step) = Receiver::start();
    for i in 0..1000u64 {
        assert_eq!(receiver.state(), ReceiverState::Listening(i));
        assert_eq!(step.action, Action::Receive);
        (receiver, step) = receiver.step(Event::Received(Frame::Binary(vec![0; 3])));
    }
    let (receiver, step) = receiver.step(Event::Disconnected);
    assert_eq!(receiver.state(), ReceiverState::Done(1000));
    assert_eq!(step.action, Action::Finish(1000));
}
