use std::ops::ControlFlow;
use ws_session::frame::{process_message, CloseReason, Frame};
use ws_session::notice::{connected, describe, Notice};
use ws_session::script::{
    farewell_frame, greeting_frame, message_frame, ping_frame, CLOSE_NORMAL, GREETING_COUNT,
    GREETING_PAUSE_MS, MESSAGE_COUNT, MESSAGE_PAUSE_MS,
};
use ws_session::text::{farewell, greeting, push_decimal, server_message};

fn decimal(n: u64) -> String {
    let mut out = String::new();
    push_decimal(&mut out, n);
    out
}

#[test]
fn text_frame_continues() {
    let frame = Frame::Text(String::from("hello"));
    assert_eq!(process_message(&frame), ControlFlow::Continue(()));
}

#[test]
fn binary_frame_continues() {
    let frame = Frame::Binary(vec![0, 255, 7]);
    assert_eq!(process_message(&frame), ControlFlow::Continue(()));
}

#[test]
fn ping_frame_continues() {
    let frame = Frame::Ping(vec![1, 2, 3]);
    assert_eq!(process_message(&frame), ControlFlow::Continue(()));
}

#[test]
fn pong_frame_continues() {
    let frame = Frame::Pong(vec![1, 2, 3]);
    assert_eq!(process_message(&frame), ControlFlow::Continue(()));
}

#[test]
fn close_frame_with_reason_breaks() {
    let frame = Frame::Close(Some(CloseReason { code: 1001, text: String::from("away") }));
    assert_eq!(process_message(&frame), ControlFlow::Break(()));
}

#[test]
fn close_frame_without_reason_breaks() {
    assert_eq!(process_message(&Frame::Close(None)), ControlFlow::Break(()));
}

#[test]
fn empty_frames_continue() {
    assert!(process_message(&Frame::Text(String::new())).is_continue());
    assert!(process_message(&Frame::Binary(Vec::new())).is_continue());
    assert!(process_message(&Frame::Ping(Vec::new())).is_continue());
    assert!(process_message(&Frame::Pong(Vec::new())).is_continue());
}

#[test]
fn verdict_is_the_same_each_time() {
    let frames = vec![
        Frame::Text(String::from("a")),
        Frame::Binary(vec![1]),
        Frame::Ping(vec![2]),
        Frame::Pong(vec![3]),
        Frame::Close(None),
        Frame::Close(Some(CloseReason { code: 1000, text: String::from("bye") })),
    ];
    for frame in frames.iter() {
        let first = process_message(frame);
        let second = process_message(frame);
        assert_eq!(first, second);
        assert_eq!(first, process_message(&frame.clone()));
    }
}

#[test]
fn verdict_goes_by_kind_not_by_content() {
    let short = Frame::Text(String::from("x"));
    let long = Frame::Text(String::from("a much longer text, with a close in it: close"));
    assert_eq!(process_message(&short), process_message(&long));
    let plain = Frame::Close(None);
    let reasoned = Frame::Close(Some(CloseReason { code: 4000, text: String::new() }));
    assert_eq!(process_message(&plain), process_message(&reasoned));
}

#[test]
fn text_frame_is_reported_with_its_content() {
    let notice = describe(Frame::Text(String::from("hello")));
    assert_eq!(notice, Some(Notice::Text(String::from("hello"))));
}

#[test]
fn binary_frame_is_reported_with_its_length() {
    let notice = describe(Frame::Binary(vec![9, 8, 7, 6]));
    assert_eq!(notice, Some(Notice::Binary { len: 4, data: vec![9, 8, 7, 6] }));
}

#[test]
fn empty_binary_frame_is_reported_with_length_zero() {
    let notice = describe(Frame::Binary(Vec::new()));
    assert_eq!(notice, Some(Notice::Binary { len: 0, data: Vec::new() }));
}

#[test]
fn ping_frame_is_not_reported() {
    assert_eq!(describe(Frame::Ping(vec![1, 2, 3])), None);
}

#[test]
fn pong_frame_is_reported_with_its_payload() {
    assert_eq!(describe(Frame::Pong(vec![1, 2, 3])), Some(Notice::Pong(vec![1, 2, 3])));
}

#[test]
fn close_frame_is_reported_with_code_and_reason() {
    let frame = Frame::Close(Some(CloseReason { code: 1001, text: String::from("going away") }));
    assert_eq!(
        describe(frame),
        Some(Notice::Close { code: 1001, reason: String::from("going away") })
    );
}

#[test]
fn close_frame_without_reason_is_reported_as_such() {
    assert_eq!(describe(Frame::Close(None)), Some(Notice::CloseWithoutReason));
}

#[test]
fn client_is_reported_by_its_user_agent() {
    assert_eq!(
        connected(Some(String::from("curl/8.0"))),
        Notice::Connected(String::from("curl/8.0"))
    );
}

#[test]
fn client_without_user_agent_gets_the_fixed_label() {
    assert_eq!(connected(None), Notice::Connected(String::from("Unknown browser")));
}

#[test]
fn decimal_of_single_digits() {
    let expected = ["0", "1", "2", "3", "4", "5", "6", "7", "8", "9"];
    for n in 0..10u64 {
        assert_eq!(decimal(n), expected[n as usize]);
    }
}

#[test]
fn decimal_of_larger_numbers() {
    assert_eq!(decimal(10), "10");
    assert_eq!(decimal(19), "19");
    assert_eq!(decimal(100), "100");
    assert_eq!(decimal(1000), "1000");
    assert_eq!(decimal(12345), "12345");
    assert_eq!(decimal(9007199254740993), "9007199254740993");
    assert_eq!(decimal(u64::MAX), "18446744073709551615");
}

#[test]
fn decimal_agrees_with_the_standard_library() {
    let mut n: u64 = 1;
    for _ in 0..64 {
        assert_eq!(decimal(n), n.to_string());
        assert_eq!(decimal(n - 1), (n - 1).to_string());
        n = n.wrapping_mul(3).wrapping_add(7);
    }
}

#[test]
fn push_decimal_appends_to_what_is_there() {
    let mut out = String::from("n = ");
    push_decimal(&mut out, 42);
    assert_eq!(out, "n = 42");
    push_decimal(&mut out, 0);
    assert_eq!(out, "n = 420");
}

#[test]
fn greetings_read_as_scripted() {
    assert_eq!(greeting(1), "Hi 1 times!");
    assert_eq!(greeting(2), "Hi 2 times!");
    assert_eq!(greeting(3), "Hi 3 times!");
    assert_eq!(greeting(4), "Hi 4 times!");
    assert_eq!(greeting(5), "Hi 5 times!");
}

#[test]
fn server_messages_read_as_scripted() {
    assert_eq!(server_message(0), "Server message 0...");
    assert_eq!(server_message(1), "Server message 1...");
    assert_eq!(server_message(9), "Server message 9...");
    assert_eq!(server_message(10), "Server message 10...");
    assert_eq!(server_message(19), "Server message 19...");
}

#[test]
fn farewell_reads_goodbye() {
    assert_eq!(farewell(), "Goodbye");
}

#[test]
fn ping_frame_carries_three_bytes() {
    assert_eq!(ping_frame(), Frame::Ping(vec![1, 2, 3]));
}

#[test]
fn greeting_frame_is_a_text_frame() {
    assert_eq!(greeting_frame(3), Frame::Text(String::from("Hi 3 times!")));
}

#[test]
fn message_frame_is_a_text_frame() {
    assert_eq!(message_frame(12), Frame::Text(String::from("Server message 12...")));
}

#[test]
fn farewell_frame_closes_normally() {
    assert_eq!(
        farewell_frame(),
        Frame::Close(Some(CloseReason { code: 1000, text: String::from("Goodbye") }))
    );
}

#[test]
fn script_constants() {
    assert_eq!(GREETING_COUNT, 5);
    assert_eq!(GREETING_PAUSE_MS, 100);
    assert_eq!(MESSAGE_COUNT, 20);
    assert_eq!(MESSAGE_PAUSE_MS, 300);
    assert_eq!(CLOSE_NORMAL, 1000);
}
