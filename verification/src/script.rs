//! The fixed script of a session: how many frames each part sends, how long
//! it rests between them, and the frames themselves.

use crate::frame::{CloseReason, CloseReasonView, Frame, FrameView};
use crate::text::{
    farewell, farewell_text, greeting, greeting_text, server_message, server_message_text,
};
use vstd::prelude::*;

verus! {

/// How many greetings the session sends before it goes duplex.
pub const GREETING_COUNT: u64 = 5;

/// How long the session rests after each greeting, in milliseconds.
pub const GREETING_PAUSE_MS: u64 = 100;

/// How many messages the sending unit sends before it closes.
pub const MESSAGE_COUNT: u64 = 20;

/// How long the sending unit rests after each message, in milliseconds.
pub const MESSAGE_PAUSE_MS: u64 = 300;

/// The close code for a normal closure.
pub const CLOSE_NORMAL: u16 = 1000;

/// The payload of the opening ping.
pub open spec fn ping_payload() -> Seq<u8> {
    seq![1u8, 2u8, 3u8]
}

/// The opening ping.
pub open spec fn ping_frame_view() -> FrameView {
    FrameView::Ping(ping_payload())
}

/// The greeting frame with the given number.
pub open spec fn greeting_frame_view(i: nat) -> FrameView {
    FrameView::Text(greeting_text(i))
}

/// The message frame with the given index.
pub open spec fn message_frame_view(i: nat) -> FrameView {
    FrameView::Text(server_message_text(i))
}

/// The frame with which the sending unit closes the session.
pub open spec fn farewell_frame_view() -> FrameView {
    FrameView::Close(Some(CloseReasonView { code: CLOSE_NORMAL, text: farewell_text() }))
}

/// Reads `axum::extract::ws::close_code::NORMAL`, the code that axum names
/// for a normal closure. Trusted: the constant is 1000.
#[verifier::external_body]
fn normal_close_code() -> (code: u16)
    ensures
        code == 1000,
{
    axum::extract::ws::close_code::NORMAL
}

/// Builds the opening ping.
pub fn ping_frame() -> (frame: Frame)
    ensures
        frame@ == ping_frame_view(),
{
    let payload: Vec<u8> = vec![1u8, 2u8, 3u8];
    assert(payload@ =~= ping_payload());
    Frame::Ping(payload)
}

/// Builds the greeting frame with the given number.
pub fn greeting_frame(i: u64) -> (frame: Frame)
    ensures
        frame@ == greeting_frame_view(i as nat),
{
    Frame::Text(greeting(i))
}

/// Builds the message frame with the given index.
pub fn message_frame(i: u64) -> (frame: Frame)
    ensures
        frame@ == message_frame_view(i as nat),
{
    Frame::Text(server_message(i))
}

/// Builds the frame with which the sending unit closes the session.
pub fn farewell_frame() -> (frame: Frame)
    ensures
        frame@ == farewell_frame_view(),
{
    Frame::Close(Some(CloseReason { code: normal_close_code(), text: farewell() }))
}

} // verus!
