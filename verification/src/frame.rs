//! Frames, the unit of exchange, and how an inbound frame is classified.

use core::ops::ControlFlow;
use vstd::prelude::*;

verus! {

/// The code and text that a close frame may carry.
#[derive(Clone, Debug, PartialEq, Eq)]
pub struct CloseReason {
    pub code: u16,
    pub text: String,
}

/// What a `CloseReason` is, as mathematics.
pub struct CloseReasonView {
    pub code: u16,
    pub text: Seq<char>,
}

impl View for CloseReason {
    type V = CloseReasonView;

    open spec fn view(&self) -> CloseReasonView {
        CloseReasonView { code: self.code, text: self.text@ }
    }
}

/// One frame as it travels over the session.
#[derive(Clone, Debug, PartialEq, Eq)]
pub enum Frame {
    Text(String),
    Binary(Vec<u8>),
    Ping(Vec<u8>),
    Pong(Vec<u8>),
    Close(Option<CloseReason>),
}

/// What a `Frame` is, as mathematics.
pub enum FrameView {
    Text(Seq<char>),
    Binary(Seq<u8>),
    Ping(Seq<u8>),
    Pong(Seq<u8>),
    Close(Option<CloseReasonView>),
}

impl View for Frame {
    type V = FrameView;

    open spec fn view(&self) -> FrameView {
        match self {
            Frame::Text(t) => FrameView::Text(t@),
            Frame::Binary(d) => FrameView::Binary(d@),
            Frame::Ping(d) => FrameView::Ping(d@),
            Frame::Pong(d) => FrameView::Pong(d@),
            Frame::Close(c) => FrameView::Close(
                match c {
                    Some(r) => Some(r@),
                    None => None,
                },
            ),
        }
    }
}

/// The verdict on an inbound frame: a close frame breaks, every other frame
/// lets the reader continue.
pub open spec fn verdict(frame: FrameView) -> ControlFlow<(), ()> {
    match frame {
        FrameView::Close(_) => ControlFlow::Break(()),
        _ => ControlFlow::Continue(()),
    }
}

/// Classifies an inbound frame.
pub fn process_message(msg: &Frame) -> (flow: ControlFlow<(), ()>)
    ensures
        flow == verdict(msg@),
{
    match msg {
        Frame::Close(_) => ControlFlow::Break(()),
        _ => ControlFlow::Continue(()),
    }
}

/// Whether two frames are of the same kind.
pub open spec fn same_kind(a: FrameView, b: FrameView) -> bool {
    ||| a is Text && b is Text
    ||| a is Binary && b is Binary
    ||| a is Ping && b is Ping
    ||| a is Pong && b is Pong
    ||| a is Close && b is Close
}

/// The verdict on a frame depends on its kind alone: two frames of the same
/// kind get the same verdict, whatever they carry.
pub proof fn lemma_verdict_by_kind(a: FrameView, b: FrameView)
    requires
        same_kind(a, b),
    ensures
        verdict(a) == verdict(b),
{
}

/// A frame breaks if and only if it is a close frame.
pub proof fn lemma_only_close_breaks(frame: FrameView)
    ensures
        verdict(frame) is Break <==> frame is Close,
        verdict(frame) is Continue <==> !(frame is Close),
{
}

} // verus!
