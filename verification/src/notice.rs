//! What a session has to tell its operator. Notices are advisory: none of
//! them changes what a machine does next.

use crate::frame::{CloseReason, Frame, FrameView};
use vstd::prelude::*;
use vstd::string::StringExecFns;

verus! {

/// One line for the operator's log, as data. The caller renders it.
#[derive(Clone, Debug, PartialEq, Eq)]
pub enum Notice {
    /// A client connected; the text names its user agent.
    Connected(String),
    /// The opening ping was written.
    Pinged,
    /// The opening ping could not be written.
    PingFailed,
    /// The peer went away without closing.
    Disconnected,
    /// The peer sent a text frame with this content.
    Text(String),
    /// The peer sent a binary frame of `len` bytes.
    Binary { len: usize, data: Vec<u8> },
    /// The peer sent a pong with this payload.
    Pong(Vec<u8>),
    /// The peer closed and said why.
    Close { code: u16, reason: String },
    /// The peer closed without a reason.
    CloseWithoutReason,
    /// The sender is about to write its closing frame.
    Closing,
    /// The closing frame could not be written; the text says why.
    CloseNotSent(String),
    /// The sender finished first, after this many messages.
    MessagesSent(u64),
    /// The sender finished first, abnormally; the text says how.
    SenderFailed(String),
    /// The receiver finished first, after this many frames.
    MessagesReceived(u64),
    /// The receiver finished first, abnormally; the text says how.
    ReceiverFailed(String),
    /// The session is over.
    Ended,
}

/// What a `Notice` is, as mathematics.
pub enum NoticeView {
    Connected(Seq<char>),
    Pinged,
    PingFailed,
    Disconnected,
    Text(Seq<char>),
    Binary { len: nat, data: Seq<u8> },
    Pong(Seq<u8>),
    Close { code: u16, reason: Seq<char> },
    CloseWithoutReason,
    Closing,
    CloseNotSent(Seq<char>),
    MessagesSent(u64),
    SenderFailed(Seq<char>),
    MessagesReceived(u64),
    ReceiverFailed(Seq<char>),
    Ended,
}

impl View for Notice {
    type V = NoticeView;

    open spec fn view(&self) -> NoticeView {
        match self {
            Notice::Connected(agent) => NoticeView::Connected(agent@),
            Notice::Pinged => NoticeView::Pinged,
            Notice::PingFailed => NoticeView::PingFailed,
            Notice::Disconnected => NoticeView::Disconnected,
            Notice::Text(t) => NoticeView::Text(t@),
            Notice::Binary { len, data } => NoticeView::Binary { len: *len as nat, data: data@ },
            Notice::Pong(d) => NoticeView::Pong(d@),
            Notice::Close { code, reason } => NoticeView::Close { code: *code, reason: reason@ },
            Notice::CloseWithoutReason => NoticeView::CloseWithoutReason,
            Notice::Closing => NoticeView::Closing,
            Notice::CloseNotSent(why) => NoticeView::CloseNotSent(why@),
            Notice::MessagesSent(n) => NoticeView::MessagesSent(*n),
            Notice::SenderFailed(how) => NoticeView::SenderFailed(how@),
            Notice::MessagesReceived(n) => NoticeView::MessagesReceived(*n),
            Notice::ReceiverFailed(how) => NoticeView::ReceiverFailed(how@),
            Notice::Ended => NoticeView::Ended,
        }
    }
}

/// The view of an optional notice.
pub open spec fn notice_view(notice: Option<Notice>) -> Option<NoticeView> {
    match notice {
        Some(n) => Some(n@),
        None => None,
    }
}

/// The notice that an inbound frame gives rise to. Text, binary and pong
/// frames are reported with their content, a binary frame also with its
/// length; a close frame with its code and reason where it has them; a ping
/// is answered by the transport and not reported at all.
pub open spec fn frame_notice(frame: FrameView) -> Option<NoticeView> {
    match frame {
        FrameView::Text(t) => Some(NoticeView::Text(t)),
        FrameView::Binary(d) => Some(NoticeView::Binary { len: d.len(), data: d }),
        FrameView::Ping(_) => None,
        FrameView::Pong(d) => Some(NoticeView::Pong(d)),
        FrameView::Close(Some(r)) => Some(NoticeView::Close { code: r.code, reason: r.text }),
        FrameView::Close(None) => Some(NoticeView::CloseWithoutReason),
    }
}

/// The name under which a client is reported: its user agent where it gave
/// one, and a fixed label where it did not.
pub open spec fn agent_label(user_agent: Option<Seq<char>>) -> Seq<char> {
    match user_agent {
        Some(agent) => agent,
        None => "Unknown browser"@,
    }
}

/// The notice that reports a new client.
pub fn connected(user_agent: Option<String>) -> (notice: Notice)
    ensures
        notice@ == NoticeView::Connected(
            agent_label(
                match user_agent {
                    Some(agent) => Some(agent@),
                    None => None,
                },
            ),
        ),
{
    match user_agent {
        Some(agent) => Notice::Connected(agent),
        None => Notice::Connected(String::from_str("Unknown browser")),
    }
}

/// Turns an inbound frame into the notice that reports it.
pub fn describe(frame: Frame) -> (notice: Option<Notice>)
    ensures
        notice_view(notice) == frame_notice(frame@),
{
    match frame {
        Frame::Text(t) => Some(Notice::Text(t)),
        Frame::Binary(d) => {
            let len = d.len();
            Some(Notice::Binary { len, data: d })
        },
        Frame::Ping(_) => None,
        Frame::Pong(d) => Some(Notice::Pong(d)),
        Frame::Close(Some(r)) => {
            let CloseReason { code, text } = r;
            Some(Notice::Close { code, reason: text })
        },
        Frame::Close(None) => Some(Notice::CloseWithoutReason),
    }
}

} // verus!
