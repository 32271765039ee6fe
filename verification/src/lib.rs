//! The decisions of one websocket session, kept apart from the socket.
//!
//! A session pings its peer, waits for any reply, sends a short scripted
//! greeting, and then runs a sending unit and a receiving unit side by side
//! until one of them finishes. Nothing in this crate touches a socket or a
//! timer: each machine here is a function from a state and an event to the
//! next state and the action to perform, and the caller performs it.

pub mod frame;
pub mod notice;
pub mod receiver;
pub mod receiver_run;
pub mod script;
pub mod sender;
pub mod sender_run;
pub mod session;
pub mod session_run;
pub mod step;
pub mod supervisor;
pub mod text;
