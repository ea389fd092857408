//! A request/reply command handler for a publish/subscribe message bus:
//! the rules that turn one inbound text command into one reply, and what is
//! computed around them for each message and at startup.

pub mod config;
pub mod dispatch;
pub mod message;
pub mod text;
