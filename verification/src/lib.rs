//! Core of a message-queue-to-chat relay.
//!
//! One inbound event from a message-queue feed fans out to one or more
//! destination conversations, optionally with an attached image, reliably
//! despite transient delivery failures and transport disconnects. This crate
//! holds the relay's logic: the frame decoder, the command router, the
//! delivery engine's retry and degradation decisions, the queue listener's
//! reconnect state machine, and the event dispatcher. The blocking transport
//! and the chat platform client live outside, behind the thin trusted calls
//! in `json` and the decision functions the surrounding program drives.

pub mod decode;
pub mod deliver;
pub mod dispatch;
pub mod json;
pub mod listener;
pub mod route;

