//! The verified core of `karakuri-syphon`, a Syphon output sink for the Karakuri
//! visual performance system.
//!
//! What the program decides about its clients and its host is decided here, on plain
//! values, and proved against its contract: which client a port message adds or drops,
//! what a published surface sends to whom and in which order, who is dropped for it,
//! what the host's messages do to the session.
//!
//! The program around it opens the ports, carries out what it is told one after the
//! other, hands the answers back in that order, reads lines and the clock, turns lines
//! into messages and messages into lines, and publishes each frame that the session
//! hands on.

pub mod announce;
pub mod clients;
pub mod line;
pub mod message;
pub mod options;
pub mod protocol;
pub mod server;
pub mod server_laws;
pub mod session;
pub mod session_laws;
pub mod unsupported;
