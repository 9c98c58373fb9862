//! A relay between a browser client that submits audio and a realtime speech
//! service: the protocol texts exchanged with both parties, the transcript
//! that accumulates while the service answers, and the decisions that each
//! incoming message calls for. The sockets themselves are driven by the caller.
use vstd::prelude::*;

pub mod client;
pub mod config;
pub mod error;
pub mod exchange;
pub mod json;
pub mod messages;
pub mod upstream;
