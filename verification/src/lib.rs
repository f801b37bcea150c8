//! Verified core of an async wrapper for WebRTC data channels.
//!
//! The library holds the parts of a data-channel connection that decide
//! something: the signalling messages exchanged with the remote peer, the
//! offer/answer negotiation of the dialing and of the accepting side, and the
//! buffering of inbound bytes behind a stream reader. The browser objects
//! themselves are driven by the code around the library, which performs the
//! actions the negotiation asks for and hands back what happened.
pub mod config;
pub mod negotiation;
pub mod signal;

pub use config::RtcConfig;
pub use negotiation::{Action, ConnectionError, Created, Event, Negotiation, Phase, Role};
pub use signal::{candidate_announcement, candidate_message, IceCandidate, Message, SdpType, SessionDescription};
pub mod stream;

pub use stream::{inbound_message, write_result, InboundBuffer, Polled, ReadOutcome};
