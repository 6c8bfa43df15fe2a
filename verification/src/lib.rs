//! Session orchestration for a host-side screen sharing agent.
//!
//! The crate holds the decisions of a sharing session and none of its I/O:
//! every component is a state machine that is told what happened outside
//! (a dial finished, an envelope arrived, a frame was encoded) and answers
//! with its next state and with what the driver has to do next.
//!
//! - [`session`] starts and stops a session and reports its status;
//!   [`events`] takes in what happens to a session under way.
//! - [`signaling`] is the link to the rendezvous service and the envelopes
//!   that go over it.
//! - [`webrtc_client`] negotiates the peer connection.
//! - [`pipeline`] decides which frames reach the transport.
//! - [`screen_capture`] is the capture source; [`session_id`] makes and
//!   checks session ids; [`counter`] counts without wrapping.

pub mod counter;
pub mod events;
pub mod pipeline;
pub mod screen_capture;
pub mod session;
pub mod session_id;
pub mod signaling;
pub mod webrtc_client;
