//! Server side of the graphics pipeline dynamic virtual channel.
//!
//! The crate holds the session logic only: capability negotiation, surface
//! setup, frame sequencing with flow control, and the dispatch of client
//! messages.  Messages are plain values; turning them into bytes and back is
//! left to the transport that embeds the session.

pub mod gfx;
pub mod pdu;
pub mod server;
pub mod session;
