//! The message bus at the core of a client for the TWS / IB Gateway wire
//! protocol: length-prefixed frames around null-delimited field payloads,
//! two correlation-id maps routing server replies back to the request or
//! order that caused them, notification slots for connection-wide events,
//! and an optional byte-faithful capture of the traffic.
//!
//! Everything that frames, parses, classifies and routes is verified; the
//! socket, the reader thread and the filesystem stand outside, behind the
//! values these functions take and return.


pub mod bus;
pub mod codec;
pub mod dispatcher;
pub mod errors;
pub mod framer;
pub mod messages;
pub mod recorder;
pub mod router;
pub mod server_versions;
pub mod sink;
