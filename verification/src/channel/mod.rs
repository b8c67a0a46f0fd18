//! The length-prefixed framing over a socket or a pipe: the wire format, and the
//! state machines of its two ends.

pub mod frame;
pub mod laws;
pub mod receiver;
pub mod sender;
pub mod timed_read;
pub mod timed_send;
