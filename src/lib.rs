//! Client-side synchronisation engine of a real-time chat: the wire protocol,
//! the session state machine, and a fan-out bus for inbound frames.
pub mod bus;
pub mod protocol;
pub mod session;
