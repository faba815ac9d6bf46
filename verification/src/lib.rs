//! The protocol-aware core of an intercepting proxy for a binary game protocol.
//!
//! The crate holds what the proxy decides and computes, and no I/O: the wire
//! alphabet and the packet framing over byte buffers, the dispatch policy, the
//! stop handle, and the state machines of a listener and of a session. A
//! driver owns the sockets and the queues, performs what a state machine asks
//! for and hands back what happened.

pub mod buf;
pub mod endian;
pub mod packet;
pub mod server;
pub mod shutdown;
pub mod sync;
