//! Packets: the wire alphabet that their layouts are made of, and the
//! catalogue with its framing and dispatch.

pub mod ext;
pub mod game;
