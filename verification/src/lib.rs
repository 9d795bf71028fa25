//! Protofish: a session-layer protocol that multiplexes logical contexts
//! onto a single reliable byte stream, with reliable and unreliable
//! sub-streams layered on an abstract transport.
//!
//! This crate holds the verified core: the context-id counter, the message
//! schema and its wire codec, the frame layer's parsing and dispatch rules,
//! the handshake decisions, and the datagram router's framing rules. The
//! asynchronous transport plumbing lives outside the verified library.

pub mod arbitrary;
pub mod codec;
pub mod counter;
pub mod datagram;
pub mod dispatch;
pub mod errors;
pub mod framing;
pub mod handshake;
pub mod schema;
pub mod serialize;
pub mod transform;
pub mod utp;
pub mod wire;
