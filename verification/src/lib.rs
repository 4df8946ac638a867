//! Encrypted peer-to-peer file transfer engine.
//!
//! Two hosts on a local IPv6 network exchange files over a single TCP
//! connection per file, authenticating each other with a 64-character
//! identity token.  This crate holds the protocol logic: the big-endian
//! wire encoding, the Noise handshake driver, the encrypted framing
//! channel with its zero-length end-of-stream sentinel, the receive
//! policy and per-connection receiver session, the sender's message
//! plan, and the bounded connection-slot pools.  Socket, file and
//! database I/O live outside, in the binary that drives these types.

pub mod admission;
pub mod channel;
pub mod errors;
pub mod handshake;
pub mod identity;
pub mod ipv6;
pub mod naming;
pub mod noise;
pub mod receiver;
pub mod records;
pub mod sender;
pub mod slots;
pub mod stream;
pub mod wire;
