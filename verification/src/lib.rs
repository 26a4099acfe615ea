//! Connection core of a real-time chat client speaking a length-prefixed,
//! typed binary control protocol over an encrypted stream.
//!
//! The crate holds the verified logic of the core: the wire codec, the
//! per-role thread registry, the role step functions, and the Main role's
//! protocol state machine. The surrounding runtime (sockets, timers, task
//! spawning) drives these functions from outside.

pub mod bytes;
pub mod threads;
pub mod connection;
pub mod roles;
pub mod wire;
