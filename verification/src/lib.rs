//! Server-side core of a length-prefixed, binary client/server handshake
//! protocol: a packet framer, one handler per protocol phase, and the
//! per-connection state machine that dispatches incoming frames.

pub mod frame;
pub mod handler;
pub mod machine;
pub mod phase;

pub use phase::ConnectionPhase;
