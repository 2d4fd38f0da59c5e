//! Checks how long a host's TLS certificate stays valid.
//!
//! The network work (connecting, the TLS handshake, the probe request) is
//! done by the caller; this library decides what the outcome of a check is,
//! from the certificates the peer presented and the time the check began.

pub mod evaluate;
pub mod outcome;
pub mod probe;
pub mod render;
