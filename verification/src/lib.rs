//! Message-processing core of a cross-chain identity bridge.
//!
//! Attested messages from the remote chain are decoded from a fixed
//! little-endian, length-prefixed layout, dispatched by message type, applied
//! to the program state and the credential registry, and answered with a reply
//! envelope whose identifier is the SHA-256 digest of the request correlator.

pub mod codec;
pub mod dispatch;
pub mod identity;
pub mod laws;
pub mod registry;
pub mod types;
pub mod wire;
