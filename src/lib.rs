//! A small host-backed contract: greeting, saturating arithmetic, a bounded
//! number sequence, and a persistent key/value store kept by the host.

pub mod identifier;
pub mod host;
pub mod events;
pub mod contract;
