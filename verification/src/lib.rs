//! Verified core of a real-time token-transfer streaming service.
//!
//! The library validates requested contract addresses in one batched read,
//! interprets the batch results all-or-nothing, resolves token-metadata URIs
//! by scheme, and drives a per-connection session state machine with a
//! monotonic cancellation flag. Network transports, the RPC client and the
//! socket server live outside the library and feed it plain values.

pub mod address;
pub mod chain;
pub mod events;
pub mod resolver;
pub mod session;
pub mod token;
pub mod validate;
