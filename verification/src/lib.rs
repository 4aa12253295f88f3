//! Boundary layer between a host application and a light-wallet engine.
//!
//! The library manages exactly one active wallet session: a single-slot
//! container holds it, four initializer paths create and install one, a
//! dispatcher routes textual commands against it, a poller reports the
//! progress of a background synchronization task without blocking, and a
//! persistence codec round-trips the wallet bytes through a padded text
//! encoding.  Every result crosses the boundary as a flat string; failures
//! become strings prefixed `Error:` and never abort the caller.
//!
//! The wallet engine itself — key derivation, note scanning, the network
//! protocol, the serialization format — is an external collaborator.  Its
//! verdicts enter these functions as plain values, and the contracts state
//! exactly how each verdict is routed, rendered, and stored.

pub mod bootstrap;
pub mod codec;
pub mod config;
pub mod dispatch;
pub mod errors;
pub mod init;
pub mod poll;
pub mod session;
pub mod text;
