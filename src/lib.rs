//! Promotion of an audio thread, possibly of another process, to real-time
//! scheduling through a privileged broker, and its demotion back to the
//! scheduling state captured before.
//!
//! The library decides; the caller performs. A thread's scheduling state is
//! captured into a snapshot (`snapshot`), which serializes to a fixed-size
//! buffer. A promotion is a `negotiate::Negotiation`: a state machine that
//! asks for broker properties, for the process's real-time CPU-time limit to
//! be read and set, for the promotion call, and for the rollback of the limit
//! when that call fails. `controller` starts promotions and tells what
//! demotion restores.

pub mod budget;
mod bytes;
pub mod controller;
pub mod error;
pub mod negotiate;
pub mod snapshot;
