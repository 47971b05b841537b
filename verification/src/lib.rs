//! Scheduling core of a background move-search worker.
//!
//! The crate holds the decisions of the worker loop and of the client-side
//! handle as plain state machines; channels, threads and the search structure
//! itself live with the caller.

pub mod info;
pub mod interface;
pub mod laws;
pub mod moves;
pub mod options;
pub mod piece;
pub mod protocol;
pub mod worker;

pub use crate::interface::Interface;
pub use crate::moves::Move;
pub use crate::options::Options;
