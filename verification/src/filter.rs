//! Sync filter callbacks: what the platform tells a sync provider, and what
//! the provider may answer.
use vstd::prelude::*;

/// Information for the callbacks of a sync filter.
pub mod info;
/// Tickets for the callbacks of a sync filter.
pub mod ticket;
/// Adapts an asynchronous filter to the callbacks.
pub mod async_filter;
/// The table of callbacks a connection registers.
pub mod proxy;

pub use async_filter::AsyncBridge;

verus! {
} // verus!
