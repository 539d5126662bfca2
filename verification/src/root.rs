//! Sync roots: their identifiers, their registration and the sessions that
//! connect a provider to them.
use vstd::prelude::*;

pub mod register;
pub mod session;
pub mod sync_root;
pub mod sync_root_info;

pub use sync_root::{SecurityId, SyncRootId, SyncRootIdBuilder};

verus! {
} // verus!
