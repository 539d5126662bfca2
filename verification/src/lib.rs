//! Safe building blocks for a Windows Cloud Filter sync engine.
//!
//! The crate holds the parts of a sync engine that decide and compute: the
//! encodings of the platform's status codes and flags, the parameters of the
//! operations sent to the platform, the layouts of the information blocks that
//! the platform hands back, and the identifiers of sync roots.
use vstd::prelude::*;

pub mod error;
pub mod utility;
pub mod layout;
pub mod metadata;
pub mod placeholder;
pub mod placeholder_file;
pub mod usn;
pub mod command;
pub mod com;
pub mod request;
pub mod filter;
pub mod root;
pub mod ext;
pub mod file;
pub mod key;
pub mod logger;
pub mod provider;
pub mod session;

verus! {

/// A marker for types whose extension traits may not be implemented outside
/// of this crate.
pub trait Sealed {}

} // verus!
