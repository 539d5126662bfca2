//! What the shell's status sources are told about files.
use vstd::prelude::*;

pub mod source;

verus! {

/// Why the status of a file cannot be given.
#[derive(Debug, Clone, Copy, PartialEq, Eq, Structural)]
pub enum SourceStatus {
    /// The file does not exist.
    FileNotFound,
    /// The file is under no sync root.
    NoSyncRoot,
}

} // verus!
