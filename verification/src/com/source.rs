use vstd::prelude::*;

verus! {

/// Why a status source cannot report on a file.
#[derive(Debug, Clone, Copy, PartialEq, Eq, Structural)]
pub enum SourceStatus {
    /// The file does not exist.
    FileNotFound,
    /// The file is not in a sync root.
    NotInSyncRoot,
}

} // verus!
