use vstd::prelude::*;

verus! {

/// An Updated Sequence Number (USN) is as an identifier that represents the version of a file. Each
/// subsequent file operation will increment the USN, allowing you to recognize when a file has
/// been updated.
///
/// A USN is commonly used to prevent a change from happening unless the USN is up to date.
pub type Usn = i64;

} // verus!
