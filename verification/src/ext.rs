//! Extensions of the platform's file handles.
use vstd::prelude::*;

pub mod file;

verus! {
} // verus!
