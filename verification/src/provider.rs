use vstd::prelude::*;

use std::sync::Arc;

verus! {

/// Calls `Arc::clone`, which makes another pointer to the same allocation,
/// so that the clone reads as the same value.
#[verifier::external_body]
fn clone_arc<T>(shared: &Arc<T>) -> (r: Arc<T>)
    ensures
        r == *shared,
{
    Arc::clone(shared)
}

/// A connected sync provider: its connection key and the filter that
/// answers the callbacks of the connection.
#[derive(Debug, Clone)]
pub struct Provider<T> {
    connection_key: isize,
    filter: Arc<T>,
}

impl<T> Provider<T> {
    /// The connection key, as a value.
    pub closed spec fn key_value(&self) -> isize {
        self.connection_key
    }

    /// The shared filter, as a value.
    pub closed spec fn filter_value(&self) -> Arc<T> {
        self.filter
    }

    /// A provider for a connection and its filter.
    pub fn new(connection_key: isize, filter: Arc<T>) -> (r: Self)
        ensures
            r.key_value() == connection_key,
            r.filter_value() == filter,
    {
        Provider { connection_key, filter }
    }

    /// The connection key.
    pub fn connection_key(&self) -> (r: isize)
        ensures
            r == self.key_value(),
    {
        self.connection_key
    }

    /// Another handle to the shared filter.
    pub fn filter(&self) -> (r: Arc<T>)
        ensures
            r == self.filter_value(),
    {
        clone_arc(&self.filter)
    }
}

} // verus!
