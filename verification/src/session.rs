use vstd::prelude::*;

use std::sync::Arc;

use crate::key::{BorrowedConnectionKey, OwnedConnectionKey};

verus! {

/// A connection to a sync root, with the context it keeps alive.
#[derive(Debug)]
pub struct Session<T>(OwnedConnectionKey<T>);

impl<T> Session<T> {
    /// The owned connection key of the session.
    pub closed spec fn key(&self) -> OwnedConnectionKey<T> {
        self.0
    }

    /// A session over a connection.
    pub fn new(connection_key: OwnedConnectionKey<T>) -> (r: Self)
        ensures
            r.key() == connection_key,
    {
        Session(connection_key)
    }

    /// The connection key of the session.
    pub fn connection_key(&self) -> (r: &BorrowedConnectionKey)
        ensures
            r@ == self.key().raw_key(),
    {
        self.0.borrowed()
    }
}

impl<T, U> Session<(U, Arc<T>)> {
    /// The filter that answers the callbacks of the session.
    pub fn filter(&self) -> (r: &Arc<T>)
        ensures
            *r == self.key().context_value().1,
    {
        &self.0.context().1
    }
}

} // verus!
