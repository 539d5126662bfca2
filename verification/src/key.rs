use vstd::prelude::*;

verus! {

/// The key of a connection to a sync root, held together with its context:
/// the callbacks and the filter handed to the connection, which must live as
/// long as the connection does.
#[derive(Debug)]
pub struct OwnedConnectionKey<T> {
    key: BorrowedConnectionKey,
    context: T,
}

impl<T> OwnedConnectionKey<T> {
    /// The raw connection key.
    pub closed spec fn raw_key(&self) -> isize {
        self.key.0
    }

    /// The context kept alive with the connection.
    pub closed spec fn context_value(&self) -> T {
        self.context
    }

    /// Takes ownership of a connection key and of its context.
    pub fn new(key: isize, context: T) -> (r: Self)
        ensures
            r.raw_key() == key,
            r.context_value() == context,
    {
        OwnedConnectionKey { key: BorrowedConnectionKey(key), context }
    }

    /// The context kept alive with the connection.
    pub fn context(&self) -> (r: &T)
        ensures
            *r == self.context_value(),
    {
        &self.context
    }

    /// The connection key, borrowed.
    pub fn borrowed(&self) -> (r: &BorrowedConnectionKey)
        ensures
            r@ == self.raw_key(),
    {
        &self.key
    }
}

/// A borrowed connection key.
#[derive(Debug)]
pub struct BorrowedConnectionKey(isize);

impl View for BorrowedConnectionKey {
    type V = isize;

    closed spec fn view(&self) -> isize {
        self.0
    }
}

impl BorrowedConnectionKey {
    /// Wraps a raw connection key.
    pub fn new(key: isize) -> (r: Self)
        ensures
            r@ == key,
    {
        BorrowedConnectionKey(key)
    }

    /// The raw connection key.
    pub fn key(&self) -> (r: &isize)
        ensures
            *r == self@,
    {
        &self.0
    }
}

/// A borrowed transfer key: the key of one file operation.
#[derive(Debug)]
pub struct BorrowedTransferKey(i64);

impl View for BorrowedTransferKey {
    type V = i64;

    closed spec fn view(&self) -> i64 {
        self.0
    }
}

impl BorrowedTransferKey {
    /// Wraps a raw transfer key.
    pub fn new(key: i64) -> (r: Self)
        ensures
            r@ == key,
    {
        BorrowedTransferKey(key)
    }

    /// The raw transfer key.
    pub fn key(&self) -> (r: &i64)
        ensures
            *r == self@,
    {
        &self.0
    }
}

} // verus!
