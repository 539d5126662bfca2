use vstd::prelude::*;

verus! {

/// Adapts an asynchronous filter to the synchronous callbacks: it keeps the
/// filter and the executor (`block_on`) that drives each of its futures to
/// completion.
pub struct AsyncBridge<F, B> {
    filter: F,
    block_on: B,
}

impl<F, B> AsyncBridge<F, B> {
    /// The filter the bridge forwards to.
    pub closed spec fn spec_filter(&self) -> F {
        self.filter
    }

    /// The executor the bridge runs futures with.
    pub closed spec fn spec_block_on(&self) -> B {
        self.block_on
    }

    /// Bridges `filter`, whose futures are run with `block_on`.
    pub fn new(filter: F, block_on: B) -> (r: Self)
        ensures
            r.spec_filter() == filter,
            r.spec_block_on() == block_on,
    {
        AsyncBridge { filter, block_on }
    }

    /// The filter the bridge forwards to.
    pub fn filter(&self) -> (r: &F)
        ensures
            *r == self.spec_filter(),
    {
        &self.filter
    }

    /// The executor the bridge runs futures with.
    pub fn block_on(&self) -> (r: &B)
        ensures
            *r == self.spec_block_on(),
    {
        &self.block_on
    }
}

} // verus!
