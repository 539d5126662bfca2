use vstd::prelude::*;

use crate::logger::{Logger, ProviderState, Reason};

verus! {

/// A logger that keeps what it is told: the errors in the order they were
/// reported, the last status message and the last state.
pub struct BasicLogger {
    logs: Vec<Reason>,
    message: Vec<u16>,
    state: ProviderState,
}

impl BasicLogger {
    /// The errors reported so far, oldest first.
    pub closed spec fn reported(&self) -> Seq<Reason> {
        self.logs@
    }

    /// The status message last set.
    pub closed spec fn status_message(&self) -> Seq<u16> {
        self.message@
    }

    /// The state last set.
    pub closed spec fn provider_state(&self) -> ProviderState {
        self.state
    }

    /// A logger with no errors, an empty message and the provider in sync.
    pub fn new() -> (r: Self)
        ensures
            r.reported() == Seq::<Reason>::empty(),
            r.status_message() == Seq::<u16>::empty(),
            r.provider_state() == ProviderState::InSync,
    {
        BasicLogger { logs: Vec::new(), message: Vec::new(), state: ProviderState::InSync }
    }
}

impl Logger for BasicLogger {
    fn logs(&self) -> (r: &[Reason])
        ensures
            r@ == self.reported(),
    {
        self.logs.as_slice()
    }

    fn add_log(&mut self, reason: Reason)
        ensures
            final(self).reported() == old(self).reported().push(reason),
            final(self).status_message() == old(self).status_message(),
            final(self).provider_state() == old(self).provider_state(),
    {
        self.logs.push(reason);
    }

    fn message(&self) -> (r: &[u16])
        ensures
            r@ == self.status_message(),
    {
        self.message.as_slice()
    }

    fn set_message(&mut self, message: Vec<u16>)
        ensures
            final(self).reported() == old(self).reported(),
            final(self).status_message() == message@,
            final(self).provider_state() == old(self).provider_state(),
    {
        self.message = message;
    }

    fn state(&self) -> (r: ProviderState)
        ensures
            r == self.provider_state(),
    {
        self.state
    }

    fn set_state(&mut self, state: ProviderState)
        ensures
            final(self).reported() == old(self).reported(),
            final(self).status_message() == old(self).status_message(),
            final(self).provider_state() == state,
    {
        self.state = state;
    }
}

} // verus!
