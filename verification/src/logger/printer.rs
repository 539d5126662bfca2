use vstd::prelude::*;

use crate::logger::basic::BasicLogger;
use crate::logger::{Logger, ProviderState, Reason};

verus! {

/// A logger that hands every call on to the logger it wraps.
pub struct PrintLogger<L: Logger> {
    inner: L,
}

impl<L: Logger> PrintLogger<L> {
    /// The wrapped logger.
    pub closed spec fn inner(&self) -> L {
        self.inner
    }

    /// Wraps `logger`.
    pub fn new(logger: L) -> (r: Self)
        ensures
            r.inner() == logger,
    {
        PrintLogger { inner: logger }
    }
}

impl<L: Logger> Logger for PrintLogger<L> {
    fn logs(&self) -> (r: &[Reason])
        ensures
            call_ensures(L::logs, (&self.inner(),), r),
    {
        self.inner.logs()
    }

    fn add_log(&mut self, reason: Reason)
        ensures
            exists|inner: &mut L|
                #[trigger] call_ensures(L::add_log, (inner, reason), ()) && *inner == old(
                    self,
                ).inner() && *final(inner) == final(self).inner(),
    {
        self.inner.add_log(reason)
    }

    fn message(&self) -> (r: &[u16])
        ensures
            call_ensures(L::message, (&self.inner(),), r),
    {
        self.inner.message()
    }

    fn set_message(&mut self, message: Vec<u16>)
        ensures
            exists|inner: &mut L|
                #[trigger] call_ensures(L::set_message, (inner, message), ()) && *inner == old(
                    self,
                ).inner() && *final(inner) == final(self).inner(),
    {
        self.inner.set_message(message)
    }

    fn state(&self) -> (r: ProviderState)
        ensures
            call_ensures(L::state, (&self.inner(),), r),
    {
        self.inner.state()
    }

    fn set_state(&mut self, state: ProviderState)
        ensures
            exists|inner: &mut L|
                #[trigger] call_ensures(L::set_state, (inner, state), ()) && *inner == old(
                    self,
                ).inner() && *final(inner) == final(self).inner(),
    {
        self.inner.set_state(state)
    }
}

/// Wrapping a [BasicLogger] loses no report: whatever a call of
/// `add_log` on the wrapper did, the wrapped logger's errors afterwards are
/// those it held before followed by the new one, for every call.
pub proof fn lemma_print_logger_keeps_every_log(
    before: PrintLogger<BasicLogger>,
    after: PrintLogger<BasicLogger>,
    reason: Reason,
)
    requires
        exists|inner: &mut BasicLogger|
            #[trigger] call_ensures(BasicLogger::add_log, (inner, reason), ()) && *inner
                == before.inner() && *final(inner) == after.inner(),
    ensures
        after.inner().reported() == before.inner().reported().push(reason),
{
    let inner = choose|inner: &mut BasicLogger|
        #[trigger] call_ensures(BasicLogger::add_log, (inner, reason), ()) && *inner
            == before.inner() && *final(inner) == after.inner();
}

} // verus!
