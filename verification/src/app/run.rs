//! The once-only entry point.

use vstd::prelude::*;

verus! {

/// Whether the entry point has been entered in this process.
#[derive(Debug)]
pub struct RunGuard {
    called: bool,
}

impl RunGuard {
    /// Whether the entry point has been entered.
    pub closed spec fn called(&self) -> bool {
        self.called
    }

    /// A guard on which `called` tells whether the entry point has been entered.
    pub fn new(called: bool) -> (guard: RunGuard)
        ensures
            guard.called() == called,
    {
        RunGuard { called }
    }

    /// Enter, unless the entry point has been entered before: `true` on the
    /// first call, and `false` on every later one.
    pub fn enter(&mut self) -> (first: bool)
        ensures
            first == !old(self).called(),
            final(self).called(),
    {
        let first = !self.called;
        self.called = true;
        first
    }
}

/// The entry point can be entered once: of two entries one after the other, the
/// second is refused, whatever came before; and the first in a process is not.
pub proof fn law_entry_is_once_only(
    fresh: RunGuard,
    guard: &mut RunGuard,
    first: bool,
    later: &mut RunGuard,
    second: bool,
)
    requires
        call_ensures(RunGuard::new, (false,), fresh),
        call_ensures(RunGuard::enter, (guard,), first),
        call_ensures(RunGuard::enter, (later,), second),
        *old(later) == *final(guard),
    ensures
        *old(guard) == fresh ==> first,
        !second,
{
}

} // verus!
