//! The shutdown signal.
//!
//! One logical event: created unfired at startup, fired exactly once when the
//! display loop exits, observed non-blockingly once per capture iteration.

use vstd::prelude::*;

verus! {

/// The one-shot shutdown signal.
pub struct ShutdownSignal {
    fired: bool,
}

impl ShutdownSignal {
    /// Whether the signal has fired.
    pub closed spec fn spec_fired(&self) -> bool {
        self.fired
    }

    /// A fresh, unfired signal.
    pub fn new() -> (s: Self)
        ensures
            !s.spec_fired(),
    {
        ShutdownSignal { fired: false }
    }

    /// Fire the signal. It fires at most once, so an already-fired signal
    /// cannot be fired again.
    pub fn fire(&mut self)
        requires
            !old(self).spec_fired(),
        ensures
            final(self).spec_fired(),
    {
        self.fired = true;
    }

    /// Observe the signal without waiting.
    pub fn is_fired(&self) -> (r: bool)
        ensures
            r == self.spec_fired(),
    {
        self.fired
    }
}

} // verus!
