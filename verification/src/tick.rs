//! One refresh at a time.

use vstd::prelude::*;

verus! {

/// Keeps the refreshes of the station apart: a tick that comes while a
/// refresh is under way is skipped.
#[derive(Debug, Clone, Copy, PartialEq, Eq, Structural)]
pub struct RefreshGate {
    /// Whether a refresh is under way.
    pub in_flight: bool,
}

impl RefreshGate {
    /// A gate with no refresh under way.
    pub fn new() -> (r: RefreshGate)
        ensures
            !r.in_flight,
    {
        RefreshGate { in_flight: false }
    }

    /// A tick: the result says whether a refresh may begin. It may unless
    /// one is under way; from then on one is.
    pub fn begin(&mut self) -> (r: bool)
        ensures
            r == !old(self).in_flight,
            final(self).in_flight,
    {
        let free = !self.in_flight;
        self.in_flight = true;
        free
    }

    /// The refresh under way has ended.
    pub fn finish(&mut self)
        ensures
            !final(self).in_flight,
    {
        self.in_flight = false;
    }
}

} // verus!
