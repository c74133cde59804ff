use vstd::prelude::*;

verus! {

/// The shared count of currently-live connections.
///
/// Starts at zero, moves only by one, and is never driven below zero.
/// Each mutation reports the new total, which is what an observability
/// line printed at the edge of the program carries.
pub struct ConnectionCounter {
    count: u64,
}

impl ConnectionCounter {
    /// The current count.
    pub closed spec fn value(self) -> int {
        self.count as int
    }

    /// A fresh counter at zero.
    pub fn new() -> (counter: ConnectionCounter)
        ensures
            counter.value() == 0,
    {
        ConnectionCounter { count: 0 }
    }

    /// The current total, for observation.
    pub fn current(&self) -> (total: u64)
        ensures
            total == self.value(),
    {
        self.count
    }

    /// Count one connection in; reports the new total.
    pub fn increment(&mut self) -> (total: u64)
        requires
            old(self).value() < u64::MAX,
        ensures
            final(self).value() == old(self).value() + 1,
            total == final(self).value(),
    {
        self.count = self.count + 1;
        self.count
    }

    /// Count one connection out; reports the new total.
    ///
    /// Only a live connection is ever counted out, so the count cannot go
    /// below zero.
    pub fn decrement(&mut self) -> (total: u64)
        requires
            old(self).value() > 0,
        ensures
            final(self).value() == old(self).value() - 1,
            total == final(self).value(),
    {
        self.count = self.count - 1;
        self.count
    }
}

} // verus!
