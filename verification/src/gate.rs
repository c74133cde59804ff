use vstd::prelude::*;

verus! {

/// Proof of one reserved unit of connection concurrency capacity.
///
/// A token is move-only: it can neither be copied nor cloned, and only the
/// gate constructs one.  A unit of capacity is therefore returned at most
/// once, by surrendering the token itself to [`AdmissionGate::release`].
pub struct AdmissionToken {
    issued: bool,
}

/// What a release did with the freed unit of capacity.
pub enum ReleaseOutcome {
    /// The earliest waiter was granted the freed unit; the token is handed
    /// over to it rather than returned to the pool.
    Handoff { waiter: u64, token: AdmissionToken },
    /// No one was waiting; the unit went back to the pool.
    Returned,
}

/// The counting primitive that issues and reclaims admission tokens.
///
/// The capacity is fixed at construction.  A reservation succeeds exactly
/// when a unit is free; otherwise the caller is queued, first come, first
/// served.  A release hands the freed unit directly to the earliest waiter
/// when there is one, so a newcomer can never overtake the queue.
pub struct AdmissionGate {
    capacity: u64,
    available: u64,
    outstanding: u64,
    waiters: Vec<u64>,
}

impl AdmissionGate {
    /// The fixed capacity chosen at construction.
    pub closed spec fn capacity(self) -> int {
        self.capacity as int
    }

    /// How many units of capacity are free right now.
    pub closed spec fn available(self) -> int {
        self.available as int
    }

    /// How many tokens are currently issued and not yet surrendered.
    pub closed spec fn outstanding(self) -> int {
        self.outstanding as int
    }

    /// The queue of waiters, earliest first.
    pub closed spec fn waiters(self) -> Seq<u64> {
        self.waiters@
    }

    /// Every unit of capacity is either free or issued, the capacity is
    /// positive, and no one waits while a unit is free.
    pub open spec fn well_formed(self) -> bool {
        &&& 0 < self.capacity() <= u64::MAX
        &&& self.available() + self.outstanding() == self.capacity()
        &&& self.waiters().len() > 0 ==> self.available() == 0
    }

    /// A fresh gate: all capacity free, nothing issued, no one waiting.
    pub fn new(capacity: u64) -> (gate: AdmissionGate)
        requires
            capacity > 0,
        ensures
            gate.well_formed(),
            gate.capacity() == capacity,
            gate.available() == capacity,
            gate.outstanding() == 0,
            gate.waiters() == Seq::<u64>::empty(),
    {
        AdmissionGate { capacity, available: capacity, outstanding: 0, waiters: Vec::new() }
    }

    /// Try to reserve one unit of capacity for `waiter`.
    ///
    /// Grants a token exactly when a unit is free; otherwise `waiter` is
    /// appended to the wait queue and must be woken by a later release.
    pub fn try_reserve(&mut self, waiter: u64) -> (granted: Option<AdmissionToken>)
        requires
            old(self).well_formed(),
        ensures
            final(self).well_formed(),
            final(self).capacity() == old(self).capacity(),
            granted is Some <==> old(self).available() > 0,
            granted is Some ==> {
                &&& final(self).available() == old(self).available() - 1
                &&& final(self).outstanding() == old(self).outstanding() + 1
                &&& final(self).waiters() == old(self).waiters()
            },
            granted is None ==> {
                &&& final(self).available() == old(self).available()
                &&& final(self).outstanding() == old(self).outstanding()
                &&& final(self).waiters() == old(self).waiters().push(waiter)
            },
    {
        if self.available > 0 {
            self.available = self.available - 1;
            self.outstanding = self.outstanding + 1;
            Some(AdmissionToken { issued: true })
        } else {
            self.waiters.push(waiter);
            None
        }
    }

    /// The fixed capacity, for observation.
    pub fn capacity_units(&self) -> (units: u64)
        ensures
            units == self.capacity(),
    {
        self.capacity
    }

    /// How many units of capacity are free right now, for observation.
    pub fn free_units(&self) -> (units: u64)
        ensures
            units == self.available(),
    {
        self.available
    }

    /// How many tokens are issued and not yet surrendered, for observation.
    pub fn held_units(&self) -> (units: u64)
        ensures
            units == self.outstanding(),
    {
        self.outstanding
    }

    /// Whether `id` is queued for admission.
    pub fn is_waiting(&self, id: u64) -> (waiting: bool)
        ensures
            waiting <==> self.waiters().contains(id),
    {
        let mut i: usize = 0;
        while i < self.waiters.len()
            invariant
                i <= self.waiters@.len(),
                forall|j: int| 0 <= j < i ==> self.waiters@[j] != id,
            decreases self.waiters@.len() - i,
        {
            if self.waiters[i] == id {
                return true;
            }
            i = i + 1;
        }
        false
    }

    /// Surrender a token, freeing one unit of capacity.
    ///
    /// When someone is waiting, the freed unit — token included — goes to
    /// the earliest waiter, who is removed from the queue; the number of
    /// outstanding tokens does not change.  Otherwise the unit returns to
    /// the pool.
    pub fn release(&mut self, token: AdmissionToken) -> (outcome: ReleaseOutcome)
        requires
            old(self).well_formed(),
            old(self).outstanding() > 0,
        ensures
            final(self).well_formed(),
            final(self).capacity() == old(self).capacity(),
            old(self).waiters().len() > 0 ==> {
                &&& outcome matches ReleaseOutcome::Handoff { waiter, .. }
                    && waiter == old(self).waiters()[0]
                &&& final(self).waiters() == old(self).waiters().drop_first()
                &&& final(self).available() == old(self).available()
                &&& final(self).outstanding() == old(self).outstanding()
            },
            old(self).waiters().len() == 0 ==> {
                &&& outcome is Returned
                &&& final(self).waiters() == old(self).waiters()
                &&& final(self).available() == old(self).available() + 1
                &&& final(self).outstanding() == old(self).outstanding() - 1
            },
    {
        if self.waiters.len() > 0 {
            let waiter: u64 = self.waiters.remove(0);
            proof {
                assert(self.waiters@ =~= old(self).waiters().drop_first());
            }
            ReleaseOutcome::Handoff { waiter, token }
        } else {
            self.available = self.available + 1;
            self.outstanding = self.outstanding - 1;
            ReleaseOutcome::Returned
        }
    }
}

} // verus!
