//! The counting admission gate that bounds simultaneous transfers.

use vstd::prelude::*;

verus! {

/// A counting gate with a fixed number of permits.
pub struct AdmissionGate {
    limit: usize,
    in_flight: usize,
}

impl AdmissionGate {
    /// The number of permits that exist.
    pub closed spec fn limit(&self) -> nat {
        self.limit as nat
    }

    /// The number of permits currently held.
    pub closed spec fn in_flight(&self) -> nat {
        self.in_flight as nat
    }

    /// No more permits are held than exist.
    pub open spec fn wf(&self) -> bool {
        self.in_flight() <= self.limit()
    }

    /// A gate with `limit` permits, none of them held.
    pub fn new(limit: usize) -> (gate: Self)
        ensures
            gate.wf(),
            gate.limit() == limit,
            gate.in_flight() == 0,
    {
        AdmissionGate { limit, in_flight: 0 }
    }

    /// The number of permits currently held.
    pub fn held(&self) -> (held: usize)
        ensures
            held == self.in_flight(),
    {
        self.in_flight
    }

    /// Takes a permit if one is free.
    pub fn try_acquire(&mut self) -> (admitted: bool)
        requires
            old(self).wf(),
        ensures
            final(self).wf(),
            final(self).limit() == old(self).limit(),
            admitted == (old(self).in_flight() < old(self).limit()),
            final(self).in_flight() == old(self).in_flight() + (if admitted { 1nat } else { 0nat }),
    {
        if self.in_flight < self.limit {
            self.in_flight = self.in_flight + 1;
            true
        } else {
            false
        }
    }

    /// Gives a held permit back. Returns `false`, and changes nothing, when
    /// no permit is held.
    pub fn release(&mut self) -> (released: bool)
        requires
            old(self).wf(),
        ensures
            final(self).wf(),
            final(self).limit() == old(self).limit(),
            released == (old(self).in_flight() > 0),
            final(self).in_flight() == old(self).in_flight() - (if released { 1nat } else { 0nat }),
    {
        if self.in_flight > 0 {
            self.in_flight = self.in_flight - 1;
            true
        } else {
            false
        }
    }
}

} // verus!
