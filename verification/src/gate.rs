//! Admission control: a counting gate with a fixed capacity that bounds how
//! many inference requests may hold a permit at once. Permits are acquired
//! before any work is started and returned unconditionally when the work
//! finishes, whatever its outcome.
use vstd::prelude::*;

verus! {

/// A counting resource with fixed capacity. `try_acquire` grants a permit
/// exactly when the admission gate is not saturated; `release` returns one.
pub struct AdmissionGate {
    capacity: usize,
    in_use: usize,
}

impl AdmissionGate {
    /// Number of permits the admission gate was created with.
    pub closed spec fn spec_capacity(&self) -> nat {
        self.capacity as nat
    }

    /// Number of permits currently held.
    pub closed spec fn spec_in_use(&self) -> nat {
        self.in_use as nat
    }

    pub open spec fn wf(&self) -> bool {
        self.spec_in_use() <= self.spec_capacity()
    }

    /// The admission gate grants no further permit while saturated.
    pub open spec fn saturated(&self) -> bool {
        self.spec_in_use() == self.spec_capacity()
    }

    pub fn new(capacity: usize) -> (r: AdmissionGate)
        ensures
            r.wf(),
            r.spec_capacity() == capacity,
            r.spec_in_use() == 0,
    {
        AdmissionGate { capacity, in_use: 0 }
    }

    pub fn capacity(&self) -> (r: usize)
        ensures
            r == self.spec_capacity(),
    {
        self.capacity
    }

    pub fn in_use(&self) -> (r: usize)
        ensures
            r == self.spec_in_use(),
    {
        self.in_use
    }

    /// Take one permit if any is free. A permit is granted if and only if the
    /// gate was not saturated at the call.
    pub fn try_acquire(&mut self) -> (granted: bool)
        requires
            old(self).wf(),
        ensures
            final(self).wf(),
            final(self).spec_capacity() == old(self).spec_capacity(),
            granted == !old(self).saturated(),
            granted ==> final(self).spec_in_use() == old(self).spec_in_use() + 1,
            !granted ==> final(self).spec_in_use() == old(self).spec_in_use(),
    {
        if self.in_use < self.capacity {
            self.in_use = self.in_use + 1;
            true
        } else {
            false
        }
    }

    /// Return one held permit.
    pub fn release(&mut self)
        requires
            old(self).wf(),
            old(self).spec_in_use() > 0,
        ensures
            final(self).wf(),
            final(self).spec_capacity() == old(self).spec_capacity(),
            final(self).spec_in_use() == old(self).spec_in_use() - 1,
    {
        self.in_use = self.in_use - 1;
    }
}

/// One admission event: a request asks for a permit, or a finished request
/// returns the one it held.
pub enum GateEvent {
    Ask,
    Done,
}

/// Occupancy of a gate of capacity `c` after replaying a history of events
/// against an initially empty gate: an `Ask` takes a permit only when one is
/// free, a `Done` returns one.
pub open spec fn occupancy_after(c: nat, evs: Seq<GateEvent>) -> nat
    decreases evs.len(),
{
    if evs.len() == 0 {
        0
    } else {
        let prev = occupancy_after(c, evs.drop_last());
        match evs.last() {
            GateEvent::Ask => if prev < c {
                prev + 1
            } else {
                prev
            },
            GateEvent::Done => if prev > 0 {
                (prev - 1) as nat
            } else {
                0
            },
        }
    }
}

/// An `Ask` arriving after this history is granted a permit exactly when
/// occupancy is below capacity.
pub open spec fn ask_granted(c: nat, evs: Seq<GateEvent>) -> bool {
    occupancy_after(c, evs) < c
}

/// However many concurrent requests ask for permits, at most `c` of them hold
/// one at any instant.
pub proof fn lemma_occupancy_bounded(c: nat, evs: Seq<GateEvent>)
    ensures
        occupancy_after(c, evs) <= c,
    decreases evs.len(),
{
    if evs.len() > 0 {
        lemma_occupancy_bounded(c, evs.drop_last());
    }
}

/// While `c` requests hold permits, a further request waits: its ask is not
/// granted, and occupancy stays at `c`. As soon as one of the holders returns
/// its permit, the waiting ask is granted.
pub proof fn lemma_saturated_ask_waits(c: nat, evs: Seq<GateEvent>)
    requires
        occupancy_after(c, evs) == c,
        c > 0,
    ensures
        !ask_granted(c, evs),
        occupancy_after(c, evs.push(GateEvent::Ask)) == c,
        ask_granted(c, evs.push(GateEvent::Done)),
{
    assert(evs.push(GateEvent::Ask).drop_last() =~= evs);
    assert(evs.push(GateEvent::Done).drop_last() =~= evs);
}

} // verus!
