//! The escape-time counting rule.
//!
//! The orbit `z_0 = 0, z_(k+1) = z_k^2 + c` is computed by the caller; the
//! counter is told, for `z_0, z_1, ...` in turn, whether the point has escaped
//! (`|z_k|^2 > 4`), and says whether to compute the next one. When it says
//! stop, its count is the least `n` at which the orbit escaped, or the cap
//! when no `n` below the cap escapes.
use vstd::prelude::*;

verus! {

/// Counts orbit steps up to a cap.
pub struct EscapeCounter {
    count: u32,
    max_iter: u32,
    seen: Ghost<Seq<bool>>,
}

impl EscapeCounter {
    /// The number of steps taken.
    pub closed spec fn steps(&self) -> nat {
        self.count as nat
    }

    /// The cap on the number of steps.
    pub closed spec fn cap(&self) -> nat {
        self.max_iter as nat
    }

    /// The escape observations received so far, for `z_0, z_1, ...`.
    pub closed spec fn observed(&self) -> Seq<bool> {
        self.seen@
    }

    /// Still counting: one observation per step taken, none of them an escape.
    pub open spec fn running(&self) -> bool {
        &&& self.observed().len() == self.steps()
        &&& forall|i: int| 0 <= i < self.observed().len() ==> !self.observed()[i]
        &&& self.steps() <= self.cap()
    }

    /// Done counting: the count is the least index at which the orbit
    /// escaped, or the cap when it did not escape before it.
    pub open spec fn settled(&self) -> bool {
        &&& self.observed().len() == self.steps() + 1
        &&& forall|i: int| 0 <= i < self.steps() ==> !self.observed()[i]
        &&& self.steps() <= self.cap()
        &&& (self.steps() == self.cap() || self.observed()[self.steps() as int])
    }

    /// A counter before the first observation.
    pub fn new(max_iter: u32) -> (e: EscapeCounter)
        ensures
            e.running(),
            e.steps() == 0,
            e.cap() == max_iter,
            e.observed() == Seq::<bool>::empty(),
    {
        EscapeCounter { count: 0, max_iter, seen: Ghost(Seq::empty()) }
    }

    /// Takes whether the current orbit point has escaped. Returns whether the
    /// next point is wanted; a step is counted exactly then.
    pub fn advance(&mut self, escaped: bool) -> (more: bool)
        requires
            old(self).running(),
        ensures
            more == (!escaped && old(self).steps() < old(self).cap()),
            final(self).observed() == old(self).observed().push(escaped),
            final(self).cap() == old(self).cap(),
            final(self).steps() == old(self).steps() + if more {
                1nat
            } else {
                0nat
            },
            more ==> final(self).running(),
            !more ==> final(self).settled(),
    {
        self.seen = Ghost(self.seen@.push(escaped));
        if !escaped && self.count < self.max_iter {
            self.count = self.count + 1;
            true
        } else {
            false
        }
    }

    /// The number of steps taken.
    pub fn count(&self) -> (n: u32)
        ensures
            n == self.steps(),
    {
        self.count
    }
}

/// An orbit that escapes at no observed index below the cap is counted as
/// the cap: the point is taken to be in the set.
pub proof fn bounded_orbit_counts_cap(e: EscapeCounter)
    requires
        e.settled(),
        forall|i: int| 0 <= i < e.observed().len() && i < e.cap() ==> !e.observed()[i],
    ensures
        e.steps() == e.cap(),
{
}

/// An orbit whose first escape is at index `n` below the cap is counted as
/// `n`.
pub proof fn first_escape_is_count(e: EscapeCounter, n: nat)
    requires
        e.settled(),
        n < e.cap(),
        n < e.observed().len(),
        e.observed()[n as int],
        forall|i: int| 0 <= i < n ==> !e.observed()[i],
    ensures
        e.steps() == n,
{
}

} // verus!
