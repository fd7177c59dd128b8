//! Capabilities involving the capacity of a collection.

use vstd::prelude::*;
use crate::len::Len;

verus! {

/// A capability for collections that can report their capacity: the maximum
/// length they can reach without allocating.
///
/// Obtaining the capacity takes a constant amount of time and space.
pub trait Capacity: Len {
    /// Whether the collection stores zero-sized units, so that it can hold
    /// any number of them without allocating.
    spec fn unbounded_capacity(&self) -> bool;

    /// Whether this implementer gives its capacity an abstract model, so that
    /// `capacity_spec` speaks for it.  Implementers whose capacity cannot be
    /// named leave this false, and the capacity-changing contracts then say
    /// nothing of the resulting amount.
    ///
    /// None of the bridged standard collections models its capacity: their
    /// capacity is allocator state, not a function of the abstract collection
    /// value (cloning such a collection keeps the value but not the
    /// capacity), so no sound name for it exists.  An implementer that keeps
    /// its capacity as part of its own value can model it and then gets the
    /// full capacity guarantees below.
    spec fn capacity_modeled() -> bool;

    /// The abstract capacity of the collection.  Meaningful only where
    /// `capacity_modeled()` holds.
    spec fn capacity_spec(&self) -> nat;

    /// Returns the capacity of the collection.
    ///
    /// The capacity is never below the current length.  A collection of
    /// zero-sized units effectively has infinite capacity and reports
    /// `usize::MAX`.  Where the capacity is modeled, the result is exactly
    /// the modeled amount.
    fn capacity(&self) -> (c: usize)
        ensures
            c >= self.len_spec(),
            self.unbounded_capacity() ==> c == usize::MAX,
            Self::capacity_modeled() ==> c == self.capacity_spec(),
    ;
}

/// A capability for creating an empty collection with a given, pre-allocated
/// capacity.
///
/// Construction takes time and space linear in the requested capacity, and
/// `with_capacity(0)` behaves like default construction: it allocates nothing.
pub trait WithCapacity: Capacity + Default {
    /// Creates an empty collection able to hold at least `capacity` units
    /// without further allocation.
    ///
    /// A request of zero allocates nothing, so the result is observably the
    /// same as a default-constructed collection: empty, with no capacity
    /// (or unbounded capacity for zero-sized units).
    fn with_capacity(capacity: usize) -> (r: Self)
        ensures
            r.len_spec() == 0,
            Self::capacity_modeled() ==> r.capacity_spec() >= capacity,
            Self::capacity_modeled() && capacity == 0 && !r.unbounded_capacity()
                ==> r.capacity_spec() == 0,
    ;
}

/// A capability for hinting at how much capacity a collection should keep.
///
/// None of the three methods may change the data the collection holds.  The
/// reservation methods guarantee room for the stated number of further units;
/// shrinking never raises the capacity.  The exact amounts are stated over
/// the capacity model where the implementer has one.
pub trait CapacityMut: WithCapacity {
    /// The data the collection holds, which capacity hints must preserve.
    type Snapshot;

    /// The abstract contents of the collection.
    spec fn snapshot(&self) -> Self::Snapshot;

    /// Two collections with equal contents have equal lengths.
    ///
    /// Every implementer must prove this law, so callers of the methods below
    /// may conclude that the length is preserved as well.
    proof fn lemma_snapshot_determines_len(&self, other: &Self)
        requires
            self.snapshot() == other.snapshot(),
        ensures
            self.len_spec() == other.len_spec(),
    ;

    /// Ensures that the capacity is at least the current length plus
    /// `additional`, reallocating if needed.  The data is unchanged.
    fn reserve(&mut self, additional: usize)
        ensures
            final(self).snapshot() == old(self).snapshot(),
            Self::capacity_modeled() ==> final(self).capacity_spec() >= final(self).len_spec()
                + additional,
    ;

    /// Like `reserve`, with a strong hint not to over-allocate, and the same
    /// guarantee: it never under-allocates.  Collections without a distinct
    /// exact reservation primitive fall back to `reserve`.  The data is
    /// unchanged.
    fn reserve_exact(&mut self, additional: usize)
        ensures
            final(self).snapshot() == old(self).snapshot(),
            Self::capacity_modeled() ==> final(self).capacity_spec() >= final(self).len_spec()
                + additional,
    ;

    /// Reduces the capacity as close as possible to the current length,
    /// never raising it.  The data is unchanged.
    fn shrink_to_fit(&mut self)
        ensures
            final(self).snapshot() == old(self).snapshot(),
            Self::capacity_modeled() ==> final(self).capacity_spec() <= old(self).capacity_spec(),
    ;
}

/// The fallback for collections without a distinct exact reservation
/// primitive: `reserve` already guarantees everything `reserve_exact`
/// promises, so the hint is simply forwarded to it.
pub fn reserve_exact_fallback<C: CapacityMut>(c: &mut C, additional: usize)
    ensures
        final(c).snapshot() == old(c).snapshot(),
        C::capacity_modeled() ==> final(c).capacity_spec() >= final(c).len_spec() + additional,
{
    c.reserve(additional);
}

/// The fallback for collections without a native shrink operation: an empty
/// collection is replaced by a fresh one of no capacity, built like
/// `with_capacity(0)`; a collection still holding data is left unchanged.
pub fn shrink_to_fit_fallback<C: WithCapacity>(c: &mut C)
    ensures
        final(c).len_spec() == old(c).len_spec(),
        old(c).len_spec() != 0 ==> *final(c) == *old(c),
        old(c).len_spec() == 0 && C::capacity_modeled() && !final(c).unbounded_capacity()
            ==> final(c).capacity_spec() == 0,
{
    if c.is_empty() {
        proof {
            c.lemma_is_empty_iff_len_zero();
        }
        *c = C::with_capacity(0);
    } else {
        proof {
            c.lemma_is_empty_iff_len_zero();
        }
    }
}

/// Capacity hints preserve the length of the collection.
///
/// This law combines a hint's contract (the contents are unchanged) with the
/// implementer's proof that the contents determine the length.
pub proof fn lemma_capacity_hint_preserves_len<C: CapacityMut>(before: &C, after: &C)
    requires
        before.snapshot() == after.snapshot(),
    ensures
        before.len_spec() == after.len_spec(),
{
    before.lemma_snapshot_determines_len(after);
}

} // verus!
