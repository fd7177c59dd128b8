//! Capabilities involving the length of a collection.

use vstd::prelude::*;

verus! {

/// The root capability: a collection that can report whether it is empty.
///
/// Checking emptiness takes a constant amount of time and space.
pub trait Empty {
    /// The abstract emptiness of the collection.
    spec fn is_empty_spec(&self) -> bool;

    /// Returns whether the collection is empty.
    fn is_empty(&self) -> (r: bool)
        ensures
            r == self.is_empty_spec(),
    ;
}

/// A capability for collections that can report their length.
///
/// The length counts the units of data a collection stores, so text types
/// measure their length in code units (bytes), not in code points.  Obtaining
/// the length takes a constant amount of time and space.
pub trait Len: Empty {
    /// The abstract length of the collection.
    spec fn len_spec(&self) -> nat;

    /// A collection is empty exactly when its length is zero.
    ///
    /// Every implementer must prove this law, so generic code may rely on it.
    proof fn lemma_is_empty_iff_len_zero(&self)
        ensures
            self.is_empty_spec() <==> self.len_spec() == 0,
    ;

    /// Returns the length of the collection.
    fn len(&self) -> (n: usize)
        ensures
            n == self.len_spec(),
    ;
}

/// A capability for collections that can drop all of their data at once.
///
/// Clearing takes at most a linear amount of time and space.
pub trait Clear: Len {
    /// Clears the collection, dropping its elements and returning its length
    /// to zero.
    fn clear(&mut self)
        ensures
            final(self).len_spec() == 0,
    ;
}

/// A capability for collections that can shorten themselves, dropping or
/// giving away the data past a boundary.
///
/// Both methods take at most a linear amount of time and space with respect
/// to the number of units which are moved or dropped.
pub trait LenMut: Clear + Default {
    /// The unit of data the collection stores: an element for element
    /// sequences, a byte for text.
    type Item;

    /// The abstract contents of the collection, in order.
    spec fn contents(&self) -> Seq<Self::Item>;

    /// Whether `i` is a boundary the collection may be cut at.  Element
    /// sequences can be cut anywhere; text only on character boundaries.
    spec fn cut_ok(&self, i: int) -> bool;

    /// The length of the collection is the length of its contents.
    ///
    /// Every implementer must prove this law, so generic code may rely on it.
    proof fn lemma_len_is_contents_len(&self)
        ensures
            self.len_spec() == self.contents().len(),
    ;

    /// The two ends of the collection are always valid cut boundaries.
    ///
    /// Every implementer must prove this law, so generic code may rely on it.
    proof fn lemma_ends_cut_ok(&self)
        ensures
            self.cut_ok(0),
            self.cut_ok(self.contents().len() as int),
    ;

    /// Truncates the collection to be no longer than `len`, dropping units
    /// past that boundary.  If the collection is no longer than `len`, it is
    /// unchanged.
    ///
    /// A caller must not cut inside a unit boundary: for text, `len` must lie
    /// on a character boundary whenever it falls inside the text.
    fn truncate(&mut self, len: usize)
        requires
            len < old(self).len_spec() ==> old(self).cut_ok(len as int),
        ensures
            len <= old(self).len_spec() ==> final(self).contents() == old(self).contents().take(
                len as int,
            ),
            len > old(self).len_spec() ==> final(self).contents() == old(self).contents(),
            final(self).len_spec() == if len <= old(self).len_spec() {
                len as nat
            } else {
                old(self).len_spec()
            },
    ;

    /// Splits the collection at `index`, keeping the data before the boundary
    /// and returning the data past it.
    ///
    /// A caller must not pass an index past the end of the collection, nor
    /// one that cuts inside a unit boundary.
    fn split_off(&mut self, index: usize) -> (tail: Self)
        requires
            index <= old(self).len_spec(),
            old(self).cut_ok(index as int),
        ensures
            final(self).contents() == old(self).contents().take(index as int),
            tail.contents() == old(self).contents().skip(index as int),
            final(self).len_spec() == index as nat,
            tail.len_spec() == old(self).len_spec() - index,
    ;
}

/// The two pieces `split_off` leaves behind reconstruct the original
/// collection: the kept piece followed by the returned piece holds exactly
/// the original contents, in order.
pub proof fn lemma_split_off_reconstructs<C: LenMut>(pre: &C, post: &C, tail: &C, index: int)
    requires
        0 <= index <= pre.contents().len(),
        post.contents() == pre.contents().take(index),
        tail.contents() == pre.contents().skip(index),
    ensures
        post.contents() + tail.contents() == pre.contents(),
{
    assert(pre.contents().take(index) + pre.contents().skip(index) =~= pre.contents());
}

/// A collection whose length is zero is empty.
///
/// This law lets callers of [`Clear::clear`] conclude that the cleared
/// collection also reports itself as empty.
pub proof fn lemma_len_zero_is_empty<C: Len + ?Sized>(c: &C)
    requires
        c.len_spec() == 0,
    ensures
        c.is_empty_spec(),
{
    c.lemma_is_empty_iff_len_zero();
}

} // verus!
