//! Capabilities for consistent range slicing and splitting at an index.

use vstd::prelude::*;
use vstd::string::StringSliceAdditionalSpecFns;
use vstd::utf8::encode_utf8_valid_utf8;
use vstd::utf8::is_char_boundary;
use vstd::utf8::is_char_boundary_start_end_of_seq;

verus! {

/// The marker bound for the slicing capabilities.
///
/// Range slicing only makes sense for the two primitive sequence types,
/// element slices and text slices, which return one uniform view type for
/// every range form.  The slicing traits all require this marker, and the
/// library implements it for those two types only.
pub trait Sealed {
}

impl<T> Sealed for [T] {
}

impl Sealed for str {
}

/// A capability for collections that offer consistent, immutable slicing: a
/// view can be taken below a bounded range, an open-ended range, a
/// range up to a bound, or the full range, and every form returns the same
/// view type.
pub trait IndexRange: Sealed {
    /// The uniform view type every range form returns.
    type Output: ?Sized;

    /// The unit of data positions are measured in: an element for element
    /// slices, a byte for text.
    type Unit;

    /// The abstract contents of the collection, in order.
    spec fn units(&self) -> Seq<Self::Unit>;

    /// The abstract contents of a returned view.
    spec fn output_units(out: &Self::Output) -> Seq<Self::Unit>;

    /// Whether `i` is a position the collection may be sliced at.  Element
    /// slices can be sliced anywhere; text only on character boundaries.
    spec fn cut_ok(&self, i: int) -> bool;

    /// The two ends of the collection are always valid slice positions.
    ///
    /// Every implementer must prove this law, so generic code may rely on it.
    proof fn lemma_ends_cut_ok(&self)
        ensures
            self.cut_ok(0),
            self.cut_ok(self.units().len() as int),
    ;

    /// The view below a bounded range: the units from `start` to `end`.
    fn range(&self, start: usize, end: usize) -> (out: &Self::Output)
        requires
            start <= end <= self.units().len(),
            self.cut_ok(start as int),
            self.cut_ok(end as int),
        ensures
            Self::output_units(out) == self.units().subrange(start as int, end as int),
    ;

    /// The view below an open-ended range: the units from `start` on.
    fn range_from(&self, start: usize) -> (out: &Self::Output)
        requires
            start <= self.units().len(),
            self.cut_ok(start as int),
        ensures
            Self::output_units(out) == self.units().skip(start as int),
    ;

    /// The view below a range up to a bound: the units before `end`.
    fn range_to(&self, end: usize) -> (out: &Self::Output)
        requires
            end <= self.units().len(),
            self.cut_ok(end as int),
        ensures
            Self::output_units(out) == self.units().take(end as int),
    ;

    /// The view below the full range: all units.
    fn range_full(&self) -> (out: &Self::Output)
        ensures
            Self::output_units(out) == self.units(),
    ;
}

/// A capability for splitting a collection into two views at an index.
///
/// Splitting takes a constant amount of time and space.
pub trait SplitAt: IndexRange {
    /// Splits the collection at `index` into the view before the index and
    /// the view from the index on.  The two views do not overlap, and
    /// together they hold the original contents in order.
    ///
    /// A caller must not pass an index past the end of the collection, nor
    /// one that cuts inside a unit boundary.
    fn split_at(&self, index: usize) -> (out: (&Self::Output, &Self::Output))
        requires
            index <= self.units().len(),
            self.cut_ok(index as int),
        ensures
            Self::output_units(out.0) == self.units().take(index as int),
            Self::output_units(out.1) == self.units().skip(index as int),
    ;
}

/// The two views `split_at` returns reconstruct the original collection: the
/// first followed by the second holds exactly the original units, in order.
pub proof fn lemma_split_at_reconstructs<C: SplitAt + ?Sized>(c: &C, index: int)
    requires
        0 <= index <= c.units().len(),
    ensures
        c.units().take(index) + c.units().skip(index) == c.units(),
{
    assert(c.units().take(index) + c.units().skip(index) =~= c.units());
}

/// A capability for collections that offer consistent, mutable slicing: the
/// same four range forms as [`IndexRange`], each returning one uniform
/// mutable view type.
pub trait IndexRangeMut: IndexRange {
    /// The mutable view below a bounded range: the units from `start` to
    /// `end`.  Writes through the view land in that part of the collection;
    /// the rest is unchanged.  The view cannot change length.
    fn range_mut(&mut self, start: usize, end: usize) -> (out: &mut Self::Output)
        requires
            start <= end <= old(self).units().len(),
            old(self).cut_ok(start as int),
            old(self).cut_ok(end as int),
        ensures
            Self::output_units(out) == old(self).units().subrange(start as int, end as int),
            Self::output_units(final(out)).len() == end - start,
            final(self).units() == old(self).units().take(start as int) + Self::output_units(
                final(out),
            ) + old(self).units().skip(end as int),
    ;

    /// The mutable view below an open-ended range: the units from `start` on.
    fn range_from_mut(&mut self, start: usize) -> (out: &mut Self::Output)
        requires
            start <= old(self).units().len(),
            old(self).cut_ok(start as int),
        ensures
            Self::output_units(out) == old(self).units().skip(start as int),
            Self::output_units(final(out)).len() == old(self).units().len() - start,
            final(self).units() == old(self).units().take(start as int) + Self::output_units(
                final(out),
            ),
    ;

    /// The mutable view below a range up to a bound: the units before `end`.
    fn range_to_mut(&mut self, end: usize) -> (out: &mut Self::Output)
        requires
            end <= old(self).units().len(),
            old(self).cut_ok(end as int),
        ensures
            Self::output_units(out) == old(self).units().take(end as int),
            Self::output_units(final(out)).len() == end as int,
            final(self).units() == Self::output_units(final(out)) + old(self).units().skip(
                end as int,
            ),
    ;

    /// The mutable view below the full range: all units.
    fn range_full_mut(&mut self) -> (out: &mut Self::Output)
        ensures
            Self::output_units(out) == old(self).units(),
            Self::output_units(final(out)).len() == old(self).units().len(),
            final(self).units() == Self::output_units(final(out)),
    ;
}

/// A capability for splitting a collection into two mutable views at an
/// index.
///
/// Splitting takes a constant amount of time and space.
pub trait SplitAtMut: IndexRangeMut + SplitAt {
    /// Splits the collection at `index` into the mutable view before the
    /// index and the mutable view from the index on.  The two views do not
    /// overlap: writes through one never show up in the other, and the
    /// collection afterwards holds whatever the two views were brought to,
    /// in order.
    ///
    /// A caller must not pass an index past the end of the collection, nor
    /// one that cuts inside a unit boundary.
    fn split_at_mut(&mut self, index: usize) -> (out: (&mut Self::Output, &mut Self::Output))
        requires
            index <= old(self).units().len(),
            old(self).cut_ok(index as int),
        ensures
            Self::output_units(out.0) == old(self).units().take(index as int),
            Self::output_units(out.1) == old(self).units().skip(index as int),
            Self::output_units(final(out.0)).len() == index as int,
            Self::output_units(final(out.1)).len() == old(self).units().len() - index,
            final(self).units() == Self::output_units(final(out.0)) + Self::output_units(
                final(out.1),
            ),
    ;
}

// ------------------------------------------------------------------
// Trusted views of the native slicing operations that vstd gives no
// contract to.
// ------------------------------------------------------------------

/// Relies on mutable range indexing of slices: the view is the chosen part of
/// the slice, cannot change length, and writes through it land there and
/// nowhere else.
#[verifier::external_body]
fn slice_range_mut<T>(s: &mut [T], start: usize, end: usize) -> (out: &mut [T])
    requires
        start <= end <= old(s)@.len(),
    ensures
        out@ == old(s)@.subrange(start as int, end as int),
        final(out)@.len() == end - start,
        final(s)@ == old(s)@.take(start as int) + final(out)@ + old(s)@.skip(end as int),
{
    &mut s[start..end]
}

/// Relies on the native split of a slice into two disjoint mutable halves:
/// each view holds its half, cannot change length, and the slice afterwards
/// is the two views in order.
#[verifier::external_body]
fn slice_split_at_mut<T>(s: &mut [T], index: usize) -> (out: (&mut [T], &mut [T]))
    requires
        index <= old(s)@.len(),
    ensures
        out.0@ == old(s)@.take(index as int),
        out.1@ == old(s)@.skip(index as int),
        final(out.0)@.len() == index as int,
        final(out.1)@.len() == old(s)@.len() - index,
        final(s)@ == final(out.0)@ + final(out.1)@,
{
    <[T]>::split_at_mut(s, index)
}

/// A character boundary within a prefix of a text is still a character
/// boundary of the prefix itself, as long as the prefix also ends on a
/// character boundary.
proof fn lemma_char_boundary_in_prefix(bytes: Seq<u8>, start: int, end: int)
    requires
        vstd::utf8::valid_utf8(bytes),
        is_char_boundary(bytes, start),
        is_char_boundary(bytes, end),
        start <= end,
    ensures
        is_char_boundary(bytes.subrange(0, end), start),
{
    let prefix = bytes.subrange(0, end);
    vstd::utf8::valid_utf8_split(bytes, end);
    if start == end {
        is_char_boundary_start_end_of_seq(prefix);
    } else if 0 < start < end {
        vstd::utf8::is_char_boundary_iff_not_is_continuation_byte(bytes, start);
        vstd::utf8::is_char_boundary_iff_not_is_continuation_byte(prefix, start);
    }
}

/// Relies on the native length query of text.  Its vstd contract returns the
/// byte length cast to `usize`; this wrapper adds only that no truncation
/// happens in that cast: text lives in memory, so its byte length always
/// fits in `usize`.
#[verifier::external_body]
pub(crate) fn str_byte_len(s: &str) -> (n: usize)
    ensures
        n == s.spec_bytes().len(),
{
    s.len()
}

/// Relies on mutable range indexing of text: the view is the chosen part of
/// the text, cannot change byte length, and writes through it land there and
/// nowhere else.
#[verifier::external_body]
fn str_range_mut(s: &mut str, start: usize, end: usize) -> (out: &mut str)
    requires
        start <= end <= old(s).spec_bytes().len(),
        is_char_boundary(old(s).spec_bytes(), start as int),
        is_char_boundary(old(s).spec_bytes(), end as int),
    ensures
        out.spec_bytes() == old(s).spec_bytes().subrange(start as int, end as int),
        final(out).spec_bytes().len() == end - start,
        final(s).spec_bytes() == old(s).spec_bytes().take(start as int) + final(out).spec_bytes()
            + old(s).spec_bytes().skip(end as int),
{
    &mut s[start..end]
}

/// Relies on the native split of text into two disjoint mutable halves at a
/// character boundary: each view holds its half, cannot change byte length,
/// and the text afterwards is the two views in order.
#[verifier::external_body]
fn str_split_at_mut(s: &mut str, index: usize) -> (out: (&mut str, &mut str))
    requires
        index <= old(s).spec_bytes().len(),
        is_char_boundary(old(s).spec_bytes(), index as int),
    ensures
        out.0.spec_bytes() == old(s).spec_bytes().take(index as int),
        out.1.spec_bytes() == old(s).spec_bytes().skip(index as int),
        final(out.0).spec_bytes().len() == index as int,
        final(out.1).spec_bytes().len() == old(s).spec_bytes().len() - index,
        final(s).spec_bytes() == final(out.0).spec_bytes() + final(out.1).spec_bytes(),
{
    str::split_at_mut(s, index)
}

// ------------------------------------------------------------------
// Element slices.
// ------------------------------------------------------------------

impl<T> IndexRange for [T] {
    type Output = [T];

    type Unit = T;

    open spec fn units(&self) -> Seq<T> {
        self@
    }

    open spec fn output_units(out: &[T]) -> Seq<T> {
        out@
    }

    open spec fn cut_ok(&self, i: int) -> bool {
        true
    }

    proof fn lemma_ends_cut_ok(&self) {
    }

    fn range(&self, start: usize, end: usize) -> (out: &[T]) {
        &self[start..end]
    }

    fn range_from(&self, start: usize) -> (out: &[T]) {
        let n: usize = self.len();
        let out = &self[start..n];
        proof {
            assert(out@ =~= self@.skip(start as int));
        }
        out
    }

    fn range_to(&self, end: usize) -> (out: &[T]) {
        let out = &self[0..end];
        proof {
            assert(out@ =~= self@.take(end as int));
        }
        out
    }

    fn range_full(&self) -> (out: &[T]) {
        self
    }
}

impl<T> SplitAt for [T] {
    fn split_at(&self, index: usize) -> (out: (&[T], &[T])) {
        (self.range_to(index), self.range_from(index))
    }
}

impl<T> IndexRangeMut for [T] {
    fn range_mut(&mut self, start: usize, end: usize) -> (out: &mut [T]) {
        slice_range_mut(self, start, end)
    }

    fn range_from_mut(&mut self, start: usize) -> (out: &mut [T]) {
        let ghost s0: Seq<T> = self@;
        let n: usize = self.len();
        let out = self.range_mut(start, n);
        proof {
            assert(s0.subrange(start as int, s0.len() as int) =~= s0.skip(start as int));
            assert(s0.skip(s0.len() as int) =~= Seq::<T>::empty());
            assert(s0.take(start as int) + final(out)@ + Seq::<T>::empty() =~= s0.take(
                start as int,
            ) + final(out)@);
        }
        out
    }

    fn range_to_mut(&mut self, end: usize) -> (out: &mut [T]) {
        let ghost s0: Seq<T> = self@;
        let out = self.range_mut(0, end);
        proof {
            assert(s0.subrange(0, end as int) =~= s0.take(end as int));
            assert(s0.take(0) =~= Seq::<T>::empty());
            assert(Seq::<T>::empty() + final(out)@ + s0.skip(end as int) =~= final(out)@
                + s0.skip(end as int));
        }
        out
    }

    fn range_full_mut(&mut self) -> (out: &mut [T]) {
        let ghost s0: Seq<T> = self@;
        let n: usize = self.len();
        let out = self.range_mut(0, n);
        proof {
            assert(s0.subrange(0, s0.len() as int) =~= s0);
            assert(s0.take(0) =~= Seq::<T>::empty());
            assert(s0.skip(s0.len() as int) =~= Seq::<T>::empty());
            assert(Seq::<T>::empty() + final(out)@ + Seq::<T>::empty() =~= final(out)@);
        }
        out
    }
}

impl<T> SplitAtMut for [T] {
    fn split_at_mut(&mut self, index: usize) -> (out: (&mut [T], &mut [T])) {
        slice_split_at_mut(self, index)
    }
}

// ------------------------------------------------------------------
// Text slices.  Positions are byte positions, and a slice boundary must
// lie on a character boundary.
// ------------------------------------------------------------------

impl IndexRange for str {
    type Output = str;

    type Unit = u8;

    open spec fn units(&self) -> Seq<u8> {
        self.spec_bytes()
    }

    open spec fn output_units(out: &str) -> Seq<u8> {
        out.spec_bytes()
    }

    open spec fn cut_ok(&self, i: int) -> bool {
        is_char_boundary(self.spec_bytes(), i)
    }

    proof fn lemma_ends_cut_ok(&self) {
        encode_utf8_valid_utf8(self@);
        is_char_boundary_start_end_of_seq(self.spec_bytes());
    }

    fn range(&self, start: usize, end: usize) -> (out: &str) {
        proof {
            encode_utf8_valid_utf8(self@);
            lemma_char_boundary_in_prefix(self.spec_bytes(), start as int, end as int);
        }
        let head = str::split_at(self, end).0;
        let out = str::split_at(head, start).1;
        proof {
            assert(out.spec_bytes() =~= self.spec_bytes().subrange(start as int, end as int));
        }
        out
    }

    fn range_from(&self, start: usize) -> (out: &str) {
        let out = str::split_at(self, start).1;
        proof {
            assert(out.spec_bytes() =~= self.spec_bytes().skip(start as int));
        }
        out
    }

    fn range_to(&self, end: usize) -> (out: &str) {
        let out = str::split_at(self, end).0;
        proof {
            assert(out.spec_bytes() =~= self.spec_bytes().take(end as int));
        }
        out
    }

    fn range_full(&self) -> (out: &str) {
        self
    }
}

impl SplitAt for str {
    fn split_at(&self, index: usize) -> (out: (&str, &str)) {
        let out = str::split_at(self, index);
        proof {
            assert(out.0.spec_bytes() =~= self.spec_bytes().take(index as int));
            assert(out.1.spec_bytes() =~= self.spec_bytes().skip(index as int));
        }
        out
    }
}

impl IndexRangeMut for str {
    fn range_mut(&mut self, start: usize, end: usize) -> (out: &mut str) {
        str_range_mut(self, start, end)
    }

    fn range_from_mut(&mut self, start: usize) -> (out: &mut str) {
        let ghost s0: Seq<u8> = self.spec_bytes();
        proof {
            self.lemma_ends_cut_ok();
        }
        let n: usize = str_byte_len(self);
        let out = self.range_mut(start, n);
        proof {
            assert(s0.subrange(start as int, s0.len() as int) =~= s0.skip(start as int));
            assert(s0.skip(s0.len() as int) =~= Seq::<u8>::empty());
            assert(s0.take(start as int) + final(out).spec_bytes() + Seq::<u8>::empty() =~= s0.take(
                start as int,
            ) + final(out).spec_bytes());
        }
        out
    }

    fn range_to_mut(&mut self, end: usize) -> (out: &mut str) {
        let ghost s0: Seq<u8> = self.spec_bytes();
        proof {
            self.lemma_ends_cut_ok();
        }
        let out = self.range_mut(0, end);
        proof {
            assert(s0.subrange(0, end as int) =~= s0.take(end as int));
            assert(s0.take(0) =~= Seq::<u8>::empty());
            assert(Seq::<u8>::empty() + final(out).spec_bytes() + s0.skip(end as int)
                =~= final(out).spec_bytes() + s0.skip(end as int));
        }
        out
    }

    fn range_full_mut(&mut self) -> (out: &mut str) {
        let ghost s0: Seq<u8> = self.spec_bytes();
        proof {
            self.lemma_ends_cut_ok();
        }
        let n: usize = str_byte_len(self);
        let out = self.range_mut(0, n);
        proof {
            assert(s0.subrange(0, s0.len() as int) =~= s0);
            assert(s0.take(0) =~= Seq::<u8>::empty());
            assert(s0.skip(s0.len() as int) =~= Seq::<u8>::empty());
            assert(Seq::<u8>::empty() + final(out).spec_bytes() + Seq::<u8>::empty()
                =~= final(out).spec_bytes());
        }
        out
    }
}

impl SplitAtMut for str {
    fn split_at_mut(&mut self, index: usize) -> (out: (&mut str, &mut str)) {
        str_split_at_mut(self, index)
    }
}

} // verus!
