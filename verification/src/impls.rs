//! Bridges from the standard collections to the capability traits.

use std::collections::BTreeMap;
use std::collections::BTreeSet;
use std::collections::HashMap;
use std::collections::HashSet;
use std::collections::VecDeque;
use vstd::prelude::*;
use vstd::std_specs::btree::spec_btree_map_len;
use vstd::std_specs::btree::spec_btree_set_len;
use vstd::std_specs::hash::spec_hash_map_len;
use vstd::std_specs::hash::spec_hash_set_len;
use vstd::layout::size_of;
use vstd::string::StringSliceAdditionalSpecFns;
use vstd::utf8::encode_scalar;
use vstd::utf8::encode_utf8;
use vstd::utf8::encode_utf8_valid_utf8;
use vstd::utf8::is_char_boundary;
use vstd::utf8::is_char_boundary_start_end_of_seq;
use crate::capacity::Capacity;
use crate::capacity::CapacityMut;
use crate::capacity::WithCapacity;
use crate::len::Clear;
use crate::len::Empty;
use crate::len::Len;
use crate::len::LenMut;

verus! {

// ------------------------------------------------------------------
// Trusted views of standard functions whose contracts vstd either does
// not state or states only conditionally on its key models.
// ------------------------------------------------------------------

/// Relies on `Vec::capacity`: at least the length; `usize::MAX` for
/// zero-sized element types, which a vector holds without allocating.
#[verifier::external_body]
fn vec_capacity<T>(v: &Vec<T>) -> (c: usize)
    ensures
        c >= v@.len(),
        size_of::<T>() == 0 ==> c == usize::MAX,
{
    v.capacity()
}

/// Relies on `Vec::reserve_exact`: an allocation hint; the elements stay as
/// they are.
#[verifier::external_body]
fn vec_reserve_exact<T>(v: &mut Vec<T>, additional: usize)
    ensures
        final(v)@ == old(v)@,
{
    v.reserve_exact(additional)
}

/// Relies on `Vec::shrink_to_fit`: an allocation hint; the elements stay as
/// they are.
#[verifier::external_body]
fn vec_shrink_to_fit<T>(v: &mut Vec<T>)
    ensures
        final(v)@ == old(v)@,
{
    v.shrink_to_fit()
}

/// Relies on `VecDeque::capacity`: at least the length.
#[verifier::external_body]
fn vecdeque_capacity<T>(v: &VecDeque<T>) -> (c: usize)
    ensures
        c >= v@.len(),
{
    v.capacity()
}

/// Relies on `VecDeque::reserve_exact`: an allocation hint; the elements stay
/// as they are.
#[verifier::external_body]
fn vecdeque_reserve_exact<T>(v: &mut VecDeque<T>, additional: usize)
    ensures
        final(v)@ == old(v)@,
{
    v.reserve_exact(additional)
}

/// Relies on `VecDeque::shrink_to_fit`: an allocation hint; the elements stay
/// as they are.
#[verifier::external_body]
fn vecdeque_shrink_to_fit<T>(v: &mut VecDeque<T>)
    ensures
        final(v)@ == old(v)@,
{
    v.shrink_to_fit()
}

/// Relies on `String::capacity`: at least the byte length.
#[verifier::external_body]
fn string_capacity(s: &String) -> (c: usize)
    ensures
        c >= encode_utf8(s@).len(),
{
    s.capacity()
}

/// Relies on `String::with_capacity`: an empty text with room for at least
/// `capacity` bytes.
#[verifier::external_body]
fn string_with_capacity(capacity: usize) -> (r: String)
    ensures
        r@ == Seq::<char>::empty(),
{
    String::with_capacity(capacity)
}

/// Relies on `String::clear`: all characters are dropped.
#[verifier::external_body]
fn string_clear(s: &mut String)
    ensures
        final(s)@ == Seq::<char>::empty(),
{
    s.clear()
}

/// Relies on `String::truncate`: keeps the bytes before `new_len` when that
/// is a character boundary within the text, does nothing when `new_len` is
/// past the end.
#[verifier::external_body]
fn string_truncate(s: &mut String, new_len: usize)
    requires
        new_len < encode_utf8(old(s)@).len() ==> is_char_boundary(
            encode_utf8(old(s)@),
            new_len as int,
        ),
    ensures
        new_len <= encode_utf8(old(s)@).len() ==> encode_utf8(final(s)@) == encode_utf8(
            old(s)@,
        ).take(new_len as int),
        new_len > encode_utf8(old(s)@).len() ==> final(s)@ == old(s)@,
{
    s.truncate(new_len)
}

/// Relies on `String::split_off`: cuts the text at a character boundary,
/// keeping the bytes before it and returning the bytes from it on.
#[verifier::external_body]
fn string_split_off(s: &mut String, at: usize) -> (tail: String)
    requires
        at <= encode_utf8(old(s)@).len(),
        is_char_boundary(encode_utf8(old(s)@), at as int),
    ensures
        encode_utf8(final(s)@) == encode_utf8(old(s)@).take(at as int),
        encode_utf8(tail@) == encode_utf8(old(s)@).skip(at as int),
{
    s.split_off(at)
}

/// Relies on `String::reserve`: an allocation hint; the characters stay as
/// they are.
#[verifier::external_body]
fn string_reserve(s: &mut String, additional: usize)
    ensures
        final(s)@ == old(s)@,
{
    s.reserve(additional)
}

/// Relies on `String::reserve_exact`: an allocation hint; the characters
/// stay as they are.
#[verifier::external_body]
fn string_reserve_exact(s: &mut String, additional: usize)
    ensures
        final(s)@ == old(s)@,
{
    s.reserve_exact(additional)
}

/// Relies on `String::shrink_to_fit`: an allocation hint; the characters
/// stay as they are.
#[verifier::external_body]
fn string_shrink_to_fit(s: &mut String)
    ensures
        final(s)@ == old(s)@,
{
    s.shrink_to_fit()
}

/// Relies on `HashMap::capacity`: the map holds that many entries without
/// reallocating, so it is at least the length.
#[verifier::external_body]
fn hash_map_capacity<K, V>(m: &HashMap<K, V>) -> (c: usize)
    ensures
        c >= spec_hash_map_len(m),
{
    m.capacity()
}

/// Relies on `HashMap::with_capacity`: an empty map with room for at least
/// `capacity` entries.
#[verifier::external_body]
fn hash_map_with_capacity<K, V>(capacity: usize) -> (m: HashMap<K, V>)
    ensures
        m@.dom() == Set::<K>::empty() && spec_hash_map_len(&m) == 0,
{
    HashMap::with_capacity(capacity)
}

/// Relies on `HashMap::clear`: all entries are dropped, so the length
/// becomes zero.
#[verifier::external_body]
fn hash_map_clear<K, V>(m: &mut HashMap<K, V>)
    ensures
        final(m)@.dom() == Set::<K>::empty(),
        spec_hash_map_len(final(m)) == 0,
{
    m.clear()
}

/// Relies on `HashMap::reserve`: an allocation hint; the entries stay as
/// they are.
#[verifier::external_body]
fn hash_map_reserve<K: std::cmp::Eq + std::hash::Hash, V>(m: &mut HashMap<K, V>, additional: usize)
    ensures
        final(m)@ == old(m)@,
        spec_hash_map_len(final(m)) == spec_hash_map_len(old(m)),
{
    m.reserve(additional)
}

/// Relies on `HashMap::shrink_to_fit`: an allocation hint; the entries stay
/// as they are.
#[verifier::external_body]
fn hash_map_shrink_to_fit<K: std::cmp::Eq + std::hash::Hash, V>(m: &mut HashMap<K, V>)
    ensures
        final(m)@ == old(m)@,
        spec_hash_map_len(final(m)) == spec_hash_map_len(old(m)),
{
    m.shrink_to_fit()
}

/// Relies on `HashSet::capacity`: the set holds that many values without
/// reallocating, so it is at least the length.
#[verifier::external_body]
fn hash_set_capacity<K>(m: &HashSet<K>) -> (c: usize)
    ensures
        c >= spec_hash_set_len(m),
{
    m.capacity()
}

/// Relies on `HashSet::with_capacity`: an empty set with room for at least
/// `capacity` values.
#[verifier::external_body]
fn hash_set_with_capacity<K>(capacity: usize) -> (m: HashSet<K>)
    ensures
        m@ == Set::<K>::empty() && spec_hash_set_len(&m) == 0,
{
    HashSet::with_capacity(capacity)
}

/// Relies on `HashSet::clear`: all values are dropped, so the length becomes
/// zero.
#[verifier::external_body]
fn hash_set_clear<K>(m: &mut HashSet<K>)
    ensures
        final(m)@ == Set::<K>::empty(),
        spec_hash_set_len(final(m)) == 0,
{
    m.clear()
}

/// Relies on `HashSet::reserve`: an allocation hint; the values stay as they
/// are.
#[verifier::external_body]
fn hash_set_reserve<K: std::cmp::Eq + std::hash::Hash>(m: &mut HashSet<K>, additional: usize)
    ensures
        final(m)@ == old(m)@,
        spec_hash_set_len(final(m)) == spec_hash_set_len(old(m)),
{
    m.reserve(additional)
}

/// Relies on `HashSet::shrink_to_fit`: an allocation hint; the values stay
/// as they are.
#[verifier::external_body]
fn hash_set_shrink_to_fit<K: std::cmp::Eq + std::hash::Hash>(m: &mut HashSet<K>)
    ensures
        final(m)@ == old(m)@,
        spec_hash_set_len(final(m)) == spec_hash_set_len(old(m)),
{
    m.shrink_to_fit()
}

/// Relies on `BTreeMap::clear`: all entries are dropped, so the length
/// becomes zero.
#[verifier::external_body]
fn btree_map_clear<K, V>(m: &mut BTreeMap<K, V>)
    ensures
        spec_btree_map_len(final(m)) == 0,
{
    m.clear()
}

/// Relies on `BTreeSet::clear`: all values are dropped, so the length
/// becomes zero.
#[verifier::external_body]
fn btree_set_clear<K>(m: &mut BTreeSet<K>)
    ensures
        spec_btree_set_len(final(m)) == 0,
{
    m.clear()
}

/// The byte encoding of a text is empty exactly when the text has no
/// characters: every character encodes to at least one byte.
proof fn lemma_encode_utf8_len_zero(chars: Seq<char>)
    ensures
        (encode_utf8(chars).len() == 0) <==> (chars.len() == 0),
{
    if chars.len() != 0 {
        assert(encode_scalar(chars[0] as u32).len() >= 1);
    }
}

// ------------------------------------------------------------------
// Vec<T>: the full length and capacity capability stack.
// ------------------------------------------------------------------

impl<T> Empty for Vec<T> {
    open spec fn is_empty_spec(&self) -> bool {
        self@.len() == 0
    }

    fn is_empty(&self) -> (r: bool) {
        Vec::is_empty(self)
    }
}

impl<T> Len for Vec<T> {
    open spec fn len_spec(&self) -> nat {
        self@.len()
    }

    proof fn lemma_is_empty_iff_len_zero(&self) {
    }

    fn len(&self) -> (n: usize) {
        Vec::len(self)
    }
}

impl<T> Clear for Vec<T> {
    fn clear(&mut self) {
        Vec::clear(self)
    }
}

impl<T> LenMut for Vec<T> {
    type Item = T;

    open spec fn contents(&self) -> Seq<T> {
        self@
    }

    open spec fn cut_ok(&self, i: int) -> bool {
        true
    }

    proof fn lemma_len_is_contents_len(&self) {
    }

    proof fn lemma_ends_cut_ok(&self) {
    }

    fn truncate(&mut self, len: usize) {
        Vec::truncate(self, len)
    }

    fn split_off(&mut self, index: usize) -> (tail: Self) {
        Vec::split_off(self, index)
    }
}

impl<T> Capacity for Vec<T> {
    open spec fn unbounded_capacity(&self) -> bool {
        size_of::<T>() == 0
    }

    open spec fn capacity_modeled() -> bool {
        false
    }

    open spec fn capacity_spec(&self) -> nat {
        0
    }

    fn capacity(&self) -> (c: usize) {
        vec_capacity(self)
    }
}

impl<T> WithCapacity for Vec<T> {
    fn with_capacity(capacity: usize) -> (r: Self) {
        Vec::with_capacity(capacity)
    }
}

impl<T> CapacityMut for Vec<T> {
    type Snapshot = Seq<T>;

    open spec fn snapshot(&self) -> Seq<T> {
        self@
    }

    proof fn lemma_snapshot_determines_len(&self, other: &Self) {
    }

    fn reserve(&mut self, additional: usize) {
        Vec::reserve(self, additional)
    }

    fn reserve_exact(&mut self, additional: usize) {
        vec_reserve_exact(self, additional)
    }

    fn shrink_to_fit(&mut self) {
        vec_shrink_to_fit(self)
    }
}

// ------------------------------------------------------------------
// String: the full length and capacity capability stack, with lengths
// and boundaries measured in bytes.
// ------------------------------------------------------------------

impl Empty for String {
    open spec fn is_empty_spec(&self) -> bool {
        self@.len() == 0
    }

    fn is_empty(&self) -> (r: bool) {
        str::is_empty(self.as_str())
    }
}

impl Len for String {
    open spec fn len_spec(&self) -> nat {
        encode_utf8(self@).len()
    }

    proof fn lemma_is_empty_iff_len_zero(&self) {
        lemma_encode_utf8_len_zero(self@);
    }

    fn len(&self) -> (n: usize) {
        crate::index::str_byte_len(self.as_str())
    }
}

impl Clear for String {
    fn clear(&mut self) {
        string_clear(self);
        proof {
            lemma_encode_utf8_len_zero(self@);
        }
    }
}

impl LenMut for String {
    type Item = u8;

    open spec fn contents(&self) -> Seq<u8> {
        encode_utf8(self@)
    }

    open spec fn cut_ok(&self, i: int) -> bool {
        is_char_boundary(encode_utf8(self@), i)
    }

    proof fn lemma_len_is_contents_len(&self) {
    }

    proof fn lemma_ends_cut_ok(&self) {
        encode_utf8_valid_utf8(self@);
        is_char_boundary_start_end_of_seq(encode_utf8(self@));
    }

    fn truncate(&mut self, len: usize) {
        string_truncate(self, len)
    }

    fn split_off(&mut self, index: usize) -> (tail: Self) {
        string_split_off(self, index)
    }
}

impl Capacity for String {
    open spec fn unbounded_capacity(&self) -> bool {
        false
    }

    open spec fn capacity_modeled() -> bool {
        false
    }

    open spec fn capacity_spec(&self) -> nat {
        0
    }

    fn capacity(&self) -> (c: usize) {
        string_capacity(self)
    }
}

impl WithCapacity for String {
    fn with_capacity(capacity: usize) -> (r: Self) {
        let r = string_with_capacity(capacity);
        proof {
            lemma_encode_utf8_len_zero(r@);
        }
        r
    }
}

impl CapacityMut for String {
    type Snapshot = Seq<u8>;

    open spec fn snapshot(&self) -> Seq<u8> {
        encode_utf8(self@)
    }

    proof fn lemma_snapshot_determines_len(&self, other: &Self) {
    }

    fn reserve(&mut self, additional: usize) {
        string_reserve(self, additional)
    }

    fn reserve_exact(&mut self, additional: usize) {
        string_reserve_exact(self, additional)
    }

    fn shrink_to_fit(&mut self) {
        string_shrink_to_fit(self)
    }
}

// ------------------------------------------------------------------
// VecDeque<T>: the full length and capacity capability stack.
// ------------------------------------------------------------------

impl<T> Empty for VecDeque<T> {
    open spec fn is_empty_spec(&self) -> bool {
        self@.len() == 0
    }

    fn is_empty(&self) -> (r: bool) {
        VecDeque::len(self) == 0
    }
}

impl<T> Len for VecDeque<T> {
    open spec fn len_spec(&self) -> nat {
        self@.len()
    }

    proof fn lemma_is_empty_iff_len_zero(&self) {
    }

    fn len(&self) -> (n: usize) {
        VecDeque::len(self)
    }
}

impl<T> Clear for VecDeque<T> {
    fn clear(&mut self) {
        VecDeque::clear(self)
    }
}

impl<T> LenMut for VecDeque<T> {
    type Item = T;

    open spec fn contents(&self) -> Seq<T> {
        self@
    }

    open spec fn cut_ok(&self, i: int) -> bool {
        true
    }

    proof fn lemma_len_is_contents_len(&self) {
    }

    proof fn lemma_ends_cut_ok(&self) {
    }

    fn truncate(&mut self, len: usize) {
        VecDeque::truncate(self, len)
    }

    fn split_off(&mut self, index: usize) -> (tail: Self) {
        VecDeque::split_off(self, index)
    }
}

impl<T> Capacity for VecDeque<T> {
    open spec fn unbounded_capacity(&self) -> bool {
        false
    }

    open spec fn capacity_modeled() -> bool {
        false
    }

    open spec fn capacity_spec(&self) -> nat {
        0
    }

    fn capacity(&self) -> (c: usize) {
        vecdeque_capacity(self)
    }
}

impl<T> WithCapacity for VecDeque<T> {
    fn with_capacity(capacity: usize) -> (r: Self) {
        VecDeque::with_capacity(capacity)
    }
}

impl<T> CapacityMut for VecDeque<T> {
    type Snapshot = Seq<T>;

    open spec fn snapshot(&self) -> Seq<T> {
        self@
    }

    proof fn lemma_snapshot_determines_len(&self, other: &Self) {
    }

    fn reserve(&mut self, additional: usize) {
        VecDeque::reserve(self, additional)
    }

    fn reserve_exact(&mut self, additional: usize) {
        vecdeque_reserve_exact(self, additional)
    }

    fn shrink_to_fit(&mut self) {
        vecdeque_shrink_to_fit(self)
    }
}

// ------------------------------------------------------------------
// Hash maps and hash sets: length, clearing, and the inexact capacity
// binding, which reuses `reserve` for `reserve_exact`.
// ------------------------------------------------------------------

impl<K: std::cmp::Eq + std::hash::Hash, V> Empty for HashMap<K, V> {
    open spec fn is_empty_spec(&self) -> bool {
        spec_hash_map_len(self) == 0
    }

    fn is_empty(&self) -> (r: bool) {
        HashMap::len(self) == 0
    }
}

impl<K: std::cmp::Eq + std::hash::Hash, V> Len for HashMap<K, V> {
    open spec fn len_spec(&self) -> nat {
        spec_hash_map_len(self) as nat
    }

    proof fn lemma_is_empty_iff_len_zero(&self) {
    }

    fn len(&self) -> (n: usize) {
        HashMap::len(self)
    }
}

impl<K: std::cmp::Eq + std::hash::Hash, V> Clear for HashMap<K, V> {
    fn clear(&mut self) {
        hash_map_clear(self)
    }
}

impl<K: std::cmp::Eq + std::hash::Hash, V> Capacity for HashMap<K, V> {
    open spec fn unbounded_capacity(&self) -> bool {
        false
    }

    open spec fn capacity_modeled() -> bool {
        false
    }

    open spec fn capacity_spec(&self) -> nat {
        0
    }

    fn capacity(&self) -> (c: usize) {
        hash_map_capacity(self)
    }
}

impl<K: std::cmp::Eq + std::hash::Hash, V> WithCapacity for HashMap<K, V> {
    fn with_capacity(capacity: usize) -> (r: Self) {
        hash_map_with_capacity(capacity)
    }
}

impl<K: std::cmp::Eq + std::hash::Hash, V> CapacityMut for HashMap<K, V> {
    type Snapshot = (Map<K, V>, nat);

    open spec fn snapshot(&self) -> (Map<K, V>, nat) {
        (self@, spec_hash_map_len(self) as nat)
    }

    proof fn lemma_snapshot_determines_len(&self, other: &Self) {
    }

    fn reserve(&mut self, additional: usize) {
        hash_map_reserve(self, additional)
    }

    fn reserve_exact(&mut self, additional: usize) {
        hash_map_reserve(self, additional)
    }

    fn shrink_to_fit(&mut self) {
        hash_map_shrink_to_fit(self)
    }
}

impl<K: std::cmp::Eq + std::hash::Hash> Empty for HashSet<K> {
    open spec fn is_empty_spec(&self) -> bool {
        spec_hash_set_len(self) == 0
    }

    fn is_empty(&self) -> (r: bool) {
        HashSet::len(self) == 0
    }
}

impl<K: std::cmp::Eq + std::hash::Hash> Len for HashSet<K> {
    open spec fn len_spec(&self) -> nat {
        spec_hash_set_len(self) as nat
    }

    proof fn lemma_is_empty_iff_len_zero(&self) {
    }

    fn len(&self) -> (n: usize) {
        HashSet::len(self)
    }
}

impl<K: std::cmp::Eq + std::hash::Hash> Clear for HashSet<K> {
    fn clear(&mut self) {
        hash_set_clear(self)
    }
}

impl<K: std::cmp::Eq + std::hash::Hash> Capacity for HashSet<K> {
    open spec fn unbounded_capacity(&self) -> bool {
        false
    }

    open spec fn capacity_modeled() -> bool {
        false
    }

    open spec fn capacity_spec(&self) -> nat {
        0
    }

    fn capacity(&self) -> (c: usize) {
        hash_set_capacity(self)
    }
}

impl<K: std::cmp::Eq + std::hash::Hash> WithCapacity for HashSet<K> {
    fn with_capacity(capacity: usize) -> (r: Self) {
        hash_set_with_capacity(capacity)
    }
}

impl<K: std::cmp::Eq + std::hash::Hash> CapacityMut for HashSet<K> {
    type Snapshot = (Set<K>, nat);

    open spec fn snapshot(&self) -> (Set<K>, nat) {
        (self@, spec_hash_set_len(self) as nat)
    }

    proof fn lemma_snapshot_determines_len(&self, other: &Self) {
    }

    fn reserve(&mut self, additional: usize) {
        hash_set_reserve(self, additional)
    }

    fn reserve_exact(&mut self, additional: usize) {
        hash_set_reserve(self, additional)
    }

    fn shrink_to_fit(&mut self) {
        hash_set_shrink_to_fit(self)
    }
}

// ------------------------------------------------------------------
// Ordered maps and sets: length and clearing.
// ------------------------------------------------------------------

impl<K: Ord, V> Empty for BTreeMap<K, V> {
    open spec fn is_empty_spec(&self) -> bool {
        spec_btree_map_len(self) == 0
    }

    fn is_empty(&self) -> (r: bool) {
        BTreeMap::len(self) == 0
    }
}

impl<K: Ord, V> Len for BTreeMap<K, V> {
    open spec fn len_spec(&self) -> nat {
        spec_btree_map_len(self) as nat
    }

    proof fn lemma_is_empty_iff_len_zero(&self) {
    }

    fn len(&self) -> (n: usize) {
        BTreeMap::len(self)
    }
}

impl<K: Ord, V> Clear for BTreeMap<K, V> {
    fn clear(&mut self) {
        btree_map_clear(self)
    }
}

impl<K: Ord> Empty for BTreeSet<K> {
    open spec fn is_empty_spec(&self) -> bool {
        spec_btree_set_len(self) == 0
    }

    fn is_empty(&self) -> (r: bool) {
        BTreeSet::len(self) == 0
    }
}

impl<K: Ord> Len for BTreeSet<K> {
    open spec fn len_spec(&self) -> nat {
        spec_btree_set_len(self) as nat
    }

    proof fn lemma_is_empty_iff_len_zero(&self) {
    }

    fn len(&self) -> (n: usize) {
        BTreeSet::len(self)
    }
}

impl<K: Ord> Clear for BTreeSet<K> {
    fn clear(&mut self) {
        btree_set_clear(self)
    }
}

// ------------------------------------------------------------------
// Element slices and text slices: the read-only length capabilities.
// ------------------------------------------------------------------

impl<T> Empty for [T] {
    open spec fn is_empty_spec(&self) -> bool {
        self@.len() == 0
    }

    fn is_empty(&self) -> (r: bool) {
        <[T]>::is_empty(self)
    }
}

impl<T> Len for [T] {
    open spec fn len_spec(&self) -> nat {
        self@.len()
    }

    proof fn lemma_is_empty_iff_len_zero(&self) {
    }

    fn len(&self) -> (n: usize) {
        <[T]>::len(self)
    }
}

impl Empty for str {
    open spec fn is_empty_spec(&self) -> bool {
        self@.len() == 0
    }

    fn is_empty(&self) -> (r: bool) {
        str::is_empty(self)
    }
}

impl Len for str {
    open spec fn len_spec(&self) -> nat {
        self.spec_bytes().len()
    }

    proof fn lemma_is_empty_iff_len_zero(&self) {
        lemma_encode_utf8_len_zero(self@);
    }

    fn len(&self) -> (n: usize) {
        crate::index::str_byte_len(self)
    }
}

// ------------------------------------------------------------------
// Owning wrappers: a boxed or reference-counted collection keeps the
// read capabilities of the collection it holds.
// ------------------------------------------------------------------

impl<T: ?Sized + Empty> Empty for Box<T> {
    open spec fn is_empty_spec(&self) -> bool {
        (**self).is_empty_spec()
    }

    fn is_empty(&self) -> (r: bool) {
        (**self).is_empty()
    }
}

impl<T: ?Sized + Len> Len for Box<T> {
    open spec fn len_spec(&self) -> nat {
        (**self).len_spec()
    }

    proof fn lemma_is_empty_iff_len_zero(&self) {
        (**self).lemma_is_empty_iff_len_zero();
    }

    fn len(&self) -> (n: usize) {
        (**self).len()
    }
}

impl<T: ?Sized + Capacity> Capacity for Box<T> {
    open spec fn unbounded_capacity(&self) -> bool {
        (**self).unbounded_capacity()
    }

    open spec fn capacity_modeled() -> bool {
        T::capacity_modeled()
    }

    open spec fn capacity_spec(&self) -> nat {
        (**self).capacity_spec()
    }

    fn capacity(&self) -> (c: usize) {
        (**self).capacity()
    }
}

impl<T: ?Sized + Empty> Empty for std::rc::Rc<T> {
    open spec fn is_empty_spec(&self) -> bool {
        (**self).is_empty_spec()
    }

    fn is_empty(&self) -> (r: bool) {
        (**self).is_empty()
    }
}

impl<T: ?Sized + Len> Len for std::rc::Rc<T> {
    open spec fn len_spec(&self) -> nat {
        (**self).len_spec()
    }

    proof fn lemma_is_empty_iff_len_zero(&self) {
        (**self).lemma_is_empty_iff_len_zero();
    }

    fn len(&self) -> (n: usize) {
        (**self).len()
    }
}

impl<T: ?Sized + Capacity> Capacity for std::rc::Rc<T> {
    open spec fn unbounded_capacity(&self) -> bool {
        (**self).unbounded_capacity()
    }

    open spec fn capacity_modeled() -> bool {
        T::capacity_modeled()
    }

    open spec fn capacity_spec(&self) -> nat {
        (**self).capacity_spec()
    }

    fn capacity(&self) -> (c: usize) {
        (**self).capacity()
    }
}

impl<T: ?Sized + Empty> Empty for std::sync::Arc<T> {
    open spec fn is_empty_spec(&self) -> bool {
        (**self).is_empty_spec()
    }

    fn is_empty(&self) -> (r: bool) {
        (**self).is_empty()
    }
}

impl<T: ?Sized + Len> Len for std::sync::Arc<T> {
    open spec fn len_spec(&self) -> nat {
        (**self).len_spec()
    }

    proof fn lemma_is_empty_iff_len_zero(&self) {
        (**self).lemma_is_empty_iff_len_zero();
    }

    fn len(&self) -> (n: usize) {
        (**self).len()
    }
}

impl<T: ?Sized + Capacity> Capacity for std::sync::Arc<T> {
    open spec fn unbounded_capacity(&self) -> bool {
        (**self).unbounded_capacity()
    }

    open spec fn capacity_modeled() -> bool {
        T::capacity_modeled()
    }

    open spec fn capacity_spec(&self) -> nat {
        (**self).capacity_spec()
    }

    fn capacity(&self) -> (c: usize) {
        (**self).capacity()
    }
}

} // verus!
