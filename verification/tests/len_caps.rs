use std::collections::BTreeMap;
use std::collections::BTreeSet;
use std::collections::HashMap;
use std::collections::HashSet;
use std::collections::VecDeque;
use std::rc::Rc;
use std::sync::Arc;

use len_trait::Clear;
use len_trait::Empty;
use len_trait::Len;
use len_trait::LenMut;

fn check_empty_iff_len_zero<C: Len + ?Sized>(c: &C) {
    assert_eq!(Empty::is_empty(c), Len::len(c) == 0);
}

#[test]
fn empty_iff_len_zero_vec() {
    check_empty_iff_len_zero(&Vec::<i32>::new());
    check_empty_iff_len_zero(&vec![1, 2, 3]);
}

#[test]
fn empty_iff_len_zero_string_and_str() {
    check_empty_iff_len_zero(&String::new());
    check_empty_iff_len_zero(&"Hello, world!".to_string());
    check_empty_iff_len_zero("");
    check_empty_iff_len_zero("abc");
}

#[test]
fn empty_iff_len_zero_slices() {
    check_empty_iff_len_zero(&[1, 2, 3][..0]);
    check_empty_iff_len_zero(&[1, 2, 3][..]);
}

#[test]
fn empty_iff_len_zero_deque_and_maps() {
    check_empty_iff_len_zero(&VecDeque::<u8>::new());
    check_empty_iff_len_zero(&VecDeque::from(vec![1, 2]));
    let mut hm: HashMap<u32, u32> = HashMap::new();
    check_empty_iff_len_zero(&hm);
    hm.insert(1, 2);
    check_empty_iff_len_zero(&hm);
    let mut hs: HashSet<u32> = HashSet::new();
    check_empty_iff_len_zero(&hs);
    hs.insert(7);
    check_empty_iff_len_zero(&hs);
    let mut bm: BTreeMap<u32, u32> = BTreeMap::new();
    check_empty_iff_len_zero(&bm);
    bm.insert(1, 2);
    check_empty_iff_len_zero(&bm);
    let mut bs: BTreeSet<u32> = BTreeSet::new();
    check_empty_iff_len_zero(&bs);
    bs.insert(7);
    check_empty_iff_len_zero(&bs);
}

#[test]
fn str_len_counts_bytes() {
    assert_eq!(Len::len("abc"), 3);
    assert_eq!(Len::len("中文"), 6);
    assert_eq!(Len::len(&"中文".to_string()), 6);
}

#[test]
fn clear_makes_empty() {
    let mut v = vec![1, 2, 3];
    Clear::clear(&mut v);
    assert_eq!(Len::len(&v), 0);
    assert!(Empty::is_empty(&v));

    let mut s = "Hello, world!".to_string();
    Clear::clear(&mut s);
    assert_eq!(Len::len(&s), 0);
    assert!(Empty::is_empty(&s));

    let mut d: VecDeque<u8> = VecDeque::from(vec![1, 2, 3]);
    Clear::clear(&mut d);
    assert_eq!(Len::len(&d), 0);
    assert!(Empty::is_empty(&d));

    let mut hm: HashMap<u32, u32> = HashMap::new();
    hm.insert(1, 2);
    Clear::clear(&mut hm);
    assert_eq!(Len::len(&hm), 0);
    assert!(Empty::is_empty(&hm));

    let mut hs: HashSet<u32> = HashSet::new();
    hs.insert(7);
    Clear::clear(&mut hs);
    assert_eq!(Len::len(&hs), 0);
    assert!(Empty::is_empty(&hs));

    let mut bm: BTreeMap<u32, u32> = BTreeMap::new();
    bm.insert(1, 2);
    Clear::clear(&mut bm);
    assert_eq!(Len::len(&bm), 0);
    assert!(Empty::is_empty(&bm));

    let mut bs: BTreeSet<u32> = BTreeSet::new();
    bs.insert(7);
    Clear::clear(&mut bs);
    assert_eq!(Len::len(&bs), 0);
    assert!(Empty::is_empty(&bs));
}

#[test]
fn truncate_above_len_is_no_change() {
    let mut v = vec![1, 2, 3];
    LenMut::truncate(&mut v, 3);
    assert_eq!(v, vec![1, 2, 3]);
    LenMut::truncate(&mut v, 100);
    assert_eq!(v, vec![1, 2, 3]);
    assert_eq!(Len::len(&v), 3);

    let mut s = "abc".to_string();
    LenMut::truncate(&mut s, 100);
    assert_eq!(s, "abc");
}

#[test]
fn truncate_below_len_cuts() {
    let mut v = vec![1, 2, 3, 4, 5];
    LenMut::truncate(&mut v, 2);
    assert_eq!(v, vec![1, 2]);
    assert_eq!(Len::len(&v), 2);
    LenMut::truncate(&mut v, 0);
    assert!(Empty::is_empty(&v));

    let mut s = "Hello, world!".to_string();
    LenMut::truncate(&mut s, 5);
    assert_eq!(s, "Hello");

    let mut d: VecDeque<u8> = VecDeque::from(vec![1, 2, 3, 4]);
    LenMut::truncate(&mut d, 1);
    assert_eq!(d, VecDeque::from(vec![1]));
}

#[test]
fn truncate_string_on_character_boundary() {
    // Each of the two characters is three bytes long.
    let mut s = "中文".to_string();
    LenMut::truncate(&mut s, 3);
    assert_eq!(s, "中");
    assert_eq!(Len::len(&s), 3);
}

#[test]
fn split_off_nine_elements_at_five() {
    let mut v = vec![1, 2, 3, 4, 5, 6, 7, 8, 9];
    let tail = LenMut::split_off(&mut v, 5);
    assert_eq!(Len::len(&v), 5);
    assert_eq!(Len::len(&tail), 4);
    let mut joined = v.clone();
    joined.extend(tail.iter().copied());
    assert_eq!(joined, vec![1, 2, 3, 4, 5, 6, 7, 8, 9]);
}

#[test]
fn split_off_at_ends() {
    let mut v = vec![1, 2, 3];
    let tail = LenMut::split_off(&mut v, 3);
    assert_eq!(v, vec![1, 2, 3]);
    assert!(Empty::is_empty(&tail));

    let mut w = vec![1, 2, 3];
    let tail = LenMut::split_off(&mut w, 0);
    assert!(Empty::is_empty(&w));
    assert_eq!(tail, vec![1, 2, 3]);
}

#[test]
fn split_off_string_and_deque() {
    let mut s = "Hello, world!".to_string();
    let tail = LenMut::split_off(&mut s, 5);
    assert_eq!(s, "Hello");
    assert_eq!(tail, ", world!");

    let mut d: VecDeque<u8> = VecDeque::from(vec![1, 2, 3, 4]);
    let tail = LenMut::split_off(&mut d, 2);
    assert_eq!(d, VecDeque::from(vec![1, 2]));
    assert_eq!(tail, VecDeque::from(vec![3, 4]));
}

#[test]
fn split_off_string_on_multibyte_boundary() {
    // Each of the two characters is three bytes long.
    let mut s = "中文".to_string();
    let tail = LenMut::split_off(&mut s, 3);
    assert_eq!(s, "中");
    assert_eq!(tail, "文");
    assert_eq!(Len::len(&tail), 3);
}

#[test]
fn inserting_an_equal_key_keeps_the_length() {
    let mut hm: HashMap<u32, u32> = HashMap::new();
    hm.insert(1, 2);
    hm.insert(1, 3);
    assert_eq!(Len::len(&hm), 1);
    let mut bs: BTreeSet<u32> = BTreeSet::new();
    bs.insert(7);
    bs.insert(7);
    assert_eq!(Len::len(&bs), 1);
}

#[test]
fn wrappers_forward_length_capabilities() {
    let b: Box<Vec<u8>> = Box::new(vec![1, 2, 3]);
    assert_eq!(Len::len(&b), 3);
    assert!(!Empty::is_empty(&b));

    let r: Rc<String> = Rc::new("abcd".to_string());
    assert_eq!(Len::len(&r), 4);

    let a: Arc<Vec<u8>> = Arc::new(Vec::new());
    assert!(Empty::is_empty(&a));
    assert_eq!(Len::len(&a), 0);

    let rs: Rc<str> = Rc::from("xyz");
    assert_eq!(Len::len(&rs), 3);
    let ab: Arc<str> = Arc::from("");
    assert!(Empty::is_empty(&ab));

    let bs: Box<[u8]> = vec![9, 9].into_boxed_slice();
    assert_eq!(Len::len(&bs), 2);
}
