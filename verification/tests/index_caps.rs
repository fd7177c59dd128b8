use len_trait::IndexRange;
use len_trait::IndexRangeMut;
use len_trait::SplitAt;
use len_trait::SplitAtMut;

#[test]
fn slice_range_forms_agree_with_native_slicing() {
    let v = vec![10, 20, 30, 40, 50];
    let s: &[i32] = &v[..];
    assert_eq!(IndexRange::range(s, 1, 4), &v[1..4]);
    assert_eq!(IndexRange::range_from(s, 2), &v[2..]);
    assert_eq!(IndexRange::range_to(s, 3), &v[..3]);
    assert_eq!(IndexRange::range_full(s), &v[..]);
    assert_eq!(IndexRange::range(s, 2, 2), &[] as &[i32]);
}

#[test]
fn str_range_forms_agree_with_native_slicing() {
    let s = "abcdef";
    assert_eq!(IndexRange::range(s, 1, 3), "bc");
    assert_eq!(IndexRange::range_from(s, 2), "cdef");
    assert_eq!(IndexRange::range_to(s, 4), "abcd");
    assert_eq!(IndexRange::range_full(s), "abcdef");
}

#[test]
fn str_range_on_multibyte_boundaries() {
    // Each character is three bytes long.
    let s = "中文字";
    assert_eq!(IndexRange::range(s, 3, 6), "文");
    assert_eq!(IndexRange::range_from(s, 6), "字");
    assert_eq!(IndexRange::range_to(s, 3), "中");
}

#[test]
fn slice_split_at_reconstructs() {
    let v = vec![1, 2, 3, 4, 5, 6];
    let (a, b) = SplitAt::split_at(&v[..], 2);
    assert_eq!(a, &[1, 2]);
    assert_eq!(b, &[3, 4, 5, 6]);
    let joined: Vec<i32> = a.iter().chain(b.iter()).copied().collect();
    assert_eq!(joined, v);

    let (a, b) = SplitAt::split_at(&v[..], 0);
    assert!(a.is_empty());
    assert_eq!(b, &v[..]);
    let (a, b) = SplitAt::split_at(&v[..], 6);
    assert_eq!(a, &v[..]);
    assert!(b.is_empty());
}

#[test]
fn scenario_text_split_at_three() {
    let s = "abcdef";
    let (a, b) = SplitAt::split_at(s, 3);
    assert_eq!(a.len(), 3);
    assert_eq!(b.len(), 3);
    let joined = format!("{}{}", a, b);
    assert_eq!(joined, s);
}

#[test]
fn slice_range_mut_writes_in_place() {
    let mut v = vec![1, 2, 3, 4, 5];
    {
        let mid = IndexRangeMut::range_mut(&mut v[..], 1, 4);
        assert_eq!(mid, &mut [2, 3, 4]);
        mid[0] = 20;
        mid[2] = 40;
    }
    assert_eq!(v, vec![1, 20, 3, 40, 5]);
    {
        let head = IndexRangeMut::range_to_mut(&mut v[..], 1);
        head[0] = 100;
    }
    {
        let tail = IndexRangeMut::range_from_mut(&mut v[..], 4);
        tail[0] = 500;
    }
    {
        let whole = IndexRangeMut::range_full_mut(&mut v[..]);
        whole[2] = 300;
    }
    assert_eq!(v, vec![100, 20, 300, 40, 500]);
}

#[test]
fn slice_split_at_mut_gives_disjoint_halves() {
    let mut v = vec![1, 2, 3, 4];
    {
        let (a, b) = SplitAtMut::split_at_mut(&mut v[..], 2);
        assert_eq!(a, &mut [1, 2]);
        assert_eq!(b, &mut [3, 4]);
        a[0] = 10;
        b[1] = 40;
    }
    assert_eq!(v, vec![10, 2, 3, 40]);
}

#[test]
fn str_range_mut_writes_in_place() {
    let mut s = "abcdef".to_string();
    {
        let mid = IndexRangeMut::range_mut(s.as_mut_str(), 1, 3);
        assert_eq!(&*mid, "bc");
        mid.make_ascii_uppercase();
    }
    assert_eq!(s, "aBCdef");
    {
        let tail = IndexRangeMut::range_from_mut(s.as_mut_str(), 4);
        tail.make_ascii_uppercase();
    }
    assert_eq!(s, "aBCdEF");
    {
        let head = IndexRangeMut::range_to_mut(s.as_mut_str(), 1);
        head.make_ascii_uppercase();
    }
    assert_eq!(s, "ABCdEF");
    {
        let whole = IndexRangeMut::range_full_mut(s.as_mut_str());
        whole.make_ascii_lowercase();
    }
    assert_eq!(s, "abcdef");
}

#[test]
fn str_split_at_mut_gives_disjoint_halves() {
    let mut s = "abcdef".to_string();
    {
        let (a, b) = SplitAtMut::split_at_mut(s.as_mut_str(), 3);
        assert_eq!(&*a, "abc");
        assert_eq!(&*b, "def");
        a.make_ascii_uppercase();
    }
    assert_eq!(s, "ABCdef");
}
