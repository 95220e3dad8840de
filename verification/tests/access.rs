use array_or_vec::ArrayOrVec;

fn positions() -> Vec<usize> {
    vec![0, 1, 2, 3, 4, 5, 6, usize::MAX - 1, usize::MAX]
}

#[test]
fn len_of_an_array_is_its_type_length() {
    let a: [u8; 5] = [9, 8, 7, 6, 5];
    assert_eq!(ArrayOrVec::len(&a), 5);
    assert_eq!(ArrayOrVec::len(&a), 5);
    let empty: [u8; 0] = [];
    assert_eq!(ArrayOrVec::len(&empty), 0);
    assert_eq!(<[u8; 5] as ArrayOrVec<u8>>::static_len(), Some(5));
    assert_eq!(<[u8; 0] as ArrayOrVec<u8>>::static_len(), Some(0));
}

#[test]
fn len_of_a_vector_follows_its_contents() {
    let mut v: Vec<i64> = Vec::new();
    assert_eq!(ArrayOrVec::len(&v), 0);
    v.push(4);
    v.push(5);
    assert_eq!(ArrayOrVec::len(&v), 2);
    v.pop();
    assert_eq!(ArrayOrVec::len(&v), 1);
    assert_eq!(<Vec<i64> as ArrayOrVec<i64>>::static_len(), None);
}

#[test]
fn as_slice_shows_all_elements_in_order() {
    let a = [1u16, 2, 3];
    let v = vec![1u16, 2, 3];
    assert_eq!(ArrayOrVec::as_slice(&a), &[1u16, 2, 3][..]);
    assert_eq!(ArrayOrVec::as_slice(&v), &[1u16, 2, 3][..]);
}

#[test]
fn iter_goes_first_to_last_and_can_be_restarted() {
    let a = [3u8, 1, 2];
    let v = vec![3u8, 1, 2];
    let from_array: Vec<u8> = ArrayOrVec::iter(&a).copied().collect();
    let from_vec: Vec<u8> = ArrayOrVec::iter(&v).copied().collect();
    assert_eq!(from_array, vec![3, 1, 2]);
    assert_eq!(from_vec, vec![3, 1, 2]);
    assert_eq!(ArrayOrVec::iter(&a).count(), 3);
    assert_eq!(ArrayOrVec::iter(&a).count(), 3);
    assert_eq!(ArrayOrVec::len(&a), 3);
}

#[test]
fn get_at_a_position_agrees_with_indexing() {
    let a = [10i32, 20, 30, 40];
    let v = vec![10i32, 20, 30, 40];
    for i in 0..4usize {
        assert_eq!(ArrayOrVec::get(&a, i), Some(&a[i]));
        assert_eq!(ArrayOrVec::get(&v, i), Some(&v[i]));
        assert_eq!(ArrayOrVec::get_unchecked(&a, i), &a[i]);
        assert_eq!(ArrayOrVec::get_unchecked(&v, i), &v[i]);
    }
    assert_eq!(ArrayOrVec::get(&a, 2usize), Some(&30));
}

#[test]
fn get_past_the_end_finds_nothing() {
    let a = [10i32, 20, 30, 40];
    let v = vec![10i32, 20, 30, 40];
    let empty: Vec<i32> = Vec::new();
    for i in [4usize, 5, 100, usize::MAX] {
        assert_eq!(ArrayOrVec::get(&a, i), None);
        assert_eq!(ArrayOrVec::get(&v, i), None);
    }
    assert_eq!(ArrayOrVec::get(&empty, 0usize), None);
}

#[test]
fn get_with_a_range_gives_that_part() {
    let a = [1u8, 2, 3, 4, 5];
    let part = ArrayOrVec::get(&a, 1usize..4usize).unwrap();
    assert_eq!(part.len(), 3);
    assert_eq!(part, &[2u8, 3, 4][..]);
    assert_eq!(ArrayOrVec::get(&a, 2usize..2usize).unwrap().len(), 0);
    assert_eq!(ArrayOrVec::get(&a, 5usize..5usize).unwrap().len(), 0);
    assert_eq!(ArrayOrVec::get(&a, 0usize..5usize).unwrap(), &a[..]);
    assert!(ArrayOrVec::get(&a, 3usize..2usize).is_none());
    assert!(ArrayOrVec::get(&a, 0usize..6usize).is_none());
    assert!(ArrayOrVec::get(&a, 6usize..6usize).is_none());
}

#[test]
fn get_with_each_range_form() {
    let v = vec!['a', 'b', 'c', 'd'];
    assert_eq!(ArrayOrVec::get(&v, 1usize..), Some(&['b', 'c', 'd'][..]));
    assert_eq!(ArrayOrVec::get(&v, 4usize..).unwrap().len(), 0);
    assert!(ArrayOrVec::get(&v, 5usize..).is_none());
    assert_eq!(ArrayOrVec::get(&v, ..2usize), Some(&['a', 'b'][..]));
    assert_eq!(ArrayOrVec::get(&v, ..0usize).unwrap().len(), 0);
    assert!(ArrayOrVec::get(&v, ..5usize).is_none());
    assert_eq!(ArrayOrVec::get(&v, ..), Some(&['a', 'b', 'c', 'd'][..]));
    assert_eq!(ArrayOrVec::get(&v, 1usize..=2usize), Some(&['b', 'c'][..]));
    assert_eq!(ArrayOrVec::get(&v, 0usize..=3usize), Some(&['a', 'b', 'c', 'd'][..]));
    assert_eq!(ArrayOrVec::get(&v, 3usize..=2usize).unwrap().len(), 0);
    assert!(ArrayOrVec::get(&v, 1usize..=4usize).is_none());
    assert!(ArrayOrVec::get(&v, 0usize..=usize::MAX).is_none());
    assert_eq!(ArrayOrVec::get(&v, ..=0usize), Some(&['a'][..]));
    assert_eq!(ArrayOrVec::get(&v, ..=3usize), Some(&['a', 'b', 'c', 'd'][..]));
    assert!(ArrayOrVec::get(&v, ..=4usize).is_none());
    assert!(ArrayOrVec::get(&v, ..=usize::MAX).is_none());
}

#[test]
fn get_agrees_with_the_slice_for_every_form() {
    let a = [7u32, 8, 9, 10, 11];
    let v = vec![7u32, 8, 9, 10, 11];
    let s: &[u32] = &a;
    for lo in positions() {
        assert_eq!(ArrayOrVec::get(&a, lo), s.get(lo));
        assert_eq!(ArrayOrVec::get(&v, lo), s.get(lo));
        assert_eq!(ArrayOrVec::get(&a, lo..), s.get(lo..));
        assert_eq!(ArrayOrVec::get(&v, lo..), s.get(lo..));
        assert_eq!(ArrayOrVec::get(&a, ..lo), s.get(..lo));
        assert_eq!(ArrayOrVec::get(&v, ..lo), s.get(..lo));
        assert_eq!(ArrayOrVec::get(&a, ..=lo), s.get(..=lo));
        assert_eq!(ArrayOrVec::get(&v, ..=lo), s.get(..=lo));
        for hi in positions() {
            assert_eq!(ArrayOrVec::get(&a, lo..hi), s.get(lo..hi));
            assert_eq!(ArrayOrVec::get(&v, lo..hi), s.get(lo..hi));
            assert_eq!(ArrayOrVec::get(&a, lo..=hi), s.get(lo..=hi));
            assert_eq!(ArrayOrVec::get(&v, lo..=hi), s.get(lo..=hi));
        }
    }
    assert_eq!(ArrayOrVec::get(&a, ..), s.get(..));
    assert_eq!(ArrayOrVec::get(&v, ..), s.get(..));
}

#[test]
fn get_unchecked_with_ranges_in_bounds() {
    let a = [1u8, 2, 3, 4];
    assert_eq!(ArrayOrVec::get_unchecked(&a, 1usize..3usize), &[2u8, 3][..]);
    assert_eq!(ArrayOrVec::get_unchecked(&a, 2usize..), &[3u8, 4][..]);
    assert_eq!(ArrayOrVec::get_unchecked(&a, ..1usize), &[1u8][..]);
    assert_eq!(ArrayOrVec::get_unchecked(&a, ..), &[1u8, 2, 3, 4][..]);
    assert_eq!(ArrayOrVec::get_unchecked(&a, 0usize..=1usize), &[1u8, 2][..]);
    assert_eq!(ArrayOrVec::get_unchecked(&a, ..=2usize), &[1u8, 2, 3][..]);
}

fn second<A: ArrayOrVec<u64>>(a: &A) -> Option<u64> {
    a.get(1usize).copied()
}

#[test]
fn generic_code_takes_either_container() {
    assert_eq!(second(&[5u64, 6, 7]), Some(6));
    assert_eq!(second(&vec![5u64, 6, 7]), Some(6));
    assert_eq!(second(&[5u64]), None);
    assert_eq!(second(&Vec::new()), None);
}

#[test]
fn direct_indexing_is_there_through_the_interface() {
    fn pick<A: ArrayOrVec<u8>>(a: &A) -> u8
    where
        A: core::ops::Index<usize, Output = u8>,
    {
        a[2]
    }
    assert_eq!(pick(&[1u8, 2, 3]), 3);
    assert_eq!(pick(&vec![1u8, 2, 3]), 3);
}

#[test]
fn an_exhausted_inclusive_range_is_taken_without_failure() {
    let v = vec![1u8, 2, 3, 4];
    let mut r = 0usize..=2usize;
    for _ in r.by_ref() {}
    let got = ArrayOrVec::get(&v, r);
    assert!(got.map_or(true, |part| part.len() <= 4));
}
