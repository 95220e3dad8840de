use array_or_vec::ArrayOrVec;

#[test]
fn an_array_becomes_a_vector_with_the_same_elements() {
    let a = [String::from("x"), String::from("y"), String::from("z")];
    let v = ArrayOrVec::into_vec(a);
    assert_eq!(v, vec![String::from("x"), String::from("y"), String::from("z")]);
    assert_eq!(v.len(), 3);
}

#[test]
fn a_vector_stays_the_vector_it_was() {
    let mut v = Vec::with_capacity(16);
    v.push(1u8);
    v.push(2);
    let w = ArrayOrVec::into_vec(v);
    assert_eq!(w, vec![1, 2]);
}

#[test]
fn an_array_becomes_a_boxed_slice_with_the_same_elements() {
    let a = [3u64, 1, 2];
    let b: Box<[u64]> = ArrayOrVec::into_boxed_slice(a);
    assert_eq!(&b[..], &[3u64, 1, 2][..]);
    assert_eq!(b.len(), 3);
}

#[test]
fn a_vector_becomes_a_boxed_slice_with_the_same_elements() {
    let mut v = Vec::with_capacity(32);
    v.push('q');
    v.push('r');
    let b: Box<[char]> = ArrayOrVec::into_boxed_slice(v);
    assert_eq!(&b[..], &['q', 'r'][..]);
    assert_eq!(b.len(), 2);
}

#[test]
fn empty_containers_convert_to_empty_ones() {
    let a: [u8; 0] = [];
    assert!(ArrayOrVec::into_vec(a).is_empty());
    assert!(ArrayOrVec::into_boxed_slice(a).is_empty());
    let v: Vec<u8> = Vec::new();
    assert!(ArrayOrVec::into_boxed_slice(v).is_empty());
}

fn to_vec<A: ArrayOrVec<i8>>(a: A) -> Vec<i8> {
    a.into()
}

fn to_box<A: ArrayOrVec<i8>>(a: A) -> Box<[i8]> {
    a.into()
}

#[test]
fn the_standard_conversions_are_there_too() {
    assert_eq!(to_vec([1i8, -1]), vec![1, -1]);
    assert_eq!(to_vec(vec![1i8, -1]), vec![1, -1]);
    assert_eq!(&to_box([1i8, -1])[..], &[1i8, -1][..]);
    assert_eq!(&to_box(vec![1i8, -1])[..], &[1i8, -1][..]);
}

fn borrowed<A: ArrayOrVec<u8>>(a: &A) -> usize {
    let s: &[u8] = a.borrow();
    s.len()
}

#[test]
fn a_container_can_be_borrowed_as_a_slice() {
    assert_eq!(borrowed(&[1u8, 2, 3]), 3);
    assert_eq!(borrowed(&vec![1u8]), 1);
}
