use loaf::loaf_n_vec::LoafNVec;
use loaf::loaf_vec::LoafVec;
use loaf::{Loaf, LoafN};

#[test]
fn total_length_matches_the_buffer() {
    for len in 1usize..6 {
        let v: Vec<u32> = (0..len as u32).collect();
        let loaf = Loaf::try_from_vec(v).unwrap();
        assert_eq!(loaf.len(), len);
    }
}

#[test]
fn short_buffers_are_refused_with_their_contents() {
    let back = match LoafN::<u8, 3>::try_from_vec(vec![10, 20]) {
        Ok(_) => panic!("two elements cannot satisfy a head of three"),
        Err(b) => b,
    };
    assert_eq!(back, vec![10u8, 20]);
}

#[test]
fn wide_head_first_and_last() {
    let l = LoafN::<u8, 2>::try_from_vec(vec![5, 6]).unwrap();
    assert_eq!(*l.first(), 5);
    assert_eq!(*l.last(), 6);
    assert_eq!(l.len(), 2);

    let l = LoafN::<u8, 2>::try_from_vec(vec![5, 6, 7]).unwrap();
    assert_eq!(*l.last(), 7);
}

#[test]
fn checked_and_unchecked_wrapping_agree() {
    let a = Loaf::try_from_vec(vec![3u8, 1, 4]).unwrap();
    let b = Loaf::from_vec_unchecked(vec![3u8, 1, 4]);
    assert_eq!(a.as_slice(), b.as_slice());

    let a = LoafN::<u8, 2>::try_from_vec(vec![2u8, 7, 1]).unwrap();
    let b = LoafN::<u8, 2>::from_vec_unchecked(vec![2u8, 7, 1]);
    assert_eq!(a.as_slice(), b.as_slice());
}

#[test]
fn first_mut_is_seen_by_every_reader() {
    let mut loaf = Loaf::try_from_vec(vec![1u8, 2, 3]).unwrap();
    *loaf.first_mut() = 9;
    assert_eq!(*loaf.first(), 9);
    assert_eq!(loaf.as_slice(), &[9u8, 2, 3]);
}

#[test]
fn last_mut_is_seen_by_every_reader() {
    let mut loaf = LoafN::<u8, 2>::try_from_vec(vec![1, 2, 3]).unwrap();
    *loaf.last_mut() = 30;
    assert_eq!(*loaf.last(), 30);
    assert_eq!(loaf.into_vec(), vec![1u8, 2, 30]);
}

#[test]
fn mutable_slice_projection_writes_through() {
    let mut loaf = Loaf::try_from_vec(vec![0u8, 1, 2, 3, 4]).unwrap();
    {
        let s = loaf.as_mut_slice();
        s[0] = 42;
        s[4] = 14;
    }
    assert_eq!(loaf.as_slice(), &[42u8, 1, 2, 3, 14]);
}

#[test]
fn split_first_hands_out_head_and_rest() {
    let loaf = Loaf::try_from_vec(vec![0u8, 1, 2, 3, 4]).unwrap();
    let (first, rest) = loaf.split_first();
    assert_eq!(*first, 0);
    assert_eq!(rest, &[1u8, 2, 3, 4]);
}

#[test]
fn wide_head_split_first_reaches_into_the_head() {
    let mut loaf = LoafN::<u8, 3>::try_from_vec(vec![1, 2, 3, 4]).unwrap();
    {
        let (first, rest) = loaf.split_first_mut();
        *first = 10;
        rest[0] = 20;
    }
    assert_eq!(loaf.into_vec(), vec![10u8, 20, 3, 4]);
}

#[test]
fn single_element_loaf_first_equals_last() {
    let loaf = Loaf::try_from_vec(vec![77u8]).unwrap();
    assert_eq!(*loaf.first(), 77);
    assert_eq!(*loaf.last(), 77);
    let (first, rest) = loaf.split_first();
    assert_eq!(*first, 77);
    assert!(rest.is_empty());
}

#[test]
fn wide_floor_pop_stops_at_the_floor() {
    let mut lv = LoafNVec::<u8, 2>::from_vec(vec![1, 2, 3]).unwrap();
    assert_eq!(lv.pop(), Some(3));
    assert_eq!(lv.pop(), None);
    assert_eq!(lv.into_vec(), vec![1u8, 2]);
}

#[test]
fn growable_wrap_refuses_short_buffers() {
    let back = match LoafNVec::<u8, 4>::from_vec(vec![1, 2, 3]) {
        Ok(_) => panic!("three elements cannot satisfy a floor of four"),
        Err(b) => b,
    };
    assert_eq!(back, vec![1u8, 2, 3]);

    let back = match LoafVec::<u8>::from_vec(Vec::new()) {
        Ok(_) => panic!("an empty buffer cannot satisfy the floor"),
        Err(b) => b,
    };
    assert!(back.is_empty());
}

#[test]
fn loaf_projection_of_a_growable_buffer() {
    let mut lv = LoafVec::from_vec(vec![4u8, 5, 6]).unwrap();
    assert_eq!(*lv.as_loaf().first(), 4);
    *lv.as_mut_loaf().first_mut() = 40;
    assert_eq!(lv.as_slice(), &[40u8, 5, 6]);

    let mut lv = LoafNVec::<u8, 2>::from_vec(vec![4, 5, 6]).unwrap();
    assert_eq!(*lv.as_loaf().last(), 6);
    *lv.as_mut_loaf().last_mut() = 60;
    assert_eq!(lv.as_slice(), &[4u8, 5, 60]);
}

#[test]
fn freezing_a_growable_buffer_keeps_its_elements() {
    let lv = LoafNVec::<u8, 2>::from_vec(vec![8, 9, 10]).unwrap();
    let loaf = lv.into_boxed_loaf();
    assert_eq!(loaf.as_slice(), &[8u8, 9, 10]);
    assert_eq!(*loaf.first(), 8);
    assert_eq!(*loaf.last(), 10);
}

#[test]
fn growable_buffer_round_trip() {
    let lv = LoafVec::from_vec(vec![1u8, 2]).unwrap();
    let v = lv.into_vec();
    assert_eq!(v, vec![1u8, 2]);
    let lv = LoafVec::from_vec(v).unwrap();
    assert_eq!(lv.as_slice(), &[1u8, 2]);
}
