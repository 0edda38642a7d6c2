use loaf::loaf_vec::LoafVec;
use loaf::Loaf;

#[test]
fn loaf_alloc_one() {
    let v: Vec<u8> = vec![1, 2, 3, 4];
    let loaf: Loaf<u8> = Loaf::try_from_vec(v).unwrap();
    assert_eq!(*loaf.first(), 1);
}

#[test]
fn loaf_alloc_two() {
    let v: Vec<u8> = vec![];
    assert!(Loaf::try_from_vec(v).is_err());
}

fn slice_deref_check(_: &[u8]) {}
fn mut_slice_deref_check(_: &mut [u8]) {}

#[test]
fn loaf_alloc_deref() {
    let v = vec![1u8; 4];
    let mut loafv = LoafVec::from_vec(v).unwrap();
    slice_deref_check(loafv.as_slice());
    mut_slice_deref_check(loafv.as_mut_slice());

    let mut loafb = loafv.into_boxed_loaf();
    slice_deref_check(loafb.as_slice());
    mut_slice_deref_check(loafb.as_mut_slice());
}
