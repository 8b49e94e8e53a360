use exists_ref::Exists;

#[test]
fn trivial_read() {
    let m = vec![10];
    assert_eq!(Exists::from_ref(&m, 0).get(&m), 10);
}

#[test]
fn trivial_write() {
    let mut m = vec![10];
    assert_eq!(Exists::from_mut(&m, 0).replace(&mut m, 20), 10);
    assert_eq!(m[0], 20);
}

#[test]
fn mut_roundtrip() {
    let mut m: Vec<u64> = vec![10];
    let xe = Exists::from_mut(&m, 0);

    let copies = xe.copy_mut(2);
    let xe = &copies[0];
    let xe2 = &copies[1];

    let xer: &Exists<u64> = xe;

    let xem = xer.assume_mut();
    xem.set(&mut m, 20);
    assert_eq!(xer.get(&m), 20);
    assert_eq!(xem.replace(&mut m, 10), 20);
    assert_eq!(xe.replace(&mut m, 30), 10);
    assert_eq!(xe2.replace(&mut m, 40), 30);
}

#[test]
fn immut_roundtrip() {
    let m: Vec<u64> = vec![10];
    let xe = Exists::from_ref(&m, 0);

    // An upgraded handle that is never written through stays harmless.
    let xe = xe.assume_mut();
    assert_eq!(xe.get(&m), 10);
    let xe = xe.as_ref_unchecked(&m);
    assert_eq!(*xe, 10);
}

#[test]
fn cell_roundtrip() {
    let mut m: Vec<u64> = vec![10];
    let xe = Exists::from_cell(&m, 0);
    assert_eq!(xe.get(&m), 10);
    let xe = xe.assume_mut();
    xe.set(&mut m, 20);
    let xe = xe.as_cell_unchecked();
    assert_eq!(xe.get(&m), 20);
}

#[test]
fn test_box() {
    let m: Vec<u64> = vec![10];
    let _xe: Exists<u64> = Exists::from_cell(&m, 0);
}

#[test]
fn copy_mut_ref() {
    let mut m = vec![10];
    let e = Exists::from_mut(&m, 0);
    let copies = e.copy_mut(2);

    copies[0].set(&mut m, 20);
    copies[1].set(&mut m, 30);
    assert_eq!(m[0], 30);
}

#[test]
fn copy_mut_ref_via_assume_mut() {
    let mut m = vec![10];
    let e1 = Exists::from_mut(&m, 0);
    let e2 = Exists::from_ref(&m, 0);

    e1.assume_mut().set(&mut m, 20);
    e2.assume_mut().set(&mut m, 30);
    assert_eq!(m[0], 30);
}

#[test]
fn set_get_round_trip() {
    let mut m = vec![5u32, 6, 7];
    let h = Exists::from_mut(&m, 1);
    h.set(&mut m, 42);
    assert_eq!(h.get(&m), 42);
    h.set(&mut m, 43);
    assert_eq!(h.get(&m), 43);
}

#[test]
fn replace_returns_prior() {
    let mut m = vec![String::from("a"), String::from("b")];
    let h = Exists::from_mut(&m, 1);
    let prior = h.replace(&mut m, String::from("c"));
    assert_eq!(prior, "b");
    assert_eq!(m[1], "c");
}

#[test]
fn take_leaves_default() {
    let mut m = vec![9u64];
    let h = Exists::from_mut(&m, 0);
    assert_eq!(h.take(&mut m), 9);
    assert_eq!(h.get(&m), 0);
}

#[test]
fn self_swap_identity() {
    let mut m = vec![1u8, 2, 3];
    let h = Exists::from_mut(&m, 1);
    h.swap(&h, &mut m);
    assert_eq!(m, vec![1, 2, 3]);
}

#[test]
fn disjoint_swap() {
    let mut m = vec![11u16, 22];
    let a = Exists::from_mut(&m, 0);
    let b = Exists::from_mut(&m, 1);
    a.swap(&b, &mut m);
    assert_eq!(m, vec![22, 11]);
}

#[test]
fn aliasing_visibility() {
    let mut m = vec![10i64];
    let h = Exists::from_mut(&m, 0);
    let copies = h.copy_mut(2);
    copies[0].set(&mut m, 77);
    assert_eq!(copies[1].get(&m), 77);
}

#[test]
fn lend_element_for_writing() {
    let mut m = vec![10i32, 20];
    let h = Exists::from_mut(&m, 1);
    let r = h.as_mut_unchecked(&mut m);
    *r = 25;
    assert_eq!(m, vec![10, 25]);
    assert_eq!(h.get(&m), 25);
}

#[test]
fn scalar_pointers() {
    let m = vec![1u8, 2, 3];
    let h = Exists::<u8>::from_ptr(2);
    assert_eq!(h.as_ptr(), 2);
    assert_eq!(h.get(&m), 3);
    let hw = Exists::<u8>::from_mut_ptr(1);
    assert_eq!(hw.as_mut_ptr(), 1);
    assert_eq!(hw.as_ptr(), 1);
}
