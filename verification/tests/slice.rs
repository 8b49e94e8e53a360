use exists_ref::slice::{
    slice_end_index_len_fail, slice_index_order_fail, slice_index_past_end,
    slice_start_index_len_fail, SliceExistsIndex,
};
use exists_ref::SliceExists;

#[test]
fn test_iteration() {
    let m = vec![1, 2, 3, 4, 5];
    let s = SliceExists::from_ref(&m, 0, 5);
    let mut y: Vec<i32> = Vec::new();
    let mut it = s.iter();
    while let Some(x) = it.next() {
        y.push(x.get(&m) * 2);
    }
    assert_eq!(&y[..], &[2, 4, 6, 8, 10]);
}

#[test]
fn position_indexing_totality() {
    let m = vec![0u8; 5];
    let s = SliceExists::from_ref(&m, 0, 5);
    for p in 0..10usize {
        assert_eq!(s.get(p).is_some(), p < 5);
    }
}

#[test]
fn range_indexing_totality() {
    let m = vec![0u8; 5];
    let s = SliceExists::from_ref(&m, 0, 5);
    for start in 0..8usize {
        for end in 0..8usize {
            assert_eq!(s.get(start..end).is_some(), start <= end && end <= 5);
        }
    }
}

#[test]
fn position_indexing_addresses() {
    let m = vec![7u32, 8, 9];
    let s = SliceExists::from_ref(&m, 0, 3);
    let h = s.get(2usize).unwrap();
    assert_eq!(h.addr, 2);
    assert_eq!(h.get(&m), 9);
    let sub = s.get(1usize..3usize).unwrap();
    assert_eq!((sub.addr, sub.len), (1, 2));
    assert_eq!(sub.get(0usize).unwrap().get(&m), 8);
}

#[test]
fn range_kinds() {
    let m = vec![0u8; 6];
    let s = SliceExists::from_ref(&m, 0, 6);

    let to = s.get(..4usize).unwrap();
    assert_eq!((to.addr, to.len), (0, 4));
    assert!(s.get(..7usize).is_none());

    let from = s.get(2usize..).unwrap();
    assert_eq!((from.addr, from.len), (2, 4));
    assert!(s.get(7usize..).is_none());
    let from_end = s.get(6usize..).unwrap();
    assert_eq!((from_end.addr, from_end.len), (6, 0));

    let full = s.get(..).unwrap();
    assert_eq!((full.addr, full.len), (0, 6));

    let incl = s.get(1usize..=3usize).unwrap();
    assert_eq!((incl.addr, incl.len), (1, 3));
    assert!(s.get(1usize..=6usize).is_none());
    let incl_empty = s.get(3usize..=2usize).unwrap();
    assert_eq!((incl_empty.addr, incl_empty.len), (3, 0));
    assert!(s.get(4usize..=2usize).is_none());
    assert!(s.get(0usize..=usize::MAX).is_none());

    let to_incl = s.get(..=3usize).unwrap();
    assert_eq!((to_incl.addr, to_incl.len), (0, 4));
    assert!(s.get(..=6usize).is_none());
    assert!(s.get(..=usize::MAX).is_none());
}

#[test]
fn mut_indexing() {
    let mut m = vec![1u64, 2, 3, 4];
    let s = SliceExists::from_mut(&m, 0, 4);
    let h = s.get_mut(2usize).unwrap();
    h.set(&mut m, 30);
    assert_eq!(m, vec![1, 2, 30, 4]);
    let sub = s.get_mut(1usize..3usize).unwrap();
    let h2 = sub.get_mut(0usize).unwrap();
    h2.set(&mut m, 20);
    assert_eq!(m, vec![1, 20, 30, 4]);
}

#[test]
fn unchecked_and_panicking_forms_agree() {
    let m = vec![5u8, 6, 7];
    let s = SliceExists::from_ref(&m, 0, 3);
    let a = s.get(1usize).unwrap();
    let b = s.get_unchecked(1usize);
    let c = 1usize.index(&s);
    assert_eq!((a.addr, b.addr, c.addr), (1, 1, 1));
    let ra = s.get(1usize..3usize).unwrap();
    let rb = s.get_unchecked(1usize..3usize);
    let rc = (1usize..3usize).index(&s);
    assert_eq!((ra.addr, ra.len), (rb.addr, rb.len));
    assert_eq!((ra.addr, ra.len), (rc.addr, rc.len));
}

#[test]
fn mut_protocol_methods() {
    let mut m = vec![5u8, 6, 7];
    let s = SliceExists::from_mut(&m, 0, 3);
    let a = 2usize.get_mut(&s).unwrap();
    a.set(&mut m, 70);
    let b = 2usize.get_unchecked_mut(&s);
    assert_eq!(b.get(&m), 70);
    let c = 2usize.index_mut(&s);
    c.set(&mut m, 77);
    let r = (0usize..3usize).index_mut(&s);
    assert_eq!(r.get(2usize).unwrap().get(&m), 77);
}

#[test]
fn inherent_indexing_forms() {
    let mut m = vec![4u8, 5, 6];
    let s = SliceExists::from_mut(&m, 0, 3);
    let h = s.index(1usize);
    assert_eq!(h.get(&m), 5);
    let hm = s.index_mut(1usize);
    hm.set(&mut m, 50);
    assert_eq!(m, vec![4, 50, 6]);
    let sub = s.index(0usize..2usize);
    assert_eq!((sub.addr, sub.len), (0, 2));
    let subm = s.index_mut(2usize..);
    assert_eq!((subm.addr, subm.len), (2, 1));
    let ui = s.get_unchecked(..2usize);
    assert_eq!((ui.addr, ui.len), (0, 2));
    let um = s.get_unchecked_mut(..);
    assert_eq!((um.addr, um.len), (0, 3));
}

#[test]
fn past_end_message_exactness() {
    let m = vec![0i32; 3];
    let s = SliceExists::from_ref(&m, 0, 3);
    let len = s.len();
    assert!(s.get(len).is_none());
    assert_eq!(
        slice_index_past_end(len, len),
        "index 3 out of range for slice of length 3"
    );
}

#[test]
fn order_fail_message_exactness() {
    let m = vec![0i32; 5];
    let s = SliceExists::from_ref(&m, 0, 5);
    assert!(s.get(4usize..2usize).is_none());
    assert_eq!(slice_index_order_fail(4, 2), "slice index starts at 4 but ends at 2");
}

#[test]
fn start_and_end_messages_exactness() {
    assert_eq!(
        slice_start_index_len_fail(8, 5),
        "range start index 8 out of range for slice of length 5"
    );
    assert_eq!(
        slice_end_index_len_fail(12, 7),
        "range end index 12 out of range for slice of length 7"
    );
    assert_eq!(
        slice_index_past_end(1230, 405),
        "index 1230 out of range for slice of length 405"
    );
    assert_eq!(slice_index_past_end(0, 0), "index 0 out of range for slice of length 0");
}

#[test]
fn split_at_parts() {
    let m = vec![0u8; 5];
    let s = SliceExists::from_ref(&m, 0, 5);
    let (a, b) = s.split_at(2);
    assert_eq!((a.addr, a.len), (0, 2));
    assert_eq!((b.addr, b.len), (2, 3));
    let (c, d) = s.split_at(0);
    assert_eq!((c.len, d.len), (0, 5));
    let (e, f) = s.split_at(5);
    assert_eq!((e.len, f.len), (5, 0));
}

#[test]
fn slice_handle_surface() {
    let m = vec![0u16; 4];
    let s = SliceExists::from_ref(&m, 1, 3);
    assert_eq!(s.len(), 3);
    assert!(!s.is_empty());
    assert_eq!(s.as_ptr(), 1);
    let sw = SliceExists::from_mut(&m, 1, 3);
    assert_eq!(sw.as_mut_ptr(), 1);
    let empty = SliceExists::from_ref(&m, 4, 0);
    assert!(empty.is_empty());
    let sc = SliceExists::from_cell(&m, 0, 4);
    let scs = SliceExists::from_cell_slice(&m, 0, 4);
    assert_eq!((sc.len(), scs.len()), (4, 4));
    let sp = SliceExists::<u16>::from_ptr(1, 2);
    let smp = SliceExists::<u16>::from_mut_ptr(1, 2);
    assert_eq!((sp.as_ptr(), sp.len()), (1, 2));
    assert_eq!((smp.as_ptr(), smp.len()), (1, 2));
    let up = sp.assume_mutable();
    assert_eq!(up.as_mut_ptr(), 1);
}

#[test]
fn slice_copy_mut_aliasing() {
    let mut m = vec![10u32; 10];
    let a = SliceExists::from_mut(&m, 0, 10);
    let copies = a.copy_mut(2);
    copies[0].get_mut(2usize).unwrap().set(&mut m, 20);
    copies[1].get_mut(2usize).unwrap().set(&mut m, 30);
    assert_eq!(copies[0].get(2usize).unwrap().get(&m), 30);
}

#[test]
fn iteration_yields_each_position_once() {
    let m = vec![0u8; 4];
    let s = SliceExists::from_ref(&m, 0, 4);
    let mut it = s.iter();
    let mut seen: Vec<usize> = Vec::new();
    while let Some(h) = it.next() {
        seen.push(h.addr);
    }
    assert_eq!(seen, vec![0, 1, 2, 3]);
    assert!(it.next().is_none());
}

#[test]
fn iteration_mut_writes_each_position() {
    let mut m = vec![1u32, 2, 3];
    let s = SliceExists::from_mut(&m, 0, 3);
    let mut it = s.iter_mut();
    while let Some(h) = it.next() {
        let v = h.get(&m);
        h.set(&mut m, v * 10);
    }
    assert_eq!(m, vec![10, 20, 30]);
}

#[test]
fn chunking_lengths_and_coverage() {
    let m = vec![0u8; 7];
    let s = SliceExists::from_ref(&m, 0, 7);
    let mut c = s.chunks(3);
    let mut parts: Vec<(usize, usize)> = Vec::new();
    while let Some(p) = c.next() {
        parts.push((p.addr, p.len));
    }
    assert_eq!(parts, vec![(0, 3), (3, 3), (6, 1)]);
}

#[test]
fn chunking_exact_multiple() {
    let m = vec![0u8; 6];
    let s = SliceExists::from_ref(&m, 0, 6);
    let mut c = s.chunks(3);
    let mut parts: Vec<(usize, usize)> = Vec::new();
    while let Some(p) = c.next() {
        parts.push((p.addr, p.len));
    }
    assert_eq!(parts, vec![(0, 3), (3, 3)]);
    let mut big = s.chunks(9);
    let first = big.next().unwrap();
    assert_eq!((first.addr, first.len), (0, 6));
    assert!(big.next().is_none());
}
