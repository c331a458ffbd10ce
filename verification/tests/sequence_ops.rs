use storagevec::{FixedStorageVec, HeapStorageVec, HybridStorageVec};

#[test]
fn fixed_pushes_then_pops_reverse() {
    let mut v: FixedStorageVec<u64, 8> = FixedStorageVec::new();
    for i in 0..8u64 {
        assert!(v.try_push(i * 10).is_ok());
    }
    assert_eq!(v.len(), 8);
    for i in (0..8u64).rev() {
        assert_eq!(v.pop(), Some(i * 10));
    }
    assert_eq!(v.pop(), None);
    assert!(v.is_empty());
}

#[test]
fn heap_pushes_then_pops_reverse() {
    let mut v: HeapStorageVec<u64> = HeapStorageVec::new();
    for i in 0..100u64 {
        assert!(v.try_push(i).is_ok());
    }
    assert_eq!(v.len(), 100);
    for i in (0..100u64).rev() {
        assert_eq!(v.pop(), Some(i));
    }
    assert_eq!(v.pop(), None);
}

#[test]
fn hybrid_pushes_then_pops_reverse() {
    let mut v: HybridStorageVec<u64, 4> = HybridStorageVec::new();
    for i in 0..10u64 {
        assert!(v.try_push(i).is_ok());
    }
    assert_eq!(v.len(), 10);
    for i in (0..10u64).rev() {
        assert_eq!(v.pop(), Some(i));
    }
    assert_eq!(v.pop(), None);
}

#[test]
fn fixed_overflow_returns_value_unchanged() {
    let mut v: FixedStorageVec<u64, 3> = FixedStorageVec::new();
    v.push(1);
    v.push(2);
    v.push(3);
    assert_eq!(v.try_push(4), Err(4));
    assert_eq!(v.len(), 3);
    assert_eq!(*v.get(0), 1);
    assert_eq!(*v.get(1), 2);
    assert_eq!(*v.get(2), 3);
    assert_eq!(v.try_insert(9, 1), Err(9));
    assert_eq!(v.len(), 3);
}

#[test]
fn remove_last_valid_index_succeeds_fixed() {
    let mut v: FixedStorageVec<u64, 4> = FixedStorageVec::new();
    v.push(7);
    v.push(8);
    v.push(9);
    assert_eq!(v.remove(2), Some(9));
    assert_eq!(v.len(), 2);
    assert_eq!(v.remove(1), Some(8));
    assert_eq!(v.remove(0), Some(7));
    assert!(v.is_empty());
}

#[test]
fn remove_last_valid_index_succeeds_heap() {
    let mut v: HeapStorageVec<u64> = HeapStorageVec::new();
    v.push(7);
    v.push(8);
    assert_eq!(v.remove(1), Some(8));
    assert_eq!(v.remove(0), Some(7));
}

#[test]
fn remove_last_valid_index_succeeds_hybrid() {
    let mut v: HybridStorageVec<u64, 2> = HybridStorageVec::new();
    v.push(7);
    v.push(8);
    v.push(9);
    assert_eq!(v.remove(2), Some(9));
    assert_eq!(v.remove(1), Some(8));
    assert_eq!(v.remove(0), Some(7));
}

#[test]
fn remove_at_len_and_beyond_reports_absence() {
    let mut f: FixedStorageVec<u64, 4> = FixedStorageVec::new();
    f.push(1);
    f.push(2);
    assert_eq!(f.remove(2), None);
    assert_eq!(f.remove(100), None);
    assert_eq!(f.len(), 2);

    let mut h: HeapStorageVec<u64> = HeapStorageVec::new();
    assert_eq!(h.remove(0), None);
    h.push(1);
    assert_eq!(h.remove(1), None);
    assert_eq!(h.remove(usize::MAX), None);
    assert_eq!(h.len(), 1);

    let mut y: HybridStorageVec<u64, 2> = HybridStorageVec::new();
    y.push(1);
    y.push(2);
    y.push(3);
    assert_eq!(y.remove(3), None);
    assert_eq!(y.remove(10), None);
    assert_eq!(y.len(), 3);
}

#[test]
fn insert_shifts_elements_up() {
    let mut v: FixedStorageVec<u64, 5> = FixedStorageVec::new();
    v.push(1);
    v.push(3);
    v.insert(2, 1);
    assert_eq!(v.len(), 3);
    assert_eq!(*v.get(0), 1);
    assert_eq!(*v.get(1), 2);
    assert_eq!(*v.get(2), 3);
    v.insert(0, 0);
    assert_eq!(*v.get(0), 0);
    v.insert(4, 4);
    assert_eq!(*v.get(4), 4);
}

#[test]
fn try_insert_at_end_is_push() {
    let mut v: HeapStorageVec<u64> = HeapStorageVec::new();
    assert!(v.try_insert(5, 0).is_ok());
    assert!(v.try_insert(6, 1).is_ok());
    assert_eq!(*v.get(0), 5);
    assert_eq!(*v.get(1), 6);
}

#[test]
fn set_overwrites_in_place() {
    let mut v: HybridStorageVec<u64, 2> = HybridStorageVec::new();
    v.push(1);
    v.push(2);
    v.set(0, 10);
    assert_eq!(*v.get(0), 10);
    assert_eq!(*v.get(1), 2);
    v.push(3);
    v.set(2, 30);
    assert_eq!(*v.get(2), 30);
    assert_eq!(v.len(), 3);
}

#[test]
fn drain_removes_a_middle_range() {
    let mut v: HeapStorageVec<u64> = HeapStorageVec::new();
    for i in 0..6u64 {
        v.push(i);
    }
    let drained = v.drain(1, 4);
    assert_eq!(drained.collect_all(), vec![1, 2, 3]);
    assert_eq!(v.len(), 3);
    assert_eq!(*v.get(0), 0);
    assert_eq!(*v.get(1), 4);
    assert_eq!(*v.get(2), 5);
}

#[test]
fn drain_empty_range_removes_nothing() {
    let mut v: FixedStorageVec<u64, 4> = FixedStorageVec::new();
    v.push(1);
    let mut drained = v.drain(1, 1);
    assert_eq!(drained.remaining(), 0);
    assert_eq!(drained.next(), None);
    assert_eq!(v.len(), 1);
}

#[test]
fn drain_whole_container() {
    let mut v: FixedStorageVec<u64, 4> = FixedStorageVec::new();
    v.push(1);
    v.push(2);
    let drained = v.drain(0, 2);
    assert_eq!(drained.collect_all(), vec![1, 2]);
    assert!(v.is_empty());
}

#[test]
fn extend_and_from_vec_keep_order() {
    let mut v: FixedStorageVec<u64, 6> = FixedStorageVec::new();
    v.push(1);
    v.extend_from_vec(vec![2, 3, 4]);
    assert_eq!(v.len(), 4);
    for i in 0..4 {
        assert_eq!(*v.get(i), (i + 1) as u64);
    }

    let w: HeapStorageVec<u64> = HeapStorageVec::from_vec(vec![9, 8, 7]);
    assert_eq!(w.len(), 3);
    assert_eq!(*w.get(0), 9);
    assert_eq!(*w.get(1), 8);
    assert_eq!(*w.get(2), 7);
}

#[test]
fn new_and_default_are_empty() {
    let a: FixedStorageVec<u64, 4> = FixedStorageVec::new();
    assert_eq!(a.len(), 0);
    assert!(a.is_empty());
    let b: HeapStorageVec<u64> = Default::default();
    assert!(b.is_empty());
    let c: HybridStorageVec<u64, 4> = Default::default();
    assert!(c.is_empty());
}

#[test]
fn pop_on_empty_reports_absence_everywhere() {
    let mut a: FixedStorageVec<u64, 4> = FixedStorageVec::new();
    assert_eq!(a.pop(), None);
    let mut b: HeapStorageVec<u64> = HeapStorageVec::new();
    assert_eq!(b.pop(), None);
    let mut c: HybridStorageVec<u64, 4> = HybridStorageVec::new();
    assert_eq!(c.pop(), None);
}

#[test]
fn zero_capacity_fixed_rejects_first_push() {
    let mut v: FixedStorageVec<u64, 0> = FixedStorageVec::new();
    assert_eq!(v.try_push(1), Err(1));
    assert_eq!(v.len(), 0);
}

#[test]
fn zero_capacity_hybrid_spills_immediately() {
    let mut v: HybridStorageVec<u64, 0> = HybridStorageVec::new();
    assert!(!v.has_spilled());
    assert!(v.try_push(1).is_ok());
    assert!(v.has_spilled());
    assert_eq!(v.len(), 1);
    assert_eq!(*v.get(0), 1);
}
