use cpuinfo::{CpuidError, CpuidFunction, CpuidIterator, CpuidResult, RunningCpuidDB};

#[test]
fn iterator_rejects_a_leaf_outside_its_range() {
    let r = CpuidIterator::at_leaf(0x40000000, 5, CpuidFunction::Basic);
    assert!(matches!(r, Err(CpuidError::LeafOutOfRange(0x40000000, _))));
    assert!(CpuidIterator::at_leaf(5, 5, CpuidFunction::Basic).is_ok());
}

#[test]
fn iterator_emits_skips_and_deduplicates() {
    let mut it = CpuidIterator::new(1, CpuidFunction::Basic).unwrap();
    let quad = CpuidResult { eax: 7, ebx: 1, ecx: 0, edx: 0 };

    // A non-empty quad is emitted and the sub-leaf advances.
    let addr = it.current_query().unwrap();
    assert_eq!((addr.leaf, addr.sub_leaf), (0, 0));
    let (emitted, result) = it.feed(quad).unwrap();
    assert_eq!((emitted.leaf, emitted.sub_leaf), (0, 0));
    assert_eq!(result, quad);
    assert_eq!(it.current_query().unwrap().sub_leaf, 1);

    // A repeat of the previous sub-leaf ends the leaf.
    assert!(it.feed(quad).is_none());
    let addr = it.current_query().unwrap();
    assert_eq!((addr.leaf, addr.sub_leaf), (1, 0));

    // An empty quad skips the leaf without emitting.
    let empty = CpuidResult { eax: 0, ebx: 0, ecx: 0, edx: 0 };
    assert!(it.feed(empty).is_none());
    assert!(it.current_query().is_none());
}

#[test]
fn probed_ranges_bound_which_leaves_are_queried() {
    let db = RunningCpuidDB::new(0x16, Some(0x10), 8);
    assert!(db.supports_leaf(0));
    assert!(db.supports_leaf(0x16));
    assert!(!db.supports_leaf(0x17));
    assert!(db.supports_leaf(0x40000010));
    assert!(!db.supports_leaf(0x40000011));
    assert!(db.supports_leaf(0x80000008));
    assert!(!db.supports_leaf(0x80000009));
    assert!(!db.supports_leaf(0x90000000));
    let no_hv = RunningCpuidDB::new(0x16, None, 8);
    assert!(!no_hv.supports_leaf(0x40000000));
}
