use grf_engine::SparseSet;

#[test]
fn test_sparse_set_insert_get_overwrite() {
    let mut set: SparseSet<u64> = SparseSet::new();
    assert_eq!(set.len(), 0);
    assert!(!set.contains(3));

    set.insert(3, 30);
    set.insert(7, 70);
    assert_eq!(set.len(), 2);
    assert_eq!(set.get(3), Some(&30));
    assert_eq!(set.get(7), Some(&70));
    assert_eq!(set.get(5), None);

    // Overwriting keeps the size constant.
    set.insert(3, 33);
    assert_eq!(set.len(), 2);
    assert_eq!(set.get(3), Some(&33));
}

#[test]
fn test_sparse_set_swap_remove_moves_one_entry() {
    let mut set: SparseSet<u64> = SparseSet::new();
    set.insert(1, 10);
    set.insert(2, 20);
    set.insert(3, 30);

    // Removing the first entry swaps the last into its dense position;
    // every other entry keeps its value.
    let removed = set.remove(1);
    assert_eq!(removed, Some(10));
    assert_eq!(set.len(), 2);
    assert!(!set.contains(1));
    assert_eq!(set.get(2), Some(&20));
    assert_eq!(set.get(3), Some(&30));

    // The dense arrays stay parallel: position 0 now belongs to entry 3.
    assert_eq!(set.entity_at(0), 3);
    assert_eq!(set.value_at(0), &30);
    assert_eq!(set.entity_at(1), 2);
    assert_eq!(set.value_at(1), &20);
}

#[test]
fn test_sparse_set_remove_absent() {
    let mut set: SparseSet<u64> = SparseSet::new();
    set.insert(4, 40);
    assert_eq!(set.remove(9), None);
    assert_eq!(set.remove(4), Some(40));
    assert_eq!(set.remove(4), None);
    assert_eq!(set.len(), 0);
}

#[test]
fn test_sparse_set_get_mut() {
    let mut set: SparseSet<u64> = SparseSet::new();
    set.insert(5, 50);
    if let Some(v) = set.get_mut(5) {
        *v = 55;
    }
    assert_eq!(set.get(5), Some(&55));
    assert!(set.get_mut(6).is_none());
}
