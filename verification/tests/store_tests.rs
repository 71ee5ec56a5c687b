use fork_database::snapshot_store::Snapshots;
use fork_database::table::Table;

#[test]
fn snapshots_insert_get_remove() {
    let mut store: Snapshots<u64> = Default::default();
    assert_eq!(store.insert(100), 0);
    assert_eq!(store.insert(200), 1);
    assert_eq!(store.insert(300), 2);

    assert_eq!(store.get(1), Some(&200));
    assert_eq!(store.get(9), None);

    // Removing an id also removes every later id.
    assert_eq!(store.remove(1), Some(200));
    assert_eq!(store.get(1), None);
    assert_eq!(store.get(2), None);
    assert_eq!(store.get(0), Some(&100));
}

#[test]
fn snapshots_never_reuse_ids() {
    let mut store: Snapshots<u64> = Default::default();
    assert_eq!(store.insert(100), 0);
    assert_eq!(store.insert(200), 1);
    assert_eq!(store.remove(0), Some(100));
    // Both snapshots are gone, but the counter keeps rising.
    assert_eq!(store.insert(300), 2);
    assert_eq!(store.get(0), None);
    assert_eq!(store.get(1), None);
    assert_eq!(store.get(2), Some(&300));
}

#[test]
fn snapshots_cascade_runs_for_unknown_id() {
    let mut store: Snapshots<u64> = Default::default();
    assert_eq!(store.insert(100), 0);
    assert_eq!(store.insert(200), 1);
    assert_eq!(store.insert(300), 2);
    assert_eq!(store.remove(1), Some(200));
    // id 1 is gone; removing it again finds nothing, yet the cascade still
    // sweeps every id above it.
    assert_eq!(store.insert(400), 3);
    assert_eq!(store.remove(1), None);
    assert_eq!(store.get(3), None);
    assert_eq!(store.get(0), Some(&100));
}

#[test]
fn snapshots_remove_beyond_all_is_a_noop() {
    let mut store: Snapshots<u64> = Default::default();
    assert_eq!(store.insert(100), 0);
    assert_eq!(store.remove(10), None);
    assert_eq!(store.get(0), Some(&100));
}

#[test]
fn table_insert_get_and_duplicate() {
    let mut t: Table<u64, u64> = Table::new();
    assert_eq!(t.get(1), None);
    t.insert(1, 10);
    t.insert(2, 20);
    t.insert(1, 11);
    assert_eq!(t.get(1), Some(11));
    assert_eq!(t.get(2), Some(20));

    let copy = t.duplicate();
    t.insert(2, 99);
    // The copy is independent of later writes to the table it came from.
    assert_eq!(copy.get(2), Some(20));
    assert_eq!(t.get(2), Some(99));
}
