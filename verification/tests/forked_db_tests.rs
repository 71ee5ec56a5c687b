use fork_database::forked_db::ForkedDatabase;
use fork_database::in_memory::InMemorySource;
use fork_database::remote::RemoteCache;
use fork_database::types::{AccountChange, AccountRecord, DatabaseError};

fn rec(balance: u128) -> AccountRecord {
    AccountRecord { balance, nonce: 1, code_hash: 0 }
}

fn change(address: u64, balance: u128) -> AccountChange {
    AccountChange { address, info: rec(balance), storage: Vec::new() }
}

#[test]
fn fallback_ordering_prefers_cache_and_sticks() {
    let mut source = InMemorySource::new();
    source.load_account(1, rec(99));
    let mut cache = RemoteCache::new();
    cache.insert_account(1, rec(10));
    let mut db = ForkedDatabase::new(source, cache, 0);

    // The address is resident only in the remote cache: the cache answers,
    // not the source.
    assert_eq!(db.query_account(1), Ok(rec(10)));
    // The value is now remembered in the overlay: a second query without any
    // commit returns the identical value.
    assert_eq!(db.query_account(1), Ok(rec(10)));
    assert_eq!(db.query_account_ref(1), Ok(rec(10)));
}

#[test]
fn fallback_ordering_storage_and_block_hash() {
    let mut source = InMemorySource::new();
    source.load_storage(1, 2, 999);
    source.load_block_hash(50, 888);
    let mut cache = RemoteCache::new();
    cache.insert_storage(1, 2, 33);
    cache.insert_block_hash(50, 777);
    let mut db = ForkedDatabase::new(source, cache, 0);

    // The cache answers before the source does, and the answer sticks in
    // the overlay.
    assert_eq!(db.query_storage(1, 2), Ok(33));
    assert_eq!(db.query_storage_ref(1, 2), Ok(33));
    assert_eq!(db.query_block_hash(50), Ok(777));
    assert_eq!(db.query_block_hash_ref(50), Ok(777));
}

#[test]
fn write_isolation_commit_wins_over_remote() {
    let mut source = InMemorySource::new();
    source.load_account(7, rec(50));
    let db_cache = RemoteCache::new();
    let mut db = ForkedDatabase::new(source, db_cache, 0);

    db.commit(vec![change(7, 20)]);
    assert_eq!(db.query_account(7), Ok(rec(20)));
    assert_eq!(db.query_account_ref(7), Ok(rec(20)));
}

#[test]
fn snapshot_independence_of_later_commits() {
    let source = InMemorySource::new();
    let mut cache = RemoteCache::new();
    cache.insert_account(3, rec(10));
    let mut db = ForkedDatabase::new(source, cache, 0);

    assert_eq!(db.query_account(3), Ok(rec(10)));
    let id = db.insert_snapshot();
    db.commit(vec![change(3, 30)]);
    assert_eq!(db.query_account(3), Ok(rec(30)));

    // The stored copy still holds the capture-time value.
    let stored = db.snapshots().get(id).unwrap();
    assert_eq!(stored.basic(3), Some(rec(10)));

    // And reverting restores it.
    assert!(db.revert_snapshot(id));
    assert_eq!(db.query_account(3), Ok(rec(10)));
}

#[test]
fn revert_correctness_cascades_to_later_snapshots() {
    let source = InMemorySource::new();
    let db_cache = RemoteCache::new();
    let mut db = ForkedDatabase::new(source, db_cache, 0);

    db.commit(vec![change(1, 1)]);
    let t1 = db.insert_snapshot();
    db.commit(vec![change(1, 2)]);
    let t2 = db.insert_snapshot();
    db.commit(vec![change(1, 3)]);
    let t3 = db.insert_snapshot();

    assert!(db.revert_snapshot(t1));
    assert!(db.snapshots().get(t2).is_none());
    assert!(db.snapshots().get(t3).is_none());
    assert!(!db.revert_snapshot(t2));
    assert!(!db.revert_snapshot(t3));
    assert_eq!(db.query_account(1), Ok(rec(1)));
}

#[test]
fn revert_restores_exactly_including_cache_only_keys() {
    let mut source = InMemorySource::new();
    source.load_account(9, rec(77));
    let mut cache = RemoteCache::new();
    cache.insert_account(1, rec(10));
    cache.insert_account(5, rec(55));
    cache.insert_storage(1, 1, 7);
    cache.insert_block_hash(100, 4242);
    let mut db = ForkedDatabase::new(source, cache, 0);

    // Materialize part of the state in the overlay before capturing.
    assert_eq!(db.query_account(1), Ok(rec(10)));
    assert_eq!(db.query_storage(1, 1), Ok(7));
    assert_eq!(db.query_block_hash(100), Ok(4242));

    let id = db.insert_snapshot();

    // Mutate after the capture: a commit, and a fetch that grows both
    // layers.
    let touched = AccountChange { address: 1, info: rec(20), storage: vec![(1, 8)] };
    db.commit(vec![touched]);
    assert_eq!(db.query_account(9), Ok(rec(77)));
    assert_eq!(db.query_storage(1, 1), Ok(8));

    assert!(db.revert_snapshot(id));

    // Keys materialized at capture time come back exactly.
    assert_eq!(db.query_account(1), Ok(rec(10)));
    assert_eq!(db.query_storage(1, 1), Ok(7));
    assert_eq!(db.query_block_hash(100), Ok(4242));
    // A key that was only in the remote cache at capture time resolves via
    // the restored cache.
    assert_eq!(db.query_account_ref(5), Ok(rec(55)));
    // Remote data fetched after the capture is discarded by the revert.
    assert_eq!(db.query_account_ref(9), Err(DatabaseError::NotResident));
    // The live database can still fetch it anew.
    assert_eq!(db.query_account(9), Ok(rec(77)));
}

#[test]
fn reset_atomicity_on_pin_failure() {
    let mut source = InMemorySource::new();
    source.set_pin_locked(true);
    let mut cache = RemoteCache::new();
    cache.insert_account(1, rec(10));
    let mut db = ForkedDatabase::new(source, cache, 3);

    assert_eq!(db.query_account(1), Ok(rec(10)));
    let r = db.reset(5);
    assert!(r.is_err());
    // Nothing was wiped: overlay and remote cache still answer, and the
    // pinned block is unchanged.
    assert_eq!(db.query_account_ref(1), Ok(rec(10)));
    assert_eq!(db.pinned_block(), 3);
}

#[test]
fn reset_clears_both_layers_on_success() {
    let source = InMemorySource::new();
    let mut cache = RemoteCache::new();
    cache.insert_account(1, rec(10));
    let mut db = ForkedDatabase::new(source, cache, 3);

    assert_eq!(db.query_account(1), Ok(rec(10)));
    assert_eq!(db.reset(7), Ok(()));
    assert_eq!(db.pinned_block(), 7);
    assert_eq!(db.query_account_ref(1), Err(DatabaseError::NotResident));
}

#[test]
fn id_monotonicity_sequential_inserts() {
    let source = InMemorySource::new();
    let db_cache = RemoteCache::new();
    let mut db = ForkedDatabase::new(source, db_cache, 0);

    let mut previous: Option<u64> = None;
    for expected in 0u64..5 {
        let id = db.insert_snapshot();
        assert_eq!(id, expected);
        if let Some(p) = previous {
            assert!(p < id);
        }
        previous = Some(id);
    }
}

#[test]
fn example_scenario_commit_snapshot_revert() {
    let source = InMemorySource::new();
    let mut cache = RemoteCache::new();
    cache.insert_account(1, AccountRecord { balance: 10, nonce: 0, code_hash: 0 });
    let mut db = ForkedDatabase::new(source, cache, 0);

    assert_eq!(db.query_account(1).unwrap().balance, 10);
    db.commit(vec![AccountChange {
        address: 1,
        info: AccountRecord { balance: 20, nonce: 0, code_hash: 0 },
        storage: Vec::new(),
    }]);
    assert_eq!(db.query_account(1).unwrap().balance, 20);
    let id = db.insert_snapshot();
    assert_eq!(id, 0);
    db.commit(vec![AccountChange {
        address: 1,
        info: AccountRecord { balance: 30, nonce: 0, code_hash: 0 },
        storage: Vec::new(),
    }]);
    assert_eq!(db.query_account(1).unwrap().balance, 30);
    assert!(db.revert_snapshot(0));
    assert_eq!(db.query_account(1).unwrap().balance, 20);
}

#[test]
fn transport_errors_propagate() {
    let mut source = InMemorySource::new();
    source.set_offline(true);
    let db_cache = RemoteCache::new();
    let mut db = ForkedDatabase::new(source, db_cache, 0);

    assert!(matches!(db.query_account(1), Err(DatabaseError::Transport(_))));
    assert!(matches!(db.query_storage(1, 1), Err(DatabaseError::Transport(_))));
    assert!(matches!(db.query_block_hash(1), Err(DatabaseError::Transport(_))));
    assert!(matches!(db.query_code(1), Err(DatabaseError::Transport(_))));
    // The read-only variant never reaches the transport.
    assert_eq!(db.query_account_ref(1), Err(DatabaseError::NotResident));
}

#[test]
fn absent_account_resolves_to_default_record() {
    let source = InMemorySource::new();
    let db_cache = RemoteCache::new();
    let mut db = ForkedDatabase::new(source, db_cache, 0);

    let r = db.query_account(42).unwrap();
    assert_eq!(r, AccountRecord { balance: 0, nonce: 0, code_hash: 0 });
}

#[test]
fn code_query_caches_in_overlay() {
    let mut source = InMemorySource::new();
    source.load_code(0xabc, 1234);
    let db_cache = RemoteCache::new();
    let mut db = ForkedDatabase::new(source, db_cache, 0);

    assert_eq!(db.query_code_ref(0xabc), Err(DatabaseError::NotResident));
    assert_eq!(db.query_code(0xabc), Ok(1234));
    // Once fetched, the code is served from the overlay even if the
    // transport later fails.
    assert_eq!(db.query_code_ref(0xabc), Ok(1234));
}

#[test]
fn commit_replaces_touched_storage_slots() {
    let mut source = InMemorySource::new();
    source.load_storage(4, 3, 111);
    let db_cache = RemoteCache::new();
    let mut db = ForkedDatabase::new(source, db_cache, 0);

    let touched = AccountChange { address: 4, info: rec(5), storage: vec![(1, 5), (2, 6)] };
    db.commit(vec![touched]);
    assert_eq!(db.query_storage(4, 1), Ok(5));
    assert_eq!(db.query_storage(4, 2), Ok(6));
    // An untouched slot still falls through to the remote source.
    assert_eq!(db.query_storage(4, 3), Ok(111));
}

#[test]
fn create_snapshot_has_no_side_effect() {
    let source = InMemorySource::new();
    let mut cache = RemoteCache::new();
    cache.insert_account(2, rec(8));
    let mut db = ForkedDatabase::new(source, cache, 0);

    let snap = db.create_snapshot();
    // The capture sees the cache-resident account.
    assert_eq!(snap.basic(2), Some(rec(8)));
    assert_eq!(snap.basic(3), None);
    // The live overlay is untouched by the capture: the value is still not
    // resident there.
    assert_eq!(db.query_account_ref(2), Ok(rec(8)));
    assert!(db.snapshots().get(0).is_none());
}

#[test]
fn database_mut_exposes_the_overlay() {
    let source = InMemorySource::new();
    let db_cache = RemoteCache::new();
    let mut db = ForkedDatabase::new(source, db_cache, 0);

    db.database_mut().insert_account(11, rec(4));
    assert_eq!(db.query_account_ref(11), Ok(rec(4)));
    assert_eq!(db.database().get_account(11), Some(rec(4)));
    assert_eq!(db.inner().get_account(11), None);
}
