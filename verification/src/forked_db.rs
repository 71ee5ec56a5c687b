use crate::fallback::{resident_account, resident_block_hash, resident_code, resident_storage};
use crate::overlay::{
    apply_changes_view, empty_overlay_view, LocalOverlay, OverlayView,
};
use crate::remote::{empty_cache_view, CacheView, RemoteCache, RemoteStateSource};
use crate::snapshot::{ForkDbSnapshot, SnapshotView};
use crate::snapshot_store::{cascade_remove, next_counter, Snapshots};
use crate::types::{
    AccountChange, AccountRecord, Address, BlockHash, BlockNumber, Code, CodeHash, DatabaseError,
    SnapshotId, StorageSlot, StorageValue,
};
use crate::types::slot_key;
use vstd::prelude::*;

verus! {

/// A state database forked off a remote chain. Reads fall back from the
/// local overlay to the remote cache to the remote source; writes go
/// exclusively to the overlay, so the cached remote state is never
/// corrupted by speculative execution. Snapshots capture both layers and a
/// revert restores both, discarding every later snapshot.
pub struct ForkedDatabase<B: RemoteStateSource> {
    /// Fetches data that is missing from both local layers.
    backend: B,
    /// The mutable overlay that separates reads from writes.
    cache_db: LocalOverlay,
    /// The unchanged remote state fetched so far.
    db: RemoteCache,
    /// The registry of captured snapshots.
    snapshots: Snapshots<ForkDbSnapshot>,
    /// The remote block height all fetches are evaluated against.
    pinned_block: BlockNumber,
}

impl<B: RemoteStateSource> ForkedDatabase<B> {
    /// The live overlay contents.
    pub closed spec fn overlay_view(&self) -> OverlayView {
        self.cache_db@
    }

    /// The live remote-cache contents.
    pub closed spec fn cache_view(&self) -> CacheView {
        self.db@
    }

    /// The stored snapshots.
    pub closed spec fn snapshot_map(&self) -> Map<SnapshotId, ForkDbSnapshot> {
        self.snapshots@
    }

    /// The contents of each stored snapshot.
    pub open spec fn snapshot_views(&self) -> Map<SnapshotId, SnapshotView> {
        Map::new(
            |id: SnapshotId| self.snapshot_map().dom().contains(id),
            |id: SnapshotId| self.snapshot_map()[id]@,
        )
    }

    /// The identifier the next snapshot receives.
    pub closed spec fn snapshot_counter(&self) -> SnapshotId {
        self.snapshots.id_counter()
    }

    /// The pinned block height.
    pub closed spec fn pinned(&self) -> BlockNumber {
        self.pinned_block
    }

    /// A new database over a remote source and the cache of remote state it
    /// has filled so far, with a fresh overlay and no snapshots.
    pub fn new(backend: B, db: RemoteCache, pinned_block: BlockNumber) -> (d: Self)
        ensures
            d.overlay_view() == empty_overlay_view(),
            d.cache_view() == db@,
            d.snapshot_views() == Map::<SnapshotId, SnapshotView>::empty(),
            d.snapshot_counter() == 0,
            d.pinned() == pinned_block,
    {
        let d = ForkedDatabase {
            backend,
            cache_db: LocalOverlay::new(),
            db,
            snapshots: Default::default(),
            pinned_block,
        };
        proof {
            assert(d.snapshot_views() =~= Map::<SnapshotId, SnapshotView>::empty());
        }
        d
    }

    /// The overlay that holds locally materialized and written state.
    pub fn database(&self) -> (r: &LocalOverlay)
        ensures
            r@ == self.overlay_view(),
    {
        &self.cache_db
    }

    /// Mutable access to the overlay.
    pub fn database_mut(&mut self) -> (r: &mut LocalOverlay)
        ensures
            (*r)@ == old(self).overlay_view(),
            final(self).overlay_view() == (*final(r))@,
            final(self).cache_view() == old(self).cache_view(),
            final(self).snapshot_views() == old(self).snapshot_views(),
            final(self).snapshot_counter() == old(self).snapshot_counter(),
            final(self).pinned() == old(self).pinned(),
    {
        &mut self.cache_db
    }

    /// The registry of captured snapshots.
    pub fn snapshots(&self) -> (r: &Snapshots<ForkDbSnapshot>)
        ensures
            r@ == self.snapshot_map(),
            r.id_counter() == self.snapshot_counter(),
    {
        &self.snapshots
    }

    /// The database of unchanged remote state.
    pub fn inner(&self) -> (r: &RemoteCache)
        ensures
            r@ == self.cache_view(),
    {
        &self.db
    }

    /// The block height all fetches are evaluated against.
    pub fn pinned_block(&self) -> (r: BlockNumber)
        ensures
            r == self.pinned(),
    {
        self.pinned_block
    }

    /// Resets the fork to a fresh state pinned at `new_block`: re-pins the
    /// remote source, wipes the fetched remote state and discards the
    /// overlay. If re-pinning fails the database is left exactly as it was:
    /// no partial wipe.
    pub fn reset(&mut self, new_block: BlockNumber) -> (r: Result<(), DatabaseError>)
        ensures
            final(self).snapshot_views() == old(self).snapshot_views(),
            final(self).snapshot_counter() == old(self).snapshot_counter(),
            match r {
                Ok(_) => final(self).overlay_view() == empty_overlay_view() && final(self).cache_view() == empty_cache_view() && final(self).pinned() == new_block,
                Err(_) => final(self).overlay_view() == old(self).overlay_view() && final(self).cache_view() == old(self).cache_view() && final(self).pinned() == old(self).pinned(),
            },
    {
        match self.backend.set_pinned_block(new_block) {
            Ok(_) => {},
            Err(e) => {
                return Err(e);
            },
        }
        self.pinned_block = new_block;
        self.db = RemoteCache::new();
        self.cache_db = LocalOverlay::new();
        Ok(())
    }

    /// Asks the remote source to flush what it has fetched to its backing
    /// store; best-effort, a failure stays with the collaborator.
    pub fn flush_cache(&self) {
        self.backend.persist()
    }

    /// Captures a snapshot: a pure, independent deep copy of the overlay and
    /// of the remote cache's three maps; the live state is untouched.
    pub fn create_snapshot(&self) -> (s: ForkDbSnapshot)
        ensures
            s@.local == self.overlay_view(),
            s@.remote == self.cache_view(),
    {
        ForkDbSnapshot { local: self.cache_db.duplicate(), snapshot: self.db.duplicate() }
    }

    /// Captures a snapshot, registers it and returns its identifier.
    pub fn insert_snapshot(&mut self) -> (id: SnapshotId)
        ensures
            id == old(self).snapshot_counter(),
            final(self).snapshot_counter() == next_counter(old(self).snapshot_counter()),
            final(self).snapshot_views() == old(self).snapshot_views().insert(
                id,
                (SnapshotView {
                    local: old(self).overlay_view(),
                    remote: old(self).cache_view(),
                }),
            ),
            final(self).overlay_view() == old(self).overlay_view(),
            final(self).cache_view() == old(self).cache_view(),
            final(self).pinned() == old(self).pinned(),
    {
        let snapshot = self.create_snapshot();
        let id = self.snapshots.insert(snapshot);
        proof {
            assert(self.snapshot_views() =~= old(self).snapshot_views().insert(
                id,
                SnapshotView { local: old(self).overlay_view(), remote: old(self).cache_view() },
            ));
        }
        id
    }

    /// Restores live state from the snapshot stored under `id` — the remote
    /// cache's three maps and the overlay come back exactly as captured —
    /// and removes that snapshot together with every later one. An unknown
    /// `id` is a no-op on live state and returns false; the cascade over
    /// later identifiers still runs.
    pub fn revert_snapshot(&mut self, id: SnapshotId) -> (r: bool)
        ensures
            r == old(self).snapshot_views().dom().contains(id),
            final(self).snapshot_counter() == old(self).snapshot_counter(),
            final(self).snapshot_views() == cascade_remove(
                old(self).snapshot_views(),
                id,
                old(self).snapshot_counter(),
            ),
            final(self).pinned() == old(self).pinned(),
            r ==> final(self).overlay_view() == old(self).snapshot_views()[id].local && final(self).cache_view() == old(self).snapshot_views()[id].remote,
            !r ==> final(self).overlay_view() == old(self).overlay_view() && final(self).cache_view() == old(self).cache_view(),
    {
        let snapshot = self.snapshots.remove(id);
        let r = match snapshot {
            Some(snap) => {
                self.db = snap.snapshot;
                self.cache_db = snap.local;
                true
            },
            None => false,
        };
        proof {
            assert(final(self).snapshot_views() =~= cascade_remove(
                old(self).snapshot_views(),
                id,
                old(self).snapshot_counter(),
            ));
        }
        r
    }

    /// Applies a batch of post-execution account states to the overlay only:
    /// each touched account record is replaced wholesale and each storage
    /// slot included in its diff is written. The remote cache and the
    /// snapshot store are untouched.
    #[verifier::loop_isolation(false)]
    pub fn commit(&mut self, changes: Vec<AccountChange>)
        ensures
            final(self).overlay_view() == apply_changes_view(old(self).overlay_view(), changes@),
            final(self).cache_view() == old(self).cache_view(),
            final(self).snapshot_views() == old(self).snapshot_views(),
            final(self).snapshot_counter() == old(self).snapshot_counter(),
            final(self).pinned() == old(self).pinned(),
    {
        let ghost ov0 = self.overlay_view();
        let ghost cv0 = self.cache_view();
        let ghost sm0 = self.snapshot_map();
        let ghost c0 = self.snapshot_counter();
        let ghost p0 = self.pinned();
        let n = changes.len();
        let mut i: usize = 0;
        while i < n
            invariant
                i <= n,
                n == changes@.len(),
                self.overlay_view() == apply_changes_view(ov0, changes@.subrange(0, i as int)),
                self.cache_view() == cv0,
                self.snapshot_map() == sm0,
                self.snapshot_counter() == c0,
                self.pinned() == p0,
            decreases n - i,
        {
            self.cache_db.apply_change(&changes[i]);
            proof {
                let pre = changes@.subrange(0, i as int);
                let cur = changes@.subrange(0, i as int + 1);
                assert(cur.drop_last() =~= pre);
                assert(cur.last() == changes@[i as int]);
            }
            i += 1;
        }
        proof {
            assert(changes@.subrange(0, changes@.len() as int) =~= changes@);
        }
    }

    /// Resolves what is already materialized for an account, overlay first,
    /// then remote cache, performing no fetch.
    fn lookup_account(&self, addr: Address) -> (r: Option<AccountRecord>)
        ensures
            r == resident_account(self.overlay_view(), self.cache_view(), addr),
    {
        match self.cache_db.get_account(addr) {
            Some(record) => Some(record),
            None => self.db.get_account(addr),
        }
    }

    /// Resolves what is already materialized for a storage slot.
    fn lookup_storage(&self, addr: Address, slot: StorageSlot) -> (r: Option<StorageValue>)
        ensures
            r == resident_storage(self.overlay_view(), self.cache_view(), addr, slot),
    {
        match self.cache_db.get_storage(addr, slot) {
            Some(value) => Some(value),
            None => self.db.get_storage(addr, slot),
        }
    }

    /// Resolves what is already materialized for a block hash.
    fn lookup_block_hash(&self, number: BlockNumber) -> (r: Option<BlockHash>)
        ensures
            r == resident_block_hash(self.overlay_view(), self.cache_view(), number),
    {
        match self.cache_db.get_block_hash(number) {
            Some(hash) => Some(hash),
            None => self.db.get_block_hash(number),
        }
    }

    /// Account query with fetch-and-cache: overlay first, then remote cache;
    /// on a full miss the record is fetched from the remote source against
    /// the pinned block and remembered in both the remote cache and the
    /// overlay. Whatever resolves is remembered in the overlay, so an
    /// immediate second query returns the identical value without fetching.
    pub fn query_account(&mut self, addr: Address) -> (r: Result<AccountRecord, DatabaseError>)
        ensures
            final(self).snapshot_views() == old(self).snapshot_views(),
            final(self).snapshot_counter() == old(self).snapshot_counter(),
            final(self).pinned() == old(self).pinned(),
            final(self).overlay_view().storage == old(self).overlay_view().storage,
            final(self).overlay_view().contracts == old(self).overlay_view().contracts,
            final(self).overlay_view().block_hashes == old(self).overlay_view().block_hashes,
            match resident_account(old(self).overlay_view(), old(self).cache_view(), addr) {
                Some(v) => r == Ok::<AccountRecord, DatabaseError>(v) && final(self).overlay_view().accounts == old(self).overlay_view().accounts.insert(addr, v)
                    && final(self).cache_view() == old(self).cache_view(),
                None => match r {
                    Ok(v) => final(self).overlay_view().accounts == old(self).overlay_view().accounts.insert(addr, v) && final(self).cache_view()
                        == (CacheView {
                        accounts: old(self).cache_view().accounts.insert(addr, v),
                        ..old(self).cache_view()
                    }),
                    Err(_) => final(self).overlay_view() == old(self).overlay_view() && final(self).cache_view() == old(self).cache_view(),
                },
            },
    {
        let pinned = self.pinned_block;
        match self.lookup_account(addr) {
            Some(v) => {
                self.cache_db.insert_account(addr, v);
                Ok(v)
            },
            None => match self.backend.get_account(addr, pinned) {
                Ok(v) => {
                    self.db.insert_account(addr, v);
                    self.cache_db.insert_account(addr, v);
                    Ok(v)
                },
                Err(e) => Err(e),
            },
        }
    }

    /// Storage query with fetch-and-cache, per slot; same fallback chain as
    /// `query_account`.
    pub fn query_storage(&mut self, addr: Address, slot: StorageSlot) -> (r: Result<
        StorageValue,
        DatabaseError,
    >)
        ensures
            final(self).snapshot_views() == old(self).snapshot_views(),
            final(self).snapshot_counter() == old(self).snapshot_counter(),
            final(self).pinned() == old(self).pinned(),
            final(self).overlay_view().accounts == old(self).overlay_view().accounts,
            final(self).overlay_view().contracts == old(self).overlay_view().contracts,
            final(self).overlay_view().block_hashes == old(self).overlay_view().block_hashes,
            match resident_storage(old(self).overlay_view(), old(self).cache_view(), addr, slot) {
                Some(v) => r == Ok::<StorageValue, DatabaseError>(v) && final(self).overlay_view().storage == old(self).overlay_view().storage.insert(
                    slot_key(addr, slot),
                    v,
                ) && final(self).cache_view() == old(self).cache_view(),
                None => match r {
                    Ok(v) => final(self).overlay_view().storage == old(self).overlay_view().storage.insert(slot_key(addr, slot), v) && final(self).cache_view() == (CacheView {
                        storage: old(self).cache_view().storage.insert(slot_key(addr, slot), v),
                        ..old(self).cache_view()
                    }),
                    Err(_) => final(self).overlay_view() == old(self).overlay_view() && final(self).cache_view() == old(self).cache_view(),
                },
            },
    {
        let pinned = self.pinned_block;
        match self.lookup_storage(addr, slot) {
            Some(v) => {
                self.cache_db.insert_storage(addr, slot, v);
                Ok(v)
            },
            None => match self.backend.get_storage(addr, slot, pinned) {
                Ok(v) => {
                    self.db.insert_storage(addr, slot, v);
                    self.cache_db.insert_storage(addr, slot, v);
                    Ok(v)
                },
                Err(e) => Err(e),
            },
        }
    }

    /// Contract code query with fetch-and-cache. Code is remembered in the
    /// overlay's contracts map alone: the remote cache keeps no code.
    pub fn query_code(&mut self, code_hash: CodeHash) -> (r: Result<Code, DatabaseError>)
        ensures
            final(self).snapshot_views() == old(self).snapshot_views(),
            final(self).snapshot_counter() == old(self).snapshot_counter(),
            final(self).pinned() == old(self).pinned(),
            final(self).cache_view() == old(self).cache_view(),
            final(self).overlay_view().accounts == old(self).overlay_view().accounts,
            final(self).overlay_view().storage == old(self).overlay_view().storage,
            final(self).overlay_view().block_hashes == old(self).overlay_view().block_hashes,
            match resident_code(old(self).overlay_view(), code_hash) {
                Some(v) => r == Ok::<Code, DatabaseError>(v) && final(self).overlay_view().contracts == old(self).overlay_view().contracts.insert(
                    code_hash,
                    v,
                ),
                None => match r {
                    Ok(v) => final(self).overlay_view().contracts == old(self).overlay_view().contracts.insert(code_hash, v),
                    Err(_) => final(self).overlay_view() == old(self).overlay_view(),
                },
            },
    {
        match self.cache_db.get_code(code_hash) {
            Some(v) => {
                self.cache_db.insert_code(code_hash, v);
                Ok(v)
            },
            None => match self.backend.get_code(code_hash) {
                Ok(v) => {
                    self.cache_db.insert_code(code_hash, v);
                    Ok(v)
                },
                Err(e) => Err(e),
            },
        }
    }

    /// Block hash query with fetch-and-cache; same fallback chain as
    /// `query_account`.
    pub fn query_block_hash(&mut self, number: BlockNumber) -> (r: Result<
        BlockHash,
        DatabaseError,
    >)
        ensures
            final(self).snapshot_views() == old(self).snapshot_views(),
            final(self).snapshot_counter() == old(self).snapshot_counter(),
            final(self).pinned() == old(self).pinned(),
            final(self).overlay_view().accounts == old(self).overlay_view().accounts,
            final(self).overlay_view().storage == old(self).overlay_view().storage,
            final(self).overlay_view().contracts == old(self).overlay_view().contracts,
            match resident_block_hash(old(self).overlay_view(), old(self).cache_view(), number) {
                Some(v) => r == Ok::<BlockHash, DatabaseError>(v) && final(self).overlay_view().block_hashes == old(self).overlay_view().block_hashes.insert(
                    number,
                    v,
                ) && final(self).cache_view() == old(self).cache_view(),
                None => match r {
                    Ok(v) => final(self).overlay_view().block_hashes == old(self).overlay_view().block_hashes.insert(number, v) && final(self).cache_view()
                        == (CacheView {
                        block_hashes: old(self).cache_view().block_hashes.insert(number, v),
                        ..old(self).cache_view()
                    }),
                    Err(_) => final(self).overlay_view() == old(self).overlay_view() && final(self).cache_view() == old(self).cache_view(),
                },
            },
    {
        match self.lookup_block_hash(number) {
            Some(v) => {
                self.cache_db.insert_block_hash(number, v);
                Ok(v)
            },
            None => match self.backend.get_block_hash(number) {
                Ok(v) => {
                    self.db.insert_block_hash(number, v);
                    self.cache_db.insert_block_hash(number, v);
                    Ok(v)
                },
                Err(e) => Err(e),
            },
        }
    }

    /// Read-only account query: the identical fallback ordering to
    /// `query_account`, but a miss is an explicit error instead of a fetch,
    /// and nothing is mutated.
    pub fn query_account_ref(&self, addr: Address) -> (r: Result<AccountRecord, DatabaseError>)
        ensures
            r == match resident_account(self.overlay_view(), self.cache_view(), addr) {
                Some(v) => Ok::<AccountRecord, DatabaseError>(v),
                None => Err::<AccountRecord, DatabaseError>(DatabaseError::NotResident),
            },
    {
        match self.lookup_account(addr) {
            Some(v) => Ok(v),
            None => Err(DatabaseError::NotResident),
        }
    }

    /// Read-only storage query.
    pub fn query_storage_ref(&self, addr: Address, slot: StorageSlot) -> (r: Result<
        StorageValue,
        DatabaseError,
    >)
        ensures
            r == match resident_storage(self.overlay_view(), self.cache_view(), addr, slot) {
                Some(v) => Ok::<StorageValue, DatabaseError>(v),
                None => Err::<StorageValue, DatabaseError>(DatabaseError::NotResident),
            },
    {
        match self.lookup_storage(addr, slot) {
            Some(v) => Ok(v),
            None => Err(DatabaseError::NotResident),
        }
    }

    /// Read-only contract code query.
    pub fn query_code_ref(&self, code_hash: CodeHash) -> (r: Result<Code, DatabaseError>)
        ensures
            r == match resident_code(self.overlay_view(), code_hash) {
                Some(v) => Ok::<Code, DatabaseError>(v),
                None => Err::<Code, DatabaseError>(DatabaseError::NotResident),
            },
    {
        match self.cache_db.get_code(code_hash) {
            Some(v) => Ok(v),
            None => Err(DatabaseError::NotResident),
        }
    }

    /// Read-only block hash query.
    pub fn query_block_hash_ref(&self, number: BlockNumber) -> (r: Result<
        BlockHash,
        DatabaseError,
    >)
        ensures
            r == match resident_block_hash(self.overlay_view(), self.cache_view(), number) {
                Some(v) => Ok::<BlockHash, DatabaseError>(v),
                None => Err::<BlockHash, DatabaseError>(DatabaseError::NotResident),
            },
    {
        match self.lookup_block_hash(number) {
            Some(v) => Ok(v),
            None => Err(DatabaseError::NotResident),
        }
    }
}

} // verus!
