use crate::fallback::{resident_account, resident_block_hash, resident_storage};
use crate::overlay::{apply_change_view, OverlayView};
use crate::remote::CacheView;
use crate::snapshot::SnapshotView;
use crate::snapshot_store::cascade_remove;
use crate::types::{AccountChange, Address, BlockNumber, SnapshotId, StorageSlot, StorageValue};
use crate::types::{lemma_slot_key_injective, slot_key};
use vstd::prelude::*;

verus! {

/// Fallback ordering: for an address whose value is held only by the remote
/// cache, a query resolves to the cache's value; and once the overlay has
/// remembered that value, a second query — without any commit in between —
/// resolves to the identical value.
pub proof fn lemma_fallback_ordering(ov: OverlayView, cv: CacheView, addr: Address)
    requires
        !ov.accounts.dom().contains(addr),
        cv.accounts.dom().contains(addr),
    ensures
        resident_account(ov, cv, addr) == Some(cv.accounts[addr]),
        resident_account(
            (OverlayView { accounts: ov.accounts.insert(addr, cv.accounts[addr]), ..ov }),
            cv,
            addr,
        ) == Some(cv.accounts[addr]),
{
}

/// Write isolation: after a commit that writes the change `c`, the account
/// query for `c.address` resolves to `c.info` in the overlay, whatever any
/// remote cache holds and whatever the remote source would answer.
pub proof fn lemma_write_isolation(ov: OverlayView, c: AccountChange, any_cache: CacheView)
    ensures
        resident_account(apply_change_view(ov, c), any_cache, c.address) == Some(c.info),
{
}

/// Storage write isolation: a write to one (address, slot) pair never
/// disturbs any other pair, because the flattened keys of distinct pairs are
/// distinct.
pub proof fn lemma_storage_write_targets_one_slot(
    m: Map<u128, StorageValue>,
    a1: Address,
    s1: StorageSlot,
    v: StorageValue,
    a2: Address,
    s2: StorageSlot,
)
    requires
        a1 != a2 || s1 != s2,
    ensures
        m.insert(slot_key(a1, s1), v).dom().contains(slot_key(a2, s2)) == m.dom().contains(
            slot_key(a2, s2),
        ),
        m.dom().contains(slot_key(a2, s2)) ==> m.insert(slot_key(a1, s1), v)[slot_key(a2, s2)]
            == m[slot_key(a2, s2)],
{
    if slot_key(a1, s1) == slot_key(a2, s2) {
        lemma_slot_key_injective(a1, s1, a2, s2);
    }
}

/// Snapshot independence: the store keeps the capture-time contents. A
/// commit after the capture changes only the live overlay, never the stored
/// entry, so whatever the live views become, the snapshot stored at `id`
/// still holds exactly the views captured at `id`.
pub proof fn lemma_snapshot_independence(
    store: Map<SnapshotId, SnapshotView>,
    id: SnapshotId,
    ov_at_capture: OverlayView,
    cv_at_capture: CacheView,
)
    ensures
        ({
            let stored = store.insert(
                id,
                SnapshotView { local: ov_at_capture, remote: cv_at_capture },
            );
            stored[id].local == ov_at_capture && stored[id].remote == cv_at_capture
        }),
{
}

/// Revert correctness: reverting to the earliest of three snapshots removes
/// all three from the store, so a subsequent revert aimed at either later
/// snapshot finds nothing and reports failure.
pub proof fn lemma_revert_cascade(
    store: Map<SnapshotId, SnapshotView>,
    counter: SnapshotId,
    t1: SnapshotId,
    t2: SnapshotId,
    t3: SnapshotId,
)
    requires
        t1 < t2 < t3 < counter,
    ensures
        !cascade_remove(store, t1, counter).dom().contains(t1),
        !cascade_remove(store, t1, counter).dom().contains(t2),
        !cascade_remove(store, t1, counter).dom().contains(t3),
{
}

/// Revert restores exactly: once live state equals a snapshot's captured
/// views, every query resolves among the captured contents alone. A key the
/// capture-time overlay held resolves to its overlay value; a key absent
/// from that overlay but present in the captured remote cache resolves
/// through the restored cache — never through whatever the cache held just
/// before the revert.
pub proof fn lemma_revert_restores_exactly(
    s: SnapshotView,
    addr: Address,
    slot: StorageSlot,
    number: BlockNumber,
)
    ensures
        s.local.accounts.dom().contains(addr) ==> resident_account(s.local, s.remote, addr)
            == Some(s.local.accounts[addr]),
        !s.local.accounts.dom().contains(addr) && s.remote.accounts.dom().contains(addr)
            ==> resident_account(s.local, s.remote, addr) == Some(s.remote.accounts[addr]),
        s.local.storage.dom().contains(slot_key(addr, slot)) ==> resident_storage(
            s.local,
            s.remote,
            addr,
            slot,
        ) == Some(s.local.storage[slot_key(addr, slot)]),
        !s.local.storage.dom().contains(slot_key(addr, slot)) && s.remote.storage.dom().contains(
            slot_key(addr, slot),
        ) ==> resident_storage(s.local, s.remote, addr, slot) == Some(
            s.remote.storage[slot_key(addr, slot)],
        ),
        s.local.block_hashes.dom().contains(number) ==> resident_block_hash(
            s.local,
            s.remote,
            number,
        ) == Some(s.local.block_hashes[number]),
        !s.local.block_hashes.dom().contains(number) && s.remote.block_hashes.dom().contains(
            number,
        ) ==> resident_block_hash(s.local, s.remote, number) == Some(
            s.remote.block_hashes[number],
        ),
{
}

} // verus!
