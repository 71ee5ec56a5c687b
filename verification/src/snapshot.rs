use crate::fallback::{resident_account, resident_block_hash, resident_code, resident_storage};
use crate::overlay::{LocalOverlay, OverlayView};
use crate::remote::{CacheView, RemoteCache};
use crate::types::{
    AccountRecord, Address, BlockHash, BlockNumber, Code, CodeHash, StorageSlot, StorageValue,
};
use vstd::prelude::*;

verus! {

/// The mathematical contents of a stored snapshot: the captured overlay and
/// the captured remote cache.
#[verifier::ext_equal]
pub ghost struct SnapshotView {
    pub local: OverlayView,
    pub remote: CacheView,
}

/// An immutable, deep-copied checkpoint of the overlay plus the remote
/// cache's three maps at capture time. It has no live relationship to its
/// source: mutating the live database after capture never affects a stored
/// snapshot.
pub struct ForkDbSnapshot {
    pub local: LocalOverlay,
    pub snapshot: RemoteCache,
}

impl View for ForkDbSnapshot {
    type V = SnapshotView;

    open spec fn view(&self) -> SnapshotView {
        SnapshotView { local: self.local@, remote: self.snapshot@ }
    }
}

impl ForkDbSnapshot {
    /// Looks an account up among the captured contents, captured overlay
    /// first; no fetch is ever performed through a snapshot.
    pub fn basic(&self, addr: Address) -> (r: Option<AccountRecord>)
        ensures
            r == resident_account(self@.local, self@.remote, addr),
    {
        match self.local.get_account(addr) {
            Some(record) => Some(record),
            None => self.snapshot.get_account(addr),
        }
    }

    /// Looks a storage slot up among the captured contents.
    pub fn storage(&self, addr: Address, slot: StorageSlot) -> (r: Option<StorageValue>)
        ensures
            r == resident_storage(self@.local, self@.remote, addr, slot),
    {
        match self.local.get_storage(addr, slot) {
            Some(value) => Some(value),
            None => self.snapshot.get_storage(addr, slot),
        }
    }

    /// Looks contract code up among the captured contents.
    pub fn code_by_hash(&self, code_hash: CodeHash) -> (r: Option<Code>)
        ensures
            r == resident_code(self@.local, code_hash),
    {
        self.local.get_code(code_hash)
    }

    /// Looks a block hash up among the captured contents.
    pub fn block_hash(&self, number: BlockNumber) -> (r: Option<BlockHash>)
        ensures
            r == resident_block_hash(self@.local, self@.remote, number),
    {
        match self.local.get_block_hash(number) {
            Some(hash) => Some(hash),
            None => self.snapshot.get_block_hash(number),
        }
    }
}

} // verus!
