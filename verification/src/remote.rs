use crate::table::Table;
use crate::types::{
    AccountRecord, Address, BlockHash, BlockNumber, Code, CodeHash, DatabaseError, StorageSlot,
    StorageValue,
};
use crate::types::{make_slot_key, slot_key};
use vstd::prelude::*;

verus! {

/// The mathematical contents of the remote cache's three maps. Storage is
/// keyed by the flattened `slot_key` of an (address, slot) pair.
#[verifier::ext_equal]
pub ghost struct CacheView {
    pub accounts: Map<Address, AccountRecord>,
    pub storage: Map<u128, StorageValue>,
    pub block_hashes: Map<BlockNumber, BlockHash>,
}

/// The contents of a freshly created or fully cleared cache.
pub open spec fn empty_cache_view() -> CacheView {
    CacheView { accounts: Map::empty(), storage: Map::empty(), block_hashes: Map::empty() }
}

/// The fetch-populated mirror of remote chain state: three independent maps
/// for accounts, storage slots and block hashes. It grows as fetches resolve
/// and is cleared only by an explicit reset, or replaced wholesale by a
/// revert.
pub struct RemoteCache {
    accounts: Table<Address, AccountRecord>,
    storage: Table<u128, StorageValue>,
    block_hashes: Table<BlockNumber, BlockHash>,
}

impl View for RemoteCache {
    type V = CacheView;

    closed spec fn view(&self) -> CacheView {
        CacheView {
            accounts: self.accounts@,
            storage: self.storage@,
            block_hashes: self.block_hashes@,
        }
    }
}

impl RemoteCache {
    /// An empty cache.
    pub fn new() -> (c: Self)
        ensures
            c@ == empty_cache_view(),
    {
        let c = RemoteCache {
            accounts: Table::new(),
            storage: Table::new(),
            block_hashes: Table::new(),
        };
        proof {
            assert(c@ =~= empty_cache_view());
        }
        c
    }

    /// Point lookup of a cached account.
    pub fn get_account(&self, addr: Address) -> (r: Option<AccountRecord>)
        ensures
            r == if self@.accounts.dom().contains(addr) {
                Some(self@.accounts[addr])
            } else {
                None::<AccountRecord>
            },
    {
        self.accounts.get(addr)
    }

    /// Remembers a fetched account record.
    pub fn insert_account(&mut self, addr: Address, record: AccountRecord)
        ensures
            final(self)@ == (CacheView {
                accounts: old(self)@.accounts.insert(addr, record),
                ..old(self)@
            }),
    {
        self.accounts.insert(addr, record);
    }

    /// Point lookup of a cached storage slot.
    pub fn get_storage(&self, addr: Address, slot: StorageSlot) -> (r: Option<StorageValue>)
        ensures
            r == if self@.storage.dom().contains(slot_key(addr, slot)) {
                Some(self@.storage[slot_key(addr, slot)])
            } else {
                None::<StorageValue>
            },
    {
        self.storage.get(make_slot_key(addr, slot))
    }

    /// Remembers a fetched storage slot.
    pub fn insert_storage(&mut self, addr: Address, slot: StorageSlot, value: StorageValue)
        ensures
            final(self)@ == (CacheView {
                storage: old(self)@.storage.insert(slot_key(addr, slot), value),
                ..old(self)@
            }),
    {
        self.storage.insert(make_slot_key(addr, slot), value);
    }

    /// Point lookup of a cached block hash.
    pub fn get_block_hash(&self, number: BlockNumber) -> (r: Option<BlockHash>)
        ensures
            r == if self@.block_hashes.dom().contains(number) {
                Some(self@.block_hashes[number])
            } else {
                None::<BlockHash>
            },
    {
        self.block_hashes.get(number)
    }

    /// Remembers a fetched block hash.
    pub fn insert_block_hash(&mut self, number: BlockNumber, hash: BlockHash)
        ensures
            final(self)@ == (CacheView {
                block_hashes: old(self)@.block_hashes.insert(number, hash),
                ..old(self)@
            }),
    {
        self.block_hashes.insert(number, hash);
    }

    /// An independent deep copy of all three maps.
    pub fn duplicate(&self) -> (c: Self)
        ensures
            c@ == self@,
    {
        let c = RemoteCache {
            accounts: self.accounts.duplicate(),
            storage: self.storage.duplicate(),
            block_hashes: self.block_hashes.duplicate(),
        };
        proof {
            assert(c@ =~= self@);
        }
        c
    }
}

/// The remote collaborator that answers point queries against a pinned
/// block, over a transport that may fail. Nothing is assumed of its answers:
/// callers of these methods state what holds of every outcome.
pub trait RemoteStateSource {
    /// Fetches the basic record of an account. A conforming source never
    /// reports an account as unknown: an account absent upstream comes back
    /// as a default record, and an error means the transport itself failed.
    fn get_account(&mut self, addr: Address, pinned_block: BlockNumber) -> Result<
        AccountRecord,
        DatabaseError,
    >;

    /// Fetches one storage slot of an account.
    fn get_storage(&mut self, addr: Address, slot: StorageSlot, pinned_block: BlockNumber)
        -> Result<StorageValue, DatabaseError>;

    /// Fetches contract code by its hash.
    fn get_code(&mut self, code_hash: CodeHash) -> Result<Code, DatabaseError>;

    /// Fetches the hash of a block.
    fn get_block_hash(&mut self, number: BlockNumber) -> Result<BlockHash, DatabaseError>;

    /// Re-targets all subsequent fetches to `new_block`.
    fn set_pinned_block(&mut self, new_block: BlockNumber) -> Result<(), DatabaseError>;

    /// Best-effort flush of fetched data to a backing store; the collaborator
    /// swallows failures.
    fn persist(&self);
}

} // verus!
