use crate::table::Table;
use crate::types::{
    AccountChange, AccountRecord, Address, BlockHash, BlockNumber, Code, CodeHash, StorageSlot,
    StorageValue,
};
use crate::types::{make_slot_key, slot_key};
use vstd::prelude::*;

verus! {

/// The mathematical contents of the local overlay. Storage is keyed by the
/// flattened `slot_key` of an (address, slot) pair.
#[verifier::ext_equal]
pub ghost struct OverlayView {
    pub accounts: Map<Address, AccountRecord>,
    pub storage: Map<u128, StorageValue>,
    pub contracts: Map<CodeHash, Code>,
    pub block_hashes: Map<BlockNumber, BlockHash>,
}

/// The contents of a freshly created overlay.
pub open spec fn empty_overlay_view() -> OverlayView {
    OverlayView {
        accounts: Map::empty(),
        storage: Map::empty(),
        contracts: Map::empty(),
        block_hashes: Map::empty(),
    }
}

/// The storage map after one account's touched slots are written: each
/// touched slot is replaced, all other slots are kept.
pub open spec fn apply_slot_writes(
    m: Map<u128, StorageValue>,
    addr: Address,
    writes: Seq<(StorageSlot, StorageValue)>,
) -> Map<u128, StorageValue>
    decreases writes.len(),
{
    if writes.len() == 0 {
        m
    } else {
        apply_slot_writes(m, addr, writes.drop_last()).insert(
            slot_key(addr, writes.last().0),
            writes.last().1,
        )
    }
}

/// The overlay after one committed account change: the whole account record
/// is replaced and its touched storage slots are written.
pub open spec fn apply_change_view(ov: OverlayView, c: AccountChange) -> OverlayView {
    OverlayView {
        accounts: ov.accounts.insert(c.address, c.info),
        storage: apply_slot_writes(ov.storage, c.address, c.storage@),
        ..ov
    }
}

/// The overlay after a batch of committed account changes, applied in order.
pub open spec fn apply_changes_view(ov: OverlayView, cs: Seq<AccountChange>) -> OverlayView
    decreases cs.len(),
{
    if cs.len() == 0 {
        ov
    } else {
        apply_change_view(apply_changes_view(ov, cs.drop_last()), cs.last())
    }
}

/// The local, mutable, write-visible state layer. An entry exists only if it
/// was written by a commit or remembered from a resolved fetch; absence means
/// "defer to the remote source".
pub struct LocalOverlay {
    accounts: Table<Address, AccountRecord>,
    storage: Table<u128, StorageValue>,
    contracts: Table<CodeHash, Code>,
    block_hashes: Table<BlockNumber, BlockHash>,
}

impl View for LocalOverlay {
    type V = OverlayView;

    closed spec fn view(&self) -> OverlayView {
        OverlayView {
            accounts: self.accounts@,
            storage: self.storage@,
            contracts: self.contracts@,
            block_hashes: self.block_hashes@,
        }
    }
}

impl LocalOverlay {
    /// An empty overlay.
    pub fn new() -> (o: Self)
        ensures
            o@ == empty_overlay_view(),
    {
        let o = LocalOverlay {
            accounts: Table::new(),
            storage: Table::new(),
            contracts: Table::new(),
            block_hashes: Table::new(),
        };
        proof {
            assert(o@ =~= empty_overlay_view());
        }
        o
    }

    /// Point lookup of a locally materialized account.
    pub fn get_account(&self, addr: Address) -> (r: Option<AccountRecord>)
        ensures
            r == if self@.accounts.dom().contains(addr) {
                Some(self@.accounts[addr])
            } else {
                None::<AccountRecord>
            },
    {
        self.accounts.get(addr)
    }

    /// Writes an account record; a remembered fetch and a genuine local
    /// write are indistinguishable afterward.
    pub fn insert_account(&mut self, addr: Address, record: AccountRecord)
        ensures
            final(self)@ == (OverlayView {
                accounts: old(self)@.accounts.insert(addr, record),
                ..old(self)@
            }),
    {
        self.accounts.insert(addr, record);
    }

    /// Point lookup of a locally materialized storage slot.
    pub fn get_storage(&self, addr: Address, slot: StorageSlot) -> (r: Option<StorageValue>)
        ensures
            r == if self@.storage.dom().contains(slot_key(addr, slot)) {
                Some(self@.storage[slot_key(addr, slot)])
            } else {
                None::<StorageValue>
            },
    {
        self.storage.get(make_slot_key(addr, slot))
    }

    /// Writes one storage slot.
    pub fn insert_storage(&mut self, addr: Address, slot: StorageSlot, value: StorageValue)
        ensures
            final(self)@ == (OverlayView {
                storage: old(self)@.storage.insert(slot_key(addr, slot), value),
                ..old(self)@
            }),
    {
        self.storage.insert(make_slot_key(addr, slot), value);
    }

    /// Point lookup of locally materialized contract code.
    pub fn get_code(&self, code_hash: CodeHash) -> (r: Option<Code>)
        ensures
            r == if self@.contracts.dom().contains(code_hash) {
                Some(self@.contracts[code_hash])
            } else {
                None::<Code>
            },
    {
        self.contracts.get(code_hash)
    }

    /// Remembers fetched contract code.
    pub fn insert_code(&mut self, code_hash: CodeHash, code: Code)
        ensures
            final(self)@ == (OverlayView {
                contracts: old(self)@.contracts.insert(code_hash, code),
                ..old(self)@
            }),
    {
        self.contracts.insert(code_hash, code);
    }

    /// Point lookup of a locally materialized block hash.
    pub fn get_block_hash(&self, number: BlockNumber) -> (r: Option<BlockHash>)
        ensures
            r == if self@.block_hashes.dom().contains(number) {
                Some(self@.block_hashes[number])
            } else {
                None::<BlockHash>
            },
    {
        self.block_hashes.get(number)
    }

    /// Remembers a fetched block hash.
    pub fn insert_block_hash(&mut self, number: BlockNumber, hash: BlockHash)
        ensures
            final(self)@ == (OverlayView {
                block_hashes: old(self)@.block_hashes.insert(number, hash),
                ..old(self)@
            }),
    {
        self.block_hashes.insert(number, hash);
    }

    /// Applies one committed account change: replaces the account record and
    /// writes each touched storage slot.
    #[verifier::loop_isolation(false)]
    pub fn apply_change(&mut self, change: &AccountChange)
        ensures
            final(self)@ == apply_change_view(old(self)@, *change),
    {
        let ghost ov0 = self@;
        self.accounts.insert(change.address, change.info);
        let ghost m0 = self@.storage;
        let mut i: usize = 0;
        while i < change.storage.len()
            invariant
                i <= change.storage@.len(),
                self@.accounts == ov0.accounts.insert(change.address, change.info),
                self@.contracts == ov0.contracts,
                self@.block_hashes == ov0.block_hashes,
                self@.storage == apply_slot_writes(
                    m0,
                    change.address,
                    change.storage@.subrange(0, i as int),
                ),
            decreases change.storage@.len() - i,
        {
            let entry = change.storage[i];
            self.storage.insert(make_slot_key(change.address, entry.0), entry.1);
            proof {
                let pre = change.storage@.subrange(0, i as int);
                let cur = change.storage@.subrange(0, i as int + 1);
                assert(cur.drop_last() =~= pre);
                assert(cur.last() == entry);
            }
            i += 1;
        }
        proof {
            assert(change.storage@.subrange(0, change.storage@.len() as int) =~= change.storage@);
            assert(self@ =~= apply_change_view(ov0, *change));
        }
    }

    /// An independent deep copy of all four maps.
    pub fn duplicate(&self) -> (o: Self)
        ensures
            o@ == self@,
    {
        let o = LocalOverlay {
            accounts: self.accounts.duplicate(),
            storage: self.storage.duplicate(),
            contracts: self.contracts.duplicate(),
            block_hashes: self.block_hashes.duplicate(),
        };
        proof {
            assert(o@ =~= self@);
        }
        o
    }
}

} // verus!
