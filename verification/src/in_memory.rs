use crate::remote::RemoteStateSource;
use crate::table::Table;
use crate::types::{
    AccountRecord, Address, BlockHash, BlockNumber, Code, CodeHash, DatabaseError, StorageSlot,
    StorageValue,
};
use crate::types::make_slot_key;
use vstd::prelude::*;

verus! {

/// The transport status code reported while the source is offline.
pub const TRANSPORT_OFFLINE: u64 = 1;

/// The transport status code reported when re-pinning is refused.
pub const TRANSPORT_PIN_REFUSED: u64 = 2;

/// A remote source served entirely from in-process tables: the canonical
/// collaborator for exercising the database without a network. It answers an
/// absent account with a default record, can be switched offline so every
/// fetch fails with a transport error, and can refuse re-pinning.
pub struct InMemorySource {
    accounts: Table<Address, AccountRecord>,
    storage: Table<u128, StorageValue>,
    codes: Table<CodeHash, Code>,
    block_hashes: Table<BlockNumber, BlockHash>,
    pinned_block: BlockNumber,
    offline: bool,
    pin_locked: bool,
}

impl InMemorySource {
    /// The accounts the source would serve.
    pub closed spec fn accounts_view(&self) -> Map<Address, AccountRecord> {
        self.accounts@
    }

    /// The storage slots the source would serve, keyed by `slot_key`.
    pub closed spec fn storage_view(&self) -> Map<u128, StorageValue> {
        self.storage@
    }

    /// The contract code the source would serve.
    pub closed spec fn codes_view(&self) -> Map<CodeHash, Code> {
        self.codes@
    }

    /// The block hashes the source would serve.
    pub closed spec fn hashes_view(&self) -> Map<BlockNumber, BlockHash> {
        self.block_hashes@
    }

    /// The block the source currently considers pinned.
    pub closed spec fn pinned(&self) -> BlockNumber {
        self.pinned_block
    }

    /// Whether fetches currently fail with a transport error.
    pub closed spec fn is_offline(&self) -> bool {
        self.offline
    }

    /// Whether re-pinning currently fails.
    pub closed spec fn is_pin_locked(&self) -> bool {
        self.pin_locked
    }

    /// An empty, online source pinned at block 0.
    pub fn new() -> (s: Self)
        ensures
            s.accounts_view() == Map::<Address, AccountRecord>::empty(),
            s.storage_view() == Map::<u128, StorageValue>::empty(),
            s.codes_view() == Map::<CodeHash, Code>::empty(),
            s.hashes_view() == Map::<BlockNumber, BlockHash>::empty(),
            s.pinned() == 0,
            !s.is_offline(),
            !s.is_pin_locked(),
    {
        InMemorySource {
            accounts: Table::new(),
            storage: Table::new(),
            codes: Table::new(),
            block_hashes: Table::new(),
            pinned_block: 0,
            offline: false,
            pin_locked: false,
        }
    }

    /// Loads an account the source will serve.
    pub fn load_account(&mut self, addr: Address, record: AccountRecord)
        ensures
            final(self).accounts_view() == old(self).accounts_view().insert(addr, record),
            final(self).storage_view() == old(self).storage_view(),
            final(self).codes_view() == old(self).codes_view(),
            final(self).hashes_view() == old(self).hashes_view(),
            final(self).pinned() == old(self).pinned(),
            final(self).is_offline() == old(self).is_offline(),
            final(self).is_pin_locked() == old(self).is_pin_locked(),
    {
        self.accounts.insert(addr, record);
    }

    /// Loads a storage slot the source will serve.
    pub fn load_storage(&mut self, addr: Address, slot: StorageSlot, value: StorageValue)
        ensures
            final(self).storage_view() == old(self).storage_view().insert(
                crate::types::slot_key(addr, slot),
                value,
            ),
            final(self).accounts_view() == old(self).accounts_view(),
            final(self).codes_view() == old(self).codes_view(),
            final(self).hashes_view() == old(self).hashes_view(),
            final(self).pinned() == old(self).pinned(),
            final(self).is_offline() == old(self).is_offline(),
            final(self).is_pin_locked() == old(self).is_pin_locked(),
    {
        self.storage.insert(make_slot_key(addr, slot), value);
    }

    /// Loads contract code the source will serve.
    pub fn load_code(&mut self, code_hash: CodeHash, code: Code)
        ensures
            final(self).codes_view() == old(self).codes_view().insert(code_hash, code),
            final(self).accounts_view() == old(self).accounts_view(),
            final(self).storage_view() == old(self).storage_view(),
            final(self).hashes_view() == old(self).hashes_view(),
            final(self).pinned() == old(self).pinned(),
            final(self).is_offline() == old(self).is_offline(),
            final(self).is_pin_locked() == old(self).is_pin_locked(),
    {
        self.codes.insert(code_hash, code);
    }

    /// Loads a block hash the source will serve.
    pub fn load_block_hash(&mut self, number: BlockNumber, hash: BlockHash)
        ensures
            final(self).hashes_view() == old(self).hashes_view().insert(number, hash),
            final(self).accounts_view() == old(self).accounts_view(),
            final(self).storage_view() == old(self).storage_view(),
            final(self).codes_view() == old(self).codes_view(),
            final(self).pinned() == old(self).pinned(),
            final(self).is_offline() == old(self).is_offline(),
            final(self).is_pin_locked() == old(self).is_pin_locked(),
    {
        self.block_hashes.insert(number, hash);
    }

    /// Switches the simulated transport on or off.
    pub fn set_offline(&mut self, offline: bool)
        ensures
            final(self).is_offline() == offline,
            final(self).accounts_view() == old(self).accounts_view(),
            final(self).storage_view() == old(self).storage_view(),
            final(self).codes_view() == old(self).codes_view(),
            final(self).hashes_view() == old(self).hashes_view(),
            final(self).pinned() == old(self).pinned(),
            final(self).is_pin_locked() == old(self).is_pin_locked(),
    {
        self.offline = offline;
    }

    /// Makes re-pinning succeed or fail.
    pub fn set_pin_locked(&mut self, locked: bool)
        ensures
            final(self).is_pin_locked() == locked,
            final(self).accounts_view() == old(self).accounts_view(),
            final(self).storage_view() == old(self).storage_view(),
            final(self).codes_view() == old(self).codes_view(),
            final(self).hashes_view() == old(self).hashes_view(),
            final(self).pinned() == old(self).pinned(),
            final(self).is_offline() == old(self).is_offline(),
    {
        self.pin_locked = locked;
    }
}

impl RemoteStateSource for InMemorySource {
    fn get_account(&mut self, addr: Address, pinned_block: BlockNumber) -> Result<
        AccountRecord,
        DatabaseError,
    > {
        let _ = pinned_block;
        if self.offline {
            return Err(DatabaseError::Transport(TRANSPORT_OFFLINE));
        }
        match self.accounts.get(addr) {
            Some(record) => Ok(record),
            None => Ok(Default::default()),
        }
    }

    fn get_storage(&mut self, addr: Address, slot: StorageSlot, pinned_block: BlockNumber)
        -> Result<StorageValue, DatabaseError> {
        let _ = pinned_block;
        if self.offline {
            return Err(DatabaseError::Transport(TRANSPORT_OFFLINE));
        }
        match self.storage.get(make_slot_key(addr, slot)) {
            Some(value) => Ok(value),
            None => Ok(0),
        }
    }

    fn get_code(&mut self, code_hash: CodeHash) -> Result<Code, DatabaseError> {
        if self.offline {
            return Err(DatabaseError::Transport(TRANSPORT_OFFLINE));
        }
        match self.codes.get(code_hash) {
            Some(code) => Ok(code),
            None => Ok(0),
        }
    }

    fn get_block_hash(&mut self, number: BlockNumber) -> Result<BlockHash, DatabaseError> {
        if self.offline {
            return Err(DatabaseError::Transport(TRANSPORT_OFFLINE));
        }
        match self.block_hashes.get(number) {
            Some(hash) => Ok(hash),
            None => Ok(0),
        }
    }

    fn set_pinned_block(&mut self, new_block: BlockNumber) -> Result<(), DatabaseError> {
        if self.pin_locked {
            Err(DatabaseError::Transport(TRANSPORT_PIN_REFUSED))
        } else {
            self.pinned_block = new_block;
            Ok(())
        }
    }

    fn persist(&self) {
    }
}

} // verus!
