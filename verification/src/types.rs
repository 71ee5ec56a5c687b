use vstd::prelude::*;

verus! {

/// An account address: an opaque fixed-width identifier.
pub type Address = u64;

/// A storage slot identifier within an account.
pub type StorageSlot = u64;

/// The value held by a storage slot.
pub type StorageValue = u64;

/// A block number.
pub type BlockNumber = u64;

/// A block hash.
pub type BlockHash = u64;

/// The hash under which contract code is looked up.
pub type CodeHash = u64;

/// An opaque reference to contract code.
pub type Code = u64;

/// The identifier of a stored snapshot.
pub type SnapshotId = u64;

/// The basic state of an account.
#[derive(Clone, Copy, PartialEq, Eq, Structural, Debug)]
pub struct AccountRecord {
    pub balance: u128,
    pub nonce: u64,
    pub code_hash: CodeHash,
}

impl Default for AccountRecord {
    /// The empty record that a truly absent account resolves to: a basic
    /// query never reports "unknown".
    fn default() -> (r: Self)
        ensures
            r == (AccountRecord { balance: 0, nonce: 0, code_hash: 0 }),
    {
        AccountRecord { balance: 0, nonce: 0, code_hash: 0 }
    }
}

/// Errors surfaced by the database's query paths.
#[derive(Clone, Copy, PartialEq, Eq, Structural, Debug)]
pub enum DatabaseError {
    /// The remote transport could not answer; carries the transport's
    /// status code.
    Transport(u64),
    /// A read-only query needed data that is not materialized locally.
    NotResident,
}

/// One committed account state: the record that replaces the account's
/// overlay entry, together with the storage slots the execution touched.
#[derive(Debug)]
pub struct AccountChange {
    pub address: Address,
    pub info: AccountRecord,
    pub storage: Vec<(StorageSlot, StorageValue)>,
}

/// The flattened key of a storage slot: address and slot packed into one
/// fixed-width value.
pub open spec fn slot_key(addr: Address, slot: StorageSlot) -> u128 {
    ((addr as int) * 0x1_0000_0000_0000_0000 + (slot as int)) as u128
}

/// Computes `slot_key` in executable code.
pub fn make_slot_key(addr: Address, slot: StorageSlot) -> (k: u128)
    ensures
        k == slot_key(addr, slot),
{
    (addr as u128) * 0x1_0000_0000_0000_0000 + (slot as u128)
}

/// Distinct (address, slot) pairs have distinct flattened keys.
pub proof fn lemma_slot_key_injective(a1: Address, s1: StorageSlot, a2: Address, s2: StorageSlot)
    requires
        slot_key(a1, s1) == slot_key(a2, s2),
    ensures
        a1 == a2 && s1 == s2,
{
}

} // verus!
