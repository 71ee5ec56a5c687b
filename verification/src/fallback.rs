use crate::overlay::OverlayView;
use crate::remote::CacheView;
use crate::types::{
    AccountRecord, Address, BlockHash, BlockNumber, Code, CodeHash, StorageSlot, StorageValue,
};
use crate::types::slot_key;
use vstd::prelude::*;

verus! {

/// The account value a query resolves to without fetching: the overlay is
/// consulted first, then the remote cache. Both query variants follow this
/// one ordering.
pub open spec fn resident_account(ov: OverlayView, cv: CacheView, addr: Address) -> Option<
    AccountRecord,
> {
    if ov.accounts.dom().contains(addr) {
        Some(ov.accounts[addr])
    } else if cv.accounts.dom().contains(addr) {
        Some(cv.accounts[addr])
    } else {
        None
    }
}

/// The storage value a query resolves to without fetching, per slot.
pub open spec fn resident_storage(
    ov: OverlayView,
    cv: CacheView,
    addr: Address,
    slot: StorageSlot,
) -> Option<StorageValue> {
    if ov.storage.dom().contains(slot_key(addr, slot)) {
        Some(ov.storage[slot_key(addr, slot)])
    } else if cv.storage.dom().contains(slot_key(addr, slot)) {
        Some(cv.storage[slot_key(addr, slot)])
    } else {
        None
    }
}

/// The contract code a query resolves to without fetching. Code is
/// remembered only in the overlay's contracts map; the remote cache keeps no
/// code of its own.
pub open spec fn resident_code(ov: OverlayView, code_hash: CodeHash) -> Option<Code> {
    if ov.contracts.dom().contains(code_hash) {
        Some(ov.contracts[code_hash])
    } else {
        None
    }
}

/// The block hash a query resolves to without fetching.
pub open spec fn resident_block_hash(ov: OverlayView, cv: CacheView, number: BlockNumber) -> Option<
    BlockHash,
> {
    if ov.block_hashes.dom().contains(number) {
        Some(ov.block_hashes[number])
    } else if cv.block_hashes.dom().contains(number) {
        Some(cv.block_hashes[number])
    } else {
        None
    }
}

} // verus!
