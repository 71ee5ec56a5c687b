//! A layered, snapshot-capable state database for simulating transactions
//! against a forked view of a remote chain: a local mutable overlay over a
//! read-through remote cache, with a monotonically identified snapshot store
//! and cascading revert.

pub mod fallback;
pub mod forked_db;
pub mod in_memory;
pub mod laws;
pub mod overlay;
pub mod remote;
pub mod snapshot;
pub mod snapshot_store;
pub mod table;
pub mod types;
