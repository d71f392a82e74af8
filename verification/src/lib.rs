//! An embedded log-structured key/value store whose durable state lives in a
//! remote object store. This crate covers the memtable-to-L0 flush subsystem
//! together with the manifest fencing protocol: the single writer of L0
//! persists immutable memtables as SSTs, publishes the catalog through a
//! monotonically versioned manifest, and refuses to publish once a newer
//! epoch (a displaced-writer signal) has been observed.

pub mod db_state;
pub mod error;
pub mod manifest_store;
pub mod mem_table_flush;

use vstd::prelude::*;

verus! {

} // verus!
