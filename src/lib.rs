//! Decision logic of a sharded, ordered ingestion sink for a wide-column
//! database: offset and period bookkeeping, offset recovery at startup, the
//! per-shard batching daemon, the round-robin dispatcher and the producer lock.
//!
//! Everything here is pure: the caller performs the database and channel work
//! that each decision asks for, and hands back what it observed.
use vstd::prelude::*;

pub mod types;
pub mod period;
pub mod recovery;
pub mod shard;
pub mod router;
pub mod lock;

verus! {

} // verus!
