//! Identifiers, constants and configuration shared by the sink's components.
use vstd::prelude::*;

verus! {

/// Identity of a producer: a single byte.
pub type ProducerId = [u8; 1];

/// Index of a shard, `0 <= shard_id < num_shards`.
pub type ShardId = i16;

/// Per-shard monotonic sequence number of an event.
pub type ShardOffset = i64;

/// `offset / period_size`: the partitioning unit of the event log.
pub type ShardPeriod = i64;

/// Slot number attached to each event.
pub type Slot = i64;

/// Number of offsets in one period; the log table is partitioned by it.
pub const SHARD_OFFSET_MODULO: i64 = 10000;

/// Capacity of the dispatcher's own mailbox.
pub const DEFAULT_SHARD_MAX_BUFFER_CAPACITY: usize = 15;

/// Capacity of each shard's mailbox.
pub const SHARD_MAILBOX_CAPACITY: usize = 16;

/// Latency in milliseconds above which a batch or a period commit is reported.
pub const WARNING_SCYLLADB_LATENCY_THRESHOLD_MS: u64 = 1000;

/// Relies on the `Clone` impl of `std::time::Duration`, a `Copy` type: the
/// clone is the value itself. Needed by the configuration's derived `Clone`.
pub assume_specification[ <std::time::Duration as Clone>::clone ](d: &std::time::Duration) -> (r: std::time::Duration)
    ensures
        r == *d,
;

/// Settings of one sink: the producer it writes as, the batch limits of its
/// shards (`batch_len_limit` events, `batch_size_kb_limit` KiB), how long an
/// event may linger in a shard's buffer, the keyspace and an optional network
/// interface whose IPv4 address is recorded in the producer lock.
#[derive(Clone, PartialEq, Debug)]
pub struct ScyllaSinkConfig {
    pub producer_id: u8,
    pub batch_len_limit: usize,
    pub batch_size_kb_limit: usize,
    pub linger: std::time::Duration,
    pub keyspace: String,
    pub ifname: Option<String>,
}

/// Failure of the sink facade to hand a command over to the dispatcher.
#[derive(Debug, Clone, Copy, PartialEq, Eq, Structural)]
pub enum ScyllaSinkError {
    SinkClose,
}

impl ScyllaSinkError {
    pub fn message(&self) -> (r: String)
        ensures
            r@ == "sink is closed"@,
    {
        String::from_str("sink is closed")
    }
}

/// The producer id that a configuration designates.
pub fn config_producer_id(config: &ScyllaSinkConfig) -> (r: ProducerId)
    ensures
        r@ == seq![config.producer_id],
{
    [config.producer_id]
}

} // verus!
