//! The per-shard append daemon as a state machine.
//!
//! Each iteration of a shard's loop first calls `begin_iteration`, which
//! reserves the next offset. When that offset starts a period, it hands out
//! the buffered events of the previous period, to be written before the
//! period commit that it also returns. The caller then waits for a command:
//! an event goes to `on_insert`, which returns the batch that must be written
//! before the event is buffered (empty when nothing is due); a shutdown goes
//! to `on_shutdown`, which returns the last batch. While waiting, the caller
//! calls `on_linger` once the linger deadline has passed. Every batch handed
//! out lies within one period.
//!
//! Time is a number of milliseconds on a monotonic clock of the caller's.
use vstd::prelude::*;
use vstd::arithmetic::div_mod::{
    lemma_div_multiples_vanish_fancy, lemma_fundamental_div_mod, lemma_mod_pos_bound, lemma_small_mod,
};
use crate::period::{commit_due, committed_period, period_of, period_to_commit};
use crate::types::{ProducerId, ScyllaSinkConfig, ShardId, ShardOffset, ShardPeriod};

verus! {

/// The offsets `start, start + 1, ..., start + n - 1`.
pub open spec fn offsets_from(start: int, n: nat) -> Seq<int> {
    Seq::new(n, |i: int| start + i)
}

/// The offsets of buffered or flushed entries.
pub open spec fn offsets_of<E>(entries: Seq<(ShardOffset, E)>) -> Seq<int> {
    entries.map_values(|e: (ShardOffset, E)| e.0 as int)
}

/// The flush predicate, evaluated when an event of `msg_bytes` bytes arrives:
/// the buffer is full, or the event would take the batch to the byte limit,
/// or the linger deadline has passed while events wait in the buffer.
pub open spec fn flush_due(
    buffer_len: int,
    bytes: int,
    msg_bytes: int,
    now: int,
    capacity: int,
    byte_limit: int,
    deadline: int,
) -> bool {
    buffer_len >= capacity || bytes + msg_bytes >= byte_limit || (buffer_len > 0 && now >= deadline)
}

/// The deadline `linger` milliseconds after `now`, at the end of time if that
/// is past the clock's range.
pub open spec fn deadline_after(now: int, linger: int) -> int {
    if now + linger > u64::MAX {
        u64::MAX as int
    } else {
        now + linger
    }
}

/// The byte limit of a batch configured as `kb` KiB, capped at `usize::MAX`.
pub open spec fn byte_limit_of_kb(kb: int) -> int {
    if kb * 1024 > usize::MAX {
        usize::MAX as int
    } else {
        kb * 1024
    }
}

/// `offset` is the first offset of a period.
pub open spec fn starts_period(offset: int, period_size: int) -> bool {
    offset % period_size == 0
}

/// Every entry lies in the same period.
pub open spec fn single_period<E>(entries: Seq<(ShardOffset, E)>, period_size: int) -> bool {
    forall|i: int, j: int|
        #![trigger entries[i], entries[j]]
        0 <= i < j < entries.len() ==> period_of(entries[i].0 as int, period_size) == period_of(
            entries[j].0 as int,
            period_size,
        )
}

/// An offset inside a period has the period of the offset before it.
proof fn lemma_same_period_as_predecessor(o: int, period_size: int)
    requires
        period_size > 0,
        o >= 0,
        o % period_size != 0,
    ensures
        period_of(o - 1, period_size) == period_of(o, period_size),
{
    if o == 0 {
        lemma_small_mod(0, period_size as nat);
    }
    lemma_fundamental_div_mod(o, period_size);
    lemma_mod_pos_bound(o, period_size);
    let q = o / period_size;
    let r = o % period_size;
    lemma_div_multiples_vanish_fancy(q, r - 1, period_size);
    assert(o - 1 == period_size * q + (r - 1));
}

/// What the top of an iteration decides: the reserved offset, the batch to
/// write first (the previous period's events when the offset starts a new
/// period, else nothing) and the period to commit after that batch.
pub struct Iteration<E> {
    pub offset: ShardOffset,
    pub batch: Vec<(ShardOffset, E)>,
    pub commit: Option<ShardPeriod>,
}

/// One shard's timeline and buffer.
pub struct Shard<E> {
    shard_id: ShardId,
    producer_id: ProducerId,
    period_size: i64,
    /// The next offset to reserve.
    next_offset: ShardOffset,
    /// Whether `next_offset - 1` is reserved and waits for its event.
    reserved: bool,
    /// Events waiting to be written, with their offsets.
    buffer: Vec<(ShardOffset, E)>,
    /// Sum of the byte sizes of the buffered events.
    curr_batch_byte_size: usize,
    max_buffer_capacity: usize,
    max_buffer_byte_size: usize,
    /// Milliseconds an event may wait in the buffer.
    buffer_linger: u64,
    linger_deadline: u64,
    /// The offset this run started at.
    first_offset: Ghost<int>,
    /// The offsets of the events handed out for writing, in order.
    flushed: Ghost<Seq<int>>,
}

impl<E> Shard<E> {
    pub closed spec fn spec_shard_id(&self) -> ShardId {
        self.shard_id
    }

    pub closed spec fn spec_producer_id(&self) -> ProducerId {
        self.producer_id
    }

    pub closed spec fn spec_period_size(&self) -> int {
        self.period_size as int
    }

    pub closed spec fn spec_next_offset(&self) -> int {
        self.next_offset as int
    }

    pub closed spec fn spec_reserved(&self) -> bool {
        self.reserved
    }

    pub closed spec fn buffered(&self) -> Seq<(ShardOffset, E)> {
        self.buffer@
    }

    pub closed spec fn byte_size(&self) -> int {
        self.curr_batch_byte_size as int
    }

    pub closed spec fn capacity(&self) -> int {
        self.max_buffer_capacity as int
    }

    pub closed spec fn byte_limit(&self) -> int {
        self.max_buffer_byte_size as int
    }

    pub closed spec fn linger(&self) -> int {
        self.buffer_linger as int
    }

    pub closed spec fn deadline(&self) -> int {
        self.linger_deadline as int
    }

    pub closed spec fn first_offset(&self) -> int {
        self.first_offset@
    }

    /// Offsets of the events handed out for writing so far, in order.
    pub closed spec fn flushed(&self) -> Seq<int> {
        self.flushed@
    }

    /// How many offsets this run has given to events.
    pub open spec fn used(&self) -> int {
        self.spec_next_offset() - self.first_offset() - if self.spec_reserved() {
            1int
        } else {
            0int
        }
    }

    /// The last offset given to an event (`first_offset - 1` if none).
    pub open spec fn last_used(&self) -> int {
        self.first_offset() + self.used() - 1
    }

    /// The settings that no step changes.
    pub open spec fn same_settings(&self, o: &Self) -> bool {
        self.spec_shard_id() == o.spec_shard_id() && self.spec_producer_id() == o.spec_producer_id()
            && self.spec_period_size() == o.spec_period_size() && self.capacity() == o.capacity()
            && self.byte_limit() == o.byte_limit() && self.linger() == o.linger()
            && self.first_offset() == o.first_offset()
    }

    /// The flush predicate for an event of `msg_bytes` bytes arriving at `now`.
    pub open spec fn flush_due_at(&self, msg_bytes: int, now: int) -> bool {
        flush_due(
            self.buffered().len() as int,
            self.byte_size(),
            msg_bytes,
            now,
            self.capacity(),
            self.byte_limit(),
            self.deadline(),
        )
    }

    pub closed spec fn wf(&self) -> bool {
        &&& self.period_size > 0
        &&& self.first_offset@ >= 0
        &&& self.reserved ==> self.next_offset >= 1
        &&& self.used() >= 0
        &&& self.flushed@ + offsets_of(self.buffer@) == offsets_from(self.first_offset@, self.used() as nat)
        &&& forall|i: int|
            0 <= i < self.buffer@.len() ==> period_of((#[trigger] self.buffer@[i]).0 as int, self.period_size as int)
                == period_of(self.last_used(), self.period_size as int)
        &&& (self.reserved && self.buffer@.len() > 0) ==> (self.next_offset - 1) % (self.period_size as int) != 0
    }

    /// A shard that starts its timeline at `next_offset`, with an empty buffer
    /// and a linger deadline `buffer_linger` milliseconds after `now`.
    pub fn new(
        shard_id: ShardId,
        producer_id: ProducerId,
        next_offset: ShardOffset,
        max_buffer_capacity: usize,
        max_buffer_byte_size: usize,
        buffer_linger: u64,
        now: u64,
        period_size: i64,
    ) -> (r: Self)
        requires
            next_offset >= 0,
            period_size > 0,
        ensures
            r.wf(),
            r.spec_shard_id() == shard_id,
            r.spec_producer_id() == producer_id,
            r.spec_period_size() == period_size,
            r.spec_next_offset() == next_offset,
            !r.spec_reserved(),
            r.buffered().len() == 0,
            r.byte_size() == 0,
            r.capacity() == max_buffer_capacity,
            r.byte_limit() == max_buffer_byte_size,
            r.linger() == buffer_linger,
            r.deadline() == deadline_after(now as int, buffer_linger as int),
            r.first_offset() == next_offset,
            r.flushed().len() == 0,
    {
        let deadline = if now > u64::MAX - buffer_linger {
            u64::MAX
        } else {
            now + buffer_linger
        };
        let r = Shard {
            shard_id,
            producer_id,
            period_size,
            next_offset,
            reserved: false,
            buffer: Vec::new(),
            curr_batch_byte_size: 0,
            max_buffer_capacity,
            max_buffer_byte_size,
            buffer_linger,
            linger_deadline: deadline,
            first_offset: Ghost(next_offset as int),
            flushed: Ghost(Seq::empty()),
        };
        assert(r.flushed@ + offsets_of(r.buffer@) =~= offsets_from(r.first_offset@, 0));
        r
    }

    /// A shard of the producer that `config` designates, whose buffer holds at
    /// most `config.batch_len_limit` events and `config.batch_size_kb_limit`
    /// KiB.
    pub fn from_config(
        config: &ScyllaSinkConfig,
        shard_id: ShardId,
        next_offset: ShardOffset,
        buffer_linger: u64,
        now: u64,
        period_size: i64,
    ) -> (r: Self)
        requires
            next_offset >= 0,
            period_size > 0,
        ensures
            r.wf(),
            r.spec_shard_id() == shard_id,
            r.spec_producer_id()@ == seq![config.producer_id],
            r.spec_period_size() == period_size,
            r.spec_next_offset() == next_offset,
            !r.spec_reserved(),
            r.buffered().len() == 0,
            r.byte_size() == 0,
            r.capacity() == config.batch_len_limit,
            r.byte_limit() == byte_limit_of_kb(config.batch_size_kb_limit as int),
            r.linger() == buffer_linger,
            r.deadline() == deadline_after(now as int, buffer_linger as int),
            r.first_offset() == next_offset,
            r.flushed().len() == 0,
    {
        let kb = config.batch_size_kb_limit;
        let byte_limit = if kb > usize::MAX / 1024 {
            usize::MAX
        } else {
            kb * 1024
        };
        Shard::new(
            shard_id,
            [config.producer_id],
            next_offset,
            config.batch_len_limit,
            byte_limit,
            buffer_linger,
            now,
            period_size,
        )
    }

    pub fn shard_id(&self) -> (r: ShardId)
        ensures
            r == self.spec_shard_id(),
    {
        self.shard_id
    }

    pub fn producer_id(&self) -> (r: ProducerId)
        ensures
            r == self.spec_producer_id(),
    {
        self.producer_id
    }

    pub fn next_offset(&self) -> (r: ShardOffset)
        ensures
            r == self.spec_next_offset(),
    {
        self.next_offset
    }

    pub fn linger_deadline(&self) -> (r: u64)
        ensures
            r == self.deadline(),
    {
        self.linger_deadline
    }

    pub fn buffer_len(&self) -> (r: usize)
        ensures
            r == self.buffered().len(),
    {
        self.buffer.len()
    }

    /// Top of an iteration: reserves the next offset. When that offset starts
    /// a period, the buffer (which holds only events of the previous period)
    /// is handed out first, so that no batch spans two periods; it is to be
    /// written before the returned period commit, which in turn comes before
    /// the event at the reserved offset is received.
    pub fn begin_iteration(&mut self) -> (r: Iteration<E>)
        requires
            old(self).wf(),
            !old(self).spec_reserved(),
            old(self).spec_next_offset() < i64::MAX,
        ensures
            final(self).wf(),
            final(self).same_settings(old(self)),
            final(self).spec_reserved(),
            r.offset == old(self).spec_next_offset(),
            final(self).spec_next_offset() == old(self).spec_next_offset() + 1,
            r.commit.is_some() == commit_due(r.offset as int, old(self).spec_period_size()),
            r.commit.is_some() ==> r.commit.unwrap() == committed_period(
                r.offset as int,
                old(self).spec_period_size(),
            ),
            single_period(r.batch@, old(self).spec_period_size()),
            starts_period(r.offset as int, old(self).spec_period_size()) ==> {
                &&& r.batch@ == old(self).buffered()
                &&& final(self).buffered().len() == 0
                &&& final(self).byte_size() == 0
                &&& final(self).flushed() == old(self).flushed() + offsets_of(old(self).buffered())
            },
            !starts_period(r.offset as int, old(self).spec_period_size()) ==> {
                &&& r.batch@.len() == 0
                &&& final(self).buffered() == old(self).buffered()
                &&& final(self).byte_size() == old(self).byte_size()
                &&& final(self).flushed() == old(self).flushed()
            },
            final(self).deadline() == old(self).deadline(),
    {
        let offset = self.next_offset;
        let commit = period_to_commit(offset, self.period_size);
        let batch = if offset % self.period_size == 0 {
            self.take_buffer()
        } else {
            Vec::new()
        };
        self.next_offset = offset + 1;
        self.reserved = true;
        Iteration { offset, batch, commit }
    }

    /// Whether an event of `msg_byte_size` bytes arriving at `now` forces the
    /// buffer to be flushed first.
    pub fn needs_flush(&self, msg_byte_size: usize, now: u64) -> (r: bool)
        ensures
            r == self.flush_due_at(msg_byte_size as int, now as int),
    {
        self.buffer.len() >= self.max_buffer_capacity || msg_byte_size >= self.max_buffer_byte_size
            || self.curr_batch_byte_size >= self.max_buffer_byte_size - msg_byte_size || (
        self.buffer.len() > 0 && now >= self.linger_deadline)
    }

    /// Empties the buffer, returning what it held.
    fn take_buffer(&mut self) -> (batch: Vec<(ShardOffset, E)>)
        requires
            old(self).wf(),
        ensures
            final(self).wf(),
            final(self).same_settings(old(self)),
            batch@ == old(self).buffered(),
            single_period(batch@, old(self).spec_period_size()),
            final(self).buffered().len() == 0,
            final(self).byte_size() == 0,
            final(self).flushed() == old(self).flushed() + offsets_of(old(self).buffered()),
            final(self).spec_next_offset() == old(self).spec_next_offset(),
            final(self).spec_reserved() == old(self).spec_reserved(),
            final(self).deadline() == old(self).deadline(),
    {
        proof {
            self.lemma_buffer_single_period();
        }
        let mut batch: Vec<(ShardOffset, E)> = Vec::new();
        std::mem::swap(&mut self.buffer, &mut batch);
        self.curr_batch_byte_size = 0;
        self.flushed = Ghost(self.flushed@ + offsets_of(batch@));
        assert(self.flushed@ + offsets_of(self.buffer@) =~= self.flushed@);
        batch
    }

    /// An event arrived for the reserved offset. Returns the batch that must
    /// be written before the event is buffered: the whole buffer when the
    /// flush predicate holds (then the linger deadline restarts at `now`), and
    /// nothing otherwise. The event is then buffered with its offset.
    pub fn on_insert(&mut self, event: E, msg_byte_size: usize, now: u64) -> (batch: Vec<(ShardOffset, E)>)
        requires
            old(self).wf(),
            old(self).spec_reserved(),
        ensures
            final(self).wf(),
            final(self).same_settings(old(self)),
            !final(self).spec_reserved(),
            final(self).spec_next_offset() == old(self).spec_next_offset(),
            single_period(batch@, old(self).spec_period_size()),
            old(self).flush_due_at(msg_byte_size as int, now as int) ==> {
                &&& batch@ == old(self).buffered()
                &&& final(self).buffered() == seq![((old(self).spec_next_offset() - 1) as i64, event)]
                &&& final(self).byte_size() == msg_byte_size
                &&& final(self).deadline() == deadline_after(now as int, old(self).linger())
                &&& final(self).flushed() == old(self).flushed() + offsets_of(old(self).buffered())
            },
            !old(self).flush_due_at(msg_byte_size as int, now as int) ==> {
                &&& batch@.len() == 0
                &&& final(self).buffered() == old(self).buffered().push(
                    ((old(self).spec_next_offset() - 1) as i64, event),
                )
                &&& final(self).byte_size() == old(self).byte_size() + msg_byte_size
                &&& final(self).deadline() == old(self).deadline()
                &&& final(self).flushed() == old(self).flushed()
            },
    {
        let offset = self.next_offset - 1;
        let batch = if self.needs_flush(msg_byte_size, now) {
            let b = self.take_buffer();
            self.linger_deadline = if now > u64::MAX - self.buffer_linger {
                u64::MAX
            } else {
                now + self.buffer_linger
            };
            b
        } else {
            Vec::new()
        };
        let ghost pre = self.buffer@;
        let ghost n = self.used();
        proof {
            if pre.len() > 0 {
                lemma_same_period_as_predecessor(offset as int, self.period_size as int);
            }
        }
        self.buffer.push((offset, event));
        self.curr_batch_byte_size = self.curr_batch_byte_size + msg_byte_size;
        self.reserved = false;
        proof {
            assert(offsets_of(self.buffer@) =~= offsets_of(pre).push(offset as int));
            assert(offsets_from(self.first_offset@, (n + 1) as nat) =~= offsets_from(
                self.first_offset@,
                n as nat,
            ).push(offset as int));
            assert(self.flushed@ + offsets_of(self.buffer@) =~= (self.flushed@ + offsets_of(pre)).push(
                offset as int,
            ));
            assert forall|i: int| 0 <= i < self.buffer@.len() implies period_of(
                (#[trigger] self.buffer@[i]).0 as int,
                self.period_size as int,
            ) == period_of(self.last_used(), self.period_size as int) by {
                if i < pre.len() {
                    assert(self.buffer@[i] == pre[i]);
                }
            }
        }
        batch
    }

    /// No event arrived and the clock reads `now`: when the linger deadline
    /// has passed and the buffer holds events, hands the buffer out and
    /// restarts the deadline at `now`; otherwise changes nothing.
    pub fn on_linger(&mut self, now: u64) -> (batch: Vec<(ShardOffset, E)>)
        requires
            old(self).wf(),
        ensures
            final(self).wf(),
            final(self).same_settings(old(self)),
            final(self).spec_next_offset() == old(self).spec_next_offset(),
            final(self).spec_reserved() == old(self).spec_reserved(),
            single_period(batch@, old(self).spec_period_size()),
            (old(self).buffered().len() > 0 && now >= old(self).deadline()) ==> {
                &&& batch@ == old(self).buffered()
                &&& final(self).buffered().len() == 0
                &&& final(self).byte_size() == 0
                &&& final(self).deadline() == deadline_after(now as int, old(self).linger())
                &&& final(self).flushed() == old(self).flushed() + offsets_of(old(self).buffered())
            },
            !(old(self).buffered().len() > 0 && now >= old(self).deadline()) ==> {
                &&& batch@.len() == 0
                &&& final(self).buffered() == old(self).buffered()
                &&& final(self).byte_size() == old(self).byte_size()
                &&& final(self).deadline() == old(self).deadline()
                &&& final(self).flushed() == old(self).flushed()
            },
    {
        if self.buffer.len() > 0 && now >= self.linger_deadline {
            let b = self.take_buffer();
            self.linger_deadline = if now > u64::MAX - self.buffer_linger {
                u64::MAX
            } else {
                now + self.buffer_linger
            };
            b
        } else {
            Vec::new()
        }
    }

    /// A shutdown arrived: returns the last batch to write. The reserved
    /// offset, if any, stays unused.
    pub fn on_shutdown(&mut self) -> (batch: Vec<(ShardOffset, E)>)
        requires
            old(self).wf(),
        ensures
            final(self).wf(),
            final(self).same_settings(old(self)),
            batch@ == old(self).buffered(),
            single_period(batch@, old(self).spec_period_size()),
            final(self).buffered().len() == 0,
            final(self).byte_size() == 0,
            final(self).flushed() == old(self).flushed() + offsets_of(old(self).buffered()),
            final(self).spec_next_offset() == old(self).spec_next_offset(),
            final(self).spec_reserved() == old(self).spec_reserved(),
    {
        self.take_buffer()
    }

    /// The buffer never holds events of two periods, so each batch handed out
    /// stays within one (producer, shard, period) partition.
    pub proof fn lemma_buffer_single_period(&self)
        requires
            self.wf(),
        ensures
            single_period(self.buffered(), self.spec_period_size()),
    {
        assert forall|i: int, j: int| 0 <= i < j < self.buffer@.len() implies period_of(
            self.buffer@[i].0 as int,
            self.period_size as int,
        ) == period_of(self.buffer@[j].0 as int, self.period_size as int) by {
            assert(period_of(self.buffer@[i].0 as int, self.period_size as int) == period_of(
                self.last_used(),
                self.period_size as int,
            ));
            assert(period_of(self.buffer@[j].0 as int, self.period_size as int) == period_of(
                self.last_used(),
                self.period_size as int,
            ));
        }
    }

    /// Offsets never repeat and never skip within a run: what has been handed
    /// out for writing, followed by what is buffered, is exactly
    /// `first_offset, first_offset + 1, ...` up to the last offset used.
    pub proof fn lemma_offsets_contiguous(&self)
        requires
            self.wf(),
        ensures
            self.used() >= 0,
            self.flushed() + offsets_of(self.buffered()) == offsets_from(self.first_offset(), self.used() as nat),
            self.flushed().len() <= self.used(),
            forall|i: int| 0 <= i < self.flushed().len() ==> #[trigger] self.flushed()[i] == self.first_offset() + i,
    {
        let all = self.flushed@ + offsets_of(self.buffer@);
        assert forall|i: int| 0 <= i < self.flushed().len() implies #[trigger] self.flushed()[i] == self.first_offset() + i by {
            let n = self.used() as nat;
            assert(all == offsets_from(self.first_offset@, n));
            assert(all.len() == n);
            assert(i < all.len());
            assert(all[i] == self.flushed@[i]);
            assert(all[i] == offsets_from(self.first_offset@, self.used() as nat)[i]);
        }
    }
}

/// One shard per recovered `(shard_id, last_offset)` pair, in the same
/// order, each resuming right after its last offset with the limits of
/// `config`.
pub fn shards_from_offsets<E>(
    config: &ScyllaSinkConfig,
    offsets: &Vec<(ShardId, ShardOffset)>,
    buffer_linger: u64,
    now: u64,
    period_size: i64,
) -> (r: Vec<Shard<E>>)
    requires
        period_size > 0,
        forall|k: int| 0 <= k < offsets@.len() ==> -1 <= (#[trigger] offsets@[k]).1 < i64::MAX,
    ensures
        r@.len() == offsets@.len(),
        forall|k: int|
            0 <= k < offsets@.len() ==> {
                &&& (#[trigger] r@[k]).wf()
                &&& r@[k].spec_shard_id() == offsets@[k].0
                &&& r@[k].spec_next_offset() == offsets@[k].1 + 1
                &&& r@[k].first_offset() == offsets@[k].1 + 1
                &&& r@[k].spec_producer_id()@ == seq![config.producer_id]
                &&& !r@[k].spec_reserved()
                &&& r@[k].buffered().len() == 0
                &&& r@[k].byte_size() == 0
                &&& r@[k].capacity() == config.batch_len_limit
                &&& r@[k].byte_limit() == byte_limit_of_kb(config.batch_size_kb_limit as int)
                &&& r@[k].linger() == buffer_linger
                &&& r@[k].deadline() == deadline_after(now as int, buffer_linger as int)
                &&& r@[k].spec_period_size() == period_size
                &&& r@[k].flushed().len() == 0
            },
{
    let mut shards: Vec<Shard<E>> = Vec::new();
    let mut k: usize = 0;
    while k < offsets.len()
        invariant
            k <= offsets@.len(),
            period_size > 0,
            forall|j: int| 0 <= j < offsets@.len() ==> -1 <= (#[trigger] offsets@[j]).1 < i64::MAX,
            shards@.len() == k,
            forall|j: int|
                0 <= j < k ==> {
                    &&& (#[trigger] shards@[j]).wf()
                    &&& shards@[j].spec_shard_id() == offsets@[j].0
                    &&& shards@[j].spec_next_offset() == offsets@[j].1 + 1
                    &&& shards@[j].first_offset() == offsets@[j].1 + 1
                    &&& shards@[j].spec_producer_id()@ == seq![config.producer_id]
                    &&& !shards@[j].spec_reserved()
                    &&& shards@[j].buffered().len() == 0
                    &&& shards@[j].byte_size() == 0
                    &&& shards@[j].capacity() == config.batch_len_limit
                    &&& shards@[j].byte_limit() == byte_limit_of_kb(config.batch_size_kb_limit as int)
                    &&& shards@[j].linger() == buffer_linger
                    &&& shards@[j].deadline() == deadline_after(now as int, buffer_linger as int)
                    &&& shards@[j].spec_period_size() == period_size
                    &&& shards@[j].flushed().len() == 0
                },
        decreases offsets@.len() - k,
    {
        let (shard_id, last_offset) = offsets[k];
        let shard = Shard::from_config(config, shard_id, last_offset + 1, buffer_linger, now, period_size);
        shards.push(shard);
        k = k + 1;
    }
    shards
}

/// The byte limit wins over the linger deadline: an event that takes the batch
/// to its byte limit forces a flush, whatever the clock says.
pub proof fn lemma_byte_limit_flushes_before_linger(
    buffer_len: int,
    bytes: int,
    msg_bytes: int,
    now: int,
    capacity: int,
    byte_limit: int,
    deadline: int,
)
    requires
        bytes + msg_bytes >= byte_limit,
    ensures
        flush_due(buffer_len, bytes, msg_bytes, now, capacity, byte_limit, deadline),
{
}

} // verus!
