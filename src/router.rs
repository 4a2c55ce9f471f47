//! The round-robin dispatcher's decisions: which shard mailbox receives the
//! next event, and whether the event's slot is a new maximum to advertise.
use vstd::prelude::*;
use vstd::arithmetic::div_mod::{lemma_add_mod_noop, lemma_mod_self_0, lemma_small_mod};
use crate::types::Slot;

verus! {

/// Where one event goes.
#[derive(Debug, Clone, Copy, PartialEq, Eq, Structural)]
pub struct Route {
    /// Index of the shard mailbox that receives the event.
    pub shard: usize,
    /// Whether the event's slot is the largest seen so far, so that it must be
    /// recorded (after the previous such write has completed).
    pub record_slot: bool,
}

/// Rotation over `num_shards` mailboxes and the largest slot seen.
pub struct RoundRobin {
    num_shards: usize,
    cursor: usize,
    max_slot_seen: Slot,
}

impl RoundRobin {
    pub closed spec fn spec_num_shards(&self) -> int {
        self.num_shards as int
    }

    pub closed spec fn spec_cursor(&self) -> int {
        self.cursor as int
    }

    pub closed spec fn spec_max_slot_seen(&self) -> int {
        self.max_slot_seen as int
    }

    pub open spec fn wf(&self) -> bool {
        self.spec_num_shards() > 0 && 0 <= self.spec_cursor() < self.spec_num_shards()
    }

    /// A dispatcher over `num_shards` mailboxes that starts with the first one
    /// and has seen no slot (its maximum is -1).
    pub fn new(num_shards: usize) -> (r: Self)
        requires
            num_shards > 0,
        ensures
            r.wf(),
            r.spec_num_shards() == num_shards,
            r.spec_cursor() == 0,
            r.spec_max_slot_seen() == -1,
    {
        RoundRobin { num_shards, cursor: 0, max_slot_seen: -1 }
    }

    pub fn max_slot_seen(&self) -> (r: Slot)
        ensures
            r == self.spec_max_slot_seen(),
    {
        self.max_slot_seen
    }

    /// Routes an event of slot `slot` to the shard under the cursor and moves
    /// the cursor to the next shard; a slot above the maximum becomes the new
    /// maximum and is to be recorded.
    pub fn route(&mut self, slot: Slot) -> (r: Route)
        requires
            old(self).wf(),
        ensures
            final(self).wf(),
            final(self).spec_num_shards() == old(self).spec_num_shards(),
            r.shard == old(self).spec_cursor(),
            final(self).spec_cursor() == (old(self).spec_cursor() + 1) % old(self).spec_num_shards(),
            r.record_slot == (slot > old(self).spec_max_slot_seen()),
            final(self).spec_max_slot_seen() == if slot > old(self).spec_max_slot_seen() {
                slot as int
            } else {
                old(self).spec_max_slot_seen()
            },
    {
        let shard = self.cursor;
        proof {
            if self.cursor + 1 == self.num_shards {
                lemma_mod_self_0(self.num_shards as int);
            } else {
                lemma_small_mod((self.cursor + 1) as nat, self.num_shards as nat);
            }
        }
        self.cursor = if self.cursor + 1 == self.num_shards {
            0
        } else {
            self.cursor + 1
        };
        let record_slot = slot > self.max_slot_seen;
        if record_slot {
            self.max_slot_seen = slot;
        }
        Route { shard, record_slot }
    }
}

/// Rotation is uniform: if the cursor is at `k % n` before an event, it is at
/// `(k + 1) % n` after it, so from a fresh dispatcher the `k`-th event goes to
/// shard `k % n`.
pub proof fn lemma_rotation_step(n: int, k: int)
    requires
        n > 0,
        k >= 0,
    ensures
        (k % n + 1) % n == (k + 1) % n,
{
    lemma_add_mod_noop(k, 1, n);
    if n > 1 {
        lemma_small_mod(1, n as nat);
    } else {
        assert(k % n == 0 && (k + 1) % n == 0 && (k % n + 1) % n == 0) by (nonlinear_arith)
            requires
                n == 1,
        ;
    }
}

/// The advertised maximum slot never decreases, and after an event it is at
/// least that event's slot.
pub proof fn lemma_max_slot_monotone(before: int, slot: int)
    ensures
        before <= (if slot > before {
            slot
        } else {
            before
        }),
        slot <= (if slot > before {
            slot
        } else {
            before
        }),
{
}

} // verus!
