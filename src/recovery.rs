//! Offset recovery at startup: from the last committed period of each shard
//! and the largest offset logged in the period after it, the last offset that
//! each shard has used.
//!
//! Recovery runs in two steps, each a function of what the database returned:
//! `current_period_per_shard` reads the rows of the period-commit log, and
//! `last_offsets` combines those periods with the largest offset found in each
//! shard's current period.
use vstd::prelude::*;
use crate::types::{ShardId, ShardOffset, ShardPeriod};

verus! {

/// Why recovered offsets cannot be used.
#[derive(Debug, Clone, Copy, PartialEq, Eq, Structural)]
pub enum RecoveryError {
    /// A period-commit row names a shard outside `0..num_shards`.
    ShardOutOfRange(ShardId),
    /// A committed period is below -1 or has no successor.
    InvalidPeriod(ShardId),
    /// Fewer or more shards answered than the producer has.
    MissingShards,
    /// The resulting last offset is below -1 or has no successor.
    InvalidOffset(ShardId),
}

/// The period that the last row for shard `s` records as committed; the rows
/// are read in order, so a later row for the same shard wins.
pub open spec fn last_committed(rows: Seq<(ShardId, ShardPeriod)>, s: int) -> Option<int>
    decreases rows.len(),
{
    if rows.len() == 0 {
        None
    } else if rows.last().0 as int == s {
        Some(rows.last().1 as int)
    } else {
        last_committed(rows.drop_last(), s)
    }
}

/// The period that shard `s` is writing: the one after its last committed
/// period, or period 0 if it has committed none.
pub open spec fn current_period(rows: Seq<(ShardId, ShardPeriod)>, s: int) -> int {
    match last_committed(rows, s) {
        Some(p) => p + 1,
        None => 0,
    }
}

/// A commit row that recovery accepts for `num_shards` shards.
pub open spec fn valid_commit_row(row: (ShardId, ShardPeriod), num_shards: int) -> bool {
    0 <= row.0 < num_shards && -1 <= row.1 < i64::MAX
}

/// The last offset used by a shard whose current period is `period`: the
/// largest offset logged in that period, or the offset just before the
/// period's first one when nothing is logged there yet.
pub open spec fn resume_last_offset(period: int, max_offset: Option<ShardOffset>, period_size: int) -> int {
    match max_offset {
        Some(o) => o as int,
        None => period * period_size - 1,
    }
}

/// A last offset from which a shard can resume: at least -1 (nothing used)
/// and with a successor that fits in an offset.
pub open spec fn valid_last_offset(o: int) -> bool {
    -1 <= o < i64::MAX
}

/// The current period of each shard `0..num_shards`, indexed by shard id,
/// from the rows of the period-commit log.
pub fn current_period_per_shard(num_shards: usize, rows: &Vec<(ShardId, ShardPeriod)>) -> (r: Result<
    Vec<ShardPeriod>,
    RecoveryError,
>)
    requires
        num_shards <= i16::MAX as usize + 1,
    ensures
        r.is_ok() <==> forall|k: int| 0 <= k < rows@.len() ==> valid_commit_row(#[trigger] rows@[k], num_shards as int),
        r matches Ok(v) ==> v@.len() == num_shards && forall|s: int|
            0 <= s < num_shards ==> #[trigger] v@[s] as int == current_period(rows@, s),
        r matches Err(e) ==> exists|k: int|
            0 <= k < rows@.len() && !valid_commit_row(#[trigger] rows@[k], num_shards as int) && (
            (e == RecoveryError::ShardOutOfRange(rows@[k].0) && !(0 <= rows@[k].0 < num_shards))
                || (e == RecoveryError::InvalidPeriod(rows@[k].0) && 0 <= rows@[k].0 < num_shards)),
{
    let mut periods: Vec<ShardPeriod> = Vec::new();
    let mut s: usize = 0;
    while s < num_shards
        invariant
            s <= num_shards,
            periods@.len() == s,
            forall|t: int| 0 <= t < s ==> #[trigger] periods@[t] == 0,
        decreases num_shards - s,
    {
        periods.push(0);
        s = s + 1;
    }
    let mut k: usize = 0;
    while k < rows.len()
        invariant
            k <= rows@.len(),
            periods@.len() == num_shards,
            forall|j: int| 0 <= j < k ==> valid_commit_row(#[trigger] rows@[j], num_shards as int),
            forall|t: int|
                0 <= t < num_shards ==> #[trigger] periods@[t] as int == current_period(
                    rows@.subrange(0, k as int),
                    t,
                ),
        decreases rows@.len() - k,
    {
        let (shard_id, period) = rows[k];
        if shard_id < 0 || shard_id as usize >= num_shards {
            return Err(RecoveryError::ShardOutOfRange(shard_id));
        }
        if period < -1 || period == i64::MAX {
            return Err(RecoveryError::InvalidPeriod(shard_id));
        }
        periods.set(shard_id as usize, period + 1);
        proof {
            let pre = rows@.subrange(0, k as int);
            let post = rows@.subrange(0, k + 1);
            assert(post.drop_last() =~= pre);
            assert(post.last() == rows@[k as int]);
        }
        k = k + 1;
    }
    proof {
        assert(rows@.subrange(0, rows@.len() as int) =~= rows@);
    }
    Ok(periods)
}

/// The last offset used by each shard, as `(shard_id, last_offset)` pairs in
/// ascending shard order, from the current period of each shard and the
/// largest offset logged in it (`None` where that period holds no event yet).
pub fn last_offsets(
    num_shards: usize,
    periods: &Vec<ShardPeriod>,
    max_offsets: &Vec<Option<ShardOffset>>,
    period_size: i64,
) -> (r: Result<Vec<(ShardId, ShardOffset)>, RecoveryError>)
    requires
        num_shards <= i16::MAX as usize + 1,
        period_size > 0,
    ensures
        r.is_ok() <==> (periods@.len() == num_shards && max_offsets@.len() == num_shards && forall|s: int|
            0 <= s < num_shards ==> valid_last_offset(
                #[trigger] resume_last_offset(periods@[s] as int, max_offsets@[s], period_size as int),
            )),
        r matches Ok(v) ==> v@.len() == num_shards && forall|s: int|
            0 <= s < num_shards ==> (#[trigger] v@[s]).0 as int == s && v@[s].1 as int
                == resume_last_offset(periods@[s] as int, max_offsets@[s], period_size as int),
        r == Err::<Vec<(ShardId, ShardOffset)>, RecoveryError>(RecoveryError::MissingShards) <==> (
        periods@.len() != num_shards || max_offsets@.len() != num_shards),
        r matches Err(RecoveryError::InvalidOffset(s)) ==> 0 <= s < num_shards && !valid_last_offset(
            resume_last_offset(periods@[s as int] as int, max_offsets@[s as int], period_size as int),
        ),
        !(r matches Err(RecoveryError::ShardOutOfRange(_))),
        !(r matches Err(RecoveryError::InvalidPeriod(_))),
{
    if periods.len() != num_shards || max_offsets.len() != num_shards {
        return Err(RecoveryError::MissingShards);
    }
    let mut out: Vec<(ShardId, ShardOffset)> = Vec::new();
    let mut s: usize = 0;
    while s < num_shards
        invariant
            s <= num_shards,
            num_shards <= i16::MAX as usize + 1,
            period_size > 0,
            periods@.len() == num_shards,
            max_offsets@.len() == num_shards,
            out@.len() == s,
            forall|t: int|
                0 <= t < s ==> valid_last_offset(
                    #[trigger] resume_last_offset(periods@[t] as int, max_offsets@[t], period_size as int),
                ),
            forall|t: int|
                0 <= t < s ==> (#[trigger] out@[t]).0 as int == t && out@[t].1 as int
                    == resume_last_offset(periods@[t] as int, max_offsets@[t], period_size as int),
        decreases num_shards - s,
    {
        let period = periods[s];
        let last: ShardOffset = match max_offsets[s] {
            Some(o) => {
                if o < -1 || o == i64::MAX {
                    assert(!valid_last_offset(
                        resume_last_offset(periods@[s as int] as int, max_offsets@[s as int], period_size as int),
                    ));
                    return Err(RecoveryError::InvalidOffset(s as ShardId));
                }
                o
            },
            None => {
                // period * period_size - 1 must lie in -1 .. i64::MAX - 1
                if period < 0 || period > i64::MAX / period_size {
                    proof {
                        if period > i64::MAX / period_size {
                            assert(period * period_size > i64::MAX) by (nonlinear_arith)
                                requires
                                    period > i64::MAX / period_size,
                                    period_size > 0,
                            ;
                        } else {
                            assert(period * period_size <= -period_size) by (nonlinear_arith)
                                requires
                                    period < 0,
                                    period_size > 0,
                            ;
                        }
                        assert(!valid_last_offset(
                            resume_last_offset(periods@[s as int] as int, max_offsets@[s as int], period_size as int),
                        ));
                    }
                    return Err(RecoveryError::InvalidOffset(s as ShardId));
                }
                proof {
                    assert(0 <= period * period_size <= i64::MAX) by (nonlinear_arith)
                        requires
                            0 <= period <= i64::MAX / period_size,
                            period_size > 0,
                    ;
                }
                period * period_size - 1
            },
        };
        out.push((s as ShardId, last));
        s = s + 1;
    }
    Ok(out)
}

/// A shard whose last committed period is `p` and whose period `p + 1` holds
/// no event resumes at the first offset of period `p + 1`.
pub proof fn lemma_resume_after_committed_period(
    rows: Seq<(ShardId, ShardPeriod)>,
    s: int,
    p: int,
    period_size: int,
)
    requires
        last_committed(rows, s) == Some(p),
        period_size > 0,
    ensures
        resume_last_offset(current_period(rows, s), None, period_size) + 1 == (p + 1) * period_size,
{
}

/// A shard with no commit row and no event resumes at offset 0.
pub proof fn lemma_fresh_shard_starts_at_zero(rows: Seq<(ShardId, ShardPeriod)>, s: int, period_size: int)
    requires
        last_committed(rows, s) == None::<int>,
        period_size > 0,
    ensures
        resume_last_offset(current_period(rows, s), None, period_size) == -1,
{
}

/// The resume point never goes back: a shard resumes past every offset logged
/// in its current period, given the largest one.
pub proof fn lemma_resume_past_logged(period: int, max_offset: ShardOffset, o: int, period_size: int)
    requires
        o <= max_offset,
    ensures
        o < resume_last_offset(period, Some(max_offset), period_size) + 1,
{
}

} // verus!
