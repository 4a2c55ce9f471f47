//! Offsets, periods and the period-commit rule of a shard's timeline.
use vstd::prelude::*;
use vstd::arithmetic::div_mod::{lemma_div_by_multiple, lemma_mod_multiples_basic};
use crate::types::{ShardOffset, ShardPeriod};

verus! {

/// The period that an offset belongs to.
pub open spec fn period_of(offset: int, period_size: int) -> int {
    offset / period_size
}

/// Reserving `offset` starts a new period, so the previous one must be
/// committed first.
pub open spec fn commit_due(offset: int, period_size: int) -> bool {
    offset > 0 && offset % period_size == 0
}

/// The period committed when `offset` is reserved (meaningful when
/// `commit_due(offset, period_size)`).
pub open spec fn committed_period(offset: int, period_size: int) -> int {
    offset / period_size - 1
}

/// The first offset of a period.
pub open spec fn period_start(period: int, period_size: int) -> int {
    period * period_size
}

/// The period of a (non-negative) offset.
pub fn period_of_offset(offset: ShardOffset, period_size: i64) -> (r: ShardPeriod)
    requires
        offset >= 0,
        period_size > 0,
    ensures
        r == period_of(offset as int, period_size as int),
{
    offset / period_size
}

/// The period that must be committed before `offset` is used, if any.
pub fn period_to_commit(offset: ShardOffset, period_size: i64) -> (r: Option<ShardPeriod>)
    requires
        offset >= 0,
        period_size > 0,
    ensures
        r.is_some() == commit_due(offset as int, period_size as int),
        r.is_some() ==> r.unwrap() == committed_period(offset as int, period_size as int),
{
    if offset > 0 && offset % period_size == 0 {
        Some(offset / period_size - 1)
    } else {
        None
    }
}

/// Within one run of a shard that reserves the offsets `start, start + 1, ...`,
/// the commit of period `p` is issued at the first offset of period `p + 1`:
/// whenever the run started at or before that offset and has reached an
/// offset of period `p + 1` or later, some step up to the current one issued
/// the commit of `p`, before that step's event was received.
pub proof fn lemma_commit_precedes_next_period(start: int, period_size: int, p: int, i: int)
    requires
        start >= 0,
        period_size > 0,
        p >= 0,
        i >= 0,
        start <= period_start(p + 1, period_size) <= start + i,
    ensures
        exists|j: int|
            0 <= j <= i && #[trigger] commit_due(start + j, period_size) && committed_period(
                start + j,
                period_size,
            ) == p,
{
    let j = period_start(p + 1, period_size) - start;
    lemma_mod_multiples_basic(p + 1, period_size);
    lemma_div_by_multiple(p + 1, period_size);
    assert((p + 1) * period_size >= period_size) by (nonlinear_arith)
        requires
            p >= 0,
            period_size > 0,
    ;
    assert(commit_due(start + j, period_size));
}

/// Starting from an empty log, the offsets of period 0 commit nothing, and the
/// first commit (of period 0) comes with offset `period_size`.
pub proof fn lemma_fresh_start_commits(period_size: int)
    requires
        period_size > 0,
    ensures
        forall|o: int| 0 <= o < period_size ==> !#[trigger] commit_due(o, period_size),
        commit_due(period_size, period_size),
        committed_period(period_size, period_size) == 0,
{
    assert forall|o: int| 0 <= o < period_size implies !#[trigger] commit_due(o, period_size) by {
        if o > 0 {
            assert(o % period_size == o) by (nonlinear_arith)
                requires
                    0 < o < period_size,
            ;
        }
    }
    lemma_mod_multiples_basic(1, period_size);
    lemma_div_by_multiple(1, period_size);
}

} // verus!
