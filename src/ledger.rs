//! Aggregates over the position ledger's rows: open positions, today's
//! trades and P&L, and the peak of realized equity.
use vstd::prelude::*;
use crate::types::{Position, PositionStatus};

verus! {

/// Milliseconds in a day.
pub const DAY_MS: i64 = 86_400_000;

/// UTC calendar day (days since the epoch) of an instant in milliseconds.
pub open spec fn day_of(ms: int) -> int {
    ms / (DAY_MS as int)
}

/// UTC calendar day of an instant.
pub fn utc_day(ms: i64) -> (r: i64)
    ensures
        r == day_of(ms as int),
{
    if ms >= 0 {
        ms / DAY_MS
    } else {
        let m: i64 = -(ms as i128 + 1) as i64;
        let q: i64 = m / DAY_MS;
        proof {
            assert(-(q as int) - 1 == (ms as int) / (DAY_MS as int)) by (nonlinear_arith)
                requires ms < 0, m == -(ms + 1), q == (m as int) / (DAY_MS as int);
        }
        -q - 1
    }
}

/// Number of open rows.
pub open spec fn open_count(rows: Seq<Position>) -> nat
    decreases rows.len(),
{
    if rows.len() == 0 {
        0
    } else {
        open_count(rows.drop_last()) + if rows.last().status == PositionStatus::Open { 1nat } else { 0 }
    }
}

/// Number of rows opened on `day`.
pub open spec fn trades_on(rows: Seq<Position>, day: int) -> nat
    decreases rows.len(),
{
    if rows.len() == 0 {
        0
    } else {
        trades_on(rows.drop_last(), day) + if day_of(rows.last().opened_at as int) == day { 1nat } else { 0 }
    }
}

/// Realized P&L of a row; nothing while it has none.
pub open spec fn realized(p: Position) -> int {
    match p.pnl {
        Some(x) => x as int,
        None => 0,
    }
}

/// Sum of the realized P&L of the rows opened on `day`.
pub open spec fn pnl_on(rows: Seq<Position>, day: int) -> int
    decreases rows.len(),
{
    if rows.len() == 0 {
        0
    } else {
        pnl_on(rows.drop_last(), day) + if day_of(rows.last().opened_at as int) == day { realized(rows.last()) } else { 0 }
    }
}

/// Count the open rows.
pub fn count_open_positions(rows: &Vec<Position>) -> (r: usize)
    ensures
        r == open_count(rows@),
{
    let mut n: usize = 0;
    let mut i: usize = 0;
    while i < rows.len()
        invariant
            i <= rows@.len(),
            n <= i,
            n == open_count(rows@.subrange(0, i as int)),
        decreases rows@.len() - i,
    {
        assert(rows@.subrange(0, i + 1).drop_last() =~= rows@.subrange(0, i as int));
        if rows[i].status == PositionStatus::Open {
            n += 1;
        }
        i += 1;
    }
    assert(rows@.subrange(0, rows@.len() as int) =~= rows@);
    n
}

/// Count the rows opened on the same UTC day as `now`.
pub fn count_trades_today(rows: &Vec<Position>, now: i64) -> (r: usize)
    ensures
        r == trades_on(rows@, day_of(now as int)),
{
    let today = utc_day(now);
    let mut n: usize = 0;
    let mut i: usize = 0;
    while i < rows.len()
        invariant
            i <= rows@.len(),
            n <= i,
            today == day_of(now as int),
            n == trades_on(rows@.subrange(0, i as int), today as int),
        decreases rows@.len() - i,
    {
        assert(rows@.subrange(0, i + 1).drop_last() =~= rows@.subrange(0, i as int));
        if utc_day(rows[i].opened_at) == today {
            n += 1;
        }
        i += 1;
    }
    assert(rows@.subrange(0, rows@.len() as int) =~= rows@);
    n
}

/// Sum the realized P&L of the rows opened on the same UTC day as `now`.
pub fn get_daily_pnl(rows: &Vec<Position>, now: i64) -> (r: i128)
    ensures
        r == pnl_on(rows@, day_of(now as int)),
{
    let today = utc_day(now);
    let mut sum: i128 = 0;
    let mut i: usize = 0;
    while i < rows.len()
        invariant
            i <= rows@.len(),
            today == day_of(now as int),
            -(i as int) * 0x8000_0000_0000_0000 <= sum <= (i as int) * 0x7fff_ffff_ffff_ffff,
            sum == pnl_on(rows@.subrange(0, i as int), today as int),
        decreases rows@.len() - i,
    {
        assert(rows@.subrange(0, i + 1).drop_last() =~= rows@.subrange(0, i as int));
        if utc_day(rows[i].opened_at) == today {
            match rows[i].pnl {
                Some(x) => {
                    sum = sum + x as i128;
                },
                None => {},
            }
        }
        i += 1;
    }
    assert(rows@.subrange(0, rows@.len() as int) =~= rows@);
    sum
}

/// Cumulative realized P&L of the first `n` entries.
pub open spec fn cumulative(s: Seq<(i64, i64)>, n: int) -> int
    decreases n,
{
    if n <= 0 { 0 } else { cumulative(s, n - 1) + s[n - 1].1 as int }
}

/// A running total is observed after entry `n - 1` only when the next entry
/// has a later opening instant: entries opened at the same instant are summed
/// together.
pub open spec fn group_ends(s: Seq<(i64, i64)>, n: int) -> bool {
    n == s.len() || s[n].0 != s[n - 1].0
}

/// Largest observed running total among the first `n` entries.
pub open spec fn peak_upto(s: Seq<(i64, i64)>, n: int) -> Option<int>
    decreases n,
{
    if n <= 0 {
        None
    } else {
        let prev = peak_upto(s, n - 1);
        if group_ends(s, n) {
            let c = cumulative(s, n);
            match prev {
                Some(p) => Some(if p >= c { p } else { c }),
                None => Some(c),
            }
        } else {
            prev
        }
    }
}

/// Peak equity: the largest running total of realized P&L, 0 when nothing
/// has been realized.
pub open spec fn peak_equity_spec(s: Seq<(i64, i64)>) -> int {
    match peak_upto(s, s.len() as int) {
        Some(p) => p,
        None => 0,
    }
}

/// Peak of the running total of realized P&L over `closed`, the
/// `(opened_at, pnl)` pairs of the rows that have a P&L, in order of opening.
pub fn get_peak_equity(closed: &Vec<(i64, i64)>) -> (r: i128)
    ensures
        r == peak_equity_spec(closed@),
{
    let n = closed.len();
    let mut sum: i128 = 0;
    let mut best: Option<i128> = None;
    let mut i: usize = 0;
    while i < n
        invariant
            n == closed@.len(),
            i <= n,
            -(i as int) * 0x8000_0000_0000_0000 <= sum <= (i as int) * 0x7fff_ffff_ffff_ffff,
            sum == cumulative(closed@, i as int),
            best == (match peak_upto(closed@, i as int) { Some(p) => Some(p as i128), None => None::<i128> }),
            best is Some ==> best->0 == peak_upto(closed@, i as int)->0,
        decreases n - i,
    {
        sum = sum + closed[i].1 as i128;
        if i + 1 == n || closed[i + 1].0 != closed[i].0 {
            best = match best {
                Some(p) => Some(if p >= sum { p } else { sum }),
                None => Some(sum),
            };
        }
        i += 1;
    }
    match best {
        Some(p) => p,
        None => 0,
    }
}

/// The rows after row `i` is closed with `status` and `pnl` at instant `now`.
pub open spec fn close_row(rows: Seq<Position>, i: int, status: PositionStatus, pnl: i64, now: i64) -> Seq<Position> {
    rows.update(i, Position { status, pnl: Some(pnl), closed_at: Some(now), ..rows[i] })
}

proof fn lemma_close_row_counts(rows: Seq<Position>, i: int, status: PositionStatus, pnl: i64, now: i64, day: int)
    requires
        0 <= i < rows.len(),
        rows[i].status == PositionStatus::Open,
        rows[i].pnl is None,
        status != PositionStatus::Open,
    ensures
        open_count(close_row(rows, i, status, pnl, now)) + 1 == open_count(rows),
        pnl_on(close_row(rows, i, status, pnl, now), day)
            == pnl_on(rows, day) + if day_of(rows[i].opened_at as int) == day { pnl as int } else { 0 },
    decreases rows.len(),
{
    let closed = close_row(rows, i, status, pnl, now);
    if i == rows.len() - 1 {
        assert(closed.drop_last() =~= rows.drop_last());
    } else {
        lemma_close_row_counts(rows.drop_last(), i, status, pnl, now, day);
        assert(closed.drop_last() =~= close_row(rows.drop_last(), i, status, pnl, now));
    }
}

/// Closing an open position takes it out of the open count and adds its
/// realized P&L to the daily P&L of the day it was opened.
pub proof fn lemma_close_moves_pnl(rows: Seq<Position>, i: int, status: PositionStatus, pnl: i64, now: i64)
    requires
        0 <= i < rows.len(),
        rows[i].status == PositionStatus::Open,
        rows[i].wf(),
        status != PositionStatus::Open,
    ensures
        open_count(close_row(rows, i, status, pnl, now)) + 1 == open_count(rows),
        pnl_on(close_row(rows, i, status, pnl, now), day_of(rows[i].opened_at as int))
            == pnl_on(rows, day_of(rows[i].opened_at as int)) + pnl,
        close_row(rows, i, status, pnl, now)[i].wf(),
{
    lemma_close_row_counts(rows, i, status, pnl, now, day_of(rows[i].opened_at as int));
}

/// Indices of the open rows, in order.
pub open spec fn open_indices(rows: Seq<Position>) -> Seq<int>
    decreases rows.len(),
{
    if rows.len() == 0 {
        Seq::empty()
    } else if rows.last().status == PositionStatus::Open {
        open_indices(rows.drop_last()).push(rows.len() - 1)
    } else {
        open_indices(rows.drop_last())
    }
}

/// Indices of the open rows of a ledger snapshot, in order.
pub fn open_position_indices(rows: &Vec<Position>) -> (r: Vec<usize>)
    ensures
        r@.len() == open_indices(rows@).len(),
        forall|k: int| 0 <= k < r@.len() ==> r@[k] as int == #[trigger] open_indices(rows@)[k],
{
    let mut r: Vec<usize> = Vec::new();
    let mut i: usize = 0;
    while i < rows.len()
        invariant
            i <= rows@.len(),
            r@.len() == open_indices(rows@.subrange(0, i as int)).len(),
            forall|k: int| 0 <= k < r@.len() ==> r@[k] as int == #[trigger] open_indices(rows@.subrange(0, i as int))[k],
        decreases rows@.len() - i,
    {
        assert(rows@.subrange(0, i + 1).drop_last() =~= rows@.subrange(0, i as int));
        if rows[i].status == PositionStatus::Open {
            r.push(i);
        }
        i += 1;
    }
    assert(rows@.subrange(0, rows@.len() as int) =~= rows@);
    r
}

/// Recording a new open position adds exactly that row to the open rows,
/// after the ones already open, and one to the open count.
pub proof fn lemma_insert_is_open(rows: Seq<Position>, p: Position)
    requires
        p.status == PositionStatus::Open,
    ensures
        open_indices(rows.push(p)) == open_indices(rows).push(rows.len() as int),
        rows.push(p)[rows.len() as int] == p,
        open_count(rows.push(p)) == open_count(rows) + 1,
{
    assert(rows.push(p).drop_last() =~= rows);
}

} // verus!
