//! Statistics of an hourly temperature forecast.
use vstd::prelude::*;

verus! {

/// Hours of forecast that are summarised.
pub const FORECAST_HOURS: usize = 24;
/// Smallest spread assumed for a forecast: 2 degrees, in micro-degrees.
pub const MIN_STD_DEV: u64 = 2_000_000;
/// Largest magnitude of a temperature that is read, in micro-degrees.
pub const MAX_ABS_TEMP: i64 = 1_000_000_000_000_000;

/// Largest squared deviation of one value from a mean, both within `MAX_ABS_TEMP`.
pub const SQ_DEV_BOUND: u128 = 4_000_000_000_000_000_000_000_000_000_000;

/// Sum of the values.
pub open spec fn sum_of(s: Seq<i64>) -> int
    decreases s.len(),
{
    if s.len() == 0 { 0 } else { sum_of(s.drop_last()) + s.last() as int }
}

/// Mean of the values, rounded down.
pub open spec fn mean_of(s: Seq<i64>) -> int {
    sum_of(s) / (s.len() as int)
}

/// Sum of the squared deviations of the values from `m`.
pub open spec fn squared_deviations(s: Seq<i64>, m: int) -> int
    decreases s.len(),
{
    if s.len() == 0 { 0 } else { squared_deviations(s.drop_last(), m) + (s.last() - m) * (s.last() - m) }
}

/// Variance of the values about their mean, rounded down.
pub open spec fn variance_of(s: Seq<i64>) -> int {
    squared_deviations(s, mean_of(s)) / (s.len() as int)
}

/// `r` is the integer square root of `v`.
pub open spec fn is_isqrt(r: int, v: int) -> bool {
    0 <= r && r * r <= v < (r + 1) * (r + 1)
}

/// `sd` is the larger of the integer square root of `variance` and the
/// smallest spread.
pub open spec fn is_spread(sd: int, variance: int) -> bool {
    exists|q: int| is_isqrt(q, variance) && sd == (if q >= MIN_STD_DEV { q } else { MIN_STD_DEV as int })
}

/// The hours that are summarised: the first 24, or all when fewer.
pub open spec fn forecast_window(temps: Seq<i64>) -> Seq<i64> {
    if temps.len() > FORECAST_HOURS { temps.subrange(0, FORECAST_HOURS as int) } else { temps }
}

/// Integer square root of `v < 2^120`.
fn isqrt(v: u128) -> (r: u64)
    requires
        v < 0x1_0000_0000_0000_0000_0000_0000_0000_00,
    ensures
        is_isqrt(r as int, v as int),
{
    let mut lo: u128 = 0;
    let mut hi: u128 = 0x1000_0000_0000_0000;
    assert(hi * hi == 0x1_0000_0000_0000_0000_0000_0000_0000_00) by (nonlinear_arith)
        requires hi == 0x1000_0000_0000_0000u128;
    while hi - lo > 1
        invariant
            lo < hi <= 0x1000_0000_0000_0000,
            lo * lo <= v,
            v < hi * hi,
        decreases hi - lo,
    {
        let mid = lo + (hi - lo) / 2;
        assert(mid * mid <= 0x1000_0000_0000_0000u128 * 0x1000_0000_0000_0000u128) by (nonlinear_arith)
            requires mid <= 0x1000_0000_0000_0000u128;
        if mid * mid <= v {
            lo = mid;
        } else {
            hi = mid;
        }
    }
    assert(hi == lo + 1);
    lo as u64
}

/// Mean and spread of an hourly forecast, in micro-degrees: over the first
/// 24 hours, the mean (rounded down) and the larger of the square root of the
/// variance and 2 degrees. `None` when there are no hours.
pub fn hourly_stats(temps: &Vec<i64>) -> (r: Option<(i64, u64)>)
    requires
        forall|i: int| 0 <= i < temps@.len() ==> -MAX_ABS_TEMP <= #[trigger] temps@[i] <= MAX_ABS_TEMP,
    ensures
        r is None <==> temps@.len() == 0,
        r is Some ==> ({
            let w = forecast_window(temps@);
            let (mean, sd) = r->0;
            &&& mean == mean_of(w)
            &&& is_spread(sd as int, variance_of(w))
        }),
{
    let n: usize = if temps.len() > FORECAST_HOURS { FORECAST_HOURS } else { temps.len() };
    if n == 0 {
        return None;
    }
    let ghost w = forecast_window(temps@);
    assert(w =~= temps@.subrange(0, n as int));
    let mut sum: i128 = 0;
    let mut i: usize = 0;
    while i < n
        invariant
            n <= FORECAST_HOURS,
            n <= temps@.len(),
            w == temps@.subrange(0, n as int),
            i <= n,
            forall|k: int| 0 <= k < temps@.len() ==> -MAX_ABS_TEMP <= #[trigger] temps@[k] <= MAX_ABS_TEMP,
            -(i as int) * MAX_ABS_TEMP <= sum <= (i as int) * MAX_ABS_TEMP,
            sum == sum_of(temps@.subrange(0, i as int)),
        decreases n - i,
    {
        assert(temps@.subrange(0, i + 1).drop_last() =~= temps@.subrange(0, i as int));
        sum = sum + temps[i] as i128;
        i += 1;
    }
    let nn: i128 = n as i128;
    let mean: i128 = if sum >= 0 {
        sum / nn
    } else {
        let m: i128 = -(sum + 1);
        let q: i128 = m / nn;
        proof {
            assert(-(q as int) - 1 == (sum as int) / (nn as int)) by (nonlinear_arith)
                requires sum < 0, m == -(sum + 1), q == (m as int) / (nn as int), nn > 0;
        }
        -q - 1
    };
    proof {
        assert(temps@.subrange(0, n as int) == w);
        assert(-MAX_ABS_TEMP <= mean <= MAX_ABS_TEMP) by (nonlinear_arith)
            requires -(nn as int) * MAX_ABS_TEMP <= sum <= (nn as int) * MAX_ABS_TEMP, nn > 0,
                mean == (sum as int) / (nn as int);
    }
    let mut sq: u128 = 0;
    let mut j: usize = 0;
    while j < n
        invariant
            n <= FORECAST_HOURS,
            n <= temps@.len(),
            j <= n,
            -MAX_ABS_TEMP <= mean <= MAX_ABS_TEMP,
            forall|k: int| 0 <= k < temps@.len() ==> -MAX_ABS_TEMP <= #[trigger] temps@[k] <= MAX_ABS_TEMP,
            sq <= (j as int) * SQ_DEV_BOUND,
            sq == squared_deviations(temps@.subrange(0, j as int), mean as int),
        decreases n - j,
    {
        assert(temps@.subrange(0, j + 1).drop_last() =~= temps@.subrange(0, j as int));
        let d: i128 = temps[j] as i128 - mean;
        let a: u128 = if d >= 0 { d as u128 } else { (-d) as u128 };
        proof {
            assert(a <= 2 * MAX_ABS_TEMP);
            assert(a * a <= SQ_DEV_BOUND) by (nonlinear_arith)
                requires a <= 2 * MAX_ABS_TEMP;
            assert(sq + a * a <= (j as int + 1) * SQ_DEV_BOUND);
            assert(a * a == d * d) by (nonlinear_arith)
                requires a == d || a == -d;
        }
        sq = sq + a * a;
        j += 1;
    }
    let variance: u128 = sq / (n as u128);
    proof {
        assert(variance <= sq);
        assert((n as int) * SQ_DEV_BOUND < 0x1_0000_0000_0000_0000_0000_0000_0000_00);
    }
    let root = isqrt(variance);
    let sd = if root >= MIN_STD_DEV { root } else { MIN_STD_DEV };
    assert(is_isqrt(root as int, variance_of(w)));
    Some((mean as i64, sd))
}

} // verus!
