//! Fractional Kelly position sizing.
use vstd::prelude::*;
use crate::SCALE;

verus! {

/// Win probability and price of the side that is bet on: YES when the
/// forecast is above the market price, NO otherwise.
pub open spec fn bet_terms(forecast_prob: int, market_price: int) -> (int, int) {
    if forecast_prob > market_price {
        (forecast_prob, market_price)
    } else {
        (SCALE - forecast_prob, SCALE - market_price)
    }
}

/// Quarter-Kelly position before the cap: `capital * max(0, f*) / 4`, where the
/// classical Kelly fraction `f* = (b*w - (1 - w)) / b` with odds `b = (1 - c) / c`
/// simplifies to `(w - c) / (1 - c)`. Rounded down to a micro-dollar.
pub open spec fn kelly_uncapped(capital: int, forecast_prob: int, market_price: int) -> int {
    let (w, c) = bet_terms(forecast_prob, market_price);
    if w <= c {
        0
    } else {
        (capital * (w - c)) / (4 * (SCALE - c))
    }
}

/// Largest position allowed: `capital * max_position_pct`, rounded down.
pub open spec fn kelly_cap(capital: int, max_position_pct: int) -> int {
    (capital * max_position_pct) / (SCALE as int)
}

/// Position size in micro-dollars. A market price of exactly 0 or 1 leaves
/// the odds undefined and sizes nothing.
pub open spec fn kelly_size(capital: int, forecast_prob: int, market_price: int, max_position_pct: int) -> int {
    if market_price == 0 || market_price == SCALE {
        0
    } else {
        let u = kelly_uncapped(capital, forecast_prob, market_price);
        let m = kelly_cap(capital, max_position_pct);
        if u <= m { u } else { m }
    }
}

/// Size a position with a quarter-Kelly fraction, capped at
/// `capital * max_position_pct`. Probabilities, prices and the cap fraction are
/// in parts per million; capital and the result are in micro-dollars.
pub fn calculate_kelly_position(
    capital: u64,
    forecast_prob: u64,
    market_price: u64,
    max_position_pct: u64,
) -> (r: u64)
    requires
        forecast_prob <= SCALE,
        market_price <= SCALE,
    ensures
        r == kelly_size(capital as int, forecast_prob as int, market_price as int, max_position_pct as int),
{
    if market_price == 0 || market_price == SCALE {
        return 0;
    }
    let (w, c) = if forecast_prob > market_price {
        (forecast_prob, market_price)
    } else {
        (SCALE - forecast_prob, SCALE - market_price)
    };
    let uncapped: u128 = if w <= c {
        0
    } else {
        proof {
            assert((capital as int) * ((w - c) as int) <= (u64::MAX as int) * (SCALE as int)) by (nonlinear_arith)
                requires capital <= u64::MAX, w - c <= SCALE;
        }
        let num: u128 = (capital as u128) * ((w - c) as u128);
        let den: u128 = 4 * ((SCALE - c) as u128);
        num / den
    };
    proof {
        assert((capital as int) * (max_position_pct as int) <= (u64::MAX as int) * (u64::MAX as int)) by (nonlinear_arith)
            requires capital <= u64::MAX, max_position_pct <= u64::MAX;
    }
    let cap: u128 = ((capital as u128) * (max_position_pct as u128)) / (SCALE as u128);
    proof {
        if w > c {
            assert(uncapped <= (capital as int) * ((w - c) as int) / (4 * ((SCALE - c) as int)));
            assert((capital as int) * ((w - c) as int) / (4 * ((SCALE - c) as int)) <= capital as int) by (nonlinear_arith)
                requires w - c <= SCALE - c, SCALE - c > 0, capital >= 0;
        }
    }
    if uncapped <= cap {
        uncapped as u64
    } else {
        proof {
            assert(cap < uncapped);
        }
        cap as u64
    }
}

/// The size is never negative and never above `capital * max_position_pct`.
pub proof fn lemma_kelly_bounded(capital: u64, forecast_prob: u64, market_price: u64, max_position_pct: u64)
    requires
        forecast_prob <= SCALE,
        market_price <= SCALE,
    ensures
        0 <= kelly_size(capital as int, forecast_prob as int, market_price as int, max_position_pct as int),
        kelly_size(capital as int, forecast_prob as int, market_price as int, max_position_pct as int) * SCALE
            <= capital * max_position_pct,
{
    let c = capital as int;
    let m = max_position_pct as int;
    assert(c * m >= 0) by (nonlinear_arith)
        requires c >= 0, m >= 0;
    assert((c * m) / (SCALE as int) * (SCALE as int) <= c * m) by (nonlinear_arith)
        requires c * m >= 0;
    let (w, q) = bet_terms(forecast_prob as int, market_price as int);
    if w > q && q < SCALE {
        assert(c * (w - q) >= 0) by (nonlinear_arith)
            requires c >= 0, w - q > 0;
        assert(c * (w - q) / (4 * (SCALE - q)) >= 0) by (nonlinear_arith)
            requires c * (w - q) >= 0, SCALE - q > 0;
    }
}

/// When the forecast equals the market price there is no edge and nothing is bet.
pub proof fn lemma_kelly_no_edge(capital: u64, price: u64, max_position_pct: u64)
    requires
        price <= SCALE,
    ensures
        kelly_size(capital as int, price as int, price as int, max_position_pct as int) == 0,
{
    let c = capital as int;
    let m = max_position_pct as int;
    assert(c * m >= 0) by (nonlinear_arith)
        requires c >= 0, m >= 0;
    assert((c * m) / (SCALE as int) >= 0) by (nonlinear_arith)
        requires c * m >= 0;
}

} // verus!
