//! The pre-trade risk gate.
use vstd::prelude::*;
use crate::SCALE;
use crate::config::RiskConfig;
use crate::types::{Signal, Strategy};

verus! {

/// Largest edge believed: anything above 30% points at bad data.
pub const MAX_CREDIBLE_EDGE: u64 = 300_000;

/// Figures read from the position ledger before a trade.
/// `daily_pnl` and `peak_equity` are in micro-dollars.
#[derive(Debug, Clone)]
pub struct LedgerStats {
    pub open_positions: usize,
    pub trades_today: usize,
    pub daily_pnl: i64,
    pub peak_equity: i64,
    pub city_positions_today: usize,
}

/// `x` limited to the range of `i64`.
pub open spec fn saturate(x: int) -> i64 {
    if x < i64::MIN { i64::MIN } else if x > i64::MAX { i64::MAX } else { x as i64 }
}

impl LedgerStats {
    /// Gather the ledger's figures; the two sums are limited to the range
    /// of `i64`.
    pub fn from_aggregates(
        open_positions: usize,
        trades_today: usize,
        daily_pnl: i128,
        peak_equity: i128,
        city_positions_today: usize,
    ) -> (r: Self)
        ensures
            r.open_positions == open_positions,
            r.trades_today == trades_today,
            r.daily_pnl == saturate(daily_pnl as int),
            r.peak_equity == saturate(peak_equity as int),
            r.city_positions_today == city_positions_today,
    {
        LedgerStats {
            open_positions,
            trades_today,
            daily_pnl: saturate_i64(daily_pnl),
            peak_equity: saturate_i64(peak_equity),
            city_positions_today,
        }
    }
}

fn saturate_i64(x: i128) -> (r: i64)
    ensures
        r == saturate(x as int),
{
    if x < i64::MIN as i128 {
        i64::MIN
    } else if x > i64::MAX as i128 {
        i64::MAX
    } else {
        x as i64
    }
}

/// Why a trade was refused. Amounts are in micro-dollars, fractions in parts
/// per million.
#[derive(Debug, Clone)]
pub enum ValidationError {
    InsufficientBalance(u64, u64),
    MaxPositionsReached(usize),
    DailyTradesExceeded(usize),
    DailyLossLimitHit(i64),
    DrawdownExceeded(u64),
    PositionTooLarge(u64),
    PositionExceedsPercentage(u64, u64),
    EdgeTooGoodToBeTrue(u64),
    CorrelationLimitExceeded,
    ClaudeRejected,
    DatabaseError(String),
}

/// Equity peak used for drawdown: the larger of the ledger's peak and the balance.
pub open spec fn drawdown_peak(peak_equity: int, balance: int) -> int {
    if peak_equity >= balance { peak_equity } else { balance }
}

/// Drawdown from the peak, in parts per million, rounded down.
pub open spec fn drawdown_ppm(peak_equity: int, balance: int) -> int {
    let peak = drawdown_peak(peak_equity, balance);
    ((peak - balance) * SCALE) / peak
}

/// The drawdown exceeds the limit: `(peak - balance) / peak > max_drawdown_pct`.
/// With a zero peak the ratio is undefined and the check passes.
pub open spec fn drawdown_exceeded(peak_equity: int, balance: int, max_drawdown_pct: int) -> bool {
    let peak = drawdown_peak(peak_equity, balance);
    peak > 0 && (peak - balance) * SCALE > max_drawdown_pct * peak
}

/// Outcome of the ten checks, taken in order; the first that fails decides.
pub open spec fn gate_outcome(
    cfg: RiskConfig,
    signal: Signal,
    ledger: LedgerStats,
    balance: int,
    verdict: Option<bool>,
) -> Result<(), ValidationError> {
    if signal.size > balance {
        Err(ValidationError::InsufficientBalance(signal.size, balance as u64))
    } else if ledger.open_positions >= cfg.max_open_positions {
        Err(ValidationError::MaxPositionsReached(ledger.open_positions))
    } else if ledger.trades_today >= cfg.max_daily_trades {
        Err(ValidationError::DailyTradesExceeded(ledger.trades_today))
    } else if ledger.daily_pnl < -(cfg.max_daily_loss_usd as int) {
        Err(ValidationError::DailyLossLimitHit(ledger.daily_pnl))
    } else if drawdown_exceeded(ledger.peak_equity as int, balance, cfg.max_drawdown_pct as int) {
        Err(ValidationError::DrawdownExceeded(drawdown_ppm(ledger.peak_equity as int, balance) as u64))
    } else if signal.size > cfg.max_position_size_usd {
        Err(ValidationError::PositionTooLarge(signal.size))
    } else if signal.size * SCALE > balance * cfg.max_position_pct {
        Err(ValidationError::PositionExceedsPercentage(
            signal.size,
            ((balance * cfg.max_position_pct) / (SCALE as int)) as u64,
        ))
    } else if signal.edge is Some && signal.edge->0 > MAX_CREDIBLE_EDGE {
        Err(ValidationError::EdgeTooGoodToBeTrue(signal.edge->0))
    } else if signal.strategy == Strategy::WeatherEdge
        && ledger.city_positions_today >= cfg.max_positions_per_city_per_day {
        Err(ValidationError::CorrelationLimitExceeded)
    } else if verdict == Some(false) {
        Err(ValidationError::ClaudeRejected)
    } else {
        Ok(())
    }
}

/// Gate every candidate trade against the configured limits.
#[derive(Debug, Clone)]
pub struct RiskManager {
    pub config: RiskConfig,
}

impl RiskManager {
    pub fn new(config: RiskConfig) -> (r: Self)
        ensures
            r.config == config,
    {
        RiskManager { config }
    }

    /// Run the ten checks in order and stop at the first that fails:
    /// balance, open positions, daily trades, daily loss, drawdown, absolute
    /// size cap, percentage size cap, edge sanity, per-city correlation
    /// (weather signals only) and the external validator's verdict (`None`
    /// when no validator is configured). The ledger is only read.
    pub fn validate_trade(
        &self,
        signal: &Signal,
        ledger: &LedgerStats,
        current_balance: u64,
        verdict: Option<bool>,
    ) -> (r: Result<(), ValidationError>)
        requires
            self.config.wf(),
        ensures
            r == gate_outcome(self.config, *signal, *ledger, current_balance as int, verdict),
    {
        let cfg = &self.config;
        if signal.size > current_balance {
            return Err(ValidationError::InsufficientBalance(signal.size, current_balance));
        }
        if ledger.open_positions >= cfg.max_open_positions {
            return Err(ValidationError::MaxPositionsReached(ledger.open_positions));
        }
        if ledger.trades_today >= cfg.max_daily_trades {
            return Err(ValidationError::DailyTradesExceeded(ledger.trades_today));
        }
        if (ledger.daily_pnl as i128) < -(cfg.max_daily_loss_usd as i128) {
            return Err(ValidationError::DailyLossLimitHit(ledger.daily_pnl));
        }
        let balance: i128 = current_balance as i128;
        let peak: i128 = if (ledger.peak_equity as i128) >= balance {
            ledger.peak_equity as i128
        } else {
            balance
        };
        proof {
            assert(0 <= peak - balance);
            assert(peak - balance <= u64::MAX as int + i64::MAX as int + 1);
            assert((peak - balance) * (SCALE as int) <= (u64::MAX as int + i64::MAX as int + 1) * (SCALE as int))
                by (nonlinear_arith)
                requires 0 <= peak - balance <= u64::MAX as int + i64::MAX as int + 1;
            assert((cfg.max_drawdown_pct as int) * peak <= (SCALE as int) * (u64::MAX as int)) by (nonlinear_arith)
                requires cfg.max_drawdown_pct <= SCALE, 0 <= peak <= u64::MAX;
        }
        if peak > 0 && (peak - balance) * (SCALE as i128) > (cfg.max_drawdown_pct as i128) * peak {
            let dd: i128 = ((peak - balance) * (SCALE as i128)) / peak;
            proof {
                assert(((peak - balance) * (SCALE as int)) / (peak as int) <= SCALE as int) by (nonlinear_arith)
                    requires 0 <= peak - balance <= peak, peak > 0;
            }
            return Err(ValidationError::DrawdownExceeded(dd as u64));
        }
        if signal.size > cfg.max_position_size_usd {
            return Err(ValidationError::PositionTooLarge(signal.size));
        }
        proof {
            assert((signal.size as int) * (SCALE as int) <= (u64::MAX as int) * (SCALE as int)) by (nonlinear_arith)
                requires signal.size <= u64::MAX;
            assert((current_balance as int) * (cfg.max_position_pct as int) <= (u64::MAX as int) * (SCALE as int))
                by (nonlinear_arith)
                requires current_balance <= u64::MAX, cfg.max_position_pct <= SCALE;
        }
        let limit: u128 = (current_balance as u128) * (cfg.max_position_pct as u128);
        if (signal.size as u128) * (SCALE as u128) > limit {
            proof {
                assert((limit as int) / (SCALE as int) <= current_balance as int) by (nonlinear_arith)
                    requires limit == (current_balance as int) * (cfg.max_position_pct as int),
                        cfg.max_position_pct <= SCALE;
            }
            return Err(ValidationError::PositionExceedsPercentage(signal.size, (limit / (SCALE as u128)) as u64));
        }
        match signal.edge {
            Some(edge) => {
                if edge > MAX_CREDIBLE_EDGE {
                    return Err(ValidationError::EdgeTooGoodToBeTrue(edge));
                }
            },
            None => {},
        }
        if signal.strategy == Strategy::WeatherEdge
            && ledger.city_positions_today >= cfg.max_positions_per_city_per_day {
            return Err(ValidationError::CorrelationLimitExceeded);
        }
        if verdict == Some(false) {
            return Err(ValidationError::ClaudeRejected);
        }
        Ok(())
    }
}

} // verus!
