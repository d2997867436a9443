use polymarket_bot::config::RiskConfig;
use polymarket_bot::risk::{LedgerStats, RiskManager, ValidationError};
use polymarket_bot::types::{Side, Signal, Strategy};

fn config() -> RiskConfig {
    RiskConfig {
        max_position_size_usd: 500_000_000,
        max_position_pct: 100_000,
        max_open_positions: 5,
        max_daily_trades: 20,
        max_daily_loss_usd: 200_000_000,
        max_drawdown_pct: 150_000,
        max_positions_per_city_per_day: 2,
        claude_validation_weather: false,
        claude_validation_arb: false,
        min_liquidity_usd: 1_000_000_000,
        max_gas_gwei: 100,
    }
}

fn quiet_ledger() -> LedgerStats {
    LedgerStats { open_positions: 0, trades_today: 0, daily_pnl: 0, peak_equity: 0, city_positions_today: 0 }
}

fn signal(size: u64, edge: Option<u64>) -> Signal {
    Signal {
        market_id: "m1".to_string(),
        strategy: Strategy::WeatherEdge,
        side: Some(Side::Yes),
        entry_price: 600_000,
        size,
        edge,
        confidence: 925_000,
    }
}

#[test]
fn risk_refuses_at_max_open_positions() {
    let rm = RiskManager::new(config());
    let ledger = LedgerStats { open_positions: 5, ..quiet_ledger() };
    let r = rm.validate_trade(&signal(10_000_000, Some(100_000)), &ledger, 2_000_000_000, None);
    assert!(matches!(r, Err(ValidationError::MaxPositionsReached(5))));
}

#[test]
fn risk_passes_a_sound_signal() {
    let rm = RiskManager::new(config());
    let r = rm.validate_trade(&signal(100_000_000, Some(150_000)), &quiet_ledger(), 2_000_000_000, Some(true));
    assert!(r.is_ok());
}

#[test]
fn risk_each_refusal() {
    let rm = RiskManager::new(config());
    let bal = 2_000_000_000;
    let r = rm.validate_trade(&signal(3_000_000_000, None), &quiet_ledger(), bal, None);
    assert!(matches!(r, Err(ValidationError::InsufficientBalance(3_000_000_000, 2_000_000_000))));
    let l = LedgerStats { trades_today: 20, ..quiet_ledger() };
    let r = rm.validate_trade(&signal(1, None), &l, bal, None);
    assert!(matches!(r, Err(ValidationError::DailyTradesExceeded(20))));
    let l = LedgerStats { daily_pnl: -200_000_001, ..quiet_ledger() };
    let r = rm.validate_trade(&signal(1, None), &l, bal, None);
    assert!(matches!(r, Err(ValidationError::DailyLossLimitHit(-200_000_001))));
    let l = LedgerStats { peak_equity: 2_500_000_000, ..quiet_ledger() };
    let r = rm.validate_trade(&signal(1, None), &l, bal, None);
    assert!(matches!(r, Err(ValidationError::DrawdownExceeded(200_000))));
    let big = RiskManager::new(RiskConfig { max_position_pct: 1_000_000, ..config() });
    let r = big.validate_trade(&signal(600_000_000, None), &quiet_ledger(), bal, None);
    assert!(matches!(r, Err(ValidationError::PositionTooLarge(600_000_000))));
    let r = rm.validate_trade(&signal(200_000_001, None), &quiet_ledger(), bal, None);
    assert!(matches!(r, Err(ValidationError::PositionExceedsPercentage(200_000_001, 200_000_000))));
    let r = rm.validate_trade(&signal(1, Some(300_001)), &quiet_ledger(), bal, None);
    assert!(matches!(r, Err(ValidationError::EdgeTooGoodToBeTrue(300_001))));
    let l = LedgerStats { city_positions_today: 2, ..quiet_ledger() };
    let r = rm.validate_trade(&signal(1, None), &l, bal, None);
    assert!(matches!(r, Err(ValidationError::CorrelationLimitExceeded)));
    let r = rm.validate_trade(&signal(1, None), &quiet_ledger(), bal, Some(false));
    assert!(matches!(r, Err(ValidationError::ClaudeRejected)));
}

#[test]
fn risk_boundaries_pass() {
    let rm = RiskManager::new(config());
    let bal = 2_000_000_000;
    let l = LedgerStats { daily_pnl: -200_000_000, peak_equity: 2_352_941_176, ..quiet_ledger() };
    let r = rm.validate_trade(&signal(200_000_000, Some(300_000)), &l, bal, None);
    assert!(r.is_ok());
}

#[test]
fn risk_first_failure_wins() {
    let rm = RiskManager::new(config());
    let l = LedgerStats { open_positions: 9, trades_today: 99, daily_pnl: -1_000_000_000, ..quiet_ledger() };
    let r = rm.validate_trade(&signal(3_000_000_000, Some(900_000)), &l, 2_000_000_000, Some(false));
    assert!(matches!(r, Err(ValidationError::InsufficientBalance(_, _))));
    let r = rm.validate_trade(&signal(1, Some(900_000)), &l, 2_000_000_000, Some(false));
    assert!(matches!(r, Err(ValidationError::MaxPositionsReached(9))));
}

#[test]
fn risk_correlation_only_for_weather() {
    let rm = RiskManager::new(config());
    let l = LedgerStats { city_positions_today: 7, ..quiet_ledger() };
    let mut s = signal(1, None);
    s.strategy = Strategy::SumToOneArb;
    assert!(rm.validate_trade(&s, &l, 2_000_000_000, None).is_ok());
}

#[test]
fn ledger_stats_saturate() {
    let l = LedgerStats::from_aggregates(1, 2, -(1i128 << 100), 1i128 << 100, 3);
    assert_eq!(l.daily_pnl, i64::MIN);
    assert_eq!(l.peak_equity, i64::MAX);
    assert_eq!(l.open_positions, 1);
    let l = LedgerStats::from_aggregates(0, 0, -5, 7, 0);
    assert_eq!((l.daily_pnl, l.peak_equity), (-5, 7));
}
