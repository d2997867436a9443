//! Configuration records. Fractions are in parts per million, amounts of
//! money in micro-dollars.
use vstd::prelude::*;
use crate::SCALE;

verus! {

#[derive(Debug, Clone)]
pub struct SystemConfig {
    pub dry_run: bool,
    pub database_path: String,
}

#[derive(Debug, Clone)]
pub struct WeatherStrategyConfig {
    pub enabled: bool,
    pub min_edge: u64,
    pub target_cities: Vec<String>,
    pub forecast_lead_time_hours: u64,
    pub polling_interval_secs: u64,
    pub polling_interval_urgent_secs: u64,
}

#[derive(Debug, Clone)]
pub struct ArbitrageStrategyConfig {
    pub enabled: bool,
    pub min_spread: u64,
    pub min_spread_15min_crypto: u64,
    pub execution_timeout_ms: u64,
}

#[derive(Debug, Clone)]
pub struct StrategiesConfig {
    pub weather: WeatherStrategyConfig,
    pub arbitrage: ArbitrageStrategyConfig,
}

#[derive(Debug, Clone)]
pub struct RiskConfig {
    pub max_position_size_usd: u64,
    pub max_position_pct: u64,
    pub max_open_positions: usize,
    pub max_daily_trades: usize,
    pub max_daily_loss_usd: u64,
    pub max_drawdown_pct: u64,
    pub max_positions_per_city_per_day: usize,
    pub claude_validation_weather: bool,
    pub claude_validation_arb: bool,
    pub min_liquidity_usd: u64,
    pub max_gas_gwei: u64,
}

impl RiskConfig {
    /// The two fractional limits lie in [0, 1].
    pub open spec fn wf(&self) -> bool {
        self.max_position_pct <= SCALE && self.max_drawdown_pct <= SCALE
    }
}

#[derive(Debug, Clone)]
pub struct InfrastructureConfig {
    pub primary_rpc: String,
    pub secondary_rpc: String,
    pub rpc_timeout_secs: u64,
    pub rpc_failover_enabled: bool,
    pub websocket_reconnect_backoff_secs: u64,
    pub websocket_max_reconnect_delay_secs: u64,
    pub websocket_staleness_threshold_secs: u64,
    pub cache_ttl_arb_ms: u64,
    pub cache_ttl_weather_secs: u64,
}

#[derive(Debug, Clone)]
pub struct MonitoringConfig {
    pub csv_logging: bool,
    pub csv_log_path: String,
    pub prometheus_enabled: bool,
    pub telegram_enabled: bool,
}

/// Paper-trading settings: `fill_rate` and `slippage_pct` in parts per
/// million, `initial_balance_usd` in micro-dollars.
#[derive(Debug, Clone)]
pub struct PaperTradingConfig {
    pub enabled: bool,
    pub fill_rate: u64,
    pub slippage_pct: u64,
    pub initial_balance_usd: u64,
}

/// Default probability that a simulated order fills: 0.70.
pub const DEFAULT_FILL_RATE: u64 = 700_000;
/// Default simulated slippage bound: 0.5%.
pub const DEFAULT_SLIPPAGE: u64 = 5_000;
/// Default starting balance: 2000 dollars.
pub const DEFAULT_BALANCE: u64 = 2_000_000_000;

pub fn default_fill_rate() -> (r: u64)
    ensures
        r == DEFAULT_FILL_RATE,
{
    DEFAULT_FILL_RATE
}

pub fn default_slippage() -> (r: u64)
    ensures
        r == DEFAULT_SLIPPAGE,
{
    DEFAULT_SLIPPAGE
}

pub fn default_balance() -> (r: u64)
    ensures
        r == DEFAULT_BALANCE,
{
    DEFAULT_BALANCE
}

impl Default for PaperTradingConfig {
    fn default() -> (r: Self)
        ensures
            !r.enabled,
            r.fill_rate == DEFAULT_FILL_RATE,
            r.slippage_pct == DEFAULT_SLIPPAGE,
            r.initial_balance_usd == DEFAULT_BALANCE,
    {
        PaperTradingConfig {
            enabled: false,
            fill_rate: default_fill_rate(),
            slippage_pct: default_slippage(),
            initial_balance_usd: default_balance(),
        }
    }
}

#[derive(Debug, Clone)]
pub struct Config {
    pub system: SystemConfig,
    pub strategies: StrategiesConfig,
    pub risk: RiskConfig,
    pub infrastructure: InfrastructureConfig,
    pub monitoring: MonitoringConfig,
    pub paper_trading: PaperTradingConfig,
}

/// Secrets and endpoints taken from the environment.
#[derive(Debug, Clone)]
pub struct EnvConfig {
    pub polygon_rpc_primary: String,
    pub polygon_rpc_secondary: String,
    pub polygon_wallet_private_key: String,
    pub anthropic_api_key: String,
    pub noaa_api_key: Option<String>,
    pub polymarket_clob_url: String,
    pub polymarket_gamma_url: String,
    pub polymarket_ws_url: String,
    pub dry_run: bool,
}

} // verus!
