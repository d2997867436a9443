//! Market snapshots, signals, orders, fills and positions.
use vstd::prelude::*;
use crate::SCALE;

verus! {

/// Outcome side of a binary market.
#[derive(Debug, Clone, Copy, PartialEq, Eq, Structural)]
pub enum Side {
    Yes,
    No,
}

/// Strategy that produced a signal.
#[derive(Debug, Clone, Copy, PartialEq, Eq, Structural)]
pub enum Strategy {
    WeatherEdge,
    SumToOneArb,
}

/// Outcome token bought by an order.
#[derive(Debug, Clone, Copy, PartialEq, Eq, Structural)]
pub enum Token {
    Yes,
    No,
}

/// Order lifetime semantics.
#[derive(Debug, Clone, Copy, PartialEq, Eq, Structural)]
pub enum OrderType {
    /// Fill-or-kill.
    FOK,
    /// Good-til-cancel.
    GTC,
}

/// Immutable snapshot of a market. Prices are in parts per million, volume and
/// liquidity in micro-dollars, `end_date` in milliseconds since the epoch.
#[derive(Debug, Clone)]
pub struct Market {
    pub id: String,
    pub question: String,
    pub end_date: i64,
    pub yes_price: u64,
    pub yes_ask: u64,
    pub no_ask: u64,
    pub volume_24h: u64,
    pub yes_liquidity: u64,
    pub no_liquidity: u64,
}

impl Market {
    /// Quoted prices lie in [0, 1].
    pub open spec fn wf(&self) -> bool {
        self.yes_price <= SCALE && self.yes_ask <= SCALE && self.no_ask <= SCALE
    }
}

/// A probabilistic temperature forecast. `probability` and `confidence` are
/// in parts per million; `mean_temp` and `std_dev` in micro-degrees Celsius.
#[derive(Debug, Clone)]
pub struct ProbabilisticForecast {
    pub probability: u64,
    pub confidence: u64,
    pub mean_temp: i64,
    pub std_dev: u64,
    pub model: String,
}

impl ProbabilisticForecast {
    /// Probability and confidence lie in [0, 1] and the spread is positive.
    pub open spec fn wf(&self) -> bool {
        self.probability <= SCALE && self.confidence <= SCALE && self.std_dev > 0
    }
}

/// A candidate trade. `entry_price`, `edge` and `confidence` are in parts per
/// million; `size` is in micro-dollars.
#[derive(Debug, Clone)]
pub struct Signal {
    pub market_id: String,
    pub strategy: Strategy,
    pub side: Option<Side>,
    pub entry_price: u64,
    pub size: u64,
    pub edge: Option<u64>,
    pub confidence: u64,
}

/// An order to buy `size` micro-shares of `token` at `price` (parts per million).
#[derive(Debug, Clone)]
pub struct Order {
    pub market_id: String,
    pub side: Side,
    pub token: Token,
    pub price: u64,
    pub size: u64,
    pub order_type: OrderType,
}

/// An executed order: `size` micro-shares at `price` (parts per million),
/// `cost` in micro-dollars, `timestamp` in milliseconds since the epoch.
#[derive(Debug, Clone)]
pub struct Fill {
    pub market_id: String,
    pub size: u64,
    pub price: u64,
    pub cost: u64,
    pub timestamp: i64,
}

/// Lifecycle state of a position.
#[derive(Debug, Clone, Copy, PartialEq, Eq, Structural)]
pub enum PositionStatus {
    Open,
    Closed,
    EmergencyExited,
}

/// A position as the ledger stores it. Shares are in micro-shares, prices in
/// parts per million, `cost` and `pnl` in micro-dollars, instants in
/// milliseconds since the epoch.
#[derive(Debug, Clone)]
pub struct Position {
    pub id: Option<i64>,
    pub market_id: String,
    pub strategy: String,
    pub side: Option<Side>,
    pub yes_shares: u64,
    pub no_shares: u64,
    pub entry_price: u64,
    pub cost: u64,
    pub opened_at: i64,
    pub closed_at: Option<i64>,
    pub pnl: Option<i64>,
    pub status: PositionStatus,
}

impl Position {
    /// `closed_at` and `pnl` are set exactly when the position is no longer open.
    pub open spec fn wf(&self) -> bool {
        &&& (self.closed_at is Some <==> self.status != PositionStatus::Open)
        &&& (self.pnl is Some <==> self.status != PositionStatus::Open)
    }
}

/// A change at the top of a market's order book. Asks are in parts per
/// million, `timestamp` in milliseconds since the epoch.
#[derive(Debug, Clone)]
pub struct OrderBookUpdate {
    pub market_id: String,
    pub sequence: u64,
    pub yes_ask: u64,
    pub no_ask: u64,
    pub timestamp: i64,
}

} // verus!
