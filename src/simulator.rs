//! Paper trading: simulated fills with random rejection and slippage.
use vstd::prelude::*;
use rand::Rng;
use crate::SCALE;
use crate::clock::now_millis;
use crate::config::PaperTradingConfig;
use crate::types::{Fill, Order, Position, PositionStatus, Side};

verus! {

/// Relies on `rand::thread_rng` and `Rng::gen_range`: a value drawn from
/// `[0, bound)`; `gen_range` panics on an empty range.
#[verifier::external_body]
fn draw_below(bound: u64) -> (r: u64)
    requires
        bound > 0,
    ensures
        r < bound,
{
    rand::thread_rng().gen_range(0..bound)
}

/// Price paid after slippage `u2 * slippage_pct`, where `u2` is a uniform
/// draw from [0, 1): `price * (1 + slippage)`, rounded down.
pub open spec fn executed_price(price: int, slippage_pct: int, u2: int) -> int {
    let slippage = (u2 * slippage_pct) / (SCALE as int);
    (price * (SCALE + slippage)) / (SCALE as int)
}

/// Cost in micro-dollars of `size` micro-shares at `price`, rounded down.
pub open spec fn fill_cost(size: int, price: int) -> int {
    (size * price) / (SCALE as int)
}

/// Executed price and cost of an order given the two uniform draws, or
/// `None` when the first draw rejects it or the balance cannot pay.
pub open spec fn fill_outcome(cfg: PaperTradingConfig, balance: int, order: Order, u1: int, u2: int) -> Option<(int, int)> {
    if u1 >= cfg.fill_rate {
        None
    } else {
        let p = executed_price(order.price as int, cfg.slippage_pct as int, u2);
        let c = fill_cost(order.size as int, p);
        if c > balance { None } else { Some((p, c)) }
    }
}

pub struct PaperTradingSimulator {
    config: PaperTradingConfig,
    balance: u64,
}

impl PaperTradingSimulator {
    /// The settings the simulator was made with.
    pub closed spec fn settings(&self) -> PaperTradingConfig {
        self.config
    }

    /// Current balance in micro-dollars.
    pub closed spec fn funds(&self) -> u64 {
        self.balance
    }

    /// Fill rate and slippage are fractions in [0, 1].
    pub open spec fn wf(&self) -> bool {
        self.settings().fill_rate <= SCALE && self.settings().slippage_pct <= SCALE
    }

    pub fn new(config: PaperTradingConfig) -> (r: Self)
        ensures
            r.settings() == config,
            r.funds() == config.initial_balance_usd,
    {
        let balance = config.initial_balance_usd;
        PaperTradingSimulator { config, balance }
    }

    /// Simulate the order given the two uniform draws `u1`, `u2` from [0, 1)
    /// in parts per million and the instant `now`: it fills when `u1` is below
    /// the fill rate and the balance covers the cost, which is then deducted.
    pub fn execute_order_with(&mut self, order: &Order, u1: u64, u2: u64, now: i64) -> (r: Option<Fill>)
        requires
            old(self).wf(),
            order.price <= SCALE,
            u2 < SCALE,
        ensures
            final(self).settings() == old(self).settings(),
            r is Some <==> fill_outcome(old(self).settings(), old(self).funds() as int, *order, u1 as int, u2 as int) is Some,
            r is None ==> final(self).funds() == old(self).funds(),
            r is Some ==> ({
                let (p, c) = fill_outcome(old(self).settings(), old(self).funds() as int, *order, u1 as int, u2 as int)->0;
                let f = r->0;
                &&& f.market_id@ == order.market_id@
                &&& f.size == order.size
                &&& f.price == p
                &&& f.cost == c
                &&& f.timestamp == now
                &&& final(self).funds() == old(self).funds() - c
            }),
    {
        if u1 >= self.config.fill_rate {
            return None;
        }
        proof {
            assert((u2 as int) * (self.config.slippage_pct as int) <= (SCALE as int) * (SCALE as int)) by (nonlinear_arith)
                requires u2 < SCALE, self.config.slippage_pct <= SCALE;
        }
        let slippage: u128 = ((u2 as u128) * (self.config.slippage_pct as u128)) / (SCALE as u128);
        proof {
            assert(slippage <= SCALE) by (nonlinear_arith)
                requires slippage == ((u2 as int) * (self.config.slippage_pct as int)) / (SCALE as int),
                    (u2 as int) * (self.config.slippage_pct as int) <= (SCALE as int) * (SCALE as int);
            assert((order.price as int) * (SCALE + slippage) <= (SCALE as int) * (2 * SCALE)) by (nonlinear_arith)
                requires order.price <= SCALE, slippage <= SCALE;
        }
        let price: u128 = ((order.price as u128) * ((SCALE as u128) + slippage)) / (SCALE as u128);
        proof {
            assert(price <= 2 * SCALE) by (nonlinear_arith)
                requires price == ((order.price as int) * (SCALE + slippage)) / (SCALE as int),
                    (order.price as int) * (SCALE + slippage) <= (SCALE as int) * (2 * SCALE);
            assert((order.size as int) * price <= (u64::MAX as int) * (2 * SCALE)) by (nonlinear_arith)
                requires order.size <= u64::MAX, price <= 2 * SCALE;
        }
        let cost: u128 = ((order.size as u128) * price) / (SCALE as u128);
        if cost > self.balance as u128 {
            return None;
        }
        self.balance = self.balance - cost as u64;
        Some(Fill {
            market_id: order.market_id.clone(),
            size: order.size,
            price: price as u64,
            cost: cost as u64,
            timestamp: now,
        })
    }

    /// Simulate the order with fresh random draws, now.
    pub fn execute_order(&mut self, order: &Order) -> (r: Option<Fill>)
        requires
            old(self).wf(),
            order.price <= SCALE,
        ensures
            final(self).settings() == old(self).settings(),
            exists|u1: int, u2: int|
                0 <= u1 < SCALE && 0 <= u2 < SCALE
                && (r is Some <==> fill_outcome(old(self).settings(), old(self).funds() as int, *order, u1, u2) is Some)
                && (r is None ==> final(self).funds() == old(self).funds())
                && (r is Some ==> ({
                    let (p, c) = fill_outcome(old(self).settings(), old(self).funds() as int, *order, u1, u2)->0;
                    &&& r->0.price == p
                    &&& r->0.cost == c
                    &&& r->0.size == order.size
                    &&& final(self).funds() == old(self).funds() - c
                })),
    {
        let u1 = draw_below(SCALE);
        let u2 = draw_below(SCALE);
        let now = now_millis();
        let r = self.execute_order_with(order, u1, u2, now);
        assert(0 <= u1 < SCALE && 0 <= u2 < SCALE);
        r
    }

    /// Current balance in micro-dollars.
    pub fn balance(&self) -> (r: u64)
        ensures
            r == self.funds(),
    {
        self.balance
    }

    /// Credit winnings to the balance.
    pub fn add_to_balance(&mut self, amount: u64)
        requires
            old(self).funds() + amount <= u64::MAX,
        ensures
            final(self).funds() == old(self).funds() + amount,
            final(self).settings() == old(self).settings(),
    {
        self.balance = self.balance + amount;
    }

    /// An open position holding the fill's shares on the chosen side.
    pub fn create_position_from_fill(&self, fill: &Fill, side: Side, strategy: &str) -> (r: Position)
        ensures
            r.id is None,
            r.market_id@ == fill.market_id@,
            r.strategy@ == strategy@,
            r.side == Some(side),
            r.yes_shares == (if side == Side::Yes { fill.size } else { 0 }),
            r.no_shares == (if side == Side::No { fill.size } else { 0 }),
            r.entry_price == fill.price,
            r.cost == fill.cost,
            r.opened_at == fill.timestamp,
            r.closed_at is None,
            r.pnl is None,
            r.status == PositionStatus::Open,
            r.wf(),
    {
        let (yes_shares, no_shares) = match side {
            Side::Yes => (fill.size, 0),
            Side::No => (0, fill.size),
        };
        Position {
            id: None,
            market_id: fill.market_id.clone(),
            strategy: strategy.to_owned(),
            side: Some(side),
            yes_shares,
            no_shares,
            entry_price: fill.price,
            cost: fill.cost,
            opened_at: fill.timestamp,
            closed_at: None,
            pnl: None,
            status: PositionStatus::Open,
        }
    }
}

} // verus!
