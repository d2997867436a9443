use polymarket_bot::config::PaperTradingConfig;
use polymarket_bot::simulator::PaperTradingSimulator;
use polymarket_bot::types::{Order, OrderType, PositionStatus, Side, Token};

fn order(price: u64, size: u64) -> Order {
    Order {
        market_id: "m7".to_string(),
        side: Side::Yes,
        token: Token::Yes,
        price,
        size,
        order_type: OrderType::FOK,
    }
}

#[test]
fn simulator_fill_with_slippage() {
    let mut sim = PaperTradingSimulator::new(PaperTradingConfig::default());
    assert_eq!(sim.balance(), 2_000_000_000);
    // u2 = 0.5: slippage 0.25%, price 0.60 -> 0.6015; 100 shares cost 60.15 dollars
    let fill = sim.execute_order_with(&order(600_000, 100_000_000), 100_000, 500_000, 42).unwrap();
    assert_eq!(fill.price, 601_500);
    assert_eq!(fill.cost, 60_150_000);
    assert_eq!(fill.size, 100_000_000);
    assert_eq!(fill.timestamp, 42);
    assert_eq!(fill.market_id, "m7");
    assert_eq!(sim.balance(), 2_000_000_000 - 60_150_000);
}

#[test]
fn simulator_rejects_on_first_draw() {
    let mut sim = PaperTradingSimulator::new(PaperTradingConfig::default());
    assert!(sim.execute_order_with(&order(600_000, 1_000_000), 700_000, 0, 0).is_none());
    assert_eq!(sim.balance(), 2_000_000_000);
}

#[test]
fn simulator_rejects_when_balance_short() {
    let cfg = PaperTradingConfig { enabled: true, fill_rate: 1_000_000, slippage_pct: 0, initial_balance_usd: 10_000_000 };
    let mut sim = PaperTradingSimulator::new(cfg);
    assert!(sim.execute_order_with(&order(500_000, 20_000_002), 0, 0, 0).is_none());
    assert_eq!(sim.balance(), 10_000_000);
    assert!(sim.execute_order_with(&order(500_000, 20_000_000), 0, 0, 0).is_some());
    assert_eq!(sim.balance(), 0);
}

#[test]
fn simulator_random_order_keeps_books() {
    let cfg = PaperTradingConfig { enabled: true, fill_rate: 1_000_000, slippage_pct: 5_000, initial_balance_usd: 1_000_000_000 };
    let mut sim = PaperTradingSimulator::new(cfg);
    let fill = sim.execute_order(&order(500_000, 10_000_000)).unwrap();
    assert!(fill.price >= 500_000 && fill.price <= 502_500);
    assert_eq!(sim.balance(), 1_000_000_000 - fill.cost);
    sim.add_to_balance(fill.cost);
    assert_eq!(sim.balance(), 1_000_000_000);
}

#[test]
fn simulator_position_from_fill() {
    let mut sim = PaperTradingSimulator::new(PaperTradingConfig::default());
    let fill = sim.execute_order_with(&order(400_000, 5_000_000), 0, 0, 77).unwrap();
    let p = sim.create_position_from_fill(&fill, Side::No, "weather_edge");
    assert_eq!((p.yes_shares, p.no_shares), (0, 5_000_000));
    assert_eq!(p.side, Some(Side::No));
    assert_eq!(p.status, PositionStatus::Open);
    assert_eq!(p.strategy, "weather_edge");
    assert_eq!(p.cost, 2_000_000);
    assert_eq!(p.opened_at, 77);
    assert!(p.id.is_none() && p.pnl.is_none() && p.closed_at.is_none());
    let p = sim.create_position_from_fill(&fill, Side::Yes, "weather_edge");
    assert_eq!((p.yes_shares, p.no_shares), (5_000_000, 0));
}
