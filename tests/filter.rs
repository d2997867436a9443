use polymarket_bot::question::{is_weather_market, should_trade_weather_market, should_trade_weather_market_at};
use polymarket_bot::types::Market;

const HOUR: i64 = 3_600_000;

fn market(question: &str, end_date: i64, volume_24h: u64) -> Market {
    Market {
        id: "m".to_string(),
        question: question.to_string(),
        end_date,
        yes_price: 500_000,
        yes_ask: 500_000,
        no_ask: 500_000,
        volume_24h,
        yes_liquidity: 0,
        no_liquidity: 0,
    }
}

fn cities() -> Vec<String> {
    vec!["New York".to_string(), "London".to_string()]
}

#[test]
fn filter_accepts_a_good_market() {
    let m = market("Will NEW YORK temperature exceed 60°F?", 48 * HOUR, 5_000_000_000);
    assert!(should_trade_weather_market_at(&m, &cities(), 0));
}

#[test]
fn filter_lead_time_window() {
    let q = "Will London temp be above 10°C?";
    assert!(should_trade_weather_market_at(&market(q, 24 * HOUR, 6_000_000_000), &cities(), 0));
    assert!(should_trade_weather_market_at(&market(q, 73 * HOUR - 1, 6_000_000_000), &cities(), 0));
    assert!(!should_trade_weather_market_at(&market(q, 24 * HOUR - 1, 6_000_000_000), &cities(), 0));
    assert!(!should_trade_weather_market_at(&market(q, 73 * HOUR, 6_000_000_000), &cities(), 0));
}

#[test]
fn filter_rejections() {
    let end = 48 * HOUR;
    assert!(!should_trade_weather_market_at(&market("Will NYC see rain above 5mm?", end, 9_000_000_000), &cities(), 0));
    assert!(!should_trade_weather_market_at(&market("Will Seoul temp exceed 30°C?", end, 9_000_000_000), &cities(), 0));
    assert!(!should_trade_weather_market_at(&market("London temp over 10°C?", end, 9_000_000_000), &cities(), 0));
    assert!(!should_trade_weather_market_at(&market("London temp above 10°C?", end, 4_999_999_999), &cities(), 0));
    assert!(!should_trade_weather_market(&market("London temp above 10°C?", 0, 9_000_000_000), &cities()));
}

#[test]
fn filter_weather_market_detection() {
    assert!(is_weather_market(&market("Will it snow in Chicago?", 0, 0)));
    assert!(is_weather_market(&market("Seoul at 30 degrees?", 0, 0)));
    assert!(!is_weather_market(&market("Will it snow in Paris?", 0, 0)));
    assert!(!is_weather_market(&market("Will NYC elect a mayor?", 0, 0)));
}
