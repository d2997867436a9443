use polymarket_bot::config::WeatherStrategyConfig;
use polymarket_bot::question::{Comparison, WeatherMarketInfo};
use polymarket_bot::strategy::{city_to_coords, Coordinates, WeatherEdgeStrategy};
use polymarket_bot::types::{Market, ProbabilisticForecast, Side, Strategy};

fn strategy() -> WeatherEdgeStrategy {
    WeatherEdgeStrategy::new(WeatherStrategyConfig {
        enabled: true,
        min_edge: 100_000,
        target_cities: vec!["New York".to_string()],
        forecast_lead_time_hours: 48,
        polling_interval_secs: 300,
        polling_interval_urgent_secs: 60,
    })
}

fn market(yes_price: u64) -> Market {
    Market {
        id: "0xabc".to_string(),
        question: "Will NYC temperature exceed 60°F?".to_string(),
        end_date: 0,
        yes_price,
        yes_ask: yes_price + 10_000,
        no_ask: 1_000_000 - yes_price + 10_000,
        volume_24h: 10_000_000_000,
        yes_liquidity: 0,
        no_liquidity: 0,
    }
}

fn forecast(p: u64, confidence: u64) -> ProbabilisticForecast {
    ProbabilisticForecast { probability: p, confidence, mean_temp: 16_000_000, std_dev: 2_500_000, model: "x".to_string() }
}

fn info(c: Comparison) -> WeatherMarketInfo {
    WeatherMarketInfo { city: "New York".to_string(), threshold: 15_555_555, comparison: c }
}

#[test]
fn strategy_signal_yes() {
    let s = strategy()
        .evaluate_forecasts(&market(600_000), &info(Comparison::Above), &forecast(850_000, 950_000),
            &forecast(810_000, 900_000), 2_000_000_000, 100_000)
        .unwrap();
    assert_eq!(s.market_id, "0xabc");
    assert_eq!(s.strategy, Strategy::WeatherEdge);
    assert_eq!(s.side, Some(Side::Yes));
    assert_eq!(s.entry_price, 610_000);
    assert_eq!(s.edge, Some(230_000));
    assert_eq!(s.confidence, 925_000);
    assert_eq!(s.size, 200_000_000);
}

#[test]
fn strategy_signal_no_for_below() {
    let s = strategy()
        .evaluate_forecasts(&market(600_000), &info(Comparison::Below), &forecast(850_000, 950_000),
            &forecast(810_000, 900_000), 2_000_000_000, 100_000)
        .unwrap();
    assert_eq!(s.side, Some(Side::No));
    assert_eq!(s.entry_price, 410_000);
    assert_eq!(s.edge, Some(430_000));
}

#[test]
fn strategy_vetoes_disagreement() {
    let r = strategy().evaluate_forecasts(&market(300_000), &info(Comparison::Above), &forecast(800_000, 950_000),
        &forecast(699_999, 900_000), 2_000_000_000, 100_000);
    assert!(r.is_none());
    let r = strategy().evaluate_forecasts(&market(300_000), &info(Comparison::Above), &forecast(800_000, 950_000),
        &forecast(700_000, 900_000), 2_000_000_000, 100_000);
    assert!(r.is_some());
}

#[test]
fn strategy_skips_small_edge() {
    let r = strategy().evaluate_forecasts(&market(600_000), &info(Comparison::Above), &forecast(650_000, 950_000),
        &forecast(650_000, 900_000), 2_000_000_000, 100_000);
    assert!(r.is_none());
}

#[test]
fn strategy_city_coordinates() {
    assert_eq!(city_to_coords("London"), Some(Coordinates { lat: 51_507_400, lon: -127_800 }));
    assert_eq!(city_to_coords("NYC"), city_to_coords("New York"));
    assert_eq!(city_to_coords("Seoul"), Some(Coordinates { lat: 37_566_500, lon: 126_978_000 }));
    assert_eq!(city_to_coords("Chicago"), Some(Coordinates { lat: 41_878_100, lon: -87_629_800 }));
    assert_eq!(city_to_coords("london"), None);
    assert_eq!(city_to_coords("Paris"), None);
}
