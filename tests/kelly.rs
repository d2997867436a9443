use polymarket_bot::kelly::calculate_kelly_position;

fn fixed(x: f64) -> u64 {
    (x * 1_000_000.0).round() as u64
}

fn dollars(micros: u64) -> f64 {
    micros as f64 / 1_000_000.0
}

#[test]
fn test_kelly_position_sizing() {
    let size = dollars(calculate_kelly_position(fixed(2000.0), fixed(0.85), fixed(0.65), fixed(0.10)));
    assert!((size - 200.0).abs() < 1.0);
}

#[test]
fn test_kelly_with_small_edge() {
    let size = dollars(calculate_kelly_position(fixed(2000.0), fixed(0.52), fixed(0.50), fixed(0.10)));
    assert!(size < 50.0);
}

#[test]
fn test_kelly_with_large_edge() {
    let size = dollars(calculate_kelly_position(fixed(2000.0), fixed(0.95), fixed(0.50), fixed(0.10)));
    assert!((size - 200.0).abs() < 1.0);
}

#[test]
fn test_kelly_betting_no() {
    let size = dollars(calculate_kelly_position(fixed(2000.0), fixed(0.20), fixed(0.65), fixed(0.10)));
    assert!(size > 0.0);
}

#[test]
fn kelly_uncapped_exact_value() {
    // (0.52 - 0.50) / (4 * 0.50) = 0.01 of 2000 dollars
    assert_eq!(calculate_kelly_position(2_000_000_000, 520_000, 500_000, 1_000_000), 20_000_000);
}

#[test]
fn kelly_no_side_exact_value() {
    // betting NO: w = 0.8, c = 0.35; (0.45 / 0.65) / 4 of 1000 dollars, rounded down
    assert_eq!(calculate_kelly_position(1_000_000_000, 200_000, 650_000, 1_000_000), 173_076_923);
}

#[test]
fn kelly_zero_when_forecast_equals_price() {
    assert_eq!(calculate_kelly_position(fixed(2000.0), fixed(0.6), fixed(0.6), fixed(0.10)), 0);
    assert_eq!(calculate_kelly_position(fixed(2000.0), 0, 0, fixed(0.10)), 0);
}

#[test]
fn kelly_zero_at_degenerate_prices() {
    assert_eq!(calculate_kelly_position(fixed(2000.0), fixed(0.9), 0, fixed(0.10)), 0);
    assert_eq!(calculate_kelly_position(fixed(2000.0), fixed(0.1), 1_000_000, fixed(0.10)), 0);
}

#[test]
fn kelly_never_above_cap() {
    for p in [0u64, 100_000, 499_999, 700_000, 999_999, 1_000_000] {
        for q in [1u64, 250_000, 500_000, 999_999] {
            let s = calculate_kelly_position(5_000_000_000, p, q, 50_000);
            assert!(s <= 250_000_000);
        }
    }
}

#[test]
fn kelly_largest_capital() {
    let s = calculate_kelly_position(u64::MAX, 1_000_000, 1, 1_000_000);
    assert!(s > 0);
}
