use polymarket_bot::forecast::hourly_stats;

const DEG: i64 = 1_000_000;

#[test]
fn stats_of_flat_forecast_use_minimum_spread() {
    let temps = vec![15 * DEG; 72];
    assert_eq!(hourly_stats(&temps), Some((15 * DEG, 2_000_000)));
}

#[test]
fn stats_use_first_day_only() {
    let mut temps: Vec<i64> = Vec::new();
    for h in 0..24 {
        temps.push(if h % 2 == 0 { 10 * DEG } else { 20 * DEG });
    }
    for _ in 0..48 {
        temps.push(100 * DEG);
    }
    // mean 15, variance 25, spread 5 degrees
    assert_eq!(hourly_stats(&temps), Some((15 * DEG, 5_000_000)));
}

#[test]
fn stats_round_mean_down_and_take_integer_root() {
    assert_eq!(hourly_stats(&vec![-1, -2]), Some((-2, 2_000_000)));
    // values 0 and 6 degrees: mean 3, variance 9, spread 3 degrees
    assert_eq!(hourly_stats(&vec![0, 6 * DEG]), Some((3 * DEG, 3_000_000)));
    // variance 3 (square micro-degrees) has integer root 1, below the minimum
    assert_eq!(hourly_stats(&vec![-1, 1, -1, 1, 3, -3]), Some((0, 2_000_000)));
}

#[test]
fn stats_of_no_hours() {
    assert_eq!(hourly_stats(&vec![]), None);
}
