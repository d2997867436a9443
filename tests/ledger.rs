use polymarket_bot::ledger::{open_position_indices, count_open_positions, count_trades_today, get_daily_pnl, get_peak_equity, utc_day};
use polymarket_bot::types::{Position, PositionStatus, Side};

const DAY: i64 = 86_400_000;

fn row(opened_at: i64, status: PositionStatus, pnl: Option<i64>) -> Position {
    Position {
        id: Some(1),
        market_id: "m".to_string(),
        strategy: "weather_edge".to_string(),
        side: Some(Side::Yes),
        yes_shares: 1,
        no_shares: 0,
        entry_price: 500_000,
        cost: 1,
        opened_at,
        closed_at: if pnl.is_some() { Some(opened_at + 1) } else { None },
        pnl,
        status,
    }
}

#[test]
fn ledger_counts_and_daily_pnl() {
    let today = 20_000 * DAY;
    let rows = vec![
        row(today - 1, PositionStatus::Closed, Some(-7)),
        row(today + 5, PositionStatus::Open, None),
        row(today + 6, PositionStatus::Closed, Some(30)),
        row(today + 7, PositionStatus::EmergencyExited, Some(-12)),
        row(today + 8, PositionStatus::Open, None),
    ];
    let now = today + DAY / 2;
    assert_eq!(count_open_positions(&rows), 2);
    assert_eq!(count_trades_today(&rows, now), 4);
    assert_eq!(get_daily_pnl(&rows, now), 18);
    assert_eq!(get_daily_pnl(&vec![], now), 0);
}

#[test]
fn ledger_closing_moves_pnl() {
    let today = 20_000 * DAY;
    let mut rows = vec![row(today, PositionStatus::Open, None), row(today + 1, PositionStatus::Open, None)];
    let before = (count_open_positions(&rows), get_daily_pnl(&rows, today));
    rows[0].status = PositionStatus::Closed;
    rows[0].pnl = Some(-40);
    rows[0].closed_at = Some(today + 9);
    assert_eq!(count_open_positions(&rows), before.0 - 1);
    assert_eq!(get_daily_pnl(&rows, today), before.1 - 40);
}

#[test]
fn ledger_peak_equity() {
    assert_eq!(get_peak_equity(&vec![]), 0);
    assert_eq!(get_peak_equity(&vec![(1, 10), (2, -5), (3, 20), (4, -100)]), 25);
    assert_eq!(get_peak_equity(&vec![(1, -10), (2, -5)]), -10);
    // entries opened at the same instant are summed together
    assert_eq!(get_peak_equity(&vec![(1, 50), (1, -60), (2, 5)]), -5);
    assert_eq!(get_peak_equity(&vec![(i64::MIN, i64::MAX), (0, i64::MAX)]), 2 * (i64::MAX as i128));
}

#[test]
fn ledger_utc_day() {
    assert_eq!(utc_day(0), 0);
    assert_eq!(utc_day(DAY - 1), 0);
    assert_eq!(utc_day(DAY), 1);
    assert_eq!(utc_day(-1), -1);
    assert_eq!(utc_day(-DAY), -1);
    assert_eq!(utc_day(-DAY - 1), -2);
}

#[test]
fn ledger_inserted_position_is_open() {
    let today = 20_000 * DAY;
    let mut rows = vec![
        row(today, PositionStatus::Closed, Some(3)),
        row(today, PositionStatus::Open, None),
    ];
    assert_eq!(open_position_indices(&rows), vec![1]);
    let mut p = row(today + 1, PositionStatus::Open, None);
    p.id = Some(9);
    rows.push(p);
    let open = open_position_indices(&rows);
    assert_eq!(open, vec![1, 2]);
    assert_eq!(rows[open[1]].id, Some(9));
    assert_eq!(count_open_positions(&rows), 2);
}
