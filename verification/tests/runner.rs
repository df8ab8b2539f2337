use backtester::grid_search::parameter::Parameter;
use backtester::runner::{
    grid_search_growing_ema, percent_off_high_series, run_keltner_backtest, simulate_ticker,
};
use backtester::stock_data::StockPriceInfo;

fn bar(date: i64, price: i64) -> StockPriceInfo {
    StockPriceInfo {
        ticker: "TST".to_string(),
        per: "D".to_string(),
        date,
        time: "000000".to_string(),
        open: price,
        high: price,
        low: price,
        close: price,
        vol: 1000,
        openint: 0,
    }
}

#[test]
fn simulate_ticker_reports_cash_after_last_exit() {
    // Close [100, 90, 80], EMA length 2, 10% stop loss, no fee. Day one buys
    // 100 shares at 100; day two stops out at 90 (9_000) and, the close still
    // sitting above the EMA, buys 100 shares at 90; day three stops out at 80.
    // The last exit leaves 8_000.
    let data = vec![bar(1, 100), bar(2, 90), bar(3, 80)];
    let cash = simulate_ticker(&data, 10_000, 0, 2, 0, 1_000_000, 1_000, 0);
    assert_eq!(cash, 8_000);
}

#[test]
fn simulate_ticker_with_no_exit_reports_zero() {
    let data = vec![bar(1, 100), bar(2, 110)];
    // A stop loss of 0% never fires below the buy price and the sell
    // threshold is unreachable, so the position is never closed.
    let cash = simulate_ticker(&data, 10_000, 0, 2, 0, 1_000_000, 0, 0);
    assert_eq!(cash, 0);
}

#[test]
fn simulate_ticker_profitable_run() {
    // Buy at 100 on day one, ride the rise, and sell on day three when the
    // close falls back under the EMA: 100 shares sold at 150 leave 15_000.
    let data = vec![bar(1, 100), bar(2, 200), bar(3, 150)];
    let cash = simulate_ticker(&data, 10_000, 0, 2, 0, 0, 9_000, 0);
    assert_eq!(cash, 15_000);
}

#[test]
fn grid_search_growing_ema_counts_profitable_tickers() {
    let data = vec![vec![bar(1, 100), bar(2, 200), bar(3, 150)]];
    let axes = vec![
        Parameter::new(2, 2, 1),
        Parameter::new(0, 0, 1),
        Parameter::new(0, 0, 1),
        Parameter::new(9_000, 9_000, 1),
    ];
    let results = grid_search_growing_ema(&data, 10_000, 0, 0, axes);
    assert_eq!(results.len(), 1);
    assert_eq!(results[0].1, 1);
}

#[test]
fn percent_off_high_series_exact_rows() {
    let data = vec![bar(1, 100), bar(2, 50), bar(3, 200), bar(4, 150)];
    let rows = percent_off_high_series(&data);
    assert_eq!(rows, vec![(1, 0), (2, 5000), (3, 0), (4, 2500)]);
}

#[test]
fn keltner_backtest_one_channel_row_per_day() {
    let data = vec![bar(1, 100), bar(2, 120), bar(3, 90), bar(4, 95)];
    let report = run_keltner_backtest(&data, 10_000, 0, 20, 300, 5_000, 35);
    assert_eq!(report.channel_rows.len(), 4);
    for (i, row) in report.channel_rows.iter().enumerate() {
        assert_eq!(row.0, data[i].date);
        assert_eq!(row.1.len(), 3);
        // Rows are lower band, EMA, upper band, and the bands are symmetric.
        assert_eq!(row.1[2] - row.1[1], row.1[1] - row.1[0]);
    }
    assert!(report.cash_after_last_sell >= 0);
}

#[test]
fn grid_search_growing_ema_one_row_per_point() {
    let data = vec![vec![bar(1, 100), bar(2, 90), bar(3, 80)]];
    let axes = vec![
        Parameter::new(1, 2, 1),
        Parameter::new(0, 0, 1),
        Parameter::new(1_000_000, 1_000_000, 1),
        Parameter::new(1_000, 2_000, 1_000),
    ];
    let results = grid_search_growing_ema(&data, 10_000, 0, 0, axes);
    // 2 * 1 * 1 * 2 axis values.
    assert_eq!(results.len(), 4);
    for (point, score) in &results {
        assert_eq!(point.len(), 4);
        // One ticker, and it always ends below the investment.
        assert_eq!(*score, 0);
    }
    assert_eq!(results[0].0, vec![1, 0, 1_000_000, 1_000]);
    assert_eq!(results[3].0, vec![2, 0, 1_000_000, 2_000]);
}
