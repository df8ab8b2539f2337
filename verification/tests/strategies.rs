use backtester::stock_data::StockPriceInfo;
use backtester::strategies::arima::ArimaStrategy;
use backtester::strategies::ema_crossover_strategy::EmaCrossoverStrategy;
use backtester::strategies::ema_long_term_trend::EmaLongTermTrendStrategy;
use backtester::strategies::keltner_channel_investing_strategy::KeltnerChannelStrategyResult;
use backtester::strategies::macd_divergence_strategy::MACDDivergenceStrategy;
use backtester::strategies::macd_strategy::MACDStrategy;
use backtester::strategies::rsi_strategy::RsiStrategy;
use backtester::strategy_simulator::InvestingStrategy;
use backtester::technical_indicator::keltner_channel::KeltnerChannel;

fn bar(date: i64, price: i64) -> StockPriceInfo {
    StockPriceInfo {
        ticker: "TST".to_string(),
        per: "D".to_string(),
        date,
        time: "000000".to_string(),
        open: price,
        high: price,
        low: price,
        close: price,
        vol: 1000,
        openint: 0,
    }
}

#[test]
fn ema_crossover_buys_above_and_sells_below() {
    // Short EMA of length 1 follows the close; the long one lags.
    let mut strategy = EmaCrossoverStrategy::new(1, 9);
    let day1 = bar(1, 100);
    let ind = strategy.calculation(&day1, &None);
    // Rising from nothing: short (100) over long (20).
    assert_eq!(strategy.buy_signal(&day1, &ind), Some(100));
    assert_eq!(strategy.sell_signal(&day1, &ind), None);

    let day2 = bar(2, 10);
    let ind = strategy.calculation(&day2, &Some(day1));
    // Crashing: short (10) under long (18).
    assert_eq!(strategy.buy_signal(&day2, &ind), None);
    assert_eq!(strategy.sell_signal(&day2, &ind), Some(10));
}

#[test]
fn ema_long_term_trend_fires_on_relative_distance() {
    // Length 1 keeps the EMA at the close, so a 10% threshold can never fire;
    // thresholds at -1 bp fire on any non-negative distance.
    let mut strategy = EmaLongTermTrendStrategy::new(1, 1_000, 1_000);
    let day = bar(1, 100);
    let ind = strategy.calculation(&day, &None);
    assert_eq!(strategy.buy_signal(&day, &ind), None);
    assert_eq!(strategy.sell_signal(&day, &ind), None);

    let mut eager = EmaLongTermTrendStrategy::new(1, -1, -1);
    let ind = eager.calculation(&day, &None);
    assert_eq!(eager.buy_signal(&day, &ind), Some(100));
    assert_eq!(eager.sell_signal(&day, &ind), Some(100));
}

#[test]
fn macd_strategy_follows_line_against_signal() {
    // With a fast EMA shorter than the slow one, a first rising price puts
    // the MACD line above zero, and the signal line below it.
    let mut strategy = MACDStrategy::new(26, 12, 9);
    let day = bar(1, 10_000);
    let ind = strategy.calculation(&day, &None);
    assert!(ind.macd_line > ind.signal_line);
    assert_eq!(strategy.buy_signal(&day, &ind), Some(10_000));
    assert_eq!(strategy.sell_signal(&day, &ind), None);
}

#[test]
fn macd_default_periods() {
    let mut strategy = MACDStrategy::default();
    let day = bar(1, 1_000);
    let ind = strategy.calculation(&day, &None);
    assert_eq!(ind.macd_line, 2 * 1_000 / 13 - 2 * 1_000 / 27);
}

#[test]
fn rsi_strategy_buys_oversold_and_sells_overbought() {
    // Bands at 20.00 and 80.00 in hundredths of a point.
    let mut strategy = RsiStrategy::new(2, 2_000, 8_000);
    let day1 = bar(1, 100);
    let ind = strategy.calculation(&day1, &None);
    // One price: no finite index, no signal either way.
    assert_eq!(strategy.buy_signal(&day1, &ind), None);
    assert_eq!(strategy.sell_signal(&day1, &ind), None);

    let day2 = bar(2, 150);
    let ind = strategy.calculation(&day2, &Some(day1.clone()));
    // All gains: the index is 100.00, over the high band.
    assert_eq!(strategy.buy_signal(&day2, &ind), None);
    assert_eq!(strategy.sell_signal(&day2, &ind), Some(150));

    let mut falling = RsiStrategy::new(2, 2_000, 8_000);
    falling.calculation(&day1, &None);
    let day2_down = bar(2, 50);
    let ind = falling.calculation(&day2_down, &Some(day1));
    // All losses: the index is 0.00, under the low band.
    assert_eq!(falling.buy_signal(&day2_down, &ind), Some(50));
    assert_eq!(falling.sell_signal(&day2_down, &ind), None);
}

#[test]
fn keltner_strategy_mean_reversion_signals() {
    // A zero channel size puts both bands on the EMA itself, which makes the
    // crossings easy to stage.
    let mut strategy = KeltnerChannel::new(2, 0);
    let day1 = bar(1, 300);
    let ind: KeltnerChannelStrategyResult = strategy.calculation(&day1, &None);
    // The EMA sits at 200 and the close at 300: no dip below the band, but
    // the day's high reaches the upper band, so the sell side names it.
    assert_eq!(ind.today.upper_band, 200);
    assert_eq!(strategy.buy_signal(&day1, &ind), None);
    assert_eq!(strategy.sell_signal(&day1, &ind), Some(200));

    let day2 = bar(2, 100);
    let ind = strategy.calculation(&day2, &Some(day1));
    // The close crashed below the band: the buy side names the close.
    assert!(ind.today.lower_band > 100);
    assert_eq!(strategy.buy_signal(&day2, &ind), Some(100));
}

#[test]
fn macd_divergence_needs_three_minima_and_rising_macd() {
    let mut strategy = MACDDivergenceStrategy::default();
    // Price path carving three ever-lower local minima: 90, 80, 70.
    let closes = [100i64, 90, 100, 95, 80, 95, 90, 70, 95];
    let mut last = None;
    let mut bought = false;
    for (i, &c) in closes.iter().enumerate() {
        let day = bar(i as i64 + 1, c);
        let ind = strategy.calculation(&day, &last);
        if strategy.buy_signal(&day, &ind).is_some() {
            bought = true;
            // A divergence needs at least three minima on record.
            assert!(ind.local_minimas.seen >= 3);
            // Falling price minima...
            assert!(ind.local_minimas.previous - ind.local_minimas.latest > 2);
            // ...with the MACD line rising between them.
            assert!(
                ind.local_minima_macd.latest.macd_line > ind.local_minima_macd.previous.macd_line
            );
        }
        last = Some(day);
    }
    // The third minimum (70, down from 80) completes the pattern only if the
    // MACD rose; this path never produces a rising MACD at a lower minimum,
    // so no buy fires, but the minima were tracked.
    let day = bar(100, 70);
    let ind = strategy.calculation(&day, &last);
    assert!(ind.local_minimas.seen >= 3);
    assert_eq!(ind.local_minimas.latest, 70);
    assert_eq!(ind.local_minimas.previous, 80);
    let _ = bought;
}

#[test]
fn arima_decisions_follow_the_forecast() {
    let mut strategy = ArimaStrategy::new();
    let day1 = bar(1, 100);
    let ind = strategy.calculation(Some(120), &day1, &None);
    // No yesterday: the forecast is held against a zero close, so it buys at
    // the open.
    assert_eq!(strategy.buy_signal(&day1, &ind), Some(100));
    assert_eq!(strategy.sell_signal(&day1), Some(100));

    let day2 = bar(2, 110);
    let ind = strategy.calculation(Some(90), &day2, &Some(day1));
    // Forecast below yesterday's close: no buy.
    assert_eq!(strategy.buy_signal(&day2, &ind), None);
    assert_eq!(strategy.sell_signal(&day2), Some(110));
}
