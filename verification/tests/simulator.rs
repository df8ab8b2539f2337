use backtester::broker_fee::{BrokerFee, PricePercentageFee};
use backtester::chained_strategy::ChainedInvestingStrategy;
use backtester::stock_data::StockPriceInfo;
use backtester::stop_loss_strategy::{NoStopLoss, PercentageStopLoss, StopLossTrigger};
use backtester::strategies::growing_ema_investing_strategy::GrowingEmaStrategy;
use backtester::strategy_simulator::{InvestingStrategy, StrategySimulator, TradeResult};
use backtester::take_profit_strategy::{NoTakeProfit, PercentageTakeProfit, TakeProfitTrigger};

fn bar(date: i64, price: i64) -> StockPriceInfo {
    StockPriceInfo {
        ticker: "TST".to_string(),
        per: "D".to_string(),
        date,
        time: "000000".to_string(),
        open: price,
        high: price,
        low: price,
        close: price,
        vol: 1000,
        openint: 0,
    }
}

/// Buys on the first day and never sells: with length 1 the EMA jumps to the
/// first price, a slope above 50 ticks only ever happens on day one, and the
/// sell threshold sits far below any slope.
fn buy_once_strategy() -> GrowingEmaStrategy {
    GrowingEmaStrategy::new(1, 50, -1_000_000)
}

#[test]
fn stop_loss_closes_position_end_to_end() {
    // Close series [100, 90, 80], stop loss 10%, no fee, 10_000 in cash: day
    // one buys 100 shares at 100, day two stops out at 90 for 9_000.
    let mut simulator = StrategySimulator::new(
        10_000,
        0,
        buy_once_strategy(),
        NoTakeProfit,
        PercentageStopLoss::new(1_000),
        PricePercentageFee::new(0),
    );

    let day1 = simulator.next_today(&bar(1, 100));
    assert_eq!(day1.trade_operations.len(), 1);
    match day1.trade_operations[0] {
        TradeResult::Buy(t) => {
            assert_eq!(t.price, 100);
            assert_eq!(t.after_operation_cash, 0);
        }
        _ => panic!("day one should buy"),
    }
    assert_eq!(simulator.current_position, 100);
    assert_eq!(simulator.cash, 0);

    let day2 = simulator.next_today(&bar(2, 90));
    assert_eq!(day2.trade_operations.len(), 1);
    match day2.trade_operations[0] {
        TradeResult::StopLoss(t) => {
            assert_eq!(t.price, 90);
            assert_eq!(t.after_operation_cash, 9_000);
        }
        _ => panic!("day two should stop out"),
    }
    assert_eq!(simulator.current_position, 0);
    assert_eq!(simulator.cash, 9_000);

    let day3 = simulator.next_today(&bar(3, 80));
    assert_eq!(day3.trade_operations.len(), 0);
    assert_eq!(simulator.cash, 9_000);
}

#[test]
fn days_before_start_date_trade_nothing() {
    let mut simulator = StrategySimulator::new(
        10_000,
        100,
        buy_once_strategy(),
        NoTakeProfit,
        PercentageStopLoss::new(1_000),
        PricePercentageFee::new(0),
    );
    for date in 1..=5i64 {
        let day = simulator.next_today(&bar(date, 100));
        assert_eq!(day.trade_operations.len(), 0);
        assert_eq!(day.operation_date, date);
    }
    assert_eq!(simulator.cash, 10_000);
    assert_eq!(simulator.current_position, 0);
}

#[test]
fn buy_never_overdraws_with_fee() {
    // 1% fee: 100 shares at 100 would cost 10_100, so the volume backs off to
    // 99 shares costing 9_900 plus a 99 fee.
    let mut simulator = StrategySimulator::new(
        10_000,
        0,
        buy_once_strategy(),
        NoTakeProfit,
        NoStopLoss,
        PricePercentageFee::new(100),
    );
    let day1 = simulator.next_today(&bar(1, 100));
    assert_eq!(day1.trade_operations.len(), 1);
    match day1.trade_operations[0] {
        TradeResult::Buy(t) => {
            assert_eq!(t.price, 100);
            assert_eq!(t.after_operation_cash, 1);
        }
        _ => panic!("day one should buy"),
    }
    assert_eq!(simulator.current_position, 99);
    assert_eq!(simulator.cash, 1);
    assert!(simulator.cash >= 0);
}

#[test]
fn take_profit_fires_at_exact_threshold() {
    let trigger = PercentageTakeProfit::new(12_000);
    let mut day = bar(1, 110);
    day.high = 120;
    assert_eq!(trigger.should_trigger_take_profit(&day, 100), Some(120));
    day.high = 119;
    assert_eq!(trigger.should_trigger_take_profit(&day, 100), None);
}

#[test]
fn stop_loss_fires_at_exact_threshold() {
    let trigger = PercentageStopLoss::new(1_000);
    let mut day = bar(1, 95);
    day.low = 90;
    assert_eq!(trigger.should_trigger_stop_loss(&day, 100), Some(90));
    day.low = 91;
    assert_eq!(trigger.should_trigger_stop_loss(&day, 100), None);
}

#[test]
fn percentage_fee_is_linear_in_notional() {
    let fee = PricePercentageFee::new(35);
    assert_eq!(fee.buy_fee(100, 10_000), 3_500);
    assert_eq!(fee.sell_fee(100, 10_000), 3_500);
    assert_eq!(fee.buy_fee(0, 10_000), 0);
}

#[test]
fn chained_strategy_needs_both_signals() {
    // The first sub-strategy fires on day one (slope 100 > 50), the second
    // needs a slope above 200 and stays quiet: the composite must not buy.
    let mut chained = ChainedInvestingStrategy::new(
        GrowingEmaStrategy::new(1, 50, -1_000_000),
        GrowingEmaStrategy::new(1, 200, -1_000_000),
    );
    let day = bar(1, 100);
    let ind = chained.calculation(&day, &None);
    assert_eq!(chained.buy_signal(&day, &ind), None);
}

#[test]
fn chained_strategy_buy_takes_higher_price() {
    // Both sub-strategies fire on day one; both name the close, so the
    // composite buys at it.
    let mut chained = ChainedInvestingStrategy::new(
        GrowingEmaStrategy::new(1, 50, -1_000_000),
        GrowingEmaStrategy::new(1, 60, -1_000_000),
    );
    let day = bar(1, 100);
    let ind = chained.calculation(&day, &None);
    assert_eq!(chained.buy_signal(&day, &ind), Some(100));
}

#[test]
fn chained_strategy_sell_needs_both_signals() {
    // Sell fires when the slope drops below the threshold; the first watches
    // for any dip, the second only for a crash.
    let mut chained = ChainedInvestingStrategy::new(
        GrowingEmaStrategy::new(1, 1_000_000, -5),
        GrowingEmaStrategy::new(1, 1_000_000, -500),
    );
    let day1 = bar(1, 100);
    let _ = chained.calculation(&day1, &None);
    let day2 = bar(2, 90);
    let ind = chained.calculation(&day2, &Some(day1));
    // Slope is -10: below -5 but not below -500.
    assert_eq!(chained.sell_signal(&day2, &ind), None);
}
