//! Whole-run drivers: replay a bar series through a configured simulator and
//! collect the outputs a caller exports.

use vstd::prelude::*;

use crate::broker_fee::PricePercentageFee;
use crate::grid_search::grid_search::{grid_points, GridSearch};
use crate::grid_search::parameter::Parameter;
use crate::results_statistics::profitable_investment::number_of_profitable_investments;
use crate::stock_data::StockPriceInfo;
use crate::stop_loss_strategy::PercentageStopLoss;
use crate::strategies::ema_long_term_trend::EmaLongTermTrendStrategy;
use crate::strategy_simulator::{event_trade, InvestingStrategy, StrategySimulator, TradeResult};
use crate::take_profit_strategy::NoTakeProfit;
use crate::technical_indicator::keltner_channel::KeltnerChannel;
use crate::technical_indicator::percent_off_ath::{percent_off, PercentOffAth};
use crate::{BP_SCALE, LENGTH_LIMIT, PCT_LIMIT};

verus! {

/// Every bar of a series is one the engine accepts.
pub open spec fn bars_valid(bars: Seq<StockPriceInfo>) -> bool {
    forall|i: int| 0 <= i < bars.len() ==> (#[trigger] bars[i]).valid()
}

/// The cash balance recorded by the last position exit among `ops`, or
/// `current` if no event of the day closed a position.
pub open spec fn last_exit_cash(current: i64, ops: Seq<TradeResult>) -> i64
    decreases ops.len(),
{
    if ops.len() == 0 {
        current
    } else {
        match ops.last() {
            TradeResult::Buy(_) => last_exit_cash(current, ops.drop_last()),
            TradeResult::Sell(t) => t.after_operation_cash,
            TradeResult::StopLoss(t) => t.after_operation_cash,
            TradeResult::TakeProfit(t) => t.after_operation_cash,
        }
    }
}

/// Fold one day's events into the running exit balance.
fn update_cash_after_exits(current: i64, ops: &Vec<TradeResult>) -> (r: i64)
    ensures
        r == last_exit_cash(current, ops@),
{
    let mut r = current;
    let mut i: usize = 0;
    proof {
        assert(ops@.skip(0) =~= ops@);
    }
    while i < ops.len()
        invariant
            0 <= i <= ops@.len(),
            last_exit_cash(r, ops@.skip(i as int)) == last_exit_cash(current, ops@),
        decreases ops@.len() - i,
    {
        proof {
            lemma_last_exit_cash_first(r, ops@.skip(i as int));
            assert(ops@.skip(i as int).drop_first() =~= ops@.skip(i as int + 1));
            assert(ops@.skip(i as int).first() == ops@[i as int]);
        }
        match *(&ops[i]) {
            TradeResult::Buy(_) => (),
            TradeResult::Sell(t) => {
                r = t.after_operation_cash;
            },
            TradeResult::StopLoss(t) => {
                r = t.after_operation_cash;
            },
            TradeResult::TakeProfit(t) => {
                r = t.after_operation_cash;
            },
        }
        i = i + 1;
    }
    proof {
        assert(ops@.skip(ops@.len() as int) =~= Seq::<TradeResult>::empty());
    }
    r
}

/// The fold can also consume its events front to back: the running balance
/// absorbs the first event, exits overriding and buys passing through.
proof fn lemma_last_exit_cash_first(current: i64, ops: Seq<TradeResult>)
    requires
        ops.len() > 0,
    ensures
        last_exit_cash(current, ops) == match ops.first() {
            TradeResult::Buy(_) => last_exit_cash(current, ops.drop_first()),
            TradeResult::Sell(t) => last_exit_cash(t.after_operation_cash, ops.drop_first()),
            TradeResult::StopLoss(t) => last_exit_cash(t.after_operation_cash, ops.drop_first()),
            TradeResult::TakeProfit(t) => last_exit_cash(t.after_operation_cash, ops.drop_first()),
        },
    decreases ops.len(),
{
    if ops.len() == 1 {
        assert(ops.drop_first() =~= Seq::<TradeResult>::empty());
        assert(ops.drop_last() =~= Seq::<TradeResult>::empty());
        assert(ops.first() == ops.last());
        assert(last_exit_cash(current, Seq::<TradeResult>::empty()) == current);
    } else {
        assert(ops.drop_first().last() == ops.last());
        match ops.last() {
            TradeResult::Buy(_) => {
                lemma_last_exit_cash_first(current, ops.drop_last());
                assert(ops.drop_last().first() == ops.first());
                assert(ops.drop_last().drop_first() =~= ops.drop_first().drop_last());
            },
            TradeResult::Sell(_) => {},
            TradeResult::StopLoss(_) => {},
            TradeResult::TakeProfit(_) => {},
        }
    }
}

/// The simulator a long-term-trend replay starts from.
pub open spec fn trend_simulator(
    invested_cash: i64,
    start_date: i64,
    buy_ema_length: usize,
    buy_inclination: i64,
    sell_inclination: i64,
    stop_loss_param: u32,
    fee_percentage: u32,
) -> StrategySimulator<
    crate::strategies::ema_long_term_trend::EmaLongTermTrendResult,
    EmaLongTermTrendStrategy,
    NoTakeProfit,
    PercentageStopLoss,
    PricePercentageFee,
> {
    StrategySimulator {
        strategy: EmaLongTermTrendStrategy {
            ema: crate::technical_indicator::ema::Ema {
                length: buy_ema_length,
                current_ema: 0i64,
            },
            buy_percentage_diff_from_ema: buy_inclination,
            sell_percentage_diff_from_ema: sell_inclination,
        },
        take_profit: NoTakeProfit,
        stop_loss: PercentageStopLoss { stop_loss_percentage: stop_loss_param },
        broker_fee: PricePercentageFee { percentage: fee_percentage },
        cash: invested_cash,
        start_date,
        last_buy_price: 0i64,
        current_position: 0usize,
        indicator_type: core::marker::PhantomData,
    }
}

/// One trading day of a long-term-trend replay: the strategy advances by its
/// own step and the simulator trades on the day's signals.
pub open spec fn trend_replay_day(
    sim: StrategySimulator<
        crate::strategies::ema_long_term_trend::EmaLongTermTrendResult,
        EmaLongTermTrendStrategy,
        NoTakeProfit,
        PercentageStopLoss,
        PricePercentageFee,
    >,
    today: StockPriceInfo,
) -> (StrategySimulator<
    crate::strategies::ema_long_term_trend::EmaLongTermTrendResult,
    EmaLongTermTrendStrategy,
    NoTakeProfit,
    PercentageStopLoss,
    PricePercentageFee,
>, Seq<TradeResult>) {
    sim.spec_next(
        sim.strategy.spec_step(today),
        sim.strategy.spec_indicator(today, None),
        today,
    )
}

/// The cash after the last position exit of a whole long-term-trend replay,
/// starting from the running balance `acc`.
pub open spec fn trend_replay_exit_cash(
    sim: StrategySimulator<
        crate::strategies::ema_long_term_trend::EmaLongTermTrendResult,
        EmaLongTermTrendStrategy,
        NoTakeProfit,
        PercentageStopLoss,
        PricePercentageFee,
    >,
    bars: Seq<StockPriceInfo>,
    acc: i64,
) -> i64
    decreases bars.len(),
{
    if bars.len() == 0 {
        acc
    } else {
        let (next_sim, events) = trend_replay_day(sim, bars.first());
        trend_replay_exit_cash(next_sim, bars.drop_first(), last_exit_cash(acc, events))
    }
}

/// Replay one ticker's bars through the long-term-trend strategy with a
/// percentage stop loss and a linear fee, and report the cash after the last
/// exit (zero if the run never closed a position).
pub fn simulate_ticker(
    stock_data: &Vec<StockPriceInfo>,
    invested_cash: i64,
    start_date: i64,
    buy_ema_length: usize,
    buy_inclination: i64,
    sell_inclination: i64,
    stop_loss_param: u32,
    fee_percentage: u32,
) -> (r: i64)
    requires
        bars_valid(stock_data@),
        0 <= invested_cash,
        1 <= buy_ema_length <= LENGTH_LIMIT,
        -PCT_LIMIT <= buy_inclination <= PCT_LIMIT,
        -PCT_LIMIT <= sell_inclination <= PCT_LIMIT,
        fee_percentage <= BP_SCALE,
    ensures
        r == trend_replay_exit_cash(
            trend_simulator(
                invested_cash,
                start_date,
                buy_ema_length,
                buy_inclination,
                sell_inclination,
                stop_loss_param,
                fee_percentage,
            ),
            stock_data@,
            0,
        ),
        0 <= r,
{
    let ghost initial = trend_simulator(
        invested_cash,
        start_date,
        buy_ema_length,
        buy_inclination,
        sell_inclination,
        stop_loss_param,
        fee_percentage,
    );
    let mut cash_after_last_sell: i64 = 0;
    let strategy = EmaLongTermTrendStrategy::new(buy_ema_length, buy_inclination, sell_inclination);
    let mut simulator = StrategySimulator::new(
        invested_cash,
        start_date,
        strategy,
        NoTakeProfit,
        PercentageStopLoss::new(stop_loss_param),
        PricePercentageFee::new(fee_percentage),
    );
    proof {
        assert(simulator == initial);
        assert(stock_data@.skip(0) =~= stock_data@);
    }
    let mut i: usize = 0;
    while i < stock_data.len()
        invariant
            bars_valid(stock_data@),
            simulator.wf(),
            0 <= cash_after_last_sell,
            0 <= i <= stock_data@.len(),
            trend_replay_exit_cash(simulator, stock_data@.skip(i as int), cash_after_last_sell)
                == trend_replay_exit_cash(initial, stock_data@, 0),
        decreases stock_data@.len() - i,
    {
        let ghost sim_before = simulator;
        let ghost remaining = stock_data@.skip(i as int);
        let operations_performed = simulator.next_today(&stock_data[i]);
        let ghost before = cash_after_last_sell;
        cash_after_last_sell = update_cash_after_exits(
            cash_after_last_sell,
            &operations_performed.trade_operations,
        );
        proof {
            lemma_last_exit_cash_nonneg(before, operations_performed.trade_operations@);
            // The trait pinned the strategy's post-state, so the day the
            // simulator just ran is exactly one step of the replay fold.
            assert(simulator.strategy == sim_before.strategy.spec_step(stock_data@[i as int]));
            assert(remaining.first() == stock_data@[i as int]);
            assert((simulator, operations_performed.trade_operations@) == trend_replay_day(
                sim_before,
                remaining.first(),
            ));
            assert(remaining.drop_first() =~= stock_data@.skip(i as int + 1));
            assert(trend_replay_exit_cash(sim_before, remaining, before)
                == trend_replay_exit_cash(
                simulator,
                stock_data@.skip(i as int + 1),
                cash_after_last_sell,
            ));
        }
        i = i + 1;
    }
    proof {
        assert(stock_data@.skip(stock_data@.len() as int) =~= Seq::<StockPriceInfo>::empty());
        assert(trend_replay_exit_cash(
            simulator,
            stock_data@.skip(stock_data@.len() as int),
            cash_after_last_sell,
        ) == cash_after_last_sell);
    }
    cash_after_last_sell
}

/// The running exit balance stays non-negative: every recorded balance is.
proof fn lemma_last_exit_cash_nonneg(current: i64, ops: Seq<TradeResult>)
    requires
        0 <= current,
        forall|i: int|
            0 <= i < ops.len() ==> 0 <= event_trade(#[trigger] ops[i]).after_operation_cash,
    ensures
        0 <= last_exit_cash(current, ops),
    decreases ops.len(),
{
    if ops.len() > 0 {
        lemma_last_exit_cash_nonneg(current, ops.drop_last());
    }
}

/// The four kinds of trade event.
#[derive(Clone, Copy, PartialEq, Eq, Structural, Debug)]
pub enum TradeKind {
    Buy,
    Sell,
    StopLoss,
    TakeProfit,
}

pub open spec fn kind_of(e: TradeResult) -> TradeKind {
    match e {
        TradeResult::Buy(_) => TradeKind::Buy,
        TradeResult::Sell(_) => TradeKind::Sell,
        TradeResult::StopLoss(_) => TradeKind::StopLoss,
        TradeResult::TakeProfit(_) => TradeKind::TakeProfit,
    }
}

/// One table row per event of the wanted kind: the day's date and the price.
pub open spec fn kind_rows(date: i64, ops: Seq<TradeResult>, kind: TradeKind) -> Seq<(i64, i64)>
    decreases ops.len(),
{
    if ops.len() == 0 {
        Seq::<(i64, i64)>::empty()
    } else {
        kind_rows(date, ops.drop_last(), kind) + if kind_of(ops.last()) == kind {
            seq![(date, event_trade(ops.last()).price)]
        } else {
            Seq::<(i64, i64)>::empty()
        }
    }
}

/// Append one day's rows of the wanted kind to a signal table.
fn append_kind_rows(date: i64, ops: &Vec<TradeResult>, kind: TradeKind, out: &mut Vec<(i64, i64)>)
    ensures
        final(out)@ == old(out)@ + kind_rows(date, ops@, kind),
{
    let mut i: usize = 0;
    proof {
        assert(old(out)@ + kind_rows(date, ops@.take(0), kind) =~= old(out)@);
    }
    while i < ops.len()
        invariant
            0 <= i <= ops@.len(),
            out@ == old(out)@ + kind_rows(date, ops@.take(i as int), kind),
        decreases ops@.len() - i,
    {
        proof {
            assert(ops@.take(i + 1).drop_last() =~= ops@.take(i as int));
            assert(ops@.take(i + 1).last() == ops@[i as int]);
        }
        let e = &ops[i];
        let k = match *e {
            TradeResult::Buy(_) => TradeKind::Buy,
            TradeResult::Sell(_) => TradeKind::Sell,
            TradeResult::StopLoss(_) => TradeKind::StopLoss,
            TradeResult::TakeProfit(_) => TradeKind::TakeProfit,
        };
        if k == kind {
            let price = match *e {
                TradeResult::Buy(t) => t.price,
                TradeResult::Sell(t) => t.price,
                TradeResult::StopLoss(t) => t.price,
                TradeResult::TakeProfit(t) => t.price,
            };
            out.push((date, price));
            proof {
                assert(out@ =~= old(out)@ + kind_rows(date, ops@.take(i + 1), kind));
            }
        } else {
            proof {
                assert(out@ =~= old(out)@ + kind_rows(date, ops@.take(i + 1), kind));
            }
        }
        i = i + 1;
    }
    proof {
        assert(ops@.take(ops@.len() as int) =~= ops@);
    }
}

/// A fresh bar with the same prices, date and volume.
fn clone_bar(b: &StockPriceInfo) -> (r: StockPriceInfo)
    ensures
        r.date == b.date,
        r.open == b.open,
        r.high == b.high,
        r.low == b.low,
        r.close == b.close,
        r.vol == b.vol,
        r.openint == b.openint,
        b.valid() ==> r.valid(),
{
    StockPriceInfo {
        ticker: b.ticker.clone(),
        per: b.per.clone(),
        date: b.date,
        time: b.time.clone(),
        open: b.open,
        high: b.high,
        low: b.low,
        close: b.close,
        vol: b.vol,
        openint: b.openint,
    }
}

/// The simulator a Keltner channel replay starts from.
pub open spec fn keltner_simulator(
    invested_cash: i64,
    start_date: i64,
    length: usize,
    channel_size: i64,
    stop_loss_percentage: u32,
    fee_percentage: u32,
) -> StrategySimulator<
    crate::strategies::keltner_channel_investing_strategy::KeltnerChannelStrategyResult,
    KeltnerChannel,
    NoTakeProfit,
    PercentageStopLoss,
    PricePercentageFee,
> {
    StrategySimulator {
        strategy: KeltnerChannel {
            channel_size,
            ema: crate::technical_indicator::ema::Ema { length, current_ema: 0i64 },
            atr: crate::technical_indicator::atr::Atr {
                atr_ema: crate::technical_indicator::ema::Ema { length, current_ema: 0i64 },
            },
        },
        take_profit: NoTakeProfit,
        stop_loss: PercentageStopLoss { stop_loss_percentage },
        broker_fee: PricePercentageFee { percentage: fee_percentage },
        cash: invested_cash,
        start_date,
        last_buy_price: 0i64,
        current_position: 0usize,
        indicator_type: core::marker::PhantomData,
    }
}

/// Everything a Keltner replay has produced so far: the simulator, the close
/// the next day sees as yesterday's, the four signal tables, the channel rows
/// and the running exit balance.
pub struct KeltnerReplay {
    pub sim: StrategySimulator<
        crate::strategies::keltner_channel_investing_strategy::KeltnerChannelStrategyResult,
        KeltnerChannel,
        NoTakeProfit,
        PercentageStopLoss,
        PricePercentageFee,
    >,
    pub prev_close: i64,
    pub buys: Seq<(i64, i64)>,
    pub sells: Seq<(i64, i64)>,
    pub stops: Seq<(i64, i64)>,
    pub takes: Seq<(i64, i64)>,
    pub rows: Seq<(i64, Seq<i64>)>,
    pub cash: i64,
}

/// Where a Keltner replay starts: everything empty, no yesterday yet.
pub open spec fn keltner_replay_init(
    invested_cash: i64,
    start_date: i64,
    length: usize,
    channel_size: i64,
    stop_loss_percentage: u32,
    fee_percentage: u32,
) -> KeltnerReplay {
    KeltnerReplay {
        sim: keltner_simulator(
            invested_cash,
            start_date,
            length,
            channel_size,
            stop_loss_percentage,
            fee_percentage,
        ),
        prev_close: 0i64,
        buys: Seq::<(i64, i64)>::empty(),
        sells: Seq::<(i64, i64)>::empty(),
        stops: Seq::<(i64, i64)>::empty(),
        takes: Seq::<(i64, i64)>::empty(),
        rows: Seq::<(i64, Seq<i64>)>::empty(),
        cash: 0i64,
    }
}

/// One whole Keltner replay, one day at a time: the channel advances on the
/// bar and yesterday's close, the simulator trades on the day's signals, and
/// every output table grows by the day's entries.
pub open spec fn keltner_replay(state: KeltnerReplay, bars: Seq<StockPriceInfo>) -> KeltnerReplay
    decreases bars.len(),
{
    if bars.len() == 0 {
        state
    } else {
        let today = bars.first();
        let ind = crate::strategies::keltner_channel_investing_strategy::keltner_indicator(
            state.sim.strategy,
            today,
            state.prev_close,
        );
        let (next_sim, events) = state.sim.spec_next(
            state.sim.strategy.spec_step(today.close, today.high, today.low, state.prev_close),
            ind,
            today,
        );
        let next = KeltnerReplay {
            sim: next_sim,
            prev_close: today.close,
            buys: state.buys + kind_rows(today.date, events, TradeKind::Buy),
            sells: state.sells + kind_rows(today.date, events, TradeKind::Sell),
            stops: state.stops + kind_rows(today.date, events, TradeKind::StopLoss),
            takes: state.takes + kind_rows(today.date, events, TradeKind::TakeProfit),
            rows: state.rows.push(
                (today.date, seq![ind.today.lower_band, ind.today.ema, ind.today.upper_band]),
            ),
            cash: last_exit_cash(state.cash, events),
        };
        keltner_replay(next, bars.drop_first())
    }
}

/// The view of a finished report: each channel row by its date and values.
pub open spec fn channel_rows_view(rows: Seq<(i64, Vec<i64>)>) -> Seq<(i64, Seq<i64>)> {
    rows.map_values(|row: (i64, Vec<i64>)| (row.0, row.1@))
}

/// Everything one Keltner channel backtest produces: a table per event kind,
/// the per-day channel values, and the cash after the last exit.
pub struct KeltnerBacktestReport {
    pub buy_operations: Vec<(i64, i64)>,
    pub sell_operations: Vec<(i64, i64)>,
    pub stop_loss_operations: Vec<(i64, i64)>,
    pub take_profit_operations: Vec<(i64, i64)>,
    pub channel_rows: Vec<(i64, Vec<i64>)>,
    pub cash_after_last_sell: i64,
}

/// Replay one ticker's bars through the Keltner channel strategy, recording
/// every trade event in the table of its kind and one channel row (lower band,
/// EMA, upper band) per day.
pub fn run_keltner_backtest(
    stock_data: &Vec<StockPriceInfo>,
    invested_cash: i64,
    start_date: i64,
    length: usize,
    channel_size: i64,
    stop_loss_percentage: u32,
    fee_percentage: u32,
) -> (r: KeltnerBacktestReport)
    requires
        bars_valid(stock_data@),
        0 <= invested_cash,
        1 <= length <= LENGTH_LIMIT,
        0 <= channel_size <= crate::CHANNEL_SIZE_LIMIT,
        fee_percentage <= BP_SCALE,
    ensures
        ({
            let end_state = keltner_replay(
                keltner_replay_init(
                    invested_cash,
                    start_date,
                    length,
                    channel_size,
                    stop_loss_percentage,
                    fee_percentage,
                ),
                stock_data@,
            );
            r.buy_operations@ == end_state.buys && r.sell_operations@ == end_state.sells
                && r.stop_loss_operations@ == end_state.stops && r.take_profit_operations@
                == end_state.takes && channel_rows_view(r.channel_rows@) == end_state.rows
                && r.cash_after_last_sell == end_state.cash
        }),
        r.channel_rows@.len() == stock_data@.len(),
        forall|i: int|
            0 <= i < stock_data@.len() ==> (#[trigger] r.channel_rows@[i]).0 == stock_data@[i].date
                && r.channel_rows@[i].1@.len() == 3,
        0 <= r.cash_after_last_sell,
{
    let ghost initial = keltner_replay_init(
        invested_cash,
        start_date,
        length,
        channel_size,
        stop_loss_percentage,
        fee_percentage,
    );
    let mut cash_after_last_sell: i64 = 0;
    let mut simulator = StrategySimulator::new(
        invested_cash,
        start_date,
        KeltnerChannel::new(length, channel_size),
        NoTakeProfit,
        PercentageStopLoss::new(stop_loss_percentage),
        PricePercentageFee::new(fee_percentage),
    );
    let mut buy_operations: Vec<(i64, i64)> = Vec::new();
    let mut sell_operations: Vec<(i64, i64)> = Vec::new();
    let mut stop_loss_operations: Vec<(i64, i64)> = Vec::new();
    let mut take_profit_operations: Vec<(i64, i64)> = Vec::new();
    let mut channel_rows: Vec<(i64, Vec<i64>)> = Vec::new();
    let mut previous_day: Option<StockPriceInfo> = None;
    proof {
        assert(simulator == initial.sim);
        assert(channel_rows_view(channel_rows@) =~= Seq::<(i64, Seq<i64>)>::empty());
        assert(stock_data@.skip(0) =~= stock_data@);
        let state0 = KeltnerReplay {
            sim: simulator,
            prev_close: 0i64,
            buys: buy_operations@,
            sells: sell_operations@,
            stops: stop_loss_operations@,
            takes: take_profit_operations@,
            rows: channel_rows_view(channel_rows@),
            cash: cash_after_last_sell,
        };
        assert(state0 == initial);
    }
    let mut i: usize = 0;
    while i < stock_data.len()
        invariant
            bars_valid(stock_data@),
            simulator.wf(),
            0 <= cash_after_last_sell,
            0 <= i <= stock_data@.len(),
            i == 0 ==> previous_day is None,
            i > 0 ==> (previous_day matches Some(y) && y.valid() && y.close == stock_data@[i - 1].close),
            channel_rows@.len() == i,
            forall|j: int|
                0 <= j < i ==> (#[trigger] channel_rows@[j]).0 == stock_data@[j].date
                    && channel_rows@[j].1@.len() == 3,
            keltner_replay(
                KeltnerReplay {
                    sim: simulator,
                    prev_close: crate::strategies::keltner_channel_investing_strategy::yesterday_close(
                        previous_day,
                    ),
                    buys: buy_operations@,
                    sells: sell_operations@,
                    stops: stop_loss_operations@,
                    takes: take_profit_operations@,
                    rows: channel_rows_view(channel_rows@),
                    cash: cash_after_last_sell,
                },
                stock_data@.skip(i as int),
            ) == keltner_replay(initial, stock_data@),
        decreases stock_data@.len() - i,
    {
        let ghost state_before = KeltnerReplay {
            sim: simulator,
            prev_close: crate::strategies::keltner_channel_investing_strategy::yesterday_close(
                previous_day,
            ),
            buys: buy_operations@,
            sells: sell_operations@,
            stops: stop_loss_operations@,
            takes: take_profit_operations@,
            rows: channel_rows_view(channel_rows@),
            cash: cash_after_last_sell,
        };
        let ghost remaining = stock_data@.skip(i as int);
        let day = &stock_data[i];
        let result = simulator.next(day, &previous_day);
        channel_rows.push((result.operation_date, result.strategy_params.today.to_row()));
        append_kind_rows(
            result.operation_date,
            &result.trade_operations,
            TradeKind::Buy,
            &mut buy_operations,
        );
        append_kind_rows(
            result.operation_date,
            &result.trade_operations,
            TradeKind::Sell,
            &mut sell_operations,
        );
        append_kind_rows(
            result.operation_date,
            &result.trade_operations,
            TradeKind::StopLoss,
            &mut stop_loss_operations,
        );
        append_kind_rows(
            result.operation_date,
            &result.trade_operations,
            TradeKind::TakeProfit,
            &mut take_profit_operations,
        );
        let ghost before = cash_after_last_sell;
        cash_after_last_sell = update_cash_after_exits(
            cash_after_last_sell,
            &result.trade_operations,
        );
        proof {
            lemma_last_exit_cash_nonneg(before, result.trade_operations@);
            assert(remaining.first() == stock_data@[i as int]);
            assert(remaining.drop_first() =~= stock_data@.skip(i as int + 1));
            // The day the simulator just ran is one step of the replay fold:
            // the trait pinned the channel's post-state, and the recorded
            // indicator row is the fold's.
            let ghost state_after = KeltnerReplay {
                sim: simulator,
                prev_close: crate::strategies::keltner_channel_investing_strategy::yesterday_close(
                    Some(*day),
                ),
                buys: buy_operations@,
                sells: sell_operations@,
                stops: stop_loss_operations@,
                takes: take_profit_operations@,
                rows: channel_rows_view(channel_rows@),
                cash: cash_after_last_sell,
            };
            assert(channel_rows_view(channel_rows@) =~= state_before.rows.push(
                (
                    stock_data@[i as int].date,
                    seq![
                        result.strategy_params.today.lower_band,
                        result.strategy_params.today.ema,
                        result.strategy_params.today.upper_band,
                    ],
                ),
            ));
            assert(keltner_replay(state_before, remaining) == keltner_replay(
                state_after,
                stock_data@.skip(i as int + 1),
            ));
        }
        previous_day = Some(clone_bar(day));
        proof {
            assert(crate::strategies::keltner_channel_investing_strategy::yesterday_close(
                previous_day,
            ) == stock_data@[i as int].close);
        }
        i = i + 1;
    }
    proof {
        assert(stock_data@.skip(stock_data@.len() as int) =~= Seq::<StockPriceInfo>::empty());
    }
    KeltnerBacktestReport {
        buy_operations,
        sell_operations,
        stop_loss_operations,
        take_profit_operations,
        channel_rows,
        cash_after_last_sell,
    }
}

/// The highest high seen in the first `i + 1` bars (zero before any bar).
pub open spec fn running_high(bars: Seq<StockPriceInfo>, i: int) -> int
    decreases i + 1,
{
    if i < 0 {
        0
    } else {
        let prev = running_high(bars, i - 1);
        if bars[i].high >= prev {
            bars[i].high as int
        } else {
            prev
        }
    }
}

/// One row per day: the date and how far that day's high sits below the
/// running all-time high, in basis points.
pub fn percent_off_high_series(stock_data: &Vec<StockPriceInfo>) -> (r: Vec<(i64, i64)>)
    requires
        bars_valid(stock_data@),
    ensures
        r@.len() == stock_data@.len(),
        forall|i: int|
            0 <= i < stock_data@.len() ==> (#[trigger] r@[i]).0 == stock_data@[i].date && r@[i].1
                == percent_off(running_high(stock_data@, i), stock_data@[i].high as int),
{
    let mut technical_indicator = PercentOffAth::new();
    let mut rows: Vec<(i64, i64)> = Vec::new();
    let mut i: usize = 0;
    while i < stock_data.len()
        invariant
            bars_valid(stock_data@),
            technical_indicator.wf(),
            technical_indicator.ath == running_high(stock_data@, i as int - 1),
            rows@.len() == i <= stock_data@.len(),
            forall|j: int|
                0 <= j < i ==> (#[trigger] rows@[j]).0 == stock_data@[j].date && rows@[j].1
                    == percent_off(running_high(stock_data@, j), stock_data@[j].high as int),
        decreases stock_data@.len() - i,
    {
        let day = &stock_data[i];
        let pct = technical_indicator.next(day.high);
        rows.push((day.date, pct));
        i = i + 1;
    }
    rows
}

/// The per-ticker outcomes of one grid point: every ticker replayed through
/// the long-term-trend strategy with the point's coordinates (EMA length, buy
/// and sell thresholds, stop loss).
pub open spec fn grid_point_rois(
    data: Seq<Vec<StockPriceInfo>>,
    invested_cash: i64,
    start_date: i64,
    fee_percentage: u32,
    point: Seq<i64>,
) -> Seq<i64> {
    Seq::new(
        data.len(),
        |t: int|
            trend_replay_exit_cash(
                trend_simulator(
                    invested_cash,
                    start_date,
                    point[0] as usize,
                    point[1],
                    point[2],
                    point[3] as u32,
                    fee_percentage,
                ),
                data[t]@,
                0,
            ),
    )
}

/// The objective at one grid point: how many tickers end with more cash than
/// was invested. Coordinates outside the engine's ranges score zero.
pub open spec fn grid_objective(
    data: Seq<Vec<StockPriceInfo>>,
    invested_cash: i64,
    start_date: i64,
    fee_percentage: u32,
    point: Seq<i64>,
) -> int {
    if point.len() < 4 {
        0
    } else if !(1 <= point[0] <= LENGTH_LIMIT as i64) {
        0
    } else if !(-PCT_LIMIT <= point[1] <= PCT_LIMIT) {
        0
    } else if !(-PCT_LIMIT <= point[2] <= PCT_LIMIT) {
        0
    } else if !(0 <= point[3] <= BP_SCALE) {
        0
    } else {
        crate::results_statistics::profitable_investment::count_above(
            grid_point_rois(data, invested_cash, start_date, fee_percentage, point),
            invested_cash,
        )
    }
}

/// Grid search over the long-term-trend strategy: one axis each for the EMA
/// length, the buy and sell thresholds (basis points) and the stop loss
/// (basis points), with the objective counting, at each point, how many
/// tickers end with more cash than was invested. Axis values outside the
/// engine's ranges score zero.
pub fn grid_search_growing_ema(
    data: &Vec<Vec<StockPriceInfo>>,
    invested_cash: i64,
    start_date: i64,
    fee_percentage: u32,
    axes: Vec<Parameter>,
) -> (r: Vec<(Vec<i64>, usize)>)
    requires
        forall|t: int| 0 <= t < data@.len() ==> bars_valid((#[trigger] data@[t])@),
        0 <= invested_cash,
        fee_percentage <= BP_SCALE,
        crate::grid_search::grid_search::params_wf(axes@),
    ensures
        r@.len() == grid_points(axes@).len(),
        forall|i: int|
            0 <= i < r@.len() ==> (#[trigger] r@[i]).0@ == grid_points(axes@)[i] && r@[i].1
                == grid_objective(
                data@,
                invested_cash,
                start_date,
                fee_percentage,
                grid_points(axes@)[i],
            ),
{
    let objective = |params: &Vec<i64>| -> (out: usize)
        ensures
            out == grid_objective(data@, invested_cash, start_date, fee_percentage, params@),
        {
            if params.len() < 4 {
                return 0;
            }
            let ema_len = params[0];
            let buy_inclination = params[1];
            let sell_inclination = params[2];
            let stop_loss = params[3];
            if ema_len < 1 || ema_len > LENGTH_LIMIT as i64 {
                return 0;
            }
            if buy_inclination < -PCT_LIMIT || buy_inclination > PCT_LIMIT {
                return 0;
            }
            if sell_inclination < -PCT_LIMIT || sell_inclination > PCT_LIMIT {
                return 0;
            }
            if stop_loss < 0 || stop_loss > BP_SCALE {
                return 0;
            }
            let ghost point_rois = grid_point_rois(
                data@,
                invested_cash,
                start_date,
                fee_percentage,
                params@,
            );
            let mut rois: Vec<i64> = Vec::new();
            let mut t: usize = 0;
            while t < data.len()
                invariant
                    forall|u: int| 0 <= u < data@.len() ==> bars_valid((#[trigger] data@[u])@),
                    0 <= invested_cash,
                    fee_percentage <= BP_SCALE,
                    1 <= ema_len <= LENGTH_LIMIT as i64,
                    -PCT_LIMIT <= buy_inclination <= PCT_LIMIT,
                    -PCT_LIMIT <= sell_inclination <= PCT_LIMIT,
                    0 <= stop_loss <= BP_SCALE,
                    params@.len() >= 4,
                    ema_len == params@[0],
                    buy_inclination == params@[1],
                    sell_inclination == params@[2],
                    stop_loss == params@[3],
                    point_rois == grid_point_rois(
                        data@,
                        invested_cash,
                        start_date,
                        fee_percentage,
                        params@,
                    ),
                    0 <= t <= data@.len(),
                    rois@ == point_rois.take(t as int),
                decreases data@.len() - t,
            {
                let roi = simulate_ticker(
                    &data[t],
                    invested_cash,
                    start_date,
                    ema_len as usize,
                    buy_inclination,
                    sell_inclination,
                    stop_loss as u32,
                    fee_percentage,
                );
                rois.push(roi);
                proof {
                    assert(rois@ =~= point_rois.take(t as int + 1));
                }
                t = t + 1;
            }
            proof {
                assert(point_rois.take(data@.len() as int) =~= point_rois);
            }
            number_of_profitable_investments(&rois, invested_cash)
        };
    let search = GridSearch::new(axes);
    let results = search.search(objective);
    proof {
        assert forall|i: int| 0 <= i < results@.len() implies (#[trigger] results@[i]).1
            == grid_objective(
            data@,
            invested_cash,
            start_date,
            fee_percentage,
            grid_points(search.parameters@)[i],
        ) by {
            assert(call_ensures(objective, (&results@[i].0,), results@[i].1));
        }
    }
    results
}

} // verus!

