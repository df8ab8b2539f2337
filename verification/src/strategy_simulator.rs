//! The trade simulator: one call per trading day drives the indicator update,
//! the signal evaluation and the trade execution, and owns the cash and
//! position state.
//!
//! The per-day order is: indicator calculation (always, so indicators warm up
//! before the start date); then, on or after the start date, while long, three
//! independent exit checks (sell signal, take profit, stop loss), each of
//! which runs whether or not an earlier check this same day already closed
//! the position, so a later check can record an exit event with no cash
//! effect; then, if flat, the buy check.

use vstd::prelude::*;

use crate::broker_fee::BrokerFee;
use crate::stock_data::StockPriceInfo;
use crate::stop_loss_strategy::StopLossTrigger;
use crate::take_profit_strategy::TakeProfitTrigger;
use crate::{price_cap, PRICE_LIMIT};

verus! {

/// A strategy: an indicator update per bar plus buy and sell decisions over
/// the indicator state `T`. Each operation is pinned to its own spec
/// function, so a simulation is deterministic. A buy price is always a real
/// bar price, at least one tick; a sell price may be a computed level and can
/// reach the engine's price cap.
pub trait InvestingStrategy<T>: Sized {
    spec fn wf(&self) -> bool;

    /// Indicator states this strategy can hand to its own signal checks.
    spec fn indicator_wf(&self, indicator: T) -> bool;

    /// The indicator state one bar produces, as a function of the strategy
    /// state before the bar.
    spec fn spec_indicator(&self, today: StockPriceInfo, yesterday: Option<StockPriceInfo>) -> T;

    /// Exactly how one bar advances the strategy's own state: each
    /// implementation pins its post-state, down to the views of whatever
    /// opaque parts it holds, so a replay is a function of its bars.
    spec fn calculation_post(&self, post: Self, today: StockPriceInfo, yesterday: Option<
        StockPriceInfo,
    >) -> bool;

    spec fn spec_buy_signal(&self, today: StockPriceInfo, indicator: T) -> Option<i64>;

    spec fn spec_sell_signal(&self, today: StockPriceInfo, indicator: T) -> Option<i64>;

    fn calculation(&mut self, stock_price_info: &StockPriceInfo, yesterday: &Option<
        StockPriceInfo,
    >) -> (r: T)
        requires
            old(self).wf(),
            stock_price_info.valid(),
            yesterday matches Some(y) ==> y.valid(),
        ensures
            final(self).wf(),
            r == old(self).spec_indicator(*stock_price_info, *yesterday),
            old(self).calculation_post(*final(self), *stock_price_info, *yesterday),
            final(self).indicator_wf(r),
    ;

    fn buy_signal(&self, stock_price_info: &StockPriceInfo, indicator: &T) -> (r: Option<i64>)
        requires
            self.wf(),
            self.indicator_wf(*indicator),
            stock_price_info.valid(),
        ensures
            r == self.spec_buy_signal(*stock_price_info, *indicator),
            r matches Some(p) ==> 1 <= p <= PRICE_LIMIT,
    ;

    fn sell_signal(&self, stock_price_info: &StockPriceInfo, indicator: &T) -> (r: Option<i64>)
        requires
            self.wf(),
            self.indicator_wf(*indicator),
            stock_price_info.valid(),
        ensures
            r == self.spec_sell_signal(*stock_price_info, *indicator),
            r matches Some(p) ==> 0 <= p <= price_cap(),
    ;
}

#[derive(Clone, Copy, PartialEq, Eq, Structural, Debug)]
pub struct Trade {
    pub price: i64,
    pub after_operation_cash: i64,
}

#[derive(Clone, Copy, PartialEq, Eq, Structural, Debug)]
pub enum TradeResult {
    Buy(Trade),
    Sell(Trade),
    StopLoss(Trade),
    TakeProfit(Trade),
}

pub struct StrategyResult<T> {
    pub operation_date: i64,
    pub strategy_params: T,
    pub trade_operations: Vec<TradeResult>,
}

/// The trade an event carries.
pub open spec fn event_trade(e: TradeResult) -> Trade {
    match e {
        TradeResult::Buy(t) => t,
        TradeResult::Sell(t) => t,
        TradeResult::StopLoss(t) => t,
        TradeResult::TakeProfit(t) => t,
    }
}

/// The cash the simulator held just before the event at index `i` of a day's
/// event list: every event records the cash after itself, so this is the
/// previous event's balance, or the day's opening cash for the first event.
pub open spec fn cash_before_event(initial_cash: i64, events: Seq<TradeResult>, i: int) -> int {
    if i == 0 {
        initial_cash as int
    } else {
        event_trade(events[i - 1]).after_operation_cash as int
    }
}

/// Cash is held as a signed 64-bit tick count; proceeds that would exceed the
/// representable range saturate at its top.
pub open spec fn clamp_cash(v: int) -> int {
    if v > i64::MAX as int {
        i64::MAX as int
    } else {
        v
    }
}

pub struct StrategySimulator<T, S, TP, SL, F> where
    S: InvestingStrategy<T>,
    TP: TakeProfitTrigger,
    SL: StopLossTrigger,
    F: BrokerFee,
 {
    pub strategy: S,
    pub take_profit: TP,
    pub stop_loss: SL,
    pub broker_fee: F,
    pub cash: i64,
    pub start_date: i64,
    pub last_buy_price: i64,
    pub current_position: usize,
    pub indicator_type: core::marker::PhantomData<T>,
}

impl<T, S, TP, SL, F> StrategySimulator<T, S, TP, SL, F> where
    S: InvestingStrategy<T>,
    TP: TakeProfitTrigger,
    SL: StopLossTrigger,
    F: BrokerFee,
 {
    pub open spec fn wf(&self) -> bool {
        &&& self.strategy.wf()
        &&& self.broker_fee.wf()
        &&& 0 <= self.cash
        &&& 0 <= self.last_buy_price <= PRICE_LIMIT
        &&& self.current_position as int <= 0x7fff_ffff_ffff_ffffint
    }

    pub fn new(
        invested_cash: i64,
        start_date: i64,
        strategy: S,
        take_profit: TP,
        stop_loss: SL,
        broker_fee: F,
    ) -> (r: Self)
        requires
            0 <= invested_cash,
            strategy.wf(),
            broker_fee.wf(),
        ensures
            r.wf(),
            r.strategy == strategy,
            r.take_profit == take_profit,
            r.stop_loss == stop_loss,
            r.broker_fee == broker_fee,
            r.cash == invested_cash,
            r.start_date == start_date,
            r.last_buy_price == 0,
            r.current_position == 0,
    {
        Self {
            strategy,
            take_profit,
            stop_loss,
            broker_fee,
            cash: invested_cash,
            start_date,
            last_buy_price: 0i64,
            current_position: 0usize,
            indicator_type: core::marker::PhantomData,
        }
    }

    /// The cash after selling the whole position at `price`: the proceeds less
    /// the broker fee, saturating at the top of the cash range.
    pub open spec fn sell_cash(self, price: i64) -> int {
        clamp_cash(
            self.cash + self.current_position as int * price as int
                - self.broker_fee.spec_sell_fee(self.current_position, price),
        )
    }

    /// The state after a sell at `price`: the position is closed, whatever it
    /// was, and the proceeds are added to the cash.
    pub open spec fn spec_sell(self, price: i64) -> Self {
        Self { cash: self.sell_cash(price) as i64, current_position: 0usize, ..self }
    }

    /// The full cost of buying `volume` shares at `price`: the notional value
    /// plus the broker fee.
    pub open spec fn buy_cost(fee: F, volume: int, price: i64) -> int {
        volume * price as int + fee.spec_buy_fee(volume as usize, price)
    }

    /// The volume a buy settles on: starting from `v`, the count is lowered
    /// one share at a time until its full cost fits the available cash.
    pub open spec fn spec_buy_volume(fee: F, cash: int, price: i64, v: int) -> int
        decreases v,
    {
        if Self::buy_cost(fee, v, price) <= cash {
            v
        } else if v <= 0 {
            0
        } else {
            Self::spec_buy_volume(fee, cash, price, v - 1)
        }
    }

    /// The share count a buy starts from: the fee-free affordable count,
    /// capped at the machine's share-count range.
    pub open spec fn start_volume(cash: i64, price: i64) -> int {
        let q = cash as int / price as int;
        if q > usize::MAX as int {
            usize::MAX as int
        } else {
            q
        }
    }

    /// The state after a buy at `price`: as many shares as the cash covers,
    /// fees included, starting from the fee-free affordable count.
    pub open spec fn spec_buy(self, price: i64) -> Self {
        let v = Self::spec_buy_volume(
            self.broker_fee,
            self.cash as int,
            price,
            Self::start_volume(self.cash, price),
        );
        Self {
            cash: (self.cash - Self::buy_cost(self.broker_fee, v, price)) as i64,
            current_position: v as usize,
            last_buy_price: price,
            ..self
        }
    }

    /// The three exit checks of one day, in order: sell signal, take profit,
    /// stop loss. Each runs against the position as the previous one left it,
    /// without re-testing that the position is still open.
    pub open spec fn spec_exit_checks(self, today: StockPriceInfo, ind: T) -> (Self, Seq<
        TradeResult,
    >) {
        let (s1, e1) = match self.strategy.spec_sell_signal(today, ind) {
            Some(p) => {
                let s = self.spec_sell(p);
                (s, seq![TradeResult::Sell(Trade { price: p, after_operation_cash: s.cash })])
            },
            None => (self, Seq::<TradeResult>::empty()),
        };
        let (s2, e2) = match s1.take_profit.spec_should_trigger(today, s1.last_buy_price) {
            Some(p) => {
                let s = s1.spec_sell(p);
                (
                    s,
                    e1.push(TradeResult::TakeProfit(Trade { price: p, after_operation_cash: s.cash })),
                )
            },
            None => (s1, e1),
        };
        match s2.stop_loss.spec_should_trigger(today, s2.last_buy_price) {
            Some(p) => {
                let s = s2.spec_sell(p);
                (s, e2.push(TradeResult::StopLoss(Trade { price: p, after_operation_cash: s.cash })))
            },
            None => (s2, e2),
        }
    }

    /// One full day: the indicator update always runs, trading only on or
    /// after the start date; exits are checked while long, a buy while flat.
    /// `post_strategy` is the strategy state the indicator update left behind
    /// and `ind` the indicator state it returned: the day's signals are
    /// evaluated against them.
    pub open spec fn spec_next(self, post_strategy: S, ind: T, today: StockPriceInfo) -> (
        Self,
        Seq<TradeResult>,
    ) {
        let s0 = Self { strategy: post_strategy, ..self };
        if today.date < self.start_date {
            (s0, Seq::<TradeResult>::empty())
        } else {
            let (s1, events) = if s0.current_position > 0 {
                s0.spec_exit_checks(today, ind)
            } else {
                (s0, Seq::<TradeResult>::empty())
            };
            if s1.current_position == 0 {
                match post_strategy.spec_buy_signal(today, ind) {
                    Some(p) => {
                        let s = s1.spec_buy(p);
                        (
                            s,
                            events.push(
                                TradeResult::Buy(Trade { price: p, after_operation_cash: s.cash }),
                            ),
                        )
                    },
                    None => (s1, events),
                }
            } else {
                (s1, events)
            }
        }
    }

    pub fn next_today(&mut self, today: &StockPriceInfo) -> (r: StrategyResult<T>)
        requires
            old(self).wf(),
            today.valid(),
        ensures
            final(self).wf(),
            (*final(self), r.trade_operations@) == old(self).spec_next(
                final(self).strategy,
                old(self).strategy.spec_indicator(*today, None),
                *today,
            ),
            old(self).strategy.calculation_post(final(self).strategy, *today, None),
            r.operation_date == today.date,
            r.strategy_params == old(self).strategy.spec_indicator(*today, None),
            forall|i: int|
                0 <= i < r.trade_operations@.len() ==> 0 <= event_trade(
                    #[trigger] r.trade_operations@[i],
                ).after_operation_cash,
    {
        self.next(today, &None)
    }

    pub fn next(&mut self, today: &StockPriceInfo, yesterday: &Option<StockPriceInfo>) -> (r:
        StrategyResult<T>)
        requires
            old(self).wf(),
            today.valid(),
            yesterday matches Some(y) ==> y.valid(),
        ensures
            final(self).wf(),
            (*final(self), r.trade_operations@) == old(self).spec_next(
                final(self).strategy,
                old(self).strategy.spec_indicator(*today, *yesterday),
                *today,
            ),
            old(self).strategy.calculation_post(final(self).strategy, *today, *yesterday),
            r.operation_date == today.date,
            r.strategy_params == old(self).strategy.spec_indicator(*today, *yesterday),
            // Days before the start date trade nothing and touch no money.
            today.date < old(self).start_date ==> r.trade_operations@.len() == 0
                && final(self).cash == old(self).cash && final(self).current_position == old(
                self,
            ).current_position && final(self).last_buy_price == old(self).last_buy_price,
            // Every event records the balance after itself, and the balance
            // never goes below zero.
            forall|i: int|
                0 <= i < r.trade_operations@.len() ==> 0 <= event_trade(
                    #[trigger] r.trade_operations@[i],
                ).after_operation_cash,
            // A buy can only be the day's last event, it never overdraws: the
            // cash on hand just before it covers the shares and the fee.
            forall|i: int| #![trigger r.trade_operations@[i]]
                0 <= i < r.trade_operations@.len() ==> (r.trade_operations@[i] matches
                TradeResult::Buy(t) ==> i == r.trade_operations@.len() - 1
                    && t.after_operation_cash == final(self).cash && 0 <= t.after_operation_cash
                    && t.after_operation_cash + final(self).current_position as int * t.price as int
                    <= cash_before_event(old(self).cash, r.trade_operations@, i)),
            // An exit never loses cash, and if no buy follows it the day ends flat.
            forall|i: int| #![trigger r.trade_operations@[i]]
                0 <= i < r.trade_operations@.len() ==> (!(r.trade_operations@[i] matches
                TradeResult::Buy(_)) ==> event_trade(r.trade_operations@[i]).after_operation_cash
                    >= cash_before_event(old(self).cash, r.trade_operations@, i) && (i
                    == r.trade_operations@.len() - 1 ==> final(self).current_position == 0)),
    {
        let metric_result = self.strategy.calculation(today, yesterday);
        let mut operations_performed: Vec<TradeResult> = Vec::new();
        if today.date >= self.start_date {
            if self.current_position > 0 {
                if let Some(sell_price) = self.strategy.sell_signal(today, &metric_result) {
                    self.sell_operation(sell_price);
                    operations_performed.push(
                        TradeResult::Sell(
                            Trade { price: sell_price, after_operation_cash: self.cash },
                        ),
                    );
                }
                if let Some(take_profit_price) = self.take_profit.should_trigger_take_profit(
                    today,
                    self.last_buy_price,
                ) {
                    self.sell_operation(take_profit_price);
                    operations_performed.push(
                        TradeResult::TakeProfit(
                            Trade { price: take_profit_price, after_operation_cash: self.cash },
                        ),
                    );
                }
                if let Some(stop_loss_price) = self.stop_loss.should_trigger_stop_loss(
                    today,
                    self.last_buy_price,
                ) {
                    self.sell_operation(stop_loss_price);
                    operations_performed.push(
                        TradeResult::StopLoss(
                            Trade { price: stop_loss_price, after_operation_cash: self.cash },
                        ),
                    );
                }
            }
            if self.current_position == 0 {
                if let Some(buy_price) = self.strategy.buy_signal(today, &metric_result) {
                    self.buy_operation(buy_price);
                    operations_performed.push(
                        TradeResult::Buy(Trade { price: buy_price, after_operation_cash: self.cash }),
                    );
                }
            }
        }
        StrategyResult {
            operation_date: today.date,
            strategy_params: metric_result,
            trade_operations: operations_performed,
        }
    }

    /// Close the whole position at `sell_price`. Applied to a position of
    /// zero this leaves the cash unchanged. The cash never drops: the fee
    /// never exceeds the proceeds.
    pub fn sell_operation(&mut self, sell_price: i64)
        requires
            old(self).wf(),
            0 <= sell_price <= price_cap(),
        ensures
            *final(self) == old(self).spec_sell(sell_price),
            final(self).wf(),
            final(self).current_position == 0,
            old(self).cash <= final(self).cash,
    {
        let pos = self.current_position;
        proof {
            assert(0 <= (pos as int) * (sell_price as int) <= 0x8000_0000_0000_0000int
                * price_cap()) by (nonlinear_arith)
                requires
                    0 <= (pos as int) <= 0x8000_0000_0000_0000int,
                    0 <= sell_price <= price_cap(),
            ;
        }
        let fee = self.broker_fee.sell_fee(pos, sell_price);
        let proceeds = (pos as i128) * (sell_price as i128);
        let new_cash_wide = (self.cash as i128) + proceeds - fee;
        let new_cash = if new_cash_wide > (i64::MAX as i128) {
            i64::MAX
        } else {
            new_cash_wide as i64
        };
        self.cash = new_cash;
        self.current_position = 0;
    }

    /// Open a position at `buy_price`: start from the fee-free affordable
    /// share count and lower it until the notional value plus the fee fits
    /// the cash. The cash left is never negative: a buy cannot overdraw.
    pub fn buy_operation(&mut self, buy_price: i64)
        requires
            old(self).wf(),
            1 <= buy_price <= PRICE_LIMIT,
        ensures
            *final(self) == old(self).spec_buy(buy_price),
            final(self).wf(),
            final(self).last_buy_price == buy_price,
            0 <= final(self).cash,
            final(self).cash as int + final(self).current_position as int * buy_price as int <= old(
                self,
            ).cash,
    {
        let affordable = (self.cash as u64) / (buy_price as u64);
        let initial_volume = if affordable > (usize::MAX as u64) {
            usize::MAX
        } else {
            affordable as usize
        };
        proof {
            let q = self.cash as int / buy_price as int;
            vstd::arithmetic::div_mod::lemma_fundamental_div_mod(
                self.cash as int,
                buy_price as int,
            );
            vstd::arithmetic::div_mod::lemma_mod_bound(self.cash as int, buy_price as int);
            vstd::arithmetic::div_mod::lemma_div_pos_is_pos(self.cash as int, buy_price as int);
            assert((initial_volume as int) * (buy_price as int) <= self.cash) by {
                vstd::arithmetic::mul::lemma_mul_inequality(
                    initial_volume as int,
                    q,
                    buy_price as int,
                );
                vstd::arithmetic::mul::lemma_mul_is_commutative(buy_price as int, q);
            }
        }
        let mut volume = initial_volume;
        let mut fee = self.broker_fee.buy_fee(volume, buy_price);
        let mut operation_price: i128 = (volume as i128) * (buy_price as i128);
        let mut operation_price_with_fee: i128 = operation_price + fee;
        while (self.cash as i128) < operation_price_with_fee
            invariant
                self.wf(),
                *self == *old(self),
                1 <= buy_price <= PRICE_LIMIT,
                0 <= volume <= initial_volume,
                (volume as int) * (buy_price as int) <= self.cash,
                operation_price == (volume as int) * (buy_price as int),
                fee as int == self.broker_fee.spec_buy_fee(volume, buy_price),
                0 <= fee as int <= (volume as int) * (buy_price as int),
                operation_price_with_fee == Self::buy_cost(self.broker_fee, volume as int, buy_price),
                Self::spec_buy_volume(
                    self.broker_fee,
                    self.cash as int,
                    buy_price,
                    initial_volume as int,
                ) == Self::spec_buy_volume(
                    self.broker_fee,
                    self.cash as int,
                    buy_price,
                    volume as int,
                ),
            decreases volume,
        {
            proof {
                if volume == 0 {
                    assert((volume as int) * (buy_price as int) == 0) by (nonlinear_arith)
                        requires
                            volume as int == 0,
                    ;
                    assert(operation_price_with_fee <= 0);
                    assert(false);
                }
                assert(((volume - 1) as int) * (buy_price as int) == (volume as int) * (
                buy_price as int) - buy_price as int) by {
                    vstd::arithmetic::mul::lemma_mul_is_distributive_sub_other_way(
                        buy_price as int,
                        volume as int,
                        1,
                    );
                }
            }
            volume = volume - 1;
            fee = self.broker_fee.buy_fee(volume, buy_price);
            operation_price = (volume as i128) * (buy_price as i128);
            operation_price_with_fee = operation_price + fee;
        }
        self.current_position = volume;
        self.cash = self.cash - (operation_price_with_fee as i64);
        self.last_buy_price = buy_price;
    }
}

} // verus!
