//! Conservative AND-composition of two strategies: both must agree before a
//! trade fires. The indicator state is the pair of sub-states; a joint buy
//! takes the higher of the two candidate prices, a joint sell the lower.

use vstd::prelude::*;

use crate::stock_data::StockPriceInfo;
use crate::strategy_simulator::InvestingStrategy;
use crate::{price_cap, PRICE_LIMIT};

verus! {

pub struct ChainedInvestingStrategy<T1, T2, S1, S2> where
    S1: InvestingStrategy<T1>,
    S2: InvestingStrategy<T2>,
 {
    pub strategy1: S1,
    pub strategy2: S2,
    pub indicator_type1: core::marker::PhantomData<T1>,
    pub indicator_type2: core::marker::PhantomData<T2>,
}

impl<T1, T2, S1, S2> ChainedInvestingStrategy<T1, T2, S1, S2> where
    S1: InvestingStrategy<T1>,
    S2: InvestingStrategy<T2>,
 {
    pub fn new(strategy1: S1, strategy2: S2) -> (r: Self)
        ensures
            r.strategy1 == strategy1,
            r.strategy2 == strategy2,
    {
        ChainedInvestingStrategy {
            strategy1,
            strategy2,
            indicator_type1: core::marker::PhantomData,
            indicator_type2: core::marker::PhantomData,
        }
    }
}

impl<T1, T2, S1, S2> InvestingStrategy<(T1, T2)> for ChainedInvestingStrategy<T1, T2, S1, S2> where
    S1: InvestingStrategy<T1>,
    S2: InvestingStrategy<T2>,
 {
    open spec fn wf(&self) -> bool {
        &&& self.strategy1.wf()
        &&& self.strategy2.wf()
    }

    open spec fn indicator_wf(&self, indicator: (T1, T2)) -> bool {
        &&& self.strategy1.indicator_wf(indicator.0)
        &&& self.strategy2.indicator_wf(indicator.1)
    }

    open spec fn spec_indicator(&self, today: StockPriceInfo, yesterday: Option<StockPriceInfo>)
        -> (T1, T2) {
        (
            self.strategy1.spec_indicator(today, yesterday),
            self.strategy2.spec_indicator(today, yesterday),
        )
    }

    open spec fn calculation_post(&self, post: Self, today: StockPriceInfo, yesterday: Option<
        StockPriceInfo,
    >) -> bool {
        &&& self.strategy1.calculation_post(post.strategy1, today, yesterday)
        &&& self.strategy2.calculation_post(post.strategy2, today, yesterday)
        &&& post.indicator_type1 == self.indicator_type1
        &&& post.indicator_type2 == self.indicator_type2
    }

    open spec fn spec_buy_signal(&self, today: StockPriceInfo, indicator: (T1, T2)) -> Option<
        i64,
    > {
        match (
            self.strategy1.spec_buy_signal(today, indicator.0),
            self.strategy2.spec_buy_signal(today, indicator.1),
        ) {
            (Some(price1), Some(price2)) => Some(
                if price1 >= price2 {
                    price1
                } else {
                    price2
                },
            ),
            _ => None,
        }
    }

    open spec fn spec_sell_signal(&self, today: StockPriceInfo, indicator: (T1, T2)) -> Option<
        i64,
    > {
        match (
            self.strategy1.spec_sell_signal(today, indicator.0),
            self.strategy2.spec_sell_signal(today, indicator.1),
        ) {
            (Some(price1), Some(price2)) => Some(
                if price1 <= price2 {
                    price1
                } else {
                    price2
                },
            ),
            _ => None,
        }
    }

    fn calculation(&mut self, stock_price_info: &StockPriceInfo, yesterday: &Option<
        StockPriceInfo,
    >) -> (r: (T1, T2))
        ensures
            final(self).wf(),
            r == old(self).spec_indicator(*stock_price_info, *yesterday),
            old(self).calculation_post(*final(self), *stock_price_info, *yesterday),
            final(self).indicator_wf(r),
    {
        (
            self.strategy1.calculation(stock_price_info, yesterday),
            self.strategy2.calculation(stock_price_info, yesterday),
        )
    }

    fn buy_signal(&self, stock_price_info: &StockPriceInfo, indicator: &(T1, T2)) -> (r: Option<
        i64,
    >)
        ensures
            r == self.spec_buy_signal(*stock_price_info, *indicator),
            r matches Some(p) ==> 1 <= p <= PRICE_LIMIT,
    {
        let signal1 = self.strategy1.buy_signal(stock_price_info, &indicator.0);
        let signal2 = self.strategy2.buy_signal(stock_price_info, &indicator.1);
        match (signal1, signal2) {
            (Some(price1), Some(price2)) => Some(
                if price1 >= price2 {
                    price1
                } else {
                    price2
                },
            ),
            _ => None,
        }
    }

    fn sell_signal(&self, stock_price_info: &StockPriceInfo, indicator: &(T1, T2)) -> (r: Option<
        i64,
    >)
        ensures
            r == self.spec_sell_signal(*stock_price_info, *indicator),
            r matches Some(p) ==> 0 <= p <= price_cap(),
    {
        let signal1 = self.strategy1.sell_signal(stock_price_info, &indicator.0);
        let signal2 = self.strategy2.sell_signal(stock_price_info, &indicator.1);
        match (signal1, signal2) {
            (Some(price1), Some(price2)) => Some(
                if price1 <= price2 {
                    price1
                } else {
                    price2
                },
            ),
            _ => None,
        }
    }
}

} // verus!
