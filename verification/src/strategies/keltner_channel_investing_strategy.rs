//! Mean reversion on the Keltner channel: buy when the close dips below the
//! lower band, sell at the upper band once the day's high reaches it.

use vstd::prelude::*;

use crate::stock_data::StockPriceInfo;
use crate::strategy_simulator::InvestingStrategy;
use crate::technical_indicator::atr::true_range;
use crate::technical_indicator::ema::ema_next;
use crate::technical_indicator::keltner_channel::{
    band_width, lemma_band_width_bounds, KeltnerChannel, KeltnerChannelResult,
};
use crate::{price_cap, PRICE_LIMIT};

verus! {

#[derive(Clone, Copy, PartialEq, Eq, Structural, Debug)]
pub struct KeltnerChannelStrategyResult {
    pub yesterday: KeltnerChannelResult,
    pub today: KeltnerChannelResult,
}

/// The close a bar stream supplies for "yesterday": zero before the first bar.
pub open spec fn yesterday_close(yesterday: Option<StockPriceInfo>) -> i64 {
    match yesterday {
        Some(y) => y.close,
        None => 0i64,
    }
}

/// The channel values one bar produces, before and after the update.
pub open spec fn keltner_indicator(kc: KeltnerChannel, today: StockPriceInfo, prev_close: i64)
    -> KeltnerChannelStrategyResult {
    let new_ema = ema_next(kc.ema.current_ema as int, today.close as int, kc.ema.length as int);
    let new_atr = ema_next(
        kc.atr.current_atr(),
        true_range(today.high as int, today.low as int, prev_close as int),
        kc.atr.atr_ema.length as int,
    );
    let width = band_width(kc.channel_size as int, new_atr);
    KeltnerChannelStrategyResult {
        yesterday: kc.spec_current(),
        today: KeltnerChannelResult {
            ema: new_ema as i64,
            upper_band: (new_ema + width) as i64,
            lower_band: (new_ema - width) as i64,
        },
    }
}

/// Channel values the signal checks can take: bands within the engine's price
/// cap, the upper one never below zero.
pub open spec fn channel_result_wf(r: KeltnerChannelResult) -> bool {
    &&& 0 <= r.ema <= PRICE_LIMIT
    &&& 0 <= r.upper_band <= price_cap()
    &&& -price_cap() <= r.lower_band <= price_cap()
}

impl InvestingStrategy<KeltnerChannelStrategyResult> for KeltnerChannel {
    open spec fn wf(&self) -> bool {
        KeltnerChannel::wf(self)
    }

    open spec fn indicator_wf(&self, indicator: KeltnerChannelStrategyResult) -> bool {
        &&& channel_result_wf(indicator.yesterday)
        &&& channel_result_wf(indicator.today)
    }

    open spec fn spec_indicator(&self, today: StockPriceInfo, yesterday: Option<StockPriceInfo>)
        -> KeltnerChannelStrategyResult {
        keltner_indicator(*self, today, yesterday_close(yesterday))
    }

    open spec fn calculation_post(&self, post: Self, today: StockPriceInfo, yesterday: Option<
        StockPriceInfo,
    >) -> bool {
        post == self.spec_step(today.close, today.high, today.low, yesterday_close(yesterday))
    }

    open spec fn spec_buy_signal(
        &self,
        today: StockPriceInfo,
        indicator: KeltnerChannelStrategyResult,
    ) -> Option<i64> {
        if indicator.today.lower_band - today.close > 0 {
            Some(today.close)
        } else {
            None
        }
    }

    open spec fn spec_sell_signal(
        &self,
        today: StockPriceInfo,
        indicator: KeltnerChannelStrategyResult,
    ) -> Option<i64> {
        if indicator.today.upper_band <= today.high {
            Some(indicator.today.upper_band)
        } else {
            None
        }
    }

    fn calculation(&mut self, stock_price_info: &StockPriceInfo, yesterday: &Option<
        StockPriceInfo,
    >) -> (r: KeltnerChannelStrategyResult)
        ensures
            final(self).wf(),
            r == old(self).spec_indicator(*stock_price_info, *yesterday),
            old(self).calculation_post(*final(self), *stock_price_info, *yesterday),
            final(self).indicator_wf(r),
    {
        let yesterday_result = self.current();
        let prev_close = match yesterday {
            Some(y) => y.close,
            None => 0i64,
        };
        let today_result = self.next(
            stock_price_info.close,
            stock_price_info.high,
            stock_price_info.low,
            prev_close,
        );
        proof {
            lemma_band_width_bounds(old(self).channel_size as int, old(self).atr.current_atr());
            lemma_band_width_bounds(self.channel_size as int, self.atr.current_atr());
        }
        KeltnerChannelStrategyResult { yesterday: yesterday_result, today: today_result }
    }

    fn buy_signal(&self, stock_price_info: &StockPriceInfo, indicator: &KeltnerChannelStrategyResult)
        -> (r: Option<i64>)
        ensures
            r == self.spec_buy_signal(*stock_price_info, *indicator),
            r matches Some(p) ==> 1 <= p <= PRICE_LIMIT,
    {
        let keltner_buy = indicator.today.lower_band - stock_price_info.close;
        let signal = keltner_buy;
        if signal > 0 {
            Some(stock_price_info.close)
        } else {
            None
        }
    }

    fn sell_signal(&self, stock_price_info: &StockPriceInfo, indicator: &KeltnerChannelStrategyResult)
        -> (r: Option<i64>)
        ensures
            r == self.spec_sell_signal(*stock_price_info, *indicator),
            r matches Some(p) ==> 0 <= p <= price_cap(),
    {
        if indicator.today.upper_band <= stock_price_info.high {
            Some(indicator.today.upper_band)
        } else {
            None
        }
    }
}

} // verus!
