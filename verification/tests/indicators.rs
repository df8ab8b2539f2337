use backtester::technical_indicator::atr::Atr;
use backtester::technical_indicator::ema::Ema;
use backtester::technical_indicator::keltner_channel::KeltnerChannel;
use backtester::technical_indicator::macd::Macd;
use backtester::technical_indicator::percent_off_ath::PercentOffAth;
use backtester::technical_indicator::rsi::Rsi;
use backtester::utils::rolling_window::RollingWindow;

#[test]
fn ema_first_two_outputs() {
    // length 9 gives the smoothing factor 2/10; fed 0 then 10 the outputs are
    // exactly 0 and 2.
    let mut ema = Ema::new(9);
    assert_eq!(ema.next(0), 0);
    assert_eq!(ema.next(10), 2);
}

#[test]
fn ema_constant_stream_is_fixed_point_once_reached() {
    // With length 1 the average equals the last price immediately, and a
    // constant stream keeps it there.
    let mut ema = Ema::new(1);
    assert_eq!(ema.next(100), 100);
    for _ in 0..10 {
        assert_eq!(ema.next(100), 100);
    }
}

#[test]
fn ema_constant_stream_moves_toward_price_without_overshoot() {
    let mut ema = Ema::new(3);
    let mut previous = 0i64;
    for _ in 0..100 {
        let next = ema.next(100);
        assert!(previous <= next && next <= 100);
        previous = next;
    }
    // After many steps the state has climbed essentially to the price.
    assert!(previous >= 99);
}

#[test]
fn atr_first_true_range() {
    let mut atr = Atr::new(1);
    // Spans: 10 - 5 = 5, 10 - 7 = 3, 7 - 5 = 2; the widest is 5, and with
    // length 1 the EMA takes it whole.
    assert_eq!(atr.next(10, 5, 7), 5);
    assert_eq!(atr.current(), 5);
}

#[test]
fn keltner_bands_are_symmetric() {
    let mut kc = KeltnerChannel::new(3, 250);
    let closes = [100i64, 140, 90, 130, 120];
    for (i, &close) in closes.iter().enumerate() {
        let prev = if i == 0 { 0 } else { closes[i - 1] };
        let r = kc.next(close, close + 10, close - 10, prev);
        assert_eq!(r.upper_band - r.ema, r.ema - r.lower_band);
        let c = kc.current();
        assert_eq!(c.upper_band - c.ema, c.ema - c.lower_band);
    }
}

#[test]
fn keltner_current_matches_next_output() {
    let mut kc = KeltnerChannel::new(5, 300);
    let r = kc.next(100, 110, 95, 0);
    let c = kc.current();
    assert_eq!(r.ema, c.ema);
    assert_eq!(r.upper_band, c.upper_band);
    assert_eq!(r.lower_band, c.lower_band);
}

#[test]
fn macd_equal_periods_zero_line() {
    let mut macd = Macd::new(7, 7, 3);
    for price in [100i64, 250, 80, 300, 120, 500] {
        let r = macd.next(price);
        assert_eq!(r.macd_line, 0);
        assert_eq!(r.signal_line, 0);
    }
}

#[test]
fn macd_default_periods_first_step() {
    // First price p gives fast = 2p/13 and slow = 2p/27, floored.
    let mut macd = Macd::default();
    let r = macd.next(1000);
    let fast = 2 * 1000 / 13;
    let slow = 2 * 1000 / 27;
    assert_eq!(r.macd_line, fast - slow);
    // Signal EMA of the line with length 9: 2 * line / 10.
    assert_eq!(r.signal_line, 2 * (fast - slow) / 10);
}

#[test]
fn rsi_all_gains_is_one_hundred() {
    let mut rsi = Rsi::new(2);
    rsi.next(10);
    let r = rsi.next(20);
    assert_eq!(r.rsi_line, Some(10000));
}

#[test]
fn rsi_all_losses_is_zero() {
    let mut rsi = Rsi::new(2);
    rsi.next(10);
    let r = rsi.next(5);
    assert_eq!(r.rsi_line, Some(0));
}

#[test]
fn rsi_cancelling_moves_have_no_finite_value() {
    let mut rsi = Rsi::new(2);
    rsi.next(10);
    rsi.next(20);
    let r = rsi.next(10);
    assert_eq!(r.rsi_line, None);
}

#[test]
fn rsi_single_price_has_no_finite_value() {
    let mut rsi = Rsi::new(2);
    let r = rsi.next(10);
    assert_eq!(r.rsi_line, None);
}

#[test]
fn rsi_window_drops_oldest_price() {
    // Capacity is length + 1 = 2, so the third price evicts the first: the
    // remaining window [20, 15] is all losses.
    let mut rsi = Rsi::new(1);
    rsi.next(10);
    rsi.next(20);
    let r = rsi.next(15);
    assert_eq!(r.rsi_line, Some(0));
}

#[test]
fn percent_off_ath_tracks_running_high() {
    let mut p = PercentOffAth::new();
    assert_eq!(p.next(100), 0);
    assert_eq!(p.next(50), 5000);
    assert_eq!(p.next(200), 0);
    assert_eq!(p.next(150), 2500);
}

#[test]
fn rolling_window_drops_oldest() {
    let mut w: RollingWindow<i64> = RollingWindow::new(3);
    w.add(1);
    w.add(2);
    w.add(3);
    assert_eq!(w.as_slice(), &[1, 2, 3]);
    w.add(4);
    assert_eq!(w.as_slice(), &[2, 3, 4]);
    assert_eq!(w.get(0), Some(&2));
    assert_eq!(w.get(2), Some(&4));
    assert_eq!(w.get(3), None);
}
