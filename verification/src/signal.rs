use vstd::prelude::*;
use crate::model::{Trend, trend_code};

verus! {

/// The direction a candle proposes inside the cradle, before the trend of
/// the zigzag is asked: `ema_trend` is up when the 10-bar EMA lies above the
/// 20-bar EMA and down when below; `overlap` tells whether the candle reaches
/// into the band between the two EMAs; `small` is the candle's size class
/// (1 small, 0 small but with a wide stop, -1 large); `bull_bear` is 1 for a
/// bull candle, -1 for a bear candle, 0 otherwise.
pub open spec fn spec_cradle_tag(ema_trend: Trend, overlap: bool, small: i32, bull_bear: i32) -> int {
    match ema_trend {
        Trend::TrendUp => if overlap && (small == 1 || small == 0) && bull_bear == 1 { 1 } else { 0 },
        Trend::TrendDown => if overlap && (small == 1 || small == 0) && bull_bear == -1 { -1 } else { 0 },
        Trend::TrendNo => 0,
    }
}

/// The cradle direction of a candle: 1 to buy, -1 to sell, 0 for none.
pub fn cradle_tag(ema_trend: Trend, overlap: bool, small: i32, bull_bear: i32) -> (tag: i32)
    ensures
        tag == spec_cradle_tag(ema_trend, overlap, small, bull_bear),
        -1 <= tag <= 1,
        tag != 0 ==> tag == trend_code(ema_trend),
        tag != 0 <==> (ema_trend != Trend::TrendNo && overlap && (small == 0 || small == 1)
            && bull_bear == trend_code(ema_trend)),
{
    let small_enough = small == 1 || small == 0;
    match ema_trend {
        Trend::TrendUp => {
            if overlap && small_enough && bull_bear == 1 {
                1
            } else {
                0
            }
        },
        Trend::TrendDown => {
            if overlap && small_enough && bull_bear == -1 {
                -1
            } else {
                0
            }
        },
        Trend::TrendNo => 0,
    }
}

/// The entry signal: a cradle direction stands only when the zigzag trend
/// points the same way.
pub open spec fn spec_cradle_signal(tag: i32, trend: Trend) -> int {
    if tag == 1 && trend == Trend::TrendUp {
        1
    } else if tag == -1 && trend == Trend::TrendDown {
        -1
    } else {
        0
    }
}

/// The entry signal of a candle from its cradle direction and the zigzag
/// trend: 1 to buy, -1 to sell, 0 for no order.
pub fn cradle_signal(tag: i32, trend: Trend) -> (signal: i32)
    ensures
        signal == spec_cradle_signal(tag, trend),
        signal == 0 || signal == tag,
        signal != 0 <==> (tag != 0 && tag == trend_code(trend)),
{
    match trend {
        Trend::TrendUp => {
            if tag == 1 {
                1
            } else {
                0
            }
        },
        Trend::TrendDown => {
            if tag == -1 {
                -1
            } else {
                0
            }
        },
        Trend::TrendNo => 0,
    }
}

/// A candle proposes a direction exactly when it meets every cradle
/// condition: the EMAs are apart, the candle reaches into the band between
/// them, it is not large (size class 0 or 1), and it is a bull candle under a
/// rising pair or a bear candle under a falling one; the direction is then
/// that of the EMAs, and 0 otherwise.
pub proof fn lemma_cradle_tag_rules(ema_trend: Trend, overlap: bool, small: i32, bull_bear: i32)
    ensures
        ({
            let tag = spec_cradle_tag(ema_trend, overlap, small, bull_bear);
            let all = ema_trend != Trend::TrendNo && overlap && (small == 0 || small == 1)
                && bull_bear == trend_code(ema_trend);
            &&& all ==> tag == trend_code(ema_trend)
            &&& !all ==> tag == 0
        }),
{
}

/// A candle gives an order only when every step of the cradle agrees: the
/// EMAs, the candle's direction and the zigzag trend all point the same way,
/// the candle reaches into the band between the EMAs, and it is not large.
pub proof fn lemma_cradle_signal_agrees(ema_trend: Trend, overlap: bool, small: i32, bull_bear: i32, trend: Trend)
    ensures
        ({
            let tag = spec_cradle_tag(ema_trend, overlap, small, bull_bear);
            spec_cradle_signal(tag as i32, trend) != 0 ==> {
                &&& ema_trend == trend
                &&& trend != Trend::TrendNo
                &&& overlap
                &&& small == 0 || small == 1
                &&& bull_bear == trend_code(trend)
                &&& spec_cradle_signal(tag as i32, trend) == trend_code(trend)
            }
        }),
{
}

} // verus!
