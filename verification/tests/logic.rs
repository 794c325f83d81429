use tradebot::common::CustomError;
use tradebot::ema::ema_field_name;
use tradebot::interval::next_interval;
use tradebot::model::{MacdVergence, SwingStatus, Trend};
use tradebot::order::{
    hold_step, order_side, stop_pivot_tag, trail_pivot_tag, HoldAction, STATUS_CLOSED, STATUS_HALF_TAKEN,
    STATUS_OPEN, STATUS_STOPPED,
};
use tradebot::pivot::{zigzag_start_index, zigzag_step, PivotKind, Seek, ZigzagStep};
use tradebot::signal::{cradle_signal, cradle_tag};
use tradebot::text::same_text;
use tradebot::window::{bar_window, BarWindowError};

#[test]
fn next_interval_follows_the_ladder() {
    assert_eq!(next_interval("5m"), "15m");
    assert_eq!(next_interval("15m"), "30m");
    assert_eq!(next_interval("30m"), "1h");
    assert_eq!(next_interval("1h"), "2h");
    assert_eq!(next_interval("2h"), "4h");
    assert_eq!(next_interval("4h"), "1d");
    assert_eq!(next_interval("8h"), "1d");
    assert_eq!(next_interval("1d"), "1d");
    assert_eq!(next_interval("3d"), "1w");
}

#[test]
fn next_interval_of_unknown_text_is_empty() {
    assert_eq!(next_interval("1w"), "");
    assert_eq!(next_interval(""), "");
    assert_eq!(next_interval("5M"), "");
    assert_eq!(next_interval("4h "), "");
}

#[test]
fn same_text_compares_characters() {
    assert!(same_text("BUY", "BUY"));
    assert!(!same_text("BUY", "BU"));
    assert!(!same_text("BUY", "SELL"));
    assert!(same_text("", ""));
    assert!(same_text("日本", "日本"));
}

#[test]
fn swing_status_reads_back_its_code() {
    for s in [SwingStatus::Watching, SwingStatus::WaitingBackFvg, SwingStatus::Closed] {
        assert_eq!(SwingStatus::try_from(s.value()), Ok(s));
    }
    assert_eq!(SwingStatus::Watching.value(), 0);
    assert_eq!(SwingStatus::WaitingBackFvg.value(), 1);
    assert_eq!(SwingStatus::Closed.value(), 2);
}

#[test]
fn swing_status_rejects_other_codes() {
    assert_eq!(SwingStatus::try_from(-1), Err(()));
    assert_eq!(SwingStatus::try_from(3), Err(()));
    assert_eq!(SwingStatus::try_from(i32::MAX), Err(()));
}

#[test]
fn trend_codes() {
    assert_eq!(Trend::TrendDown.value(), -1);
    assert_eq!(Trend::TrendNo.value(), 0);
    assert_eq!(Trend::TrendUp.value(), 1);
    assert_ne!(MacdVergence::Convergence, MacdVergence::Divergence);
}

#[test]
fn custom_error_shows_its_message() {
    let e = CustomError::new("vec is empty");
    assert_eq!(e.to_string(), "vec is empty");
    assert_eq!(e.0, "vec is empty");
}

#[test]
fn ema_field_names() {
    assert_eq!(ema_field_name(10).unwrap(), "ema10");
    assert_eq!(ema_field_name(20).unwrap(), "ema20");
    let e = ema_field_name(12).unwrap_err();
    assert_eq!(e.to_string(), "error: range must equal 10 or 20");
    assert!(ema_field_name(0).is_err());
}

#[test]
fn bar_window_accepts_runs_inside_the_series() {
    assert_eq!(bar_window(20, 8, 12), Ok(20));
    assert_eq!(bar_window(20, 0, 12), Ok(12));
    assert_eq!(bar_window(1, 0, 1), Ok(1));
    assert_eq!(bar_window(5, 4, 0), Ok(4));
}

#[test]
fn bar_window_rejects_a_start_past_the_end() {
    assert_eq!(bar_window(20, 20, 1), Err(BarWindowError::StartOutOfRange { start: 20, len: 20 }));
    assert_eq!(bar_window(0, 0, 0), Err(BarWindowError::StartOutOfRange { start: 0, len: 0 }));
}

#[test]
fn bar_window_rejects_a_run_too_long() {
    assert_eq!(bar_window(20, 9, 12), Err(BarWindowError::LengthOutOfRange { length: 12, available: 11 }));
}

#[test]
fn first_zigzag_pass_starts_after_depth_bars() {
    assert_eq!(zigzag_start_index(0, 12, &vec![]), 11);
    assert_eq!(zigzag_start_index(0, 1, &vec![true, false]), 0);
}

#[test]
fn later_zigzag_pass_steps_back_three_pivots() {
    let mut pivots = vec![false; 150];
    pivots[140] = true;
    pivots[130] = true;
    pivots[120] = true;
    pivots[110] = true;
    assert_eq!(zigzag_start_index(4, 12, &pivots), 120);
}

#[test]
fn later_zigzag_pass_looks_back_at_most_a_hundred_bars() {
    let mut pivots = vec![false; 150];
    pivots[149] = true;
    pivots[10] = true;
    assert_eq!(zigzag_start_index(2, 12, &pivots), 50);
    let none = vec![false; 101];
    assert_eq!(zigzag_start_index(1, 12, &none), 1);
    let mut third_on_edge = vec![false; 120];
    third_on_edge[119] = true;
    third_on_edge[50] = true;
    third_on_edge[20] = true;
    assert_eq!(zigzag_start_index(3, 12, &third_on_edge), 20);
}

#[test]
fn later_zigzag_pass_with_recent_pivots() {
    let pivots = vec![true; 200];
    assert_eq!(zigzag_start_index(200, 12, &pivots), 197);
}

fn step(seek: Seek, fresh: bool, h: bool, l: bool, ll: bool, hh: bool) -> ZigzagStep {
    zigzag_step(seek, fresh, h, l, ll, hh)
}

#[test]
fn zigzag_starts_with_the_first_pivot() {
    let s = step(Seek::Any, true, true, false, false, false);
    assert_eq!(s, ZigzagStep { drop_low: false, drop_high: false, keep_high: true, keep_low: false, next: Seek::Low });
    let s = step(Seek::Any, true, false, true, false, false);
    assert_eq!(s.next, Seek::High);
    assert!(s.keep_low && !s.keep_high);
    let s = step(Seek::Any, true, true, true, false, false);
    assert!(s.keep_high && s.keep_low);
    assert_eq!(s.next, Seek::High);
    let s = step(Seek::Any, true, false, false, false, false);
    assert_eq!(s.next, Seek::Any);
    let s = step(Seek::Any, false, true, true, false, false);
    assert_eq!(s, ZigzagStep { drop_low: false, drop_high: false, keep_high: false, keep_low: false, next: Seek::Any });
}

#[test]
fn zigzag_replaces_a_low_by_a_lower_low() {
    let s = step(Seek::High, false, false, true, true, false);
    assert_eq!(s, ZigzagStep { drop_low: true, drop_high: false, keep_high: false, keep_low: true, next: Seek::High });
    let s = step(Seek::High, false, false, true, false, false);
    assert_eq!(s, ZigzagStep { drop_low: false, drop_high: false, keep_high: false, keep_low: false, next: Seek::High });
}

#[test]
fn zigzag_turns_at_a_high_when_seeking_one() {
    let s = step(Seek::High, false, true, false, false, false);
    assert_eq!(s, ZigzagStep { drop_low: false, drop_high: false, keep_high: true, keep_low: false, next: Seek::Low });
    // a bar that is both a high and a low does not turn the line
    let s = step(Seek::High, false, true, true, false, true);
    assert_eq!(s.next, Seek::High);
    assert!(!s.keep_high);
}

#[test]
fn zigzag_mirrors_when_seeking_a_low() {
    let s = step(Seek::Low, false, true, false, false, true);
    assert_eq!(s, ZigzagStep { drop_low: false, drop_high: true, keep_high: true, keep_low: false, next: Seek::Low });
    let s = step(Seek::Low, false, false, true, false, false);
    assert_eq!(s, ZigzagStep { drop_low: false, drop_high: false, keep_high: false, keep_low: true, next: Seek::High });
}

#[test]
fn zigzag_line_alternates_over_a_pass() {
    // kept kinds, oldest first, as the caller keeps them
    let bars = [
        (true, false, false, false),
        (true, false, false, true),
        (false, true, false, false),
        (false, true, true, false),
        (true, true, false, false),
        (true, false, false, false),
        (false, true, false, false),
    ];
    let mut seek = Seek::Any;
    let mut line: Vec<PivotKind> = Vec::new();
    for (h, l, ll, hh) in bars {
        let s = step(seek, line.is_empty(), h, l, ll, hh);
        if s.drop_low || s.drop_high {
            line.pop();
        }
        if s.keep_low {
            line.push(PivotKind::Low);
        } else if s.keep_high {
            line.push(PivotKind::High);
        }
        seek = s.next;
    }
    assert_eq!(line, vec![PivotKind::High, PivotKind::Low, PivotKind::High, PivotKind::Low]);
    for w in line.windows(2) {
        assert_ne!(w[0], w[1]);
    }
    assert_eq!(seek, Seek::High);
}

#[test]
fn cradle_tag_needs_every_condition() {
    assert_eq!(cradle_tag(Trend::TrendUp, true, 1, 1), 1);
    assert_eq!(cradle_tag(Trend::TrendUp, true, 0, 1), 1);
    assert_eq!(cradle_tag(Trend::TrendUp, true, -1, 1), 0);
    assert_eq!(cradle_tag(Trend::TrendUp, false, 1, 1), 0);
    assert_eq!(cradle_tag(Trend::TrendUp, true, 1, -1), 0);
    assert_eq!(cradle_tag(Trend::TrendDown, true, 1, -1), -1);
    assert_eq!(cradle_tag(Trend::TrendDown, true, 0, 0), 0);
    assert_eq!(cradle_tag(Trend::TrendNo, true, 1, 1), 0);
}

#[test]
fn cradle_signal_needs_the_trend() {
    assert_eq!(cradle_signal(1, Trend::TrendUp), 1);
    assert_eq!(cradle_signal(-1, Trend::TrendDown), -1);
    assert_eq!(cradle_signal(1, Trend::TrendDown), 0);
    assert_eq!(cradle_signal(-1, Trend::TrendUp), 0);
    assert_eq!(cradle_signal(1, Trend::TrendNo), 0);
    assert_eq!(cradle_signal(0, Trend::TrendUp), 0);
}

#[test]
fn open_orders_stop_out_before_target() {
    assert_eq!(hold_step(STATUS_OPEN, true, true, false), HoldAction::StopOut);
    assert_eq!(hold_step(STATUS_OPEN, false, true, false), HoldAction::TakeHalf);
    assert_eq!(hold_step(STATUS_OPEN, false, false, true), HoldAction::Keep);
}

#[test]
fn half_taken_orders_trail_or_close() {
    assert_eq!(hold_step(STATUS_HALF_TAKEN, true, true, true), HoldAction::TakeRest);
    assert_eq!(hold_step(STATUS_HALF_TAKEN, true, true, false), HoldAction::Trail);
}

#[test]
fn closed_orders_are_left_alone() {
    for st in [STATUS_STOPPED, STATUS_CLOSED, 7, -5] {
        assert_eq!(hold_step(st, true, true, true), HoldAction::Keep);
    }
}

#[test]
fn hold_actions_write_statuses() {
    assert_eq!(HoldAction::StopOut.new_status(), Some(-1));
    assert_eq!(HoldAction::TakeHalf.new_status(), Some(1));
    assert_eq!(HoldAction::TakeRest.new_status(), Some(2));
    assert_eq!(HoldAction::Trail.new_status(), None);
    assert_eq!(HoldAction::Keep.new_status(), None);
}

#[test]
fn sides_and_their_pivots() {
    assert_eq!(order_side(1), "BUY");
    assert_eq!(order_side(-1), "SELL");
    assert_eq!(trail_pivot_tag("BUY"), 1);
    assert_eq!(trail_pivot_tag("SELL"), -1);
    assert_eq!(trail_pivot_tag("buy"), -1);
    assert_eq!(stop_pivot_tag("BUY"), Some(-1));
    assert_eq!(stop_pivot_tag("SELL"), Some(1));
    assert_eq!(stop_pivot_tag("HOLD"), None);
}
