use vstd::prelude::*;
use crate::text::same_text;

verus! {

/// Order status codes as they are stored: closed at a loss.
pub const STATUS_STOPPED: i32 = -1;
/// A new order, fully open.
pub const STATUS_OPEN: i32 = 0;
/// Half the position taken at the first target; the rest rides on a
/// trailing stop and can no longer lose.
pub const STATUS_HALF_TAKEN: i32 = 1;
/// Closed in profit.
pub const STATUS_CLOSED: i32 = 2;

/// What one candle does to an order that is being held.
#[derive(Debug, Clone, Copy, PartialEq, Eq, Structural)]
pub enum HoldAction {
    /// Nothing is written.
    Keep,
    /// The stop loss was crossed: close at a loss.
    StopOut,
    /// The first target was crossed: take half and set the trailing stop
    /// from the latest zigzag pivot.
    TakeHalf,
    /// The trailing stop was crossed: close in profit.
    TakeRest,
    /// Still riding: move the trailing stop to the latest zigzag pivot when
    /// that is better.
    Trail,
}

/// The step an order takes on a candle, given its status code and whether
/// the candle's range strictly contains the stop loss (`stop_hit`), the
/// first target (`target_hit`) and the trailing stop (`trail_hit`).
pub open spec fn spec_hold_step(status: i32, stop_hit: bool, target_hit: bool, trail_hit: bool) -> HoldAction {
    if status == STATUS_OPEN {
        if stop_hit {
            HoldAction::StopOut
        } else if target_hit {
            HoldAction::TakeHalf
        } else {
            HoldAction::Keep
        }
    } else if status == STATUS_HALF_TAKEN {
        if trail_hit {
            HoldAction::TakeRest
        } else {
            HoldAction::Trail
        }
    } else {
        HoldAction::Keep
    }
}

/// The status code an order has after a step.
pub open spec fn spec_status_after(status: i32, action: HoldAction) -> i32 {
    match action {
        HoldAction::StopOut => STATUS_STOPPED,
        HoldAction::TakeHalf => STATUS_HALF_TAKEN,
        HoldAction::TakeRest => STATUS_CLOSED,
        _ => status,
    }
}

/// Decides what a candle does to a held order.
pub fn hold_step(status: i32, stop_hit: bool, target_hit: bool, trail_hit: bool) -> (action: HoldAction)
    ensures
        action == spec_hold_step(status, stop_hit, target_hit, trail_hit),
        status == STATUS_OPEN ==> (action == HoldAction::StopOut <==> stop_hit),
        status == STATUS_OPEN ==> (action == HoldAction::TakeHalf <==> !stop_hit && target_hit),
        status == STATUS_OPEN ==> (action == HoldAction::Keep <==> !stop_hit && !target_hit),
        status == STATUS_HALF_TAKEN ==> (action == HoldAction::TakeRest <==> trail_hit),
        status == STATUS_HALF_TAKEN ==> (action == HoldAction::Trail <==> !trail_hit),
        status != STATUS_OPEN && status != STATUS_HALF_TAKEN ==> action == HoldAction::Keep,
{
    if status == STATUS_OPEN {
        if stop_hit {
            HoldAction::StopOut
        } else if target_hit {
            HoldAction::TakeHalf
        } else {
            HoldAction::Keep
        }
    } else if status == STATUS_HALF_TAKEN {
        if trail_hit {
            HoldAction::TakeRest
        } else {
            HoldAction::Trail
        }
    } else {
        HoldAction::Keep
    }
}

impl HoldAction {
    /// The status code this step writes to the order, if it writes one.
    pub fn new_status(&self) -> (code: Option<i32>)
        ensures
            match *self {
                HoldAction::StopOut => code == Some(STATUS_STOPPED),
                HoldAction::TakeHalf => code == Some(STATUS_HALF_TAKEN),
                HoldAction::TakeRest => code == Some(STATUS_CLOSED),
                _ => code is None,
            },
    {
        match self {
            HoldAction::StopOut => Some(STATUS_STOPPED),
            HoldAction::TakeHalf => Some(STATUS_HALF_TAKEN),
            HoldAction::TakeRest => Some(STATUS_CLOSED),
            _ => None,
        }
    }
}

/// Orders only move forward: a new order either stays open, is stopped out
/// or has half taken; an order with half taken either stays so or closes in
/// profit; an order closed either way is never touched again.
pub proof fn lemma_hold_step_moves_forward(status: i32, stop_hit: bool, target_hit: bool, trail_hit: bool)
    ensures
        ({
            let action = spec_hold_step(status, stop_hit, target_hit, trail_hit);
            let next = spec_status_after(status, action);
            &&& status == STATUS_OPEN ==> (next == STATUS_OPEN || next == STATUS_STOPPED || next == STATUS_HALF_TAKEN)
            &&& status == STATUS_HALF_TAKEN ==> (next == STATUS_HALF_TAKEN || next == STATUS_CLOSED)
            &&& (status != STATUS_OPEN && status != STATUS_HALF_TAKEN) ==> (action == HoldAction::Keep && next == status)
        }),
{
}

/// What a candle does to a held order, for every order and candle: a new
/// order is stopped out exactly when the candle crosses its stop, has half
/// taken exactly when the candle crosses its first target but not its stop,
/// and is otherwise left as it is; an order with half taken closes in profit
/// exactly when the candle crosses its trailing stop, whatever the candle does
/// to the first stop and target, and otherwise trails; any other order is left
/// alone.
pub proof fn lemma_hold_step_rules(status: i32, stop_hit: bool, target_hit: bool, trail_hit: bool)
    ensures
        ({
            let action = spec_hold_step(status, stop_hit, target_hit, trail_hit);
            &&& status == STATUS_OPEN ==> (action == HoldAction::StopOut <==> stop_hit)
            &&& status == STATUS_OPEN ==> (action == HoldAction::TakeHalf <==> !stop_hit && target_hit)
            &&& status == STATUS_OPEN ==> (action == HoldAction::Keep <==> !stop_hit && !target_hit)
            &&& status == STATUS_HALF_TAKEN ==> (action == HoldAction::TakeRest <==> trail_hit)
            &&& status == STATUS_HALF_TAKEN ==> (action == HoldAction::Trail <==> !trail_hit)
            &&& status != STATUS_OPEN && status != STATUS_HALF_TAKEN ==> action == HoldAction::Keep
        }),
{
}

/// A stop loss takes precedence over the first target when one candle
/// crosses both.
pub proof fn lemma_stop_before_target(target_hit: bool, trail_hit: bool)
    ensures
        spec_hold_step(STATUS_OPEN, true, target_hit, trail_hit) == HoldAction::StopOut,
{
}

/// The side of an order for an entry signal: "BUY" for 1, "SELL" otherwise.
pub fn order_side(signal: i32) -> (side: &'static str)
    ensures
        signal == 1 ==> side@ == "BUY"@,
        signal != 1 ==> side@ == "SELL"@,
{
    if signal == 1 {
        "BUY"
    } else {
        "SELL"
    }
}

/// The zigzag tag whose pivots trail an order of this side: highs (1) for a
/// buy, lows (-1) for anything else.
pub fn trail_pivot_tag(side: &str) -> (tag: i32)
    ensures
        side@ == "BUY"@ ==> tag == 1,
        side@ != "BUY"@ ==> tag == -1,
{
    if same_text(side, "BUY") {
        1
    } else {
        -1
    }
}

/// The zigzag tag whose latest pivot sets the stop loss of a new order: the
/// last low (-1) for a buy, the last high (1) for a sell, none for any other
/// side.
pub fn stop_pivot_tag(side: &str) -> (tag: Option<i32>)
    ensures
        side@ == "BUY"@ ==> tag == Some(-1i32),
        side@ != "BUY"@ && side@ == "SELL"@ ==> tag == Some(1i32),
        side@ != "BUY"@ && side@ != "SELL"@ ==> tag is None,
{
    if same_text(side, "BUY") {
        Some(-1)
    } else if same_text(side, "SELL") {
        Some(1)
    } else {
        None
    }
}

} // verus!
