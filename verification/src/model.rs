use vstd::prelude::*;

verus! {

/// Where a watched swing stands: its stored code is 0, 1 or 2.
#[derive(Debug, Clone, Copy, PartialEq, Eq, Structural)]
pub enum SwingStatus {
    Watching,
    WaitingBackFvg,
    Closed,
}

/// The code a swing status is stored under.
pub open spec fn swing_status_code(s: SwingStatus) -> int {
    match s {
        SwingStatus::Watching => 0,
        SwingStatus::WaitingBackFvg => 1,
        SwingStatus::Closed => 2,
    }
}

/// The status stored under a code, if the code names one.
pub open spec fn swing_status_of(code: int) -> Option<SwingStatus> {
    if code == 0 {
        Some(SwingStatus::Watching)
    } else if code == 1 {
        Some(SwingStatus::WaitingBackFvg)
    } else if code == 2 {
        Some(SwingStatus::Closed)
    } else {
        None
    }
}

impl SwingStatus {
    /// The code this status is stored under.
    pub fn value(&self) -> (code: i32)
        ensures
            code == swing_status_code(*self),
            *self == SwingStatus::Watching ==> code == 0,
            *self == SwingStatus::WaitingBackFvg ==> code == 1,
            *self == SwingStatus::Closed ==> code == 2,
    {
        match self {
            SwingStatus::Watching => 0,
            SwingStatus::WaitingBackFvg => 1,
            SwingStatus::Closed => 2,
        }
    }
}

impl TryFrom<i32> for SwingStatus {
    type Error = ();

    /// Reads a stored code back: `Err(())` for a code that names no status.
    fn try_from(value: i32) -> (res: Result<SwingStatus, ()>)
        ensures
            value == 0 ==> res == Ok::<SwingStatus, ()>(SwingStatus::Watching),
            value == 1 ==> res == Ok::<SwingStatus, ()>(SwingStatus::WaitingBackFvg),
            value == 2 ==> res == Ok::<SwingStatus, ()>(SwingStatus::Closed),
            !(0 <= value <= 2) ==> res is Err,
    {
        if value == 0 {
            Ok(SwingStatus::Watching)
        } else if value == 1 {
            Ok(SwingStatus::WaitingBackFvg)
        } else if value == 2 {
            Ok(SwingStatus::Closed)
        } else {
            Err(())
        }
    }
}

impl vstd::std_specs::convert::TryFromSpecImpl<i32> for SwingStatus {
    open spec fn obeys_try_from_spec() -> bool {
        true
    }

    open spec fn try_from_spec(v: i32) -> Result<SwingStatus, ()> {
        match swing_status_of(v as int) {
            Some(s) => Ok(s),
            None => Err(()),
        }
    }
}

/// A status read back from its own code is that status, and a code that
/// reads back as a status is that status's code.
pub proof fn lemma_swing_status_round_trip(s: SwingStatus, code: int)
    ensures
        swing_status_of(swing_status_code(s)) == Some(s),
        swing_status_of(code) matches Some(t) ==> swing_status_code(t) == code,
        swing_status_of(code) is Some <==> 0 <= code <= 2,
{
}

/// Direction of the market: stored as -1, 0 or 1.
#[derive(Debug, Clone, Copy, PartialEq, Eq, Structural)]
pub enum Trend {
    TrendDown,
    TrendNo,
    TrendUp,
}

/// The signed code of a trend.
pub open spec fn trend_code(t: Trend) -> int {
    match t {
        Trend::TrendDown => -1,
        Trend::TrendNo => 0,
        Trend::TrendUp => 1,
    }
}

impl Trend {
    /// The signed code of this trend.
    pub fn value(&self) -> (code: i32)
        ensures
            code == trend_code(*self),
            *self == Trend::TrendDown ==> code == -1,
            *self == Trend::TrendNo ==> code == 0,
            *self == Trend::TrendUp ==> code == 1,
    {
        match self {
            Trend::TrendDown => -1,
            Trend::TrendNo => 0,
            Trend::TrendUp => 1,
        }
    }
}

/// Whether price and MACD move together or apart.
#[derive(Debug, Clone, Copy, PartialEq, Eq, Structural)]
pub enum MacdVergence {
    Convergence,
    Divergence,
}

} // verus!
