use vstd::prelude::*;

verus! {

/// How many pivots a recalculation of the zigzag steps back over.
pub const RECALC_PIVOTS: usize = 3;

/// How many of the latest bars a recalculation looks at, at most.
pub const RECALC_SPAN: usize = 100;

/// How many of the bars `from .. to` are marked as pivots.
pub open spec fn pivot_count(pivots: Seq<bool>, from: int, to: int) -> nat
    decreases to - from,
{
    if to <= from {
        0
    } else {
        pivot_count(pivots, from + 1, to) + if pivots[from] { 1nat } else { 0nat }
    }
}

/// Where a zigzag pass over `pivots.len()` bars starts when some pivots were
/// already found: at the third pivot from the end, looking back over the last
/// `RECALC_SPAN` bars only; at the oldest of those bars when fewer than three
/// pivots lie among them.
pub open spec fn is_recalc_start(pivots: Seq<bool>, start: int) -> bool {
    let total = pivots.len() as int;
    &&& total - RECALC_SPAN <= start <= total - 1
    &&& pivot_count(pivots, start + 1, total) < RECALC_PIVOTS
    &&& (start == total - RECALC_SPAN || pivot_count(pivots, start, total) == RECALC_PIVOTS)
}

proof fn lemma_pivot_count_step(pivots: Seq<bool>, from: int, to: int)
    requires
        from < to,
    ensures
        pivot_count(pivots, from, to) == pivot_count(pivots, from + 1, to) + if pivots[from] { 1nat } else { 0nat },
{
}

proof fn lemma_pivot_count_monotone(pivots: Seq<bool>, a: int, b: int, to: int)
    requires
        a <= b,
    ensures
        pivot_count(pivots, b, to) <= pivot_count(pivots, a, to),
    decreases b - a,
{
    if a < b {
        lemma_pivot_count_monotone(pivots, a + 1, b, to);
        if a < to {
            lemma_pivot_count_step(pivots, a, to);
        }
    }
}

/// A start that meets `is_recalc_start` is the only one: the first bar of
/// the pass is fixed by the pivots.
pub proof fn lemma_recalc_start_unique(pivots: Seq<bool>, s: int, t: int)
    requires
        is_recalc_start(pivots, s),
        is_recalc_start(pivots, t),
    ensures
        s == t,
{
    let total = pivots.len() as int;
    if s < t {
        lemma_pivot_count_monotone(pivots, s + 1, t, total);
    } else if t < s {
        lemma_pivot_count_monotone(pivots, t + 1, s, total);
    }
}

/// Where a later pass starts, said by the pivots in the last `RECALC_SPAN`
/// bars: with fewer than three of them, at the oldest of those bars; with
/// three or more, at a pivot that has exactly two pivots after it.
pub proof fn lemma_recalc_start_rules(pivots: Seq<bool>, start: int)
    requires
        pivots.len() > RECALC_SPAN,
        is_recalc_start(pivots, start),
    ensures
        pivot_count(pivots, pivots.len() - RECALC_SPAN, pivots.len() as int) < RECALC_PIVOTS
            ==> start == pivots.len() - RECALC_SPAN,
        pivot_count(pivots, pivots.len() - RECALC_SPAN, pivots.len() as int) >= RECALC_PIVOTS
            ==> pivots[start] && pivot_count(pivots, start, pivots.len() as int) == RECALC_PIVOTS,
{
    let total = pivots.len() as int;
    lemma_pivot_count_monotone(pivots, total - RECALC_SPAN, start, total);
    lemma_pivot_count_monotone(pivots, total - RECALC_SPAN, start + 1, total);
    lemma_pivot_count_step(pivots, start, total);
}

/// The bar a zigzag pass starts from. On the first pass (`counted_bars`,
/// the number of pivots recorded so far, is 0) that is the first bar with a
/// full `depth` of bars behind it; later passes step back over the last
/// three pivots and recompute from there. `pivots[i]` tells whether bar `i`
/// holds a recorded pivot.
pub fn zigzag_start_index(counted_bars: usize, depth: usize, pivots: &Vec<bool>) -> (start: usize)
    requires
        counted_bars == 0 ==> depth >= 1,
        counted_bars != 0 ==> pivots.len() > RECALC_SPAN,
    ensures
        counted_bars == 0 ==> start == depth - 1,
        counted_bars != 0 ==> is_recalc_start(pivots@, start as int),
        counted_bars != 0 && pivot_count(pivots@, pivots@.len() - RECALC_SPAN, pivots@.len() as int) < RECALC_PIVOTS
            ==> start == pivots@.len() - RECALC_SPAN,
        counted_bars != 0 && pivot_count(pivots@, pivots@.len() - RECALC_SPAN, pivots@.len() as int) >= RECALC_PIVOTS
            ==> pivots@[start as int] && pivot_count(pivots@, start as int, pivots@.len() as int) == RECALC_PIVOTS,
{
    if counted_bars == 0 {
        return depth - 1;
    }
    let total = pivots.len();
    let mut count: usize = 0;
    let mut i: usize = total - 1;
    while count < RECALC_PIVOTS && i > total - 1 - RECALC_SPAN
        invariant
            total == pivots@.len(),
            total > RECALC_SPAN,
            total - 1 - RECALC_SPAN <= i <= total - 1,
            count == pivot_count(pivots@, i + 1, total as int),
            count <= RECALC_PIVOTS,
            count == RECALC_PIVOTS ==> pivots@[i + 1],
        decreases i,
    {
        proof {
            lemma_pivot_count_step(pivots@, i as int, total as int);
        }
        if pivots[i] {
            count = count + 1;
        }
        i = i - 1;
    }
    proof {
        if count == RECALC_PIVOTS && i + 1 < total {
            lemma_pivot_count_step(pivots@, i + 1, total as int);
        }
        lemma_recalc_start_rules(pivots@, (i + 1) as int);
    }
    i + 1
}


/// Which kind of pivot the zigzag looks for next.
#[derive(Debug, Clone, Copy, PartialEq, Eq, Structural)]
pub enum Seek {
    /// No pivot has been kept yet: the first high or low starts the line.
    Any,
    /// The last pivot kept is a low: look for a high.
    High,
    /// The last pivot kept is a high: look for a low.
    Low,
}

/// A kept pivot of the zigzag line.
#[derive(Debug, Clone, Copy, PartialEq, Eq, Structural)]
pub enum PivotKind {
    High,
    Low,
}

/// What one bar does to the zigzag line. The caller carries the steps out in
/// this order: drop the last low pivot, drop the last high pivot, keep the
/// bar as a high, keep the bar as a low; then it looks for `next`.
#[derive(Debug, Clone, Copy, PartialEq, Eq, Structural)]
pub struct ZigzagStep {
    pub drop_low: bool,
    pub drop_high: bool,
    pub keep_high: bool,
    pub keep_low: bool,
    pub next: Seek,
}

/// The step of one bar. `has_high` and `has_low` tell whether the bar is a
/// candidate high or low; `fresh` whether no high or low value has been
/// taken yet; `lower_low` whether the bar's low lies below the last kept low;
/// `higher_high` whether its high lies above the last kept high.
pub open spec fn spec_zigzag_step(seek: Seek, fresh: bool, has_high: bool, has_low: bool, lower_low: bool, higher_high: bool) -> ZigzagStep {
    match seek {
        Seek::Any => {
            if fresh {
                ZigzagStep {
                    drop_low: false,
                    drop_high: false,
                    keep_high: has_high,
                    keep_low: has_low,
                    next: if has_low { Seek::High } else if has_high { Seek::Low } else { Seek::Any },
                }
            } else {
                ZigzagStep { drop_low: false, drop_high: false, keep_high: false, keep_low: false, next: Seek::Any }
            }
        },
        Seek::High => {
            let replace = has_low && lower_low;
            let turn = has_high && !has_low;
            ZigzagStep {
                drop_low: replace,
                drop_high: false,
                keep_high: turn,
                keep_low: replace,
                next: if turn { Seek::Low } else { Seek::High },
            }
        },
        Seek::Low => {
            let replace = has_high && higher_high;
            let turn = has_low && !has_high;
            ZigzagStep {
                drop_low: false,
                drop_high: replace,
                keep_high: replace,
                keep_low: turn,
                next: if turn { Seek::High } else { Seek::Low },
            }
        },
    }
}

/// Decides what a bar does to the zigzag line.
pub fn zigzag_step(seek: Seek, fresh: bool, has_high: bool, has_low: bool, lower_low: bool, higher_high: bool) -> (step: ZigzagStep)
    ensures
        step == spec_zigzag_step(seek, fresh, has_high, has_low, lower_low, higher_high),
        step.drop_low ==> seek == Seek::High && has_low && lower_low,
        step.drop_high ==> seek == Seek::Low && has_high && higher_high,
        seek == Seek::High && has_low && lower_low ==> step.drop_low && step.keep_low,
        seek == Seek::Low && has_high && higher_high ==> step.drop_high && step.keep_high,
        step.keep_high ==> has_high,
        step.keep_low ==> has_low,
        seek == Seek::High ==> (step.keep_high <==> has_high && !has_low) && (step.keep_low <==> has_low && lower_low),
        seek == Seek::Low ==> (step.keep_low <==> has_low && !has_high) && (step.keep_high <==> has_high && higher_high),
        seek == Seek::Any ==> !step.drop_low && !step.drop_high
            && (step.keep_high <==> fresh && has_high) && (step.keep_low <==> fresh && has_low),
        step.next == (if step.keep_low { Seek::High } else if step.keep_high { Seek::Low } else { seek }),
{
    match seek {
        Seek::Any => {
            if fresh {
                let next = if has_low {
                    Seek::High
                } else if has_high {
                    Seek::Low
                } else {
                    Seek::Any
                };
                ZigzagStep { drop_low: false, drop_high: false, keep_high: has_high, keep_low: has_low, next }
            } else {
                ZigzagStep { drop_low: false, drop_high: false, keep_high: false, keep_low: false, next: Seek::Any }
            }
        },
        Seek::High => {
            let replace = has_low && lower_low;
            let turn = has_high && !has_low;
            let next = if turn { Seek::Low } else { Seek::High };
            ZigzagStep { drop_low: replace, drop_high: false, keep_high: turn, keep_low: replace, next }
        },
        Seek::Low => {
            let replace = has_high && higher_high;
            let turn = has_low && !has_high;
            let next = if turn { Seek::High } else { Seek::Low };
            ZigzagStep { drop_low: false, drop_high: replace, keep_high: replace, keep_low: turn, next }
        },
    }
}

/// How a bar moves the zigzag line, for every bar: a pivot is dropped only
/// when a lower low (seeking a high) or a higher high (seeking a low) replaces
/// it, and always then; a bar is kept as a high only when it is a candidate
/// high, and as a low only when it is a candidate low; seeking a high, a bar
/// that is a high and not a low turns the line; seeking a low, a bar that is a
/// low and not a high turns it; the first pivots are kept only while no value
/// has been taken; the search then looks for the kind it did not keep last.
pub proof fn lemma_zigzag_step_rules(seek: Seek, fresh: bool, has_high: bool, has_low: bool, lower_low: bool, higher_high: bool)
    ensures
        ({
            let step = spec_zigzag_step(seek, fresh, has_high, has_low, lower_low, higher_high);
            &&& step.drop_low ==> seek == Seek::High && has_low && lower_low
            &&& step.drop_high ==> seek == Seek::Low && has_high && higher_high
            &&& seek == Seek::High && has_low && lower_low ==> step.drop_low && step.keep_low
            &&& seek == Seek::Low && has_high && higher_high ==> step.drop_high && step.keep_high
            &&& step.keep_high ==> has_high
            &&& step.keep_low ==> has_low
            &&& seek == Seek::High ==> (step.keep_high <==> has_high && !has_low) && (step.keep_low <==> has_low && lower_low)
            &&& seek == Seek::Low ==> (step.keep_low <==> has_low && !has_high) && (step.keep_high <==> has_high && higher_high)
            &&& seek == Seek::Any ==> !step.drop_low && !step.drop_high
                && (step.keep_high <==> fresh && has_high) && (step.keep_low <==> fresh && has_low)
            &&& step.next == (if step.keep_low { Seek::High } else if step.keep_high { Seek::Low } else { seek })
        }),
{
}

/// The kept pivots after a step, oldest first. A bar kept both as a high and
/// as a low ends up a low: the low is written over the high.
pub open spec fn apply_step(line: Seq<PivotKind>, step: ZigzagStep) -> Seq<PivotKind> {
    let dropped = if step.drop_low || step.drop_high { line.drop_last() } else { line };
    if step.keep_low {
        dropped.push(PivotKind::Low)
    } else if step.keep_high {
        dropped.push(PivotKind::High)
    } else {
        dropped
    }
}

/// Highs and lows take turns along the line.
pub open spec fn alternates(line: Seq<PivotKind>) -> bool {
    forall|i: int| 0 <= i < line.len() - 1 ==> #[trigger] line[i] != line[i + 1]
}

/// What the zigzag looks for matches the last kept pivot.
pub open spec fn seek_matches(seek: Seek, line: Seq<PivotKind>) -> bool {
    match seek {
        Seek::Any => line.len() == 0,
        Seek::High => line.len() > 0 && line.last() == PivotKind::Low,
        Seek::Low => line.len() > 0 && line.last() == PivotKind::High,
    }
}

/// Every step keeps the zigzag a zigzag: highs and lows still take turns, a
/// pivot only drops the last pivot of its own kind (a lower low replaces the
/// last low, a higher high the last high), and the next search matches the
/// last kept pivot.
pub proof fn lemma_zigzag_step_alternates(
    line: Seq<PivotKind>,
    seek: Seek,
    fresh: bool,
    has_high: bool,
    has_low: bool,
    lower_low: bool,
    higher_high: bool,
)
    requires
        alternates(line),
        seek_matches(seek, line),
    ensures
        ({
            let step = spec_zigzag_step(seek, fresh, has_high, has_low, lower_low, higher_high);
            let after = apply_step(line, step);
            &&& alternates(after)
            &&& seek_matches(step.next, after)
            &&& step.drop_low ==> line.last() == PivotKind::Low && step.keep_low
            &&& step.drop_high ==> line.last() == PivotKind::High && step.keep_high
            &&& !(step.drop_low && step.drop_high)
        }),
{
    let step = spec_zigzag_step(seek, fresh, has_high, has_low, lower_low, higher_high);
    let after = apply_step(line, step);
    let dropped = if step.drop_low || step.drop_high { line.drop_last() } else { line };
    assert(alternates(dropped));
    assert forall|i: int| 0 <= i < after.len() - 1 implies #[trigger] after[i] != after[i + 1] by {
        if i + 1 < dropped.len() {
            assert(after[i] == dropped[i] && after[i + 1] == dropped[i + 1]);
        }
    }
}


/// The search and the kept pivots after a run of bars, each bar given as
/// (fresh, has_high, has_low, lower_low, higher_high).
pub open spec fn run_bars(seek: Seek, line: Seq<PivotKind>, bars: Seq<(bool, bool, bool, bool, bool)>) -> (Seek, Seq<PivotKind>)
    decreases bars.len(),
{
    if bars.len() == 0 {
        (seek, line)
    } else {
        let b = bars[0];
        let step = spec_zigzag_step(seek, b.0, b.1, b.2, b.3, b.4);
        run_bars(step.next, apply_step(line, step), bars.drop_first())
    }
}

/// However the bars of a pass fall, the zigzag it leaves alternates between
/// highs and lows, and looks next for the kind it did not keep last.
pub proof fn lemma_zigzag_pass_alternates(seek: Seek, line: Seq<PivotKind>, bars: Seq<(bool, bool, bool, bool, bool)>)
    requires
        alternates(line),
        seek_matches(seek, line),
    ensures
        alternates(run_bars(seek, line, bars).1),
        seek_matches(run_bars(seek, line, bars).0, run_bars(seek, line, bars).1),
    decreases bars.len(),
{
    if bars.len() > 0 {
        let b = bars[0];
        let step = spec_zigzag_step(seek, b.0, b.1, b.2, b.3, b.4);
        lemma_zigzag_step_alternates(line, seek, b.0, b.1, b.2, b.3, b.4);
        lemma_zigzag_pass_alternates(step.next, apply_step(line, step), bars.drop_first());
    }
}

} // verus!
