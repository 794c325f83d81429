use vstd::prelude::*;
use crate::text::same_text;

verus! {

/// The chart interval one step coarser than `interval`, on the ladder
/// 5m, 15m, 30m, 1h, 2h, 4h, 1d (8h also steps to 1d, 1d stays 1d, 3d steps
/// to 1w); any other text has no coarser interval and maps to "".
pub open spec fn spec_next_interval(interval: Seq<char>) -> Seq<char> {
    if interval == "5m"@ {
        "15m"@
    } else if interval == "15m"@ {
        "30m"@
    } else if interval == "30m"@ {
        "1h"@
    } else if interval == "1h"@ {
        "2h"@
    } else if interval == "2h"@ {
        "4h"@
    } else if interval == "4h"@ {
        "1d"@
    } else if interval == "8h"@ {
        "1d"@
    } else if interval == "1d"@ {
        "1d"@
    } else if interval == "3d"@ {
        "1w"@
    } else {
        ""@
    }
}

/// The ladder, rung by rung: each of the nine intervals on it steps to the
/// one written beside it, and every other text (such as "12h" or "1w") has
/// no coarser interval.
pub proof fn lemma_next_interval_table(interval: Seq<char>)
    ensures
        interval == "5m"@ ==> spec_next_interval(interval) == "15m"@,
        interval == "15m"@ ==> spec_next_interval(interval) == "30m"@,
        interval == "30m"@ ==> spec_next_interval(interval) == "1h"@,
        interval == "1h"@ ==> spec_next_interval(interval) == "2h"@,
        interval == "2h"@ ==> spec_next_interval(interval) == "4h"@,
        interval == "4h"@ ==> spec_next_interval(interval) == "1d"@,
        interval == "8h"@ ==> spec_next_interval(interval) == "1d"@,
        interval == "1d"@ ==> spec_next_interval(interval) == "1d"@,
        interval == "3d"@ ==> spec_next_interval(interval) == "1w"@,
        interval != "5m"@ && interval != "15m"@ && interval != "30m"@ && interval != "1h"@ && interval != "2h"@ && interval != "4h"@ && interval != "8h"@ && interval != "1d"@ && interval != "3d"@ ==> spec_next_interval(interval) == ""@,
{
    reveal_strlit("");
    reveal_strlit("15m");
    reveal_strlit("1d");
    reveal_strlit("1h");
    reveal_strlit("1w");
    reveal_strlit("2h");
    reveal_strlit("30m");
    reveal_strlit("3d");
    reveal_strlit("4h");
    reveal_strlit("5m");
    reveal_strlit("8h");
    assert("5m"@.len() != "15m"@.len());
    assert("5m"@ != "15m"@);
    assert("5m"@.len() != "30m"@.len());
    assert("5m"@ != "30m"@);
    assert("15m"@[0] != "30m"@[0]);
    assert("15m"@ != "30m"@);
    assert("5m"@[0] != "1h"@[0]);
    assert("5m"@ != "1h"@);
    assert("15m"@.len() != "1h"@.len());
    assert("15m"@ != "1h"@);
    assert("30m"@.len() != "1h"@.len());
    assert("30m"@ != "1h"@);
    assert("5m"@[0] != "2h"@[0]);
    assert("5m"@ != "2h"@);
    assert("15m"@.len() != "2h"@.len());
    assert("15m"@ != "2h"@);
    assert("30m"@.len() != "2h"@.len());
    assert("30m"@ != "2h"@);
    assert("1h"@[0] != "2h"@[0]);
    assert("1h"@ != "2h"@);
    assert("5m"@[0] != "4h"@[0]);
    assert("5m"@ != "4h"@);
    assert("15m"@.len() != "4h"@.len());
    assert("15m"@ != "4h"@);
    assert("30m"@.len() != "4h"@.len());
    assert("30m"@ != "4h"@);
    assert("1h"@[0] != "4h"@[0]);
    assert("1h"@ != "4h"@);
    assert("2h"@[0] != "4h"@[0]);
    assert("2h"@ != "4h"@);
    assert("5m"@[0] != "8h"@[0]);
    assert("5m"@ != "8h"@);
    assert("15m"@.len() != "8h"@.len());
    assert("15m"@ != "8h"@);
    assert("30m"@.len() != "8h"@.len());
    assert("30m"@ != "8h"@);
    assert("1h"@[0] != "8h"@[0]);
    assert("1h"@ != "8h"@);
    assert("2h"@[0] != "8h"@[0]);
    assert("2h"@ != "8h"@);
    assert("4h"@[0] != "8h"@[0]);
    assert("4h"@ != "8h"@);
    assert("5m"@[0] != "1d"@[0]);
    assert("5m"@ != "1d"@);
    assert("15m"@.len() != "1d"@.len());
    assert("15m"@ != "1d"@);
    assert("30m"@.len() != "1d"@.len());
    assert("30m"@ != "1d"@);
    assert("1h"@[1] != "1d"@[1]);
    assert("1h"@ != "1d"@);
    assert("2h"@[0] != "1d"@[0]);
    assert("2h"@ != "1d"@);
    assert("4h"@[0] != "1d"@[0]);
    assert("4h"@ != "1d"@);
    assert("8h"@[0] != "1d"@[0]);
    assert("8h"@ != "1d"@);
    assert("5m"@[0] != "3d"@[0]);
    assert("5m"@ != "3d"@);
    assert("15m"@.len() != "3d"@.len());
    assert("15m"@ != "3d"@);
    assert("30m"@.len() != "3d"@.len());
    assert("30m"@ != "3d"@);
    assert("1h"@[0] != "3d"@[0]);
    assert("1h"@ != "3d"@);
    assert("2h"@[0] != "3d"@[0]);
    assert("2h"@ != "3d"@);
    assert("4h"@[0] != "3d"@[0]);
    assert("4h"@ != "3d"@);
    assert("8h"@[0] != "3d"@[0]);
    assert("8h"@ != "3d"@);
    assert("1d"@[0] != "3d"@[0]);
    assert("1d"@ != "3d"@);
}

/// The next coarser chart interval, or "" when there is none.
pub fn next_interval(interval: &str) -> (next: &str)
    ensures
        next@ == spec_next_interval(interval@),
        interval@ == "5m"@ ==> next@ == "15m"@,
        interval@ == "15m"@ ==> next@ == "30m"@,
        interval@ == "30m"@ ==> next@ == "1h"@,
        interval@ == "1h"@ ==> next@ == "2h"@,
        interval@ == "2h"@ ==> next@ == "4h"@,
        interval@ == "4h"@ ==> next@ == "1d"@,
        interval@ == "8h"@ ==> next@ == "1d"@,
        interval@ == "1d"@ ==> next@ == "1d"@,
        interval@ == "3d"@ ==> next@ == "1w"@,
        interval@ != "5m"@ && interval@ != "15m"@ && interval@ != "30m"@ && interval@ != "1h"@ && interval@ != "2h"@ && interval@ != "4h"@ && interval@ != "8h"@ && interval@ != "1d"@ && interval@ != "3d"@ ==> next@ == ""@,
{
    proof {
        lemma_next_interval_table(interval@);
    }
    if same_text(interval, "5m") {
        "15m"
    } else if same_text(interval, "15m") {
        "30m"
    } else if same_text(interval, "30m") {
        "1h"
    } else if same_text(interval, "1h") {
        "2h"
    } else if same_text(interval, "2h") {
        "4h"
    } else if same_text(interval, "4h") {
        "1d"
    } else if same_text(interval, "8h") {
        "1d"
    } else if same_text(interval, "1d") {
        "1d"
    } else if same_text(interval, "3d") {
        "1w"
    } else {
        ""
    }
}

} // verus!
