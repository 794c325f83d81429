use vstd::prelude::*;
use crate::common::CustomError;

verus! {

/// The message given for an EMA period that is not kept.
pub open spec fn ema_range_message() -> Seq<char> {
    "error: range must equal 10 or 20"@
}

/// The candle field an EMA of `range` bars is stored under: "ema10" or
/// "ema20". Only these two periods are kept; any other is an error.
pub fn ema_field_name(range: usize) -> (r: Result<&'static str, CustomError>)
    ensures
        range == 10 ==> (r matches Ok(name) && name@ == "ema10"@),
        range == 20 ==> (r matches Ok(name) && name@ == "ema20"@),
        range != 10 && range != 20 ==> (r matches Err(e) && e.0@ == ema_range_message()),
{
    if range == 10 {
        Ok("ema10")
    } else if range == 20 {
        Ok("ema20")
    } else {
        Err(CustomError::new("error: range must equal 10 or 20"))
    }
}

} // verus!
