use vstd::prelude::*;

verus! {

/// Why a run of bars cannot be read from a series.
#[derive(Debug, Clone, Copy, PartialEq, Eq, Structural)]
pub enum BarWindowError {
    /// The run would start at or past the end of the series.
    StartOutOfRange { start: usize, len: usize },
    /// The run is longer than what is left of the series after `start`.
    LengthOutOfRange { length: usize, available: usize },
}

/// What reading `length` bars from `start` in a series of `len` bars gives:
/// the end of the run, or the first check that fails.
pub open spec fn spec_bar_window(len: usize, start: usize, length: usize) -> Result<usize, BarWindowError> {
    if start >= len {
        Err(BarWindowError::StartOutOfRange { start, len })
    } else if length > len - start {
        Err(BarWindowError::LengthOutOfRange { length, available: (len - start) as usize })
    } else {
        Ok((start + length) as usize)
    }
}

/// A run is accepted exactly when it lies inside the series, and then ends
/// at `start + length`; a run that starts past the end is refused for its
/// start, and one that starts inside but runs past the end for its length,
/// with what is left after `start`.
pub proof fn lemma_bar_window_rules(len: usize, start: usize, length: usize)
    ensures
        start < len && start + length <= len ==> spec_bar_window(len, start, length) == Ok::<usize, BarWindowError>(
            (start + length) as usize,
        ),
        start >= len ==> spec_bar_window(len, start, length) == Err::<usize, BarWindowError>(
            BarWindowError::StartOutOfRange { start, len },
        ),
        start < len && start + length > len ==> spec_bar_window(len, start, length) == Err::<usize, BarWindowError>(
            BarWindowError::LengthOutOfRange { length, available: (len - start) as usize },
        ),
{
}

/// Checks that the bars `start .. start + length` all lie in a series of
/// `len` bars, and gives the end of that run. A run that passes starts at a
/// bar of the series, so the series is never empty there.
pub fn bar_window(len: usize, start: usize, length: usize) -> (r: Result<usize, BarWindowError>)
    ensures
        r == spec_bar_window(len, start, length),
        r matches Ok(end) ==> start < len && end == start + length && end <= len,
        start < len && start + length <= len ==> r == Ok::<usize, BarWindowError>((start + length) as usize),
        start >= len ==> r == Err::<usize, BarWindowError>(BarWindowError::StartOutOfRange { start, len }),
        start < len && start + length > len ==> r == Err::<usize, BarWindowError>(
            BarWindowError::LengthOutOfRange { length, available: (len - start) as usize },
        ),
{
    if start >= len {
        return Err(BarWindowError::StartOutOfRange { start, len });
    }
    if length > len - start {
        return Err(BarWindowError::LengthOutOfRange { length, available: len - start });
    }
    Ok(start + length)
}

} // verus!
