use vstd::prelude::*;

verus! {

/// Why a capture could not be configured.
#[derive(Debug, Clone, Copy, PartialEq, Eq, Structural)]
pub enum ConfigError {
    /// Neither a duration in seconds nor one in milliseconds was given.
    MissingDuration,
    /// The buffer for the requested duration would not fit in memory's index range.
    CapacityOverflow,
}

/// The target duration in whole seconds: the seconds when given, else the
/// milliseconds truncated to whole seconds.
pub open spec fn target_seconds_spec(sec: Option<usize>, millisecond: Option<usize>) -> Option<nat> {
    match sec {
        Some(s) => Some(s as nat),
        None => match millisecond {
            Some(ms) => Some((ms / 1000) as nat),
            None => None,
        },
    }
}

/// The target duration in whole seconds, from seconds or, failing that, from
/// milliseconds truncated toward zero.
pub fn target_seconds(sec: Option<usize>, millisecond: Option<usize>) -> (r: Result<usize, ConfigError>)
    ensures
        r is Err <==> target_seconds_spec(sec, millisecond) is None,
        r is Err ==> r == Err::<usize, ConfigError>(ConfigError::MissingDuration),
        r matches Ok(s) ==> target_seconds_spec(sec, millisecond) == Some(s as nat),
{
    match sec {
        Some(s) => Ok(s),
        None => match millisecond {
            Some(ms) => Ok(ms / 1000),
            None => Err(ConfigError::MissingDuration),
        },
    }
}

/// The number of samples a capture of `seconds` holds at `sample_rate` samples per
/// second, refused where it does not fit in `usize`.
pub fn buffer_capacity(sample_rate: usize, seconds: usize) -> (r: Result<usize, ConfigError>)
    ensures
        r is Ok <==> sample_rate * seconds <= usize::MAX,
        r is Err ==> r == Err::<usize, ConfigError>(ConfigError::CapacityOverflow),
        r matches Ok(n) ==> n == sample_rate * seconds,
{
    sample_rate.checked_mul(seconds).ok_or(ConfigError::CapacityOverflow)
}

} // verus!
