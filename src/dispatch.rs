use vstd::prelude::*;

use crate::error::{CalcErrorKind, IntegralCalcError};

verus! {

/// The largest number of samples a request may ask for.
pub const MAX_SAMPLES_COUNT: u64 = 1_000_000_000u64;

/// Requests with more samples than this are split across workers.
pub const ASYNC_THRESHOLD_SAMPLES_COUNT: u64 = 10_000u64;

/// Which accumulator serves an accepted request.
#[derive(Debug, Clone, Copy, PartialEq, Eq, Structural)]
pub enum Route {
    /// One pass over the whole interval.
    Sequential,
    /// One local sum per sub-interval, merged afterwards.
    Parallel,
}

/// The outcome of validating a request: the error kind it is refused with, or
/// the path that computes it. The bounds are checked before the sample count.
pub open spec fn route_of(bounds_inverted: bool, samples: u64) -> Result<Route, CalcErrorKind> {
    if bounds_inverted {
        Err(CalcErrorKind::InvalidBounds)
    } else if samples > MAX_SAMPLES_COUNT {
        Err(CalcErrorKind::SampleCountExceeded)
    } else if samples > ASYNC_THRESHOLD_SAMPLES_COUNT {
        Ok(Route::Parallel)
    } else {
        Ok(Route::Sequential)
    }
}

/// Views a result of this crate as the kind of error it carries, if any.
pub open spec fn kind_view<T>(r: Result<T, IntegralCalcError>) -> Result<T, CalcErrorKind> {
    match r {
        Ok(v) => Ok(v),
        Err(e) => Err(e.kind),
    }
}

/// The bounds check shared by both accumulators: a lower bound above the
/// upper bound is refused.
pub fn check_bounds(bounds_inverted: bool) -> (r: Result<(), IntegralCalcError>)
    ensures
        r is Err <==> bounds_inverted,
        r matches Err(e) ==> e.kind == CalcErrorKind::InvalidBounds,
{
    if bounds_inverted {
        return Err(IntegralCalcError::new(CalcErrorKind::InvalidBounds));
    }
    Ok(())
}

/// Validates a request and picks the accumulator that serves it: invalid
/// bounds first, then the sample ceiling, then the parallelism threshold.
pub fn select_route(bounds_inverted: bool, samples: u64) -> (r: Result<Route, IntegralCalcError>)
    ensures
        kind_view(r) == route_of(bounds_inverted, samples),
{
    check_bounds(bounds_inverted)?;
    if samples > MAX_SAMPLES_COUNT {
        return Err(IntegralCalcError::new(CalcErrorKind::SampleCountExceeded));
    }
    if samples > ASYNC_THRESHOLD_SAMPLES_COUNT {
        return Ok(Route::Parallel);
    }
    Ok(Route::Sequential)
}


/// A request whose lower bound lies above its upper bound is refused as
/// invalid bounds, whatever the sample count.
pub proof fn lemma_inverted_bounds_rejected(samples: u64)
    ensures
        route_of(true, samples) == Err::<Route, CalcErrorKind>(CalcErrorKind::InvalidBounds),
{
}

/// A request with ordered bounds and more samples than the ceiling is refused
/// for its sample count.
pub proof fn lemma_sample_ceiling_rejected(samples: u64)
    requires
        samples > MAX_SAMPLES_COUNT,
    ensures
        route_of(false, samples) == Err::<Route, CalcErrorKind>(CalcErrorKind::SampleCountExceeded),
{
}

} // verus!
