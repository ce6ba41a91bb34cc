//! The validity interval of a transaction, in POSIX time as Plutus sees it.
use vstd::prelude::*;

use crate::kernel::global_parameters::GlobalParameters;

verus! {

/// Why a slot cannot be converted to POSIX time.
#[derive(Debug, Clone, Copy, PartialEq, Eq, Structural)]
pub enum EraHistoryError {
    /// The slot lies past the time horizon: too far in the future (beyond
    /// the stability window) to be sure that no hard fork changes timings.
    PastTimeHorizon,
    /// The slot lies in no era of the era history, so its length is unknown.
    InvalidEraHistory,
}

/// An interval of POSIX time, in milliseconds; a missing bound leaves that
/// side of the interval open. Slots are Ouroboros's time; Plutus uses POSIX
/// time, so a validity interval is converted bound by bound.
#[derive(Debug, Clone, Copy, PartialEq, Eq, Structural)]
pub struct TimeRange {
    pub lower_bound: Option<u64>,
    pub upper_bound: Option<u64>,
}

/// The range of two converted bounds: the first failure, lower bound first,
/// or both bounds.
pub open spec fn range_of_bounds(
    lower: Option<Result<u64, EraHistoryError>>,
    upper: Option<Result<u64, EraHistoryError>>,
) -> Result<TimeRange, EraHistoryError> {
    match (lower, upper) {
        (Some(Err(e)), _) => Err(e),
        (_, Some(Err(e))) => Err(e),
        _ => Ok(
            TimeRange {
                lower_bound: match lower {
                    Some(Ok(t)) => Some(t),
                    _ => None,
                },
                upper_bound: match upper {
                    Some(Ok(t)) => Some(t),
                    _ => None,
                },
            },
        ),
    }
}

/// `converted` is a possible outcome of converting the optional slot with `f`.
pub open spec fn converts<F: Fn(u64, u64, u64) -> Result<u64, EraHistoryError>>(
    f: F,
    slot: Option<u64>,
    tip: u64,
    system_start: u64,
    converted: Option<Result<u64, EraHistoryError>>,
) -> bool {
    match (slot, converted) {
        (None, None) => true,
        (Some(s), Some(r)) => call_ensures(f, (s, tip, system_start), r),
        _ => false,
    }
}

impl TimeRange {
    /// The range of two bounds converted to POSIX time: the conversion error
    /// of the lower bound, else that of the upper bound, else both bounds.
    pub fn from_bounds(
        lower: Option<Result<u64, EraHistoryError>>,
        upper: Option<Result<u64, EraHistoryError>>,
    ) -> (r: Result<TimeRange, EraHistoryError>)
        ensures
            r == range_of_bounds(lower, upper),
    {
        let lower_bound = match lower {
            Some(Err(e)) => return Err(e),
            Some(Ok(t)) => Some(t),
            None => None,
        };
        let upper_bound = match upper {
            Some(Err(e)) => return Err(e),
            Some(Ok(t)) => Some(t),
            None => None,
        };
        Ok(TimeRange { lower_bound, upper_bound })
    }

    /// The range of a validity interval given in slots, each bound converted
    /// by `slot_to_posix_time(slot, tip, system_start)`, where the system
    /// start comes from the network's global parameters. A failure to
    /// convert a bound (past the time horizon, or outside the era history)
    /// fails the whole range, the lower bound's failure first.
    pub fn new<F: Fn(u64, u64, u64) -> Result<u64, EraHistoryError>>(
        valid_from_slot: Option<u64>,
        valid_to_slot: Option<u64>,
        tip: &u64,
        slot_to_posix_time: &F,
        global_parameters: &GlobalParameters,
    ) -> (r: Result<TimeRange, EraHistoryError>)
        requires
            forall|slot: u64, at: u64, start: u64| call_requires(*slot_to_posix_time, (slot, at, start)),
        ensures
            exists|lower: Option<Result<u64, EraHistoryError>>, upper: Option<Result<u64, EraHistoryError>>|
                {
                    &&& converts(*slot_to_posix_time, valid_from_slot, *tip, global_parameters.system_start, lower)
                    &&& (lower matches Some(Err(_)) || converts(*slot_to_posix_time, valid_to_slot, *tip, global_parameters.system_start, upper))
                    &&& r == range_of_bounds(lower, upper)
                },
    {
        let system_start = global_parameters.system_start;
        let lower = match valid_from_slot {
            Some(slot) => Some(slot_to_posix_time(slot, *tip, system_start)),
            None => None,
        };
        if let Some(Err(e)) = lower {
            let r = Err(e);
            assert(converts(*slot_to_posix_time, valid_from_slot, *tip, system_start, lower) && r == range_of_bounds(lower, None));
            return r;
        }
        let upper = match valid_to_slot {
            Some(slot) => Some(slot_to_posix_time(slot, *tip, system_start)),
            None => None,
        };
        let r = Self::from_bounds(lower, upper);
        assert(converts(*slot_to_posix_time, valid_from_slot, *tip, system_start, lower));
        assert(converts(*slot_to_posix_time, valid_to_slot, *tip, system_start, upper));
        r
    }
}

/// A failure to convert the lower bound fails the range whatever the upper
/// bound; otherwise a failure of the upper bound fails it; otherwise the
/// range has each converted bound, and an open side where no slot was given.
pub proof fn lemma_range_of_bounds_cases(
    lower: Option<Result<u64, EraHistoryError>>,
    upper: Option<Result<u64, EraHistoryError>>,
    e: EraHistoryError,
    t: u64,
)
    ensures
        lower == Some(Err::<u64, EraHistoryError>(e)) ==> range_of_bounds(lower, upper) == Err::<TimeRange, EraHistoryError>(e),
        !(lower matches Some(Err(_))) && upper == Some(Err::<u64, EraHistoryError>(e)) ==> range_of_bounds(lower, upper)
            == Err::<TimeRange, EraHistoryError>(e),
        !(lower matches Some(Err(_))) && !(upper matches Some(Err(_))) ==> range_of_bounds(lower, upper) is Ok,
        range_of_bounds(lower, upper) matches Ok(range) ==> (lower == Some(Ok::<u64, EraHistoryError>(t))
            ==> range.lower_bound == Some(t)) && (upper == Some(Ok::<u64, EraHistoryError>(t)) ==> range.upper_bound
            == Some(t)) && (lower is None ==> range.lower_bound is None) && (upper is None ==> range.upper_bound is None),
{
}

} // verus!
