//! Observations of a security's history and the rules a series must meet.
use vstd::prelude::*;

verus! {

/// Money is counted in millionths of a currency unit.
pub const MONEY_SCALE: u64 = 1_000_000;

/// One trading day of a security: its date as a day number (see `calendar::day_number`), its
/// closing price and the dividend paid per share that day, both in millionths of a currency
/// unit. A day without a dividend has `dividend_per_share == 0`.
#[derive(Clone, Copy, Debug, PartialEq, Eq, Structural)]
pub struct Observation {
    pub day: i32,
    pub close_price: u64,
    pub dividend_per_share: u64,
}

/// Why a simulation produced no result.
#[derive(Clone, Copy, Debug, PartialEq, Eq, Structural)]
pub enum SimulationError {
    /// The series holds no observation.
    EmptySeries,
    /// The initial investment is zero.
    NonPositiveInvestment,
    /// Some observation has a closing price of zero.
    NonPositivePrice,
    /// The dates of the series do not strictly increase.
    UnsortedDates,
    /// An intermediate amount exceeds what 128 bits can hold.
    Overflow,
}

/// Every closing price of the series is positive.
pub open spec fn prices_positive(s: Seq<Observation>) -> bool {
    forall|i: int| 0 <= i < s.len() ==> (#[trigger] s[i]).close_price > 0
}

/// The dates of the series strictly increase.
pub open spec fn dates_ascending(s: Seq<Observation>) -> bool {
    forall|i: int, j: int| 0 <= i < j < s.len() ==> (#[trigger] s[i]).day < (#[trigger] s[j]).day
}

/// The validation failure of a series and investment, checked in this order, if any.
pub open spec fn validation_error(s: Seq<Observation>, investment: u64) -> Option<SimulationError> {
    if s.len() == 0 {
        Some(SimulationError::EmptySeries)
    } else if investment == 0 {
        Some(SimulationError::NonPositiveInvestment)
    } else if !prices_positive(s) {
        Some(SimulationError::NonPositivePrice)
    } else if !dates_ascending(s) {
        Some(SimulationError::UnsortedDates)
    } else {
        None
    }
}

/// Checks a series and an investment against the rules that a simulation needs.
pub fn validate(series: &Vec<Observation>, investment: u64) -> (r: Result<(), SimulationError>)
    ensures
        r is Ok <==> validation_error(series@, investment) is None,
        r is Err ==> validation_error(series@, investment) == Some(r->Err_0),
{
    if series.len() == 0 {
        return Err(SimulationError::EmptySeries);
    }
    if investment == 0 {
        return Err(SimulationError::NonPositiveInvestment);
    }
    let mut i: usize = 0;
    while i < series.len()
        invariant
            0 <= i <= series@.len(),
            investment != 0,
            forall|j: int| 0 <= j < i ==> (#[trigger] series@[j]).close_price > 0,
        decreases series@.len() - i,
    {
        if series[i].close_price == 0 {
            assert(series@[i as int].close_price == 0);
            return Err(SimulationError::NonPositivePrice);
        }
        i += 1;
    }
    assert(prices_positive(series@));
    let mut i: usize = 1;
    while i < series.len()
        invariant
            1 <= i <= series@.len(),
            prices_positive(series@),
            investment != 0,
            forall|a: int, b: int|
                0 <= a < b < i ==> (#[trigger] series@[a]).day < (#[trigger] series@[b]).day,
        decreases series@.len() - i,
    {
        if series[i - 1].day >= series[i].day {
            assert(series@[i - 1].day >= series@[i as int].day);
            return Err(SimulationError::UnsortedDates);
        }
        i += 1;
    }
    Ok(())
}

} // verus!
