//! How one simulation's final value stands against another's.
use vstd::prelude::*;
use crate::engine::{SimulationResult, RETURN_SCALE};

verus! {

/// Outperformance of one holding over a benchmark.
#[derive(Clone, Copy, Debug, PartialEq, Eq, Structural)]
pub struct ComparisonResult {
    /// Final value minus the benchmark's final value, in millionths of a currency unit.
    pub absolute_diff: i128,
    /// That difference as a percentage of the benchmark's final value, in millionths of a
    /// percent, rounded down.
    pub relative_diff_pct: i128,
}

/// The comparison of final values `value` and `benchmark`, when the benchmark is positive and
/// the amounts fit in 128 signed bits.
pub open spec fn comparison_of(value: u128, benchmark: u128) -> Option<ComparisonResult> {
    if benchmark == 0 || value * RETURN_SCALE > i128::MAX || benchmark > i128::MAX {
        None
    } else {
        Some(
            ComparisonResult {
                absolute_diff: (value - benchmark) as i128,
                relative_diff_pct: (value * RETURN_SCALE / (benchmark as int) - RETURN_SCALE) as i128,
            },
        )
    }
}

/// Compares the final value of `stock` against that of `benchmark`. Returns `None` when the
/// benchmark's final value is zero, so that no percentage of it exists, or when the amounts are
/// too large for 128 signed bits.
pub fn compare(stock: &SimulationResult, benchmark: &SimulationResult) -> (r: Option<ComparisonResult>)
    ensures
        r == comparison_of(stock.final_value, benchmark.final_value),
{
    let value = stock.final_value;
    let base = benchmark.final_value;
    if base == 0 || base > i128::MAX as u128 {
        return None;
    }
    let scaled = match value.checked_mul(RETURN_SCALE) {
        Some(v) => v,
        None => {
            return None;
        },
    };
    if scaled > i128::MAX as u128 {
        return None;
    }
    assert(value <= scaled) by (nonlinear_arith)
        requires
            scaled == value * RETURN_SCALE,
    ;
    let ratio = scaled / base;
    Some(
        ComparisonResult {
            absolute_diff: value as i128 - base as i128,
            relative_diff_pct: ratio as i128 - RETURN_SCALE as i128,
        },
    )
}

} // verus!
