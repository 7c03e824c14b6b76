//! The reinvestment simulation: one purchase with outside cash, then every dividend bought
//! back into shares at that day's closing price.
use vstd::prelude::*;
use vstd::arithmetic::div_mod::lemma_div_pos_is_pos;
use crate::series::{Observation, SimulationError, validation_error, validate};

verus! {

/// Share units per share for each millionth of the first closing price. With this scale a
/// share unit is `1 / (first_price * SHARE_SCALE)` of a share, and `share_units / first_price`
/// counts millionths of a share.
pub const SHARE_SCALE: u128 = 1_000_000;

/// Returns are reported in millionths of a percent: a ratio of one is `RETURN_SCALE`.
pub const RETURN_SCALE: u128 = 100_000_000;

/// The outcome of one simulation. Amounts of money are in millionths of a currency unit.
///
/// The exact quantities share one denominator, `first_price * SHARE_SCALE`:
/// `share_units` is the share count times it, `dividend_units` the dividend cash times it, and
/// `value_units` the final value times it. The rounded quantities are those divided out and
/// truncated.
#[derive(Clone, Copy, Debug, PartialEq, Eq, Structural)]
pub struct SimulationResult {
    pub initial_investment: u64,
    pub first_price: u64,
    pub share_units: u128,
    pub dividend_units: u128,
    pub value_units: u128,
    /// Shares held at the end, in millionths of a share, rounded down.
    pub total_shares: u128,
    /// Cash value of all reinvested dividends, rounded down.
    pub total_dividends_received: u128,
    /// Value of the final holding at the last closing price, rounded down.
    pub final_value: u128,
    /// `(final_value - initial_investment) / initial_investment * 100`, in millionths of a
    /// percent, rounded down.
    pub total_return_pct: i128,
    /// Calendar days from the first observation to the last.
    pub elapsed_days: u64,
}

impl SimulationResult {
    /// The common denominator of `share_units`, `dividend_units` and `value_units`.
    pub open spec fn denominator(self) -> int {
        self.first_price * SHARE_SCALE
    }
}

/// The denominator of every exact quantity of a simulation of `s`.
pub open spec fn unit_scale(s: Seq<Observation>) -> int {
    s[0].close_price * SHARE_SCALE
}

/// Share units held once the first `k` observations (`k >= 1`) have been processed: the
/// initial purchase, then for each later observation the dividend cash converted to share
/// units at that day's price, truncated.
pub open spec fn share_units_after(s: Seq<Observation>, investment: u64, k: nat) -> int
    decreases k,
{
    if k <= 1 {
        investment * SHARE_SCALE
    } else {
        let n = share_units_after(s, investment, (k - 1) as nat);
        n + n * s[k - 1].dividend_per_share / (s[k - 1].close_price as int)
    }
}

/// Dividend cash, in units of `1 / unit_scale(s)` of a millionth, received once the first `k`
/// observations have been processed.
pub open spec fn dividend_units_after(s: Seq<Observation>, investment: u64, k: nat) -> int
    decreases k,
{
    if k <= 1 {
        0
    } else {
        dividend_units_after(s, investment, (k - 1) as nat) + share_units_after(
            s,
            investment,
            (k - 1) as nat,
        ) * s[k - 1].dividend_per_share
    }
}

/// Every amount computed while processing the first `k` observations fits in 128 bits.
pub open spec fn fold_fits(s: Seq<Observation>, investment: u64, k: nat) -> bool
    decreases k,
{
    if k <= 1 {
        true
    } else {
        &&& fold_fits(s, investment, (k - 1) as nat)
        &&& share_units_after(s, investment, (k - 1) as nat) * s[k - 1].dividend_per_share
            <= u128::MAX
        &&& share_units_after(s, investment, k) <= u128::MAX
        &&& dividend_units_after(s, investment, k) <= u128::MAX
    }
}

/// Value of the final holding at the last closing price, in units of `1 / unit_scale(s)`.
pub open spec fn final_value_units(s: Seq<Observation>, investment: u64) -> int {
    share_units_after(s, investment, s.len()) * s.last().close_price
}

/// Every amount of a whole simulation fits in 128 bits.
pub open spec fn simulation_fits(s: Seq<Observation>, investment: u64) -> bool {
    &&& fold_fits(s, investment, s.len())
    &&& final_value_units(s, investment) * RETURN_SCALE <= u128::MAX
    &&& investment * unit_scale(s) <= u128::MAX
}

/// Total return in millionths of a percent, rounded down.
pub open spec fn total_return_of(s: Seq<Observation>, investment: u64) -> int {
    final_value_units(s, investment) * RETURN_SCALE / (investment * unit_scale(s)) - RETURN_SCALE
}

/// The record of a simulation of a valid series whose amounts fit.
pub open spec fn simulation_result_of(s: Seq<Observation>, investment: u64) -> SimulationResult {
    let shares = share_units_after(s, investment, s.len());
    let dividends = dividend_units_after(s, investment, s.len());
    let value = final_value_units(s, investment);
    SimulationResult {
        initial_investment: investment,
        first_price: s[0].close_price,
        share_units: shares as u128,
        dividend_units: dividends as u128,
        value_units: value as u128,
        total_shares: (shares / s[0].close_price as int) as u128,
        total_dividends_received: (dividends / unit_scale(s)) as u128,
        final_value: (value / unit_scale(s)) as u128,
        total_return_pct: total_return_of(s, investment) as i128,
        elapsed_days: (s.last().day - s[0].day) as u64,
    }
}

/// What `simulate` returns for a series and an initial investment.
pub open spec fn simulation_outcome(s: Seq<Observation>, investment: u64) -> Result<
    SimulationResult,
    SimulationError,
> {
    match validation_error(s, investment) {
        Some(e) => Err(e),
        None => if simulation_fits(s, investment) {
            Ok(simulation_result_of(s, investment))
        } else {
            Err(SimulationError::Overflow)
        },
    }
}

/// A bound on every amount up to some step bounds the amounts of each earlier step.
proof fn lemma_fits_prefix(s: Seq<Observation>, investment: u64, j: nat, k: nat)
    requires
        j <= k,
    ensures
        fold_fits(s, investment, k) ==> fold_fits(s, investment, j),
    decreases k,
{
    if j < k {
        lemma_fits_prefix(s, investment, j, (k - 1) as nat);
    }
}

/// Simulates buying `initial_investment` worth of the security at its first closing price and
/// reinvesting every later dividend at that day's closing price.
pub fn simulate(series: &Vec<Observation>, initial_investment: u64) -> (r: Result<
    SimulationResult,
    SimulationError,
>)
    ensures
        r == simulation_outcome(series@, initial_investment),
{
    match validate(series, initial_investment) {
        Err(e) => {
            return Err(e);
        },
        Ok(()) => {},
    }
    let ghost s = series@;
    let n = series.len();
    let first = series[0];
    let scale: u128 = (first.close_price as u128) * SHARE_SCALE;
    let mut shares: u128 = (initial_investment as u128) * SHARE_SCALE;
    let mut dividends: u128 = 0;
    let mut k: usize = 1;
    while k < n
        invariant
            s == series@,
            n == s.len(),
            1 <= k <= n,
            validation_error(s, initial_investment) is None,
            fold_fits(s, initial_investment, k as nat),
            shares == share_units_after(s, initial_investment, k as nat),
            dividends == dividend_units_after(s, initial_investment, k as nat),
        decreases n - k,
    {
        let obs = series[k];
        assert(s[k as int].close_price > 0);
        proof {
            lemma_fits_prefix(s, initial_investment, (k + 1) as nat, n as nat);
        }
        let cash = match shares.checked_mul(obs.dividend_per_share as u128) {
            Some(c) => c,
            None => {
                return Err(SimulationError::Overflow);
            },
        };
        let bought = cash / (obs.close_price as u128);
        let next_shares = match shares.checked_add(bought) {
            Some(v) => v,
            None => {
                return Err(SimulationError::Overflow);
            },
        };
        let next_dividends = match dividends.checked_add(cash) {
            Some(v) => v,
            None => {
                return Err(SimulationError::Overflow);
            },
        };
        shares = next_shares;
        dividends = next_dividends;
        k += 1;
    }
    let last = series[n - 1];
    let value = match shares.checked_mul(last.close_price as u128) {
        Some(v) => v,
        None => {
            assert(final_value_units(s, initial_investment) * RETURN_SCALE
                > u128::MAX) by (nonlinear_arith)
                requires
                    final_value_units(s, initial_investment) > u128::MAX,
            ;
            return Err(SimulationError::Overflow);
        },
    };
    let scaled = match value.checked_mul(RETURN_SCALE) {
        Some(v) => v,
        None => {
            return Err(SimulationError::Overflow);
        },
    };
    let base = match (initial_investment as u128).checked_mul(scale) {
        Some(v) => v,
        None => {
            return Err(SimulationError::Overflow);
        },
    };
    assert(s[0].close_price > 0);
    assert(base >= 1_000_000) by (nonlinear_arith)
        requires
            base == initial_investment * scale,
            scale == first.close_price * 1_000_000,
            initial_investment >= 1,
            first.close_price >= 1,
    ;
    let ratio = scaled / base;
    assert(ratio <= u128::MAX / 1_000_000) by {
        vstd::arithmetic::div_mod::lemma_div_is_ordered_by_denominator(
            scaled as int,
            1_000_000,
            base as int,
        );
    }
    let total_return_pct = ratio as i128 - RETURN_SCALE as i128;
    if n > 1 {
        assert(s[0].day < s[n - 1].day);
    }
    let elapsed_days = (last.day as i64 - first.day as i64) as u64;
    proof {
        lemma_div_pos_is_pos(shares as int, first.close_price as int);
    }
    Ok(
        SimulationResult {
            initial_investment,
            first_price: first.close_price,
            share_units: shares,
            dividend_units: dividends,
            value_units: value,
            total_shares: shares / (first.close_price as u128),
            total_dividends_received: dividends / scale,
            final_value: value / scale,
            total_return_pct,
            elapsed_days,
        },
    )
}

} // verus!
