//! Properties of the simulation that hold for every series.
use vstd::prelude::*;
use vstd::arithmetic::div_mod::{lemma_div_by_multiple, lemma_div_multiples_vanish_quotient, lemma_div_pos_is_pos};
use crate::series::{Observation, validation_error};
use crate::engine::{
    SHARE_SCALE,
    RETURN_SCALE,
    share_units_after,
    dividend_units_after,
    simulation_outcome,
    unit_scale,
    fold_fits,
    final_value_units,
};

verus! {

/// A series of one observation buys `investment / price` shares, exactly, and nothing else
/// happens: the final value is the investment, the return zero, and no dividend is received.
pub proof fn lemma_single_observation(s: Seq<Observation>, investment: u64)
    requires
        s.len() == 1,
        validation_error(s, investment) is None,
    ensures
        investment * s[0].close_price * SHARE_SCALE * RETURN_SCALE <= u128::MAX
            ==> (simulation_outcome(s, investment) is Ok),
        simulation_outcome(s, investment) is Ok ==> {
            let r = simulation_outcome(s, investment)->Ok_0;
            &&& r.share_units * s[0].close_price == investment * r.denominator()
            &&& r.final_value == investment
            &&& r.total_return_pct == 0
            &&& r.total_dividends_received == 0
            &&& r.dividend_units == 0
        },
{
    let p = s[0].close_price as int;
    let i = investment as int;
    let sc = SHARE_SCALE as int;
    assert(s[0].close_price > 0);
    assert(unit_scale(s) == p * sc);
    assert(share_units_after(s, investment, 1) == i * sc);
    assert(dividend_units_after(s, investment, 1) == 0);
    assert((i * sc) * p == i * (p * sc)) by (nonlinear_arith);
    lemma_div_by_multiple(i, p * sc);
    assert(i * (p * sc) * (RETURN_SCALE as int) == (RETURN_SCALE as int) * (i * (p * sc)))
        by (nonlinear_arith);
    lemma_div_by_multiple(RETURN_SCALE as int, i * (p * sc));
    assert(i * (p * sc) > 0) by (nonlinear_arith)
        requires
            i > 0,
            p > 0,
            sc > 0,
    ;
    lemma_div_pos_is_pos(0, p * sc);
    assert(s.last() == s[0]);
    assert(fold_fits(s, investment, 1));
    assert(final_value_units(s, investment) == i * sc * p);
    assert(i * sc * p * (RETURN_SCALE as int) == i * p * sc * (RETURN_SCALE as int))
        by (nonlinear_arith);
    assert(i * (p * sc) <= i * p * sc * (RETURN_SCALE as int)) by (nonlinear_arith)
        requires
            i >= 0,
            p >= 0,
            sc >= 0,
    ;
}

/// One processed observation never lowers the share count.
proof fn lemma_step_adds_shares(s: Seq<Observation>, investment: u64, k: nat)
    requires
        validation_error(s, investment) is None,
        2 <= k <= s.len(),
        share_units_after(s, investment, (k - 1) as nat) >= 0,
    ensures
        share_units_after(s, investment, (k - 1) as nat) <= share_units_after(s, investment, k),
{
    let n = share_units_after(s, investment, (k - 1) as nat);
    let o = s[k - 1];
    assert(o.close_price > 0);
    assert(n * o.dividend_per_share >= 0) by (nonlinear_arith)
        requires
            n >= 0,
    ;
    lemma_div_pos_is_pos(n * o.dividend_per_share, o.close_price as int);
}

/// Reinvesting dividends never removes shares: the share count after any number of processed
/// observations is at least the count after fewer.
pub proof fn lemma_shares_never_decrease(s: Seq<Observation>, investment: u64, j: nat, k: nat)
    requires
        validation_error(s, investment) is None,
        1 <= j <= k <= s.len(),
    ensures
        0 <= share_units_after(s, investment, j) <= share_units_after(s, investment, k),
    decreases k,
{
    if k > 1 {
        let m: nat = if j < k { j } else { (k - 1) as nat };
        lemma_shares_never_decrease(s, investment, m, (k - 1) as nat);
        lemma_step_adds_shares(s, investment, k);
    }
}

/// Without dividends the share count never changes from the initial purchase.
proof fn lemma_no_dividend_shares(s: Seq<Observation>, investment: u64, k: nat)
    requires
        validation_error(s, investment) is None,
        forall|i: int| 0 <= i < s.len() ==> (#[trigger] s[i]).dividend_per_share == 0,
        1 <= k <= s.len(),
    ensures
        share_units_after(s, investment, k) == investment * SHARE_SCALE,
        dividend_units_after(s, investment, k) == 0,
    decreases k,
{
    if k > 1 {
        lemma_no_dividend_shares(s, investment, (k - 1) as nat);
        assert(s[k - 1].dividend_per_share == 0);
        assert(s[k - 1].close_price > 0);
    }
}

/// Without dividends the simulation is buy-and-hold: the final value is exactly
/// `investment * last_price / first_price`, and its rounded form is that quotient rounded down.
pub proof fn lemma_no_dividends_is_buy_and_hold(s: Seq<Observation>, investment: u64)
    requires
        validation_error(s, investment) is None,
        forall|i: int| 0 <= i < s.len() ==> (#[trigger] s[i]).dividend_per_share == 0,
    ensures
        investment * s.last().close_price * SHARE_SCALE * RETURN_SCALE <= u128::MAX && investment
            * s[0].close_price * SHARE_SCALE <= u128::MAX ==> simulation_outcome(s, investment) is Ok,
        simulation_outcome(s, investment) is Ok ==> {
            let r = simulation_outcome(s, investment)->Ok_0;
            &&& r.value_units * s[0].close_price == investment * s.last().close_price
                * r.denominator()
            &&& r.final_value == investment * s.last().close_price / (s[0].close_price as int)
            &&& r.total_dividends_received == 0
        },
{
    lemma_no_dividend_shares(s, investment, s.len());
    let p = s[0].close_price as int;
    let l = s.last().close_price as int;
    let i = investment as int;
    let sc = SHARE_SCALE as int;
    assert(s[0].close_price > 0);
    assert(s[s.len() - 1].close_price > 0);
    assert(i * sc * l * p == i * l * (p * sc)) by (nonlinear_arith);
    assert(i * sc * l == sc * (i * l)) by (nonlinear_arith);
    assert(p * sc == sc * p) by (nonlinear_arith);
    assert(i * l >= 0) by (nonlinear_arith)
        requires
            i >= 0,
            l >= 0,
    ;
    lemma_div_multiples_vanish_quotient(sc, i * l, p);
    lemma_div_pos_is_pos(0, p * sc);
    assert(i * sc * l * (RETURN_SCALE as int) == i * l * sc * (RETURN_SCALE as int))
        by (nonlinear_arith);
    assert(i * (p * sc) == i * p * sc) by (nonlinear_arith);
    lemma_fits_without_dividends(s, investment, s.len());
}

/// Without dividends every amount of the fold fits in 128 bits.
proof fn lemma_fits_without_dividends(s: Seq<Observation>, investment: u64, k: nat)
    requires
        validation_error(s, investment) is None,
        forall|i: int| 0 <= i < s.len() ==> (#[trigger] s[i]).dividend_per_share == 0,
        1 <= k <= s.len(),
    ensures
        fold_fits(s, investment, k),
    decreases k,
{
    if k > 1 {
        lemma_fits_without_dividends(s, investment, (k - 1) as nat);
        lemma_no_dividend_shares(s, investment, k);
        lemma_no_dividend_shares(s, investment, (k - 1) as nat);
        assert(s[k - 1].dividend_per_share == 0);
        assert(investment * SHARE_SCALE <= u128::MAX) by (nonlinear_arith)
            requires
                investment <= u64::MAX,
        ;
    }
}

/// The outcome of a simulation depends on the series and the investment alone: two runs on
/// equal inputs give equal results.
pub proof fn lemma_simulation_deterministic(s1: Seq<Observation>, s2: Seq<Observation>, investment: u64)
    requires
        s1 == s2,
    ensures
        simulation_outcome(s1, investment) == simulation_outcome(s2, investment),
{
}

} // verus!
