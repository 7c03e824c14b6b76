use drip_calculator::{
    compare, day_number, simulate, validate, Observation, SimulationError, SimulationResult,
    MONEY_SCALE,
};

fn dollars(d: u64) -> u64 {
    d * MONEY_SCALE
}

fn obs(year: i32, month: u32, day: u32, price: u64, dividend: u64) -> Observation {
    Observation {
        day: day_number(year, month, day).unwrap(),
        close_price: price,
        dividend_per_share: dividend,
    }
}

fn as_dollars(micros: u128) -> f64 {
    micros as f64 / 1_000_000.0
}

fn as_percent(micro_pct: i128) -> f64 {
    micro_pct as f64 / 1_000_000.0
}

#[test]
fn no_dividend_year() {
    let series = vec![
        obs(2023, 1, 1, dollars(100), 0),
        obs(2023, 12, 31, dollars(110), 0),
    ];
    let r = simulate(&series, dollars(10_000)).unwrap();
    assert_eq!(r.total_shares, 100_000_000);
    assert_eq!(r.final_value, 11_000_000_000);
    assert_eq!(r.total_return_pct, 10_000_000);
    assert_eq!(r.total_dividends_received, 0);
    assert_eq!(r.elapsed_days, 364);
}

#[test]
fn one_dividend_year() {
    let series = vec![
        obs(2023, 1, 1, dollars(100), 0),
        obs(2023, 7, 1, dollars(105), dollars(1)),
        obs(2023, 12, 31, dollars(110), 0),
    ];
    let r = simulate(&series, dollars(10_000)).unwrap();
    assert_eq!(r.total_dividends_received, 100_000_000);
    assert_eq!(r.total_shares, 100_952_380);
    assert!((as_dollars(r.final_value) - 11_104.76).abs() < 0.005);
    assert!((as_percent(r.total_return_pct) - 11.05).abs() < 0.005);
    assert_eq!(r.final_value, 11_104_761_904);
    assert_eq!(r.total_return_pct, 11_047_619);
}

#[test]
fn empty_series_is_rejected() {
    assert_eq!(simulate(&vec![], dollars(10_000)), Err(SimulationError::EmptySeries));
}

#[test]
fn zero_price_is_rejected() {
    let series = vec![
        obs(2023, 1, 1, dollars(100), 0),
        obs(2023, 1, 2, 0, 0),
    ];
    assert_eq!(simulate(&series, dollars(10_000)), Err(SimulationError::NonPositivePrice));
    let first_zero = vec![obs(2023, 1, 1, 0, 0)];
    assert_eq!(simulate(&first_zero, dollars(10_000)), Err(SimulationError::NonPositivePrice));
}

#[test]
fn zero_investment_is_rejected() {
    let series = vec![obs(2023, 1, 1, dollars(100), 0)];
    assert_eq!(simulate(&series, 0), Err(SimulationError::NonPositiveInvestment));
}

#[test]
fn unsorted_or_repeated_dates_are_rejected() {
    let backwards = vec![
        obs(2023, 2, 1, dollars(100), 0),
        obs(2023, 1, 1, dollars(100), 0),
    ];
    assert_eq!(simulate(&backwards, dollars(1)), Err(SimulationError::UnsortedDates));
    let repeated = vec![
        obs(2023, 1, 1, dollars(100), 0),
        obs(2023, 1, 1, dollars(101), 0),
    ];
    assert_eq!(validate(&repeated, dollars(1)), Err(SimulationError::UnsortedDates));
}

#[test]
fn validation_order_empty_before_investment() {
    assert_eq!(validate(&vec![], 0), Err(SimulationError::EmptySeries));
    assert_eq!(validate(&vec![obs(2023, 1, 1, 0, 0)], 0), Err(SimulationError::NonPositiveInvestment));
    assert_eq!(validate(&vec![obs(2023, 1, 1, 5, 0)], 7), Ok(()));
}

#[test]
fn oversized_amounts_report_overflow() {
    let series = vec![
        obs(2023, 1, 1, 1, 0),
        obs(2023, 1, 2, 1, u64::MAX),
    ];
    assert_eq!(simulate(&series, u64::MAX), Err(SimulationError::Overflow));
}

#[test]
fn single_observation_keeps_investment() {
    let series = vec![obs(2020, 6, 15, dollars(3), dollars(2))];
    let r = simulate(&series, dollars(10_000)).unwrap();
    assert_eq!(r.final_value, 10_000_000_000);
    assert_eq!(r.total_return_pct, 0);
    assert_eq!(r.total_dividends_received, 0);
    assert_eq!(r.total_shares, 3_333_333_333);
    assert_eq!(r.share_units * dollars(3) as u128, dollars(10_000) as u128 * r.first_price as u128 * 1_000_000);
    assert_eq!(r.elapsed_days, 0);
}

#[test]
fn shares_never_decrease_along_the_series() {
    let series = vec![
        obs(2022, 1, 3, dollars(50), 0),
        obs(2022, 3, 1, dollars(48), 250_000),
        obs(2022, 6, 1, dollars(52), 0),
        obs(2022, 9, 1, dollars(47), 260_000),
        obs(2022, 12, 1, dollars(55), 270_000),
    ];
    let mut previous: u128 = 0;
    for k in 1..=series.len() {
        let r = simulate(&series[..k].to_vec(), dollars(1_000)).unwrap();
        assert!(r.share_units >= previous);
        previous = r.share_units;
    }
    assert!(previous > dollars(1_000) as u128 * 1_000_000);
}

#[test]
fn no_dividends_reduces_to_buy_and_hold() {
    let series = vec![
        obs(2021, 1, 4, dollars(3), 0),
        obs(2021, 5, 4, dollars(9), 0),
        obs(2021, 9, 4, dollars(7), 0),
    ];
    let r = simulate(&series, dollars(10_000)).unwrap();
    assert_eq!(r.final_value, 23_333_333_333);
    assert_eq!(r.value_units * 3_000_000, 10_000_000_000u128 * 7_000_000 * (3_000_000 * 1_000_000));
}

#[test]
fn simulating_twice_gives_identical_results() {
    let series = vec![
        obs(2023, 1, 1, dollars(100), 0),
        obs(2023, 7, 1, dollars(105), dollars(1)),
        obs(2023, 12, 31, dollars(110), 0),
    ];
    assert_eq!(simulate(&series, dollars(10_000)), simulate(&series, dollars(10_000)));
}

#[test]
fn dividend_on_first_day_is_not_received() {
    let series = vec![
        obs(2023, 1, 1, dollars(100), dollars(5)),
        obs(2023, 1, 2, dollars(100), 0),
    ];
    let r = simulate(&series, dollars(100)).unwrap();
    assert_eq!(r.total_dividends_received, 0);
    assert_eq!(r.final_value, 100_000_000);
}

#[test]
fn losing_position_has_negative_return() {
    let series = vec![
        obs(2023, 1, 1, dollars(100), 0),
        obs(2023, 1, 31, dollars(75), 0),
    ];
    let r = simulate(&series, dollars(1_000)).unwrap();
    assert_eq!(r.final_value, 750_000_000);
    assert_eq!(r.total_return_pct, -25_000_000);
    assert_eq!(r.elapsed_days, 30);
}

fn with_final_value(final_value: u128) -> SimulationResult {
    SimulationResult {
        initial_investment: 10_000_000_000,
        first_price: 100_000_000,
        share_units: 0,
        dividend_units: 0,
        value_units: 0,
        total_shares: 0,
        total_dividends_received: 0,
        final_value,
        total_return_pct: 0,
        elapsed_days: 0,
    }
}

#[test]
fn comparison_against_benchmark() {
    let stock = with_final_value(11_104_760_000);
    let benchmark = with_final_value(11_000_000_000);
    let c = compare(&stock, &benchmark).unwrap();
    assert_eq!(c.absolute_diff, 104_760_000);
    assert_eq!(c.relative_diff_pct, 952_363);
    assert!((as_percent(c.relative_diff_pct) - 0.95).abs() < 0.005);
}

#[test]
fn comparison_underperforming_and_degenerate() {
    let c = compare(&with_final_value(900), &with_final_value(1_000)).unwrap();
    assert_eq!(c.absolute_diff, -100);
    assert_eq!(c.relative_diff_pct, -10_000_000);
    assert_eq!(compare(&with_final_value(900), &with_final_value(0)), None);
}

#[test]
fn calendar_day_numbers() {
    assert_eq!(day_number(1970, 1, 1), Some(719_163));
    assert_eq!(day_number(1, 1, 1), Some(1));
    assert_eq!(day_number(2023, 2, 29), None);
    assert_eq!(day_number(2023, 13, 1), None);
    assert_eq!(day_number(2024, 3, 1).unwrap() - day_number(2024, 2, 1).unwrap(), 29);
}
