//! Dividend reinvestment (DRIP) simulation over a historical price and dividend series.
//!
//! Money is held as whole millionths of a currency unit. Share counts are held exactly as
//! integer units of `1 / (first_price * SHARE_SCALE)` of a share, so that the only rounding in
//! a simulation is the truncation of each reinvested purchase to that unit.

pub mod calendar;
pub mod series;
pub mod engine;
pub mod laws;
pub mod comparison;

pub use calendar::day_number;
pub use comparison::{compare, ComparisonResult};
pub use engine::{simulate, SimulationResult, RETURN_SCALE, SHARE_SCALE};
pub use series::{validate, Observation, SimulationError, MONEY_SCALE};
