//! Fixed-rate mortgage amortization engine.
//!
//! All monetary amounts and rates are fixed-point values: an `i128` holding
//! the quantity scaled by [`fixed::SCALE`] (twelve fractional decimal
//! digits). The engine derives effective rates from discount points,
//! computes the fixed monthly payment with the standard annuity formula,
//! and produces the month-by-month amortization schedule.

pub mod fixed;
pub mod loan;
