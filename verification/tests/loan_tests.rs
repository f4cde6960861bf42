use amortization::fixed::SCALE;
use amortization::loan::{Loan, LoanError, LoanErrorKind, Payment, Term};

/// The first reference configuration: 6.75% rate, no points, $747,500
/// price, $75,000 down, thirty-year term.
fn plain_loan() -> Loan {
    Loan {
        rate: 67_500_000_000, // 0.0675
        points: 0,
        home_price: 747_500 * SCALE,
        down_payment: 75_000 * SCALE,
        term: Term::ThirtyYears,
        ..Loan::default()
    }
    .new()
}

/// The second reference configuration: 7.00% rate, 1.125 points, same
/// price, down payment and term.
fn pointed_loan() -> Loan {
    Loan {
        rate: 70_000_000_000,      // 0.07
        points: 1_125_000_000_000, // 1.125
        home_price: 747_500 * SCALE,
        down_payment: 75_000 * SCALE,
        term: Term::ThirtyYears,
        ..Loan::default()
    }
    .new()
}

fn dollars(fixed_point: i128) -> f64 {
    (fixed_point as f64) / (SCALE as f64)
}

#[test]
fn term_month_counts() {
    assert_eq!(Term::ThirtyYears.months(), 360);
    assert_eq!(Term::FifteenYears.months(), 180);
    assert_eq!(Term::TenYears.months(), 120);
    assert_eq!(Term::default(), Term::ThirtyYears);
}

#[test]
fn default_loan_is_zeroed() {
    let loan = Loan::default();
    assert_eq!(loan.home_price, 0);
    assert_eq!(loan.down_payment, 0);
    assert_eq!(loan.points, 0);
    assert_eq!(loan.rate, 0);
    assert_eq!(loan.term, Term::ThirtyYears);
}

#[test]
fn monthly_rate_is_annual_rate_over_twelve() {
    let loan = plain_loan();
    // 0.0675 / 12 = 0.005625
    assert_eq!(loan.monthly_rate, 5_625_000_000);
    // no points: the with-points fields coincide with the plain ones
    assert_eq!(loan.rate_with_points, loan.rate);
    assert_eq!(loan.monthly_rate_with_points, loan.monthly_rate);
}

#[test]
fn rate_derivation_with_points() {
    let loan = pointed_loan();
    // 0.07 - 1.125 * 0.0025 = 0.0671875, exactly representable
    assert_eq!(loan.rate_with_points, 67_187_500_000);
    // 0.0671875 / 12, rounded down to the fixed-point grid
    assert_eq!(loan.monthly_rate_with_points, 67_187_500_000 / 12);
    assert_eq!(loan.rate, 70_000_000_000);
    assert_eq!(loan.monthly_rate, 70_000_000_000 / 12);
}

#[test]
fn parameter_validation() {
    let good = Loan {
        rate: 67_500_000_000,
        home_price: 747_500 * SCALE,
        down_payment: 75_000 * SCALE,
        ..Loan::default()
    };
    assert!(good.has_valid_parameters());

    let down_exceeds_price = Loan {
        home_price: 100 * SCALE,
        down_payment: 200 * SCALE,
        ..Loan::default()
    };
    assert!(!down_exceeds_price.has_valid_parameters());

    let negative_rate = Loan {
        rate: -1,
        home_price: 100 * SCALE,
        ..Loan::default()
    };
    assert!(!negative_rate.has_valid_parameters());

    let points_exceed_rate = Loan {
        rate: 1_000_000_000, // 0.001
        points: 2 * SCALE,   // reduces the rate by 0.005
        home_price: 100 * SCALE,
        ..Loan::default()
    };
    assert!(!points_exceed_rate.has_valid_parameters());
}

#[test]
fn monthly_payment_matches_annuity_formula() {
    let loan = plain_loan();
    let payment = loan.get_total_payment_each_month(false).unwrap();

    // principal = 747500 - 75000 = 672500, r = 0.0675 / 12, n = 360
    let r: f64 = 0.0675 / 12.0;
    let compound: f64 = (1.0 + r).powf(360.0);
    let expected: f64 = 672_500.0 * ((r * compound) / (compound - 1.0));

    assert!((dollars(payment) - expected).abs() < 0.001);
}

#[test]
fn zero_rate_payment_is_principal_over_months() {
    let loan = Loan {
        home_price: 360_000 * SCALE,
        down_payment: 0,
        ..Loan::default()
    }
    .new();
    let payment = loan.get_total_payment_each_month(false).unwrap();
    assert_eq!(payment, 1_000 * SCALE);
}

#[test]
fn interest_and_principal_sum_to_payment() {
    let loan = plain_loan();
    let total = loan.get_total_payment_each_month(false).unwrap();
    let row = loan.get_payment_breakdown_for_month(9, false).unwrap();
    assert!(row.remaining_principal > 0);
    assert_eq!(row.interest_payment + row.principal_payment, total);
    assert_eq!(row.total_monthly_payment, total);
    assert_eq!(row.month, 9);
    assert_eq!(row.starting_principal, 672_500 * SCALE);
}

#[test]
fn remaining_principal_never_increases() {
    let loan = plain_loan();
    let mut previous = loan.get_payment_breakdown_for_month(1, false).unwrap();
    for month in 2..=360u32 {
        let row = loan.get_payment_breakdown_for_month(month, false).unwrap();
        assert!(row.remaining_principal <= previous.remaining_principal);
        previous = row;
    }
}

#[test]
fn balance_retired_at_end_of_term() {
    let loan = plain_loan();
    let last = loan.get_payment_breakdown_for_month(360, false).unwrap();
    // approximately zero: within a cent
    assert!(dollars(last.remaining_principal).abs() < 0.01);
}

#[test]
fn month_past_term_is_out_of_range() {
    let loan = plain_loan();
    let err = loan.get_payment_breakdown_for_month(361, false).unwrap_err();
    assert_eq!(
        err,
        LoanError {
            kind: LoanErrorKind::OutOfRangeError
        }
    );

    let short = Loan {
        term: Term::TenYears,
        ..plain_loan()
    };
    assert!(short.get_payment_breakdown_for_month(120, false).is_ok());
    let err = short.get_payment_breakdown_for_month(121, false).unwrap_err();
    assert_eq!(err.kind, LoanErrorKind::OutOfRangeError);
}

#[test]
fn month_zero_reports_the_untouched_balance() {
    let loan = plain_loan();
    let row = loan.get_payment_breakdown_for_month(0, false).unwrap();
    assert_eq!(row.month, 0);
    assert_eq!(row.interest_payment, 0);
    assert_eq!(row.principal_payment, 0);
    assert_eq!(row.remaining_principal, 672_500 * SCALE);
}

#[test]
fn zero_principal_schedule_is_frozen() {
    let loan = Loan {
        rate: 67_500_000_000,
        home_price: 100_000 * SCALE,
        down_payment: 100_000 * SCALE,
        ..Loan::default()
    }
    .new();
    let row = loan.get_payment_breakdown_for_month(5, false).unwrap();
    assert_eq!(row.interest_payment, 0);
    assert_eq!(row.principal_payment, 0);
    assert_eq!(row.remaining_principal, 0);
    assert_eq!(row.total_monthly_payment, 0);
}

#[test]
fn absurd_rate_is_a_computation_error() {
    // 1000% annual interest: the compounding factor leaves machine range
    let loan = Loan {
        rate: 10_000_000_000_000,
        home_price: 747_500 * SCALE,
        down_payment: 75_000 * SCALE,
        ..Loan::default()
    }
    .new();
    assert!(loan.get_total_payment_each_month(false).is_none());
    let err = loan.get_payment_breakdown_for_month(1, false).unwrap_err();
    assert_eq!(err.kind, LoanErrorKind::ComputationError);
    let err = loan.get_amortization_table(false).unwrap_err();
    assert_eq!(err.kind, LoanErrorKind::ComputationError);
}

#[test]
fn table_matches_per_month_breakdown() {
    let loan = plain_loan();
    let rows: Vec<Payment> = loan.get_amortization_table(false).unwrap();
    assert_eq!(rows.len(), 360);
    for (i, row) in rows.iter().enumerate() {
        assert_eq!(row.month as usize, i + 1);
    }
    for month in [1u32, 9, 100, 359, 360] {
        let single = loan.get_payment_breakdown_for_month(month, false).unwrap();
        assert_eq!(rows[(month - 1) as usize], single);
    }
}

#[test]
fn with_points_table_uses_the_discounted_rate() {
    let loan = pointed_loan();
    let with_points = loan.get_total_payment_each_month(true).unwrap();
    let without = loan.get_total_payment_each_month(false).unwrap();
    assert!(with_points < without);

    let rows = loan.get_amortization_table(true).unwrap();
    assert_eq!(rows.len(), 360);
    assert_eq!(rows[0].total_monthly_payment, with_points);
    // first month's interest: principal * discounted monthly rate
    let expected_interest =
        (672_500 * SCALE as i128) * (67_187_500_000 / 12) / SCALE;
    assert_eq!(rows[0].interest_payment, expected_interest);
}

#[test]
fn change_rate_rederives_every_rate_field() {
    let mut loan = pointed_loan();
    loan.change_rate(67_500_000_000); // 6.75%
    assert_eq!(loan.rate, 67_500_000_000);
    assert_eq!(loan.monthly_rate, 67_500_000_000 / 12);
    // the points-adjusted fields follow the new rate as well
    assert_eq!(loan.rate_with_points, 67_500_000_000 - 2_812_500_000);
    assert_eq!(loan.monthly_rate_with_points, (67_500_000_000 - 2_812_500_000) / 12);
    // everything else is untouched
    assert_eq!(loan.home_price, 747_500 * SCALE);
    assert_eq!(loan.down_payment, 75_000 * SCALE);
    assert_eq!(loan.points, 1_125_000_000_000);
    assert_eq!(loan.term, Term::ThirtyYears);
}
