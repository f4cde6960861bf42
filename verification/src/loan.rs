//! The amortization engine: loan parameters, derived rates, the fixed
//! monthly payment, and the month-by-month schedule.
//!
//! Every monetary amount, rate and point count is a fixed-point `i128`
//! (see [`crate::fixed`]): the quantity times [`SCALE`].

use vstd::prelude::*;

use crate::fixed;
use crate::fixed::AMOUNT_MAX;
use crate::fixed::PRODUCT_MAX;
use crate::fixed::RATE_MAX;
use crate::fixed::SCALE;
use crate::fixed::fp_div_ok;
use crate::fixed::fp_div_v;
use crate::fixed::fp_mul_ok;
use crate::fixed::fp_mul_v;
use crate::fixed::fp_pow_ok;
use crate::fixed::fp_pow_v;

verus! {

/// Rate reduction per discount point: 0.0025 (a quarter of a percent),
/// as a fixed-point fraction.
pub const POINT_DISCOUNT: i128 = 2_500_000_000;

/// Months in a year: an annual rate divided by this is the monthly rate.
pub const MONTHS_PER_YEAR: i128 = 12;

/// Length of a loan, from a closed set of offered terms.
#[derive(Clone, Copy, Debug, PartialEq, Eq, Structural)]
pub enum Term {
    ThirtyYears,
    FifteenYears,
    TenYears,
}

impl Term {
    /// Number of monthly payments the term comprises.
    pub open spec fn spec_months(self) -> int {
        match self {
            Term::ThirtyYears => 360,
            Term::FifteenYears => 180,
            Term::TenYears => 120,
        }
    }

    /// Number of monthly payments the term comprises.
    pub fn months(&self) -> (m: u32)
        ensures
            m as int == self.spec_months(),
    {
        match self {
            Term::ThirtyYears => 360,
            Term::FifteenYears => 180,
            Term::TenYears => 120,
        }
    }
}

impl Default for Term {
    /// The default term is thirty years.
    fn default() -> (t: Term)
        ensures
            t == Term::ThirtyYears,
    {
        Term::ThirtyYears
    }
}

/// What went wrong with a schedule computation.
#[derive(Clone, Copy, Debug, PartialEq, Eq, Structural)]
pub enum LoanErrorKind {
    /// The requested month lies beyond the loan's term.
    OutOfRangeError,
    /// The payment or schedule arithmetic cannot produce a value
    /// (a degenerate or out-of-machine-range configuration).
    ComputationError,
}

/// Error returned by the schedule computations.
#[derive(Clone, Copy, Debug, PartialEq, Eq, Structural)]
pub struct LoanError {
    pub kind: LoanErrorKind,
}

/// One row of the amortization table.
#[derive(Clone, Copy, Debug, PartialEq, Eq, Structural)]
pub struct Payment {
    /// 1-based position of the row within the term.
    pub month: u32,
    /// The fixed payment owed every month of the schedule.
    pub total_monthly_payment: i128,
    /// Interest part of this month's payment.
    pub interest_payment: i128,
    /// Principal part of this month's payment.
    pub principal_payment: i128,
    /// Balance still owed after this month's payment.
    pub remaining_principal: i128,
    /// The original principal (home price less down payment), carried on
    /// every row for reference.
    pub starting_principal: i128,
}

/// One mortgage configuration with its derived rates.
#[derive(Clone, Copy, Debug, PartialEq, Eq, Structural)]
pub struct Loan {
    pub home_price: i128,
    pub points: i128,
    pub down_payment: i128,
    pub rate: i128,
    pub rate_with_points: i128,
    pub term: Term,
    pub monthly_rate: i128,
    pub monthly_rate_with_points: i128,
}

impl Default for Loan {
    /// A loan with every quantity zero and the default term.
    fn default() -> (loan: Loan)
        ensures
            loan.home_price == 0,
            loan.points == 0,
            loan.down_payment == 0,
            loan.rate == 0,
            loan.rate_with_points == 0,
            loan.term == Term::ThirtyYears,
            loan.monthly_rate == 0,
            loan.monthly_rate_with_points == 0,
    {
        Loan {
            home_price: 0,
            points: 0,
            down_payment: 0,
            rate: 0,
            rate_with_points: 0,
            term: Term::ThirtyYears,
            monthly_rate: 0,
            monthly_rate_with_points: 0,
        }
    }
}

/// By how much the given discount points reduce the annual rate.
pub open spec fn points_discount(points: int) -> int {
    fp_mul_v(points, POINT_DISCOUNT as int)
}

/// Whether the fixed monthly payment for the given principal, monthly
/// rate and month count can be computed within machine range: every
/// intermediate of the annuity formula (or, at rate zero, the plain
/// division of the principal into equal instalments) stays where the
/// fixed-point operations are defined.
pub open spec fn annuity_ok(principal: int, rate: int, n: int) -> bool {
    if rate == 0 {
        &&& 0 <= principal
        &&& 0 < n
    } else {
        let compound = fp_pow_v((SCALE as int) + rate, n as nat);
        let scaled_rate = fp_mul_v(compound, rate);
        &&& fp_pow_ok((SCALE as int) + rate, n as nat)
        &&& fp_mul_ok(compound, rate)
        &&& fp_div_ok(scaled_rate, compound - (SCALE as int))
        &&& fp_mul_ok(principal, fp_div_v(scaled_rate, compound - (SCALE as int)))
    }
}

/// The fixed monthly payment: the standard annuity formula
/// `principal * (rate * compound) / (compound - 1)` over fixed-point
/// values with `compound = (1 + rate) ^ n`, or `principal / n` when the
/// monthly rate is exactly zero.
pub open spec fn annuity_v(principal: int, rate: int, n: int) -> int {
    if rate == 0 {
        principal / n
    } else {
        let compound = fp_pow_v((SCALE as int) + rate, n as nat);
        let scaled_rate = fp_mul_v(compound, rate);
        fp_mul_v(principal, fp_div_v(scaled_rate, compound - (SCALE as int)))
    }
}

/// State of the amortization after `k` months, as the triple
/// (interest part, principal part, remaining balance). Each month whose
/// starting balance is still positive pays interest on that balance and
/// puts the rest of the fixed payment toward the principal; once the
/// balance stops being positive the state freezes.
pub open spec fn schedule(principal: int, rate: int, payment: int, k: nat) -> (int, int, int)
    decreases k,
{
    if k == 0 {
        (0, 0, principal)
    } else {
        let prev = schedule(principal, rate, payment, (k - 1) as nat);
        if prev.2 > 0 {
            let interest = fp_mul_v(prev.2, rate);
            let toward_principal = payment - interest;
            (interest, toward_principal, prev.2 - toward_principal)
        } else {
            prev
        }
    }
}

/// Whether every interest computation in the first `k` months of the
/// schedule stays where the fixed-point product is defined.
pub open spec fn schedule_ok(principal: int, rate: int, payment: int, k: nat) -> bool
    decreases k,
{
    if k == 0 {
        true
    } else {
        let prev = schedule(principal, rate, payment, (k - 1) as nat);
        &&& schedule_ok(principal, rate, payment, (k - 1) as nat)
        &&& (prev.2 > 0 ==> fp_mul_ok(prev.2, rate))
    }
}

/// A schedule that can be simulated for `k` months can be simulated for
/// any smaller number of months.
pub proof fn lemma_schedule_ok_monotone(principal: int, rate: int, payment: int, j: nat, k: nat)
    requires
        j <= k,
        schedule_ok(principal, rate, payment, k),
    ensures
        schedule_ok(principal, rate, payment, j),
    decreases k,
{
    if j < k {
        lemma_schedule_ok_monotone(principal, rate, payment, j, (k - 1) as nat);
    }
}

/// Law: in any month whose starting balance is still positive, the
/// interest part and the principal part of that month's row sum exactly
/// to the fixed monthly payment. (In the frozen tail of a schedule — a
/// month reached after the balance has stopped being positive — the two
/// parts are carried over unchanged instead, and need not sum to the
/// payment.)
pub proof fn lemma_payment_split(principal: int, rate: int, payment: int, k: nat)
    requires
        1 <= k,
        schedule(principal, rate, payment, (k - 1) as nat).2 > 0,
    ensures
        schedule(principal, rate, payment, k).0 + schedule(principal, rate, payment, k).1
            == payment,
{
}

/// Law: whenever the fixed monthly payment covers the interest owed on
/// the original principal for one month, the remaining balance never
/// exceeds the original principal and never increases from one month to
/// the next.
pub proof fn lemma_remaining_monotone(principal: int, rate: int, payment: int, k: nat)
    requires
        0 <= principal,
        0 <= rate,
        fp_mul_v(principal, rate) <= payment,
    ensures
        schedule(principal, rate, payment, k).2 <= principal,
        schedule(principal, rate, payment, (k + 1) as nat).2 <= schedule(
            principal,
            rate,
            payment,
            k,
        ).2,
    decreases k,
{
    if k > 0 {
        lemma_remaining_monotone(principal, rate, payment, (k - 1) as nat);
    }
    let rem = schedule(principal, rate, payment, k).2;
    if rem > 0 {
        fixed::lemma_fp_mul_v_monotone(rem, principal, rate);
    }
}

/// Law: whenever the fixed monthly payment covers the interest owed on
/// the original principal for one month, the schedule replay stays
/// within machine range for every month, so a breakdown of any in-term
/// month succeeds once the payment itself could be computed.
pub proof fn lemma_schedule_stays_in_range(principal: int, rate: int, payment: int, k: nat)
    requires
        0 <= principal <= AMOUNT_MAX,
        0 <= rate <= RATE_MAX,
        fp_mul_v(principal, rate) <= payment,
    ensures
        schedule_ok(principal, rate, payment, k),
    decreases k,
{
    if k > 0 {
        lemma_schedule_stays_in_range(principal, rate, payment, (k - 1) as nat);
        lemma_remaining_monotone(principal, rate, payment, (k - 1) as nat);
    }
}

/// Whether `row` is the amortization-table row this loan owes for the
/// given month: the requested month number, the fixed monthly payment,
/// the three schedule components after that many months, and the
/// original principal carried for reference.
pub open spec fn payment_row_matches(row: Payment, loan: Loan, with_points: bool, month: u32) -> bool {
    let payment = annuity_v(loan.spec_principal(), loan.spec_selected_rate(with_points), loan.term.spec_months());
    let state = schedule(loan.spec_principal(), loan.spec_selected_rate(with_points), payment, month as nat);
    &&& row.month == month
    &&& row.total_monthly_payment == payment
    &&& row.interest_payment == state.0
    &&& row.principal_payment == state.1
    &&& row.remaining_principal == state.2
    &&& row.starting_principal == loan.spec_principal()
}

impl Loan {
    /// The borrowed amount: home price less down payment.
    pub open spec fn spec_principal(self) -> int {
        self.home_price - self.down_payment
    }

    /// The monthly rate the schedule uses, chosen by the
    /// `with_points` flag.
    pub open spec fn spec_selected_rate(self, with_points: bool) -> int {
        if with_points {
            self.monthly_rate_with_points as int
        } else {
            self.monthly_rate as int
        }
    }

    /// Whether this loan's fixed monthly payment can be computed within
    /// machine range, for the rate chosen by `with_points`.
    pub open spec fn spec_payment_ok(self, with_points: bool) -> bool {
        annuity_ok(
            self.spec_principal(),
            self.spec_selected_rate(with_points),
            self.term.spec_months(),
        )
    }

    /// This loan's fixed monthly payment, for the rate chosen by
    /// `with_points`.
    pub open spec fn spec_monthly_payment(self, with_points: bool) -> int {
        annuity_v(
            self.spec_principal(),
            self.spec_selected_rate(with_points),
            self.term.spec_months(),
        )
    }

    /// The input fields lie in the ranges the engine accepts: amounts are
    /// non-negative and within machine range, the down payment does not
    /// exceed the price, and the points do not reduce the rate below zero.
    pub open spec fn params_wf(self) -> bool {
        &&& 0 <= self.down_payment <= self.home_price <= AMOUNT_MAX
        &&& fp_mul_ok(self.points as int, POINT_DISCOUNT as int)
        &&& 0 <= self.rate <= RATE_MAX
        &&& points_discount(self.points as int) <= self.rate
    }

    /// A well-formed loan: valid inputs, and the four derived rate fields
    /// consistent with `rate`, `points` and the per-point discount.
    pub open spec fn wf(self) -> bool {
        &&& self.params_wf()
        &&& self.monthly_rate == self.rate as int / (MONTHS_PER_YEAR as int)
        &&& self.rate_with_points == self.rate - points_discount(self.points as int)
        &&& self.monthly_rate_with_points == self.rate_with_points as int / (MONTHS_PER_YEAR as int)
    }

    /// Whether the input fields lie in the ranges the engine accepts,
    /// decided at run time (the condition [`Loan::new`] requires).
    pub fn has_valid_parameters(&self) -> (ok: bool)
        ensures
            ok == self.params_wf(),
    {
        let bounds_ok: bool = 0 <= self.down_payment && self.down_payment <= self.home_price
            && self.home_price <= AMOUNT_MAX && 0 <= self.points && self.points <= AMOUNT_MAX && 0
            <= self.rate && self.rate <= RATE_MAX;
        if !bounds_ok {
            return false;
        }
        match fixed::fp_mul(self.points, POINT_DISCOUNT) {
            Some(discount) => discount <= self.rate,
            None => false,
        }
    }

    /// Derive the four rate fields from `rate` and `points`, keeping the
    /// other fields: the monthly rate is the annual rate split over
    /// twelve months, and each discount point lowers the annual rate by
    /// [`POINT_DISCOUNT`].
    pub fn new(self) -> (loan: Loan)
        requires
            self.params_wf(),
        ensures
            loan.wf(),
            loan.home_price == self.home_price,
            loan.down_payment == self.down_payment,
            loan.points == self.points,
            loan.rate == self.rate,
            loan.term == self.term,
    {
        let discount: i128 = fixed::fp_mul_unchecked(self.points, POINT_DISCOUNT);
        let rate_with_points: i128 = self.rate - discount;
        Loan {
            monthly_rate: fixed::div_nonneg(self.rate, MONTHS_PER_YEAR),
            rate_with_points,
            monthly_rate_with_points: fixed::div_nonneg(rate_with_points, MONTHS_PER_YEAR),
            ..self
        }
    }

    /// Replace the annual rate and re-derive all four dependent rate
    /// fields, so the loan stays consistent with the new rate.
    pub fn change_rate(&mut self, rate: i128)
        requires
            old(self).wf(),
            0 <= rate <= RATE_MAX,
            points_discount(old(self).points as int) <= rate,
        ensures
            final(self).wf(),
            final(self).rate == rate,
            final(self).monthly_rate == rate as int / (MONTHS_PER_YEAR as int),
            final(self).rate_with_points == rate - points_discount(old(self).points as int),
            final(self).monthly_rate_with_points == final(self).rate_with_points as int
                / (MONTHS_PER_YEAR as int),
            final(self).home_price == old(self).home_price,
            final(self).down_payment == old(self).down_payment,
            final(self).points == old(self).points,
            final(self).term == old(self).term,
    {
        self.rate = rate;
        let discount: i128 = fixed::fp_mul_unchecked(self.points, POINT_DISCOUNT);
        self.rate_with_points = self.rate - discount;
        self.monthly_rate = fixed::div_nonneg(self.rate, MONTHS_PER_YEAR);
        self.monthly_rate_with_points = fixed::div_nonneg(self.rate_with_points, MONTHS_PER_YEAR);
    }

    /// The fixed payment owed every month of the schedule, by the
    /// standard annuity formula over the term's months (or the principal
    /// split into equal instalments when the monthly rate is zero), and
    /// `None` exactly when that computation leaves machine range.
    pub fn get_total_payment_each_month(&self, with_points: bool) -> (r: Option<i128>)
        requires
            self.wf(),
        ensures
            (r is Some) == self.spec_payment_ok(with_points),
            r matches Some(v) ==> v == self.spec_monthly_payment(with_points) && 0 <= v
                <= PRODUCT_MAX,
    {
        let months: u32 = self.term.months();
        let rate: i128 = if with_points {
            self.monthly_rate_with_points
        } else {
            self.monthly_rate
        };
        let principal: i128 = self.home_price - self.down_payment;
        if rate == 0 {
            return Some(fixed::div_nonneg(principal, months as i128));
        }
        let base: i128 = SCALE + rate;
        let compound: i128 = match fixed::fp_pow(base, months) {
            Some(c) => c,
            None => {
                return None;
            },
        };
        let scaled_rate: i128 = match fixed::fp_mul(compound, rate) {
            Some(v) => v,
            None => {
                return None;
            },
        };
        let ratio: i128 = match fixed::fp_div(scaled_rate, compound - SCALE) {
            Some(v) => v,
            None => {
                return None;
            },
        };
        match fixed::fp_mul(principal, ratio) {
            Some(v) => Some(v),
            None => None,
        }
    }

    /// The amortization-table row for the given month: replay the
    /// schedule from the first month and report the interest part, the
    /// principal part and the remaining balance where the replay stops.
    /// A month beyond the term is rejected with
    /// [`LoanErrorKind::OutOfRangeError`]; a configuration whose payment
    /// or schedule arithmetic leaves machine range is rejected with
    /// [`LoanErrorKind::ComputationError`].
    pub fn get_payment_breakdown_for_month(&self, month: u32, with_points: bool) -> (r: Result<
        Payment,
        LoanError,
    >)
        requires
            self.wf(),
        ensures
            month as int > self.term.spec_months() ==> r == Err::<Payment, LoanError>(
                LoanError { kind: LoanErrorKind::OutOfRangeError },
            ),
            month as int <= self.term.spec_months() && !self.spec_payment_ok(with_points) ==> r
                == Err::<Payment, LoanError>(LoanError { kind: LoanErrorKind::ComputationError }),
            month as int <= self.term.spec_months() && self.spec_payment_ok(with_points)
                && !schedule_ok(
                self.spec_principal(),
                self.spec_selected_rate(with_points),
                self.spec_monthly_payment(with_points),
                month as nat,
            ) ==> r == Err::<Payment, LoanError>(
                LoanError { kind: LoanErrorKind::ComputationError },
            ),
            month as int <= self.term.spec_months() && self.spec_payment_ok(with_points)
                && schedule_ok(
                self.spec_principal(),
                self.spec_selected_rate(with_points),
                self.spec_monthly_payment(with_points),
                month as nat,
            ) ==> (r matches Ok(row) && payment_row_matches(row, *self, with_points, month)),
    {
        match self.check_month_with_term(month) {
            Ok(_) => (),
            Err(e) => {
                return Err(e);
            },
        }
        let mut remaining_principal: i128 = self.home_price - self.down_payment;
        let mut interest_payment: i128 = 0;

        let total_payment_for_each_month: i128 = match self.get_total_payment_each_month(
            with_points,
        ) {
            Some(val) => val,
            None => {
                return Err(LoanError { kind: LoanErrorKind::ComputationError });
            },
        };

        let mut principal_payment: i128 = 0;

        let rate: i128 = if with_points {
            self.monthly_rate_with_points
        } else {
            self.monthly_rate
        };

        let ghost principal: int = self.spec_principal();
        let mut k: u32 = 0;
        while k < month
            invariant
                self.wf(),
                k <= month,
                month as int <= self.term.spec_months(),
                principal == self.spec_principal(),
                rate == self.spec_selected_rate(with_points),
                total_payment_for_each_month == self.spec_monthly_payment(with_points),
                0 <= total_payment_for_each_month <= PRODUCT_MAX,
                schedule_ok(principal, rate as int, total_payment_for_each_month as int, k as nat),
                interest_payment == schedule(
                    principal,
                    rate as int,
                    total_payment_for_each_month as int,
                    k as nat,
                ).0,
                principal_payment == schedule(
                    principal,
                    rate as int,
                    total_payment_for_each_month as int,
                    k as nat,
                ).1,
                remaining_principal == schedule(
                    principal,
                    rate as int,
                    total_payment_for_each_month as int,
                    k as nat,
                ).2,
                0 <= interest_payment <= PRODUCT_MAX,
                -PRODUCT_MAX <= principal_payment <= PRODUCT_MAX,
                -PRODUCT_MAX <= remaining_principal <= AMOUNT_MAX + PRODUCT_MAX,
            decreases month - k,
        {
            if remaining_principal > 0 {
                match fixed::fp_mul(remaining_principal, rate) {
                    Some(interest) => {
                        interest_payment = interest;
                        principal_payment = total_payment_for_each_month - interest_payment;
                        remaining_principal = remaining_principal - principal_payment;
                    },
                    None => {
                        proof {
                            assert(!schedule_ok(
                                principal,
                                rate as int,
                                total_payment_for_each_month as int,
                                (k + 1) as nat,
                            ));
                            if schedule_ok(
                                principal,
                                rate as int,
                                total_payment_for_each_month as int,
                                month as nat,
                            ) {
                                lemma_schedule_ok_monotone(
                                    principal,
                                    rate as int,
                                    total_payment_for_each_month as int,
                                    (k + 1) as nat,
                                    month as nat,
                                );
                            }
                        }
                        return Err(LoanError { kind: LoanErrorKind::ComputationError });
                    },
                }
            }
            k = k + 1;
        }

        Ok(
            Payment {
                month,
                total_monthly_payment: total_payment_for_each_month,
                interest_payment,
                principal_payment,
                remaining_principal,
                starting_principal: self.home_price - self.down_payment,
            },
        )
    }

    /// The whole amortization table: one row per month from the first
    /// month through the end of the term, each row exactly what
    /// [`Loan::get_payment_breakdown_for_month`] reports for its month.
    /// The table is produced in one forward pass over the schedule; a
    /// configuration whose arithmetic leaves machine range is rejected
    /// with [`LoanErrorKind::ComputationError`].
    pub fn get_amortization_table(&self, with_points: bool) -> (r: Result<Vec<Payment>, LoanError>)
        requires
            self.wf(),
        ensures
            !self.spec_payment_ok(with_points) ==> r == Err::<Vec<Payment>, LoanError>(
                LoanError { kind: LoanErrorKind::ComputationError },
            ),
            self.spec_payment_ok(with_points) && !schedule_ok(
                self.spec_principal(),
                self.spec_selected_rate(with_points),
                self.spec_monthly_payment(with_points),
                self.term.spec_months() as nat,
            ) ==> r == Err::<Vec<Payment>, LoanError>(
                LoanError { kind: LoanErrorKind::ComputationError },
            ),
            self.spec_payment_ok(with_points) && schedule_ok(
                self.spec_principal(),
                self.spec_selected_rate(with_points),
                self.spec_monthly_payment(with_points),
                self.term.spec_months() as nat,
            ) ==> (r matches Ok(rows) && rows.len() == self.term.spec_months() && (forall|m: int|
                0 <= m < rows.len() ==> payment_row_matches(
                    #[trigger] rows[m],
                    *self,
                    with_points,
                    (m + 1) as u32,
                ))),
    {
        let max_months: u32 = self.term.months();

        let total_payment_for_each_month: i128 = match self.get_total_payment_each_month(
            with_points,
        ) {
            Some(val) => val,
            None => {
                return Err(LoanError { kind: LoanErrorKind::ComputationError });
            },
        };

        let rate: i128 = if with_points {
            self.monthly_rate_with_points
        } else {
            self.monthly_rate
        };
        let starting_principal: i128 = self.home_price - self.down_payment;

        let mut remaining_principal: i128 = starting_principal;
        let mut interest_payment: i128 = 0;
        let mut principal_payment: i128 = 0;
        let mut rows: Vec<Payment> = Vec::new();

        let ghost principal: int = self.spec_principal();
        let mut k: u32 = 0;
        while k < max_months
            invariant
                self.wf(),
                k <= max_months,
                max_months as int == self.term.spec_months(),
                principal == self.spec_principal(),
                starting_principal == principal,
                rate == self.spec_selected_rate(with_points),
                total_payment_for_each_month == self.spec_monthly_payment(with_points),
                0 <= total_payment_for_each_month <= PRODUCT_MAX,
                schedule_ok(principal, rate as int, total_payment_for_each_month as int, k as nat),
                interest_payment == schedule(
                    principal,
                    rate as int,
                    total_payment_for_each_month as int,
                    k as nat,
                ).0,
                principal_payment == schedule(
                    principal,
                    rate as int,
                    total_payment_for_each_month as int,
                    k as nat,
                ).1,
                remaining_principal == schedule(
                    principal,
                    rate as int,
                    total_payment_for_each_month as int,
                    k as nat,
                ).2,
                0 <= interest_payment <= PRODUCT_MAX,
                -PRODUCT_MAX <= principal_payment <= PRODUCT_MAX,
                -PRODUCT_MAX <= remaining_principal <= AMOUNT_MAX + PRODUCT_MAX,
                rows.len() == k,
                forall|m: int|
                    0 <= m < rows.len() ==> payment_row_matches(
                        #[trigger] rows[m],
                        *self,
                        with_points,
                        (m + 1) as u32,
                    ),
            decreases max_months - k,
        {
            if remaining_principal > 0 {
                match fixed::fp_mul(remaining_principal, rate) {
                    Some(interest) => {
                        interest_payment = interest;
                        principal_payment = total_payment_for_each_month - interest_payment;
                        remaining_principal = remaining_principal - principal_payment;
                    },
                    None => {
                        proof {
                            assert(!schedule_ok(
                                principal,
                                rate as int,
                                total_payment_for_each_month as int,
                                (k + 1) as nat,
                            ));
                            if schedule_ok(
                                principal,
                                rate as int,
                                total_payment_for_each_month as int,
                                max_months as nat,
                            ) {
                                lemma_schedule_ok_monotone(
                                    principal,
                                    rate as int,
                                    total_payment_for_each_month as int,
                                    (k + 1) as nat,
                                    max_months as nat,
                                );
                            }
                        }
                        return Err(LoanError { kind: LoanErrorKind::ComputationError });
                    },
                }
            }
            k = k + 1;
            rows.push(
                Payment {
                    month: k,
                    total_monthly_payment: total_payment_for_each_month,
                    interest_payment,
                    principal_payment,
                    remaining_principal,
                    starting_principal,
                },
            );
        }
        Ok(rows)
    }

    /// Accept a month that lies within the loan's term and reject a later
    /// one with [`LoanErrorKind::OutOfRangeError`].
    fn check_month_with_term(&self, month: u32) -> (r: Result<bool, LoanError>)
        ensures
            month as int <= self.term.spec_months() ==> r == Ok::<bool, LoanError>(true),
            month as int > self.term.spec_months() ==> r == Err::<bool, LoanError>(
                LoanError { kind: LoanErrorKind::OutOfRangeError },
            ),
    {
        let max_months: u32 = self.term.months();
        if month > max_months {
            Err(LoanError { kind: LoanErrorKind::OutOfRangeError })
        } else {
            Ok(true)
        }
    }
}

} // verus!
