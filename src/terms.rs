use vstd::prelude::*;

use crate::primitives::{Satoshis, UsdCents, DAYS_PER_YEAR, SATS_PER_BTC, SECONDS_PER_DAY};

verus! {

/// Largest amount of cents this library handles in one balance; sums of a
/// year of accruals over such a balance still fit in 64 bits.
pub const MAX_USD_CENTS: u64 = 9007199254740992;

/// Largest facility duration, in days.
pub const MAX_DURATION_DAYS: u64 = 36500;

/// Largest annual interest rate, in basis points (100%).
pub const MAX_ANNUAL_RATE_BPS: u64 = 10000;

/// Price of one bitcoin, in US cents.
pub type PriceOfOneBtc = u64;

/// A collateral-value-to-loan ratio, in whole percent (140 means 140%).
pub type CvlPct = u64;

/// The terms a facility was approved under.
#[derive(Debug, Clone, Copy, PartialEq, Eq, Structural)]
pub struct TermValues {
    /// Yearly interest rate in basis points, accrued on a 365-day year.
    pub annual_rate_bps: u64,
    /// Facility duration in days, from activation to maturity.
    pub duration_days: u64,
    /// Length of one accrual sub-period, in days.
    pub accrual_interval_days: u64,
    /// Length of one accrual cycle, in days (at most 366); each cycle ends in
    /// one obligation.
    pub accrual_cycle_interval_days: u64,
    /// Days after its due date at which an obligation becomes overdue.
    pub obligation_overdue_days: u64,
    /// One-time structuring fee, in basis points of the facility amount.
    pub one_time_fee_rate_bps: u64,
    /// Below this CVL the facility is liquidated.
    pub liquidation_cvl: CvlPct,
    /// Below this CVL a margin call is raised and no disbursal is allowed.
    pub margin_call_cvl: CvlPct,
    /// CVL required of the collateral when the facility is approved.
    pub initial_cvl: CvlPct,
}

impl TermValues {
    pub open spec fn valid(&self) -> bool {
        &&& 0 < self.accrual_interval_days <= DAYS_PER_YEAR
        &&& 0 < self.accrual_cycle_interval_days <= 366
        &&& 0 < self.duration_days <= MAX_DURATION_DAYS
        &&& self.obligation_overdue_days <= MAX_DURATION_DAYS
        &&& self.annual_rate_bps <= MAX_ANNUAL_RATE_BPS
        &&& self.one_time_fee_rate_bps <= 10000
        &&& self.liquidation_cvl <= self.margin_call_cvl <= self.initial_cvl <= 100000
    }

    /// Checks the bounds that `valid` states.
    pub fn is_valid(&self) -> (r: bool)
        ensures
            r == self.valid(),
    {
        0 < self.accrual_interval_days && self.accrual_interval_days <= DAYS_PER_YEAR && 0
            < self.accrual_cycle_interval_days && self.accrual_cycle_interval_days
            <= 366 && 0 < self.duration_days && self.duration_days
            <= MAX_DURATION_DAYS && self.obligation_overdue_days <= MAX_DURATION_DAYS
            && self.annual_rate_bps <= MAX_ANNUAL_RATE_BPS && self.one_time_fee_rate_bps <= 10000
            && self.liquidation_cvl <= self.margin_call_cvl && self.margin_call_cvl
            <= self.initial_cvl && self.initial_cvl <= 100000
    }

    pub open spec fn spec_structuring_fee(&self, amount: UsdCents) -> int {
        amount as int * self.one_time_fee_rate_bps as int / 10000
    }

    /// The one-time fee charged on a facility of `amount`, rounded down.
    pub fn structuring_fee(&self, amount: UsdCents) -> (r: UsdCents)
        requires
            self.valid(),
        ensures
            r == self.spec_structuring_fee(amount),
            r <= amount,
    {
        assert((amount as u128) * (self.one_time_fee_rate_bps as u128) <= (amount as u128) * 10000)
            by (nonlinear_arith)
            requires
                self.one_time_fee_rate_bps <= 10000,
        ;
        let r = (amount as u128) * (self.one_time_fee_rate_bps as u128) / 10000;
        assert(r <= amount) by (nonlinear_arith)
            requires
                r == (amount as u128) * (self.one_time_fee_rate_bps as u128) / 10000,
                self.one_time_fee_rate_bps <= 10000,
        ;
        r as u64
    }
}

/// Interest on `principal` over `seconds` at `annual_rate_bps`, on a 365-day
/// year, rounded up to the cent.
pub open spec fn interest_for_period(principal: int, annual_rate_bps: int, seconds: int) -> int {
    let denominator = 10000 * DAYS_PER_YEAR * SECONDS_PER_DAY;
    (principal * annual_rate_bps * seconds + denominator - 1) / denominator
}

/// Computes `interest_for_period`.
pub fn interest_for(principal: UsdCents, annual_rate_bps: u64, seconds: u64) -> (r: UsdCents)
    requires
        principal <= MAX_USD_CENTS,
        annual_rate_bps <= MAX_ANNUAL_RATE_BPS,
        seconds <= DAYS_PER_YEAR * SECONDS_PER_DAY,
    ensures
        r == interest_for_period(principal as int, annual_rate_bps as int, seconds as int),
        r <= principal,
{
    let denominator: u128 = 10000 * 365 * 86400;
    let p = principal as u128;
    let rate = annual_rate_bps as u128;
    let s = seconds as u128;
    assert(p * rate <= MAX_USD_CENTS * MAX_ANNUAL_RATE_BPS) by (nonlinear_arith)
        requires
            p <= MAX_USD_CENTS,
            rate <= MAX_ANNUAL_RATE_BPS,
    ;
    assert(p * rate * s <= p * denominator) by (nonlinear_arith)
        requires
            rate <= 10000,
            s <= 365 * 86400,
            denominator == 10000 * 365 * 86400,
    ;
    assert(p * denominator <= MAX_USD_CENTS * 315360000000) by (nonlinear_arith)
        requires
            p <= MAX_USD_CENTS,
            denominator == 315360000000,
    ;
    let num = p * rate * s + (denominator - 1);
    let r = num / denominator;
    assert(r <= p) by (nonlinear_arith)
        requires
            num <= p * denominator + (denominator - 1),
            r == num / denominator,
            denominator > 0,
    ;
    r as u64
}

/// Value of `collateral` at `price`, in cents, rounded down.
pub open spec fn collateral_value(collateral: Satoshis, price: PriceOfOneBtc) -> int {
    collateral as int * price as int / SATS_PER_BTC as int
}

/// Whether `collateral` at `price` covers `loan` at a CVL of at least `cvl`.
/// A loan of zero is always covered.
pub open spec fn meets_cvl(collateral: Satoshis, price: PriceOfOneBtc, loan: int, cvl: CvlPct) -> bool {
    collateral_value(collateral, price) * 100 >= cvl as int * loan
}

/// Decides `meets_cvl` for a loan made of two amounts.
pub fn cvl_is_met(
    collateral: Satoshis,
    price: PriceOfOneBtc,
    loan_a: UsdCents,
    loan_b: UsdCents,
    cvl: CvlPct,
) -> (r: bool)
    requires
        cvl <= 200000,
    ensures
        r == meets_cvl(collateral, price, loan_a + loan_b, cvl),
{
    assert((collateral as u128) * (price as u128) <= 0xffff_ffff_ffff_ffffu128
        * 0xffff_ffff_ffff_ffffu128) by (nonlinear_arith)
        requires
            collateral <= 0xffff_ffff_ffff_ffffu64,
            price <= 0xffff_ffff_ffff_ffffu64,
    ;
    let value = (collateral as u128) * (price as u128) / 100000000;
    let loan = (loan_a as u128) + (loan_b as u128);
    assert((cvl as u128) * loan <= 200000 * 0x2_0000_0000_0000_0000u128) by (nonlinear_arith)
        requires
            cvl <= 200000,
            loan <= 0x2_0000_0000_0000_0000u128,
    ;
    value * 100 >= (cvl as u128) * loan
}

} // verus!
