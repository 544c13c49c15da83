use vstd::prelude::*;

use crate::primitives::{Satoshis, UsdCents};
verus! {

/// Largest amount of cents one balance of a facility may hold; four of them
/// add up to at most `MAX_USD_CENTS`.
pub const MAX_BALANCE_CENTS: u64 = 2251799813685248;

/// Balances of one facility's accounts as the ledger reports them.
#[derive(Debug, Clone, Copy, PartialEq, Eq, Structural)]
pub struct CreditFacilityBalanceSummary {
    /// Undrawn part of the facility.
    pub facility_remaining: UsdCents,
    pub collateral: Satoshis,
    /// Everything ever disbursed.
    pub disbursed: UsdCents,
    /// All interest ever posted.
    pub interest_posted: UsdCents,
    pub not_yet_due_disbursed_outstanding: UsdCents,
    pub due_disbursed_outstanding: UsdCents,
    pub overdue_disbursed_outstanding: UsdCents,
    pub disbursed_defaulted: UsdCents,
    pub not_yet_due_interest_outstanding: UsdCents,
    pub due_interest_outstanding: UsdCents,
    pub overdue_interest_outstanding: UsdCents,
    pub interest_defaulted: UsdCents,
}

impl CreditFacilityBalanceSummary {
    /// Every amount in cents is at most `MAX_BALANCE_CENTS`.
    pub open spec fn wf(&self) -> bool {
        &&& self.facility_remaining <= MAX_BALANCE_CENTS
        &&& self.disbursed <= MAX_BALANCE_CENTS
        &&& self.interest_posted <= MAX_BALANCE_CENTS
        &&& self.not_yet_due_disbursed_outstanding <= MAX_BALANCE_CENTS
        &&& self.due_disbursed_outstanding <= MAX_BALANCE_CENTS
        &&& self.overdue_disbursed_outstanding <= MAX_BALANCE_CENTS
        &&& self.disbursed_defaulted <= MAX_BALANCE_CENTS
        &&& self.not_yet_due_interest_outstanding <= MAX_BALANCE_CENTS
        &&& self.due_interest_outstanding <= MAX_BALANCE_CENTS
        &&& self.overdue_interest_outstanding <= MAX_BALANCE_CENTS
        &&& self.interest_defaulted <= MAX_BALANCE_CENTS
    }

    pub open spec fn spec_disbursed_outstanding(&self) -> int {
        self.not_yet_due_disbursed_outstanding + self.due_disbursed_outstanding
            + self.overdue_disbursed_outstanding + self.disbursed_defaulted
    }

    pub open spec fn spec_interest_outstanding(&self) -> int {
        self.not_yet_due_interest_outstanding + self.due_interest_outstanding
            + self.overdue_interest_outstanding + self.interest_defaulted
    }

    pub open spec fn spec_total_outstanding(&self) -> int {
        self.spec_disbursed_outstanding() + self.spec_interest_outstanding()
    }

    /// Principal still owed, in every status.
    pub fn disbursed_outstanding(&self) -> (r: UsdCents)
        requires
            self.wf(),
        ensures
            r == self.spec_disbursed_outstanding(),
    {
        self.not_yet_due_disbursed_outstanding + self.due_disbursed_outstanding
            + self.overdue_disbursed_outstanding + self.disbursed_defaulted
    }

    /// Interest still owed, in every status.
    pub fn interest_outstanding(&self) -> (r: UsdCents)
        requires
            self.wf(),
        ensures
            r == self.spec_interest_outstanding(),
    {
        self.not_yet_due_interest_outstanding + self.due_interest_outstanding
            + self.overdue_interest_outstanding + self.interest_defaulted
    }

    /// Everything still owed on the facility.
    pub fn total_outstanding(&self) -> (r: UsdCents)
        requires
            self.wf(),
        ensures
            r == self.spec_total_outstanding(),
    {
        self.disbursed_outstanding() + self.interest_outstanding()
    }

    /// Whether nothing is owed any more.
    pub fn is_fully_paid(&self) -> (r: bool)
        requires
            self.wf(),
        ensures
            r == (self.spec_total_outstanding() == 0),
    {
        self.total_outstanding() == 0
    }

    /// The summary once a disbursal of `amount` is added to what is owed.
    pub fn with_added_disbursal_amount(&self, amount: UsdCents) -> (r: Self)
        requires
            self.wf(),
            amount <= MAX_BALANCE_CENTS - self.not_yet_due_disbursed_outstanding,
        ensures
            r == (CreditFacilityBalanceSummary {
                not_yet_due_disbursed_outstanding: (self.not_yet_due_disbursed_outstanding
                    + amount) as u64,
                ..*self
            }),
            r.spec_disbursed_outstanding() == self.spec_disbursed_outstanding() + amount,
    {
        CreditFacilityBalanceSummary {
            not_yet_due_disbursed_outstanding: self.not_yet_due_disbursed_outstanding + amount,
            ..*self
        }
    }
}

/// The settled balance of one ledger account, in the currency's smallest
/// unit (cents or satoshis), signed by the account's normal balance side.
#[derive(Debug, Clone, Copy, PartialEq, Eq, Structural)]
pub struct AccountBalance {
    pub settled: i128,
    /// Everything ever debited to the account.
    pub settled_dr_balance: i128,
}

/// Balances the ledger returned for a facility's accounts; an account with no
/// entries yet has none.
#[derive(Debug, Clone, Copy, PartialEq, Eq, Structural)]
pub struct LedgerFacilityBalances {
    pub facility: Option<AccountBalance>,
    pub collateral: Option<AccountBalance>,
    pub disbursed_receivable_not_yet_due: Option<AccountBalance>,
    pub disbursed_receivable_due: Option<AccountBalance>,
    pub disbursed_receivable_overdue: Option<AccountBalance>,
    pub disbursed_defaulted: Option<AccountBalance>,
    pub interest_receivable_not_yet_due: Option<AccountBalance>,
    pub interest_receivable_due: Option<AccountBalance>,
    pub interest_receivable_overdue: Option<AccountBalance>,
    pub interest_defaulted: Option<AccountBalance>,
}

/// A ledger amount that is negative or too large to be held.
#[derive(Debug, Clone, Copy, PartialEq, Eq, Structural)]
pub enum BalanceConversionError {
    Negative,
    TooLarge,
}

/// Amount in the smallest unit of an account's balance; `None` for an
/// amount that cannot be held.
pub open spec fn spec_amount(v: i128, max: int) -> Option<u64> {
    if 0 <= v <= max {
        Some(v as u64)
    } else {
        None
    }
}

pub open spec fn spec_settled(b: Option<AccountBalance>, max: int) -> Option<u64> {
    match b {
        None => Some(0u64),
        Some(b) => spec_amount(b.settled, max),
    }
}

pub open spec fn spec_debited(b: Option<AccountBalance>, max: int) -> Option<u64> {
    match b {
        None => Some(0u64),
        Some(b) => spec_amount(b.settled_dr_balance, max),
    }
}

fn amount_from(v: i128, max: u64) -> (r: Result<u64, BalanceConversionError>)
    ensures
        spec_amount(v, max as int) == match r {
            Ok(a) => Some(a),
            Err(_) => None,
        },
        r matches Err(e) ==> (e == BalanceConversionError::Negative) == (v < 0),
{
    if v < 0 {
        Err(BalanceConversionError::Negative)
    } else if v > max as i128 {
        Err(BalanceConversionError::TooLarge)
    } else {
        Ok(v as u64)
    }
}

fn settled_of(b: Option<AccountBalance>, max: u64) -> (r: Result<u64, BalanceConversionError>)
    ensures
        spec_settled(b, max as int) == match r {
            Ok(a) => Some(a),
            Err(_) => None,
        },
{
    match b {
        None => Ok(0),
        Some(b) => amount_from(b.settled, max),
    }
}

fn debited_of(b: Option<AccountBalance>, max: u64) -> (r: Result<u64, BalanceConversionError>)
    ensures
        spec_debited(b, max as int) == match r {
            Ok(a) => Some(a),
            Err(_) => None,
        },
{
    match b {
        None => Ok(0),
        Some(b) => amount_from(b.settled_dr_balance, max),
    }
}

/// Whether every amount that `from_ledger_balances` reads can be held.
pub open spec fn balances_convertible(b: LedgerFacilityBalances) -> bool {
    let m = MAX_BALANCE_CENTS as int;
    &&& spec_settled(b.facility, m) is Some
    &&& spec_settled(b.collateral, u64::MAX as int) is Some
    &&& spec_debited(b.disbursed_receivable_not_yet_due, m) is Some
    &&& spec_settled(b.disbursed_receivable_not_yet_due, m) is Some
    &&& spec_settled(b.disbursed_receivable_due, m) is Some
    &&& spec_settled(b.disbursed_receivable_overdue, m) is Some
    &&& spec_settled(b.disbursed_defaulted, m) is Some
    &&& spec_debited(b.interest_receivable_not_yet_due, m) is Some
    &&& spec_settled(b.interest_receivable_not_yet_due, m) is Some
    &&& spec_settled(b.interest_receivable_due, m) is Some
    &&& spec_settled(b.interest_receivable_overdue, m) is Some
    &&& spec_settled(b.interest_defaulted, m) is Some
}

/// The summary that `from_ledger_balances` builds from convertible balances.
pub open spec fn spec_summary(b: LedgerFacilityBalances) -> CreditFacilityBalanceSummary {
    let m = MAX_BALANCE_CENTS as int;
    CreditFacilityBalanceSummary {
        facility_remaining: spec_settled(b.facility, m).unwrap(),
        collateral: spec_settled(b.collateral, u64::MAX as int).unwrap(),
        disbursed: spec_debited(b.disbursed_receivable_not_yet_due, m).unwrap(),
        interest_posted: spec_debited(b.interest_receivable_not_yet_due, m).unwrap(),
        not_yet_due_disbursed_outstanding: spec_settled(b.disbursed_receivable_not_yet_due, m).unwrap(),
        due_disbursed_outstanding: spec_settled(b.disbursed_receivable_due, m).unwrap(),
        overdue_disbursed_outstanding: spec_settled(b.disbursed_receivable_overdue, m).unwrap(),
        disbursed_defaulted: spec_settled(b.disbursed_defaulted, m).unwrap(),
        not_yet_due_interest_outstanding: spec_settled(b.interest_receivable_not_yet_due, m).unwrap(),
        due_interest_outstanding: spec_settled(b.interest_receivable_due, m).unwrap(),
        overdue_interest_outstanding: spec_settled(b.interest_receivable_overdue, m).unwrap(),
        interest_defaulted: spec_settled(b.interest_defaulted, m).unwrap(),
    }
}

impl CreditFacilityBalanceSummary {
    /// Builds the summary from the ledger's balances: the settled balance of
    /// each account (zero for one without entries), and for the not-yet-due
    /// receivables also their debit side, which is what was ever disbursed or
    /// posted. Fails when an amount is negative or too large.
    pub fn from_ledger_balances(b: &LedgerFacilityBalances) -> (r: Result<
        CreditFacilityBalanceSummary,
        BalanceConversionError,
    >)
        ensures
            r is Ok <==> balances_convertible(*b),
            r matches Ok(s) ==> s == spec_summary(*b) && s.wf(),
    {
        let m = MAX_BALANCE_CENTS;
        let facility_remaining = settled_of(b.facility, m)?;
        let collateral = settled_of(b.collateral, u64::MAX)?;
        let disbursed = debited_of(b.disbursed_receivable_not_yet_due, m)?;
        let not_yet_due_disbursed_outstanding = settled_of(b.disbursed_receivable_not_yet_due, m)?;
        let due_disbursed_outstanding = settled_of(b.disbursed_receivable_due, m)?;
        let overdue_disbursed_outstanding = settled_of(b.disbursed_receivable_overdue, m)?;
        let disbursed_defaulted = settled_of(b.disbursed_defaulted, m)?;
        let interest_posted = debited_of(b.interest_receivable_not_yet_due, m)?;
        let not_yet_due_interest_outstanding = settled_of(b.interest_receivable_not_yet_due, m)?;
        let due_interest_outstanding = settled_of(b.interest_receivable_due, m)?;
        let overdue_interest_outstanding = settled_of(b.interest_receivable_overdue, m)?;
        let interest_defaulted = settled_of(b.interest_defaulted, m)?;
        Ok(
            CreditFacilityBalanceSummary {
                facility_remaining,
                collateral,
                disbursed,
                interest_posted,
                not_yet_due_disbursed_outstanding,
                due_disbursed_outstanding,
                overdue_disbursed_outstanding,
                disbursed_defaulted,
                not_yet_due_interest_outstanding,
                due_interest_outstanding,
                overdue_interest_outstanding,
                interest_defaulted,
            },
        )
    }
}

} // verus!
