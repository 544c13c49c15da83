use core_credit::balance::{
    AccountBalance, BalanceConversionError, CreditFacilityBalanceSummary, LedgerFacilityBalances,
};
use core_credit::credit_facility::CreditFacilityAccountIds;
use core_credit::ledger::{
    FacilityAccountKind,
    CreditFacilityInternalAccountSets, CustomerType, DebitOrCredit, DisbursedReceivable,
    DisbursedReceivableAccountCategory, DisbursedReceivableAccountSets, DurationType,
    InterestReceivable, InterestReceivableAccountSets, InternalAccountSetDetails,
};
use core_credit::terms::{interest_for, TermValues};

fn bal(settled: i128, dr: i128) -> Option<AccountBalance> {
    Some(AccountBalance { settled, settled_dr_balance: dr })
}

fn empty() -> LedgerFacilityBalances {
    LedgerFacilityBalances {
        facility: None,
        collateral: None,
        disbursed_receivable_not_yet_due: None,
        disbursed_receivable_due: None,
        disbursed_receivable_overdue: None,
        disbursed_defaulted: None,
        interest_receivable_not_yet_due: None,
        interest_receivable_due: None,
        interest_receivable_overdue: None,
        interest_defaulted: None,
    }
}

#[test]
fn balance_summary_from_ledger() {
    let mut b = empty();
    b.facility = bal(900_000, 0);
    b.collateral = bal(100_000_000, 0);
    b.disbursed_receivable_not_yet_due = bal(60_000, 100_000);
    b.disbursed_receivable_due = bal(30_000, 0);
    b.interest_receivable_not_yet_due = bal(500, 900);
    b.interest_receivable_overdue = bal(400, 0);
    let s = CreditFacilityBalanceSummary::from_ledger_balances(&b).unwrap();
    assert_eq!(s.facility_remaining, 900_000);
    assert_eq!(s.collateral, 100_000_000);
    assert_eq!(s.disbursed, 100_000);
    assert_eq!(s.interest_posted, 900);
    assert_eq!(s.disbursed_outstanding(), 90_000);
    assert_eq!(s.interest_outstanding(), 900);
    assert_eq!(s.total_outstanding(), 90_900);
    assert!(!s.is_fully_paid());
    let s2 = s.with_added_disbursal_amount(100);
    assert_eq!(s2.disbursed_outstanding(), 90_100);

    let zero = CreditFacilityBalanceSummary::from_ledger_balances(&empty()).unwrap();
    assert!(zero.is_fully_paid());
}

#[test]
fn balance_conversion_errors() {
    let mut b = empty();
    b.disbursed_receivable_due = bal(-1, 0);
    assert_eq!(
        CreditFacilityBalanceSummary::from_ledger_balances(&b),
        Err(BalanceConversionError::Negative)
    );
    let mut b = empty();
    b.interest_defaulted = bal(1i128 << 60, 0);
    assert_eq!(
        CreditFacilityBalanceSummary::from_ledger_balances(&b),
        Err(BalanceConversionError::TooLarge)
    );
}

#[test]
fn interest_and_fees() {
    // One day on $10,000 at 12%: 328.77 cents, rounded up.
    assert_eq!(interest_for(1_000_000, 1200, 86400), 329);
    assert_eq!(interest_for(1_000_000, 1200, 0), 0);
    assert_eq!(interest_for(0, 1200, 86400), 0);
    assert_eq!(interest_for(1_000_000, 1200, 365 * 86400), 120_000);
    let t = TermValues {
        annual_rate_bps: 1200,
        duration_days: 365,
        accrual_interval_days: 1,
        accrual_cycle_interval_days: 30,
        obligation_overdue_days: 7,
        one_time_fee_rate_bps: 250,
        liquidation_cvl: 110,
        margin_call_cvl: 140,
        initial_cvl: 150,
    };
    assert!(t.is_valid());
    assert_eq!(t.structuring_fee(1_000_000), 25_000);
    let bad = TermValues { accrual_interval_days: 0, ..t };
    assert!(!bad.is_valid());
}

fn sets(base: u128) -> DisbursedReceivableAccountSets {
    let d = |i: u128| InternalAccountSetDetails { id: base + i, normal_balance_type: DebitOrCredit::Debit };
    DisbursedReceivableAccountSets {
        individual: d(0),
        government_entity: d(1),
        private_company: d(2),
        bank: d(3),
        financial_institution: d(4),
        foreign_agency_or_subsidiary: d(5),
        non_domiciled_company: d(6),
    }
}

fn interest_sets(base: u128) -> InterestReceivableAccountSets {
    let s = sets(base);
    InterestReceivableAccountSets {
        individual: s.individual,
        government_entity: s.government_entity,
        private_company: s.private_company,
        bank: s.bank,
        financial_institution: s.financial_institution,
        foreign_agency_or_subsidiary: s.foreign_agency_or_subsidiary,
        non_domiciled_company: s.non_domiciled_company,
    }
}

#[test]
fn internal_account_sets_lookup() {
    let single = |id: u128| InternalAccountSetDetails { id, normal_balance_type: DebitOrCredit::Credit };
    let all = CreditFacilityInternalAccountSets {
        facility: single(1),
        collateral: single(2),
        disbursed_receivable: DisbursedReceivable {
            short_term: sets(100),
            long_term: sets(200),
            overdue: sets(300),
        },
        disbursed_defaulted: single(3),
        interest_receivable: InterestReceivable { short_term: interest_sets(400), long_term: interest_sets(500) },
        interest_defaulted: single(4),
        interest_income: single(5),
        fee_income: single(6),
    };
    let ids = all.account_set_ids();
    assert_eq!(ids.len(), 41);
    assert_eq!(&ids[..6], &[1, 2, 5, 6, 3, 4]);
    assert_eq!(ids[6], 100);
    assert_eq!(ids[40], 506);
    assert_eq!(
        all.disbursed_internal_account_set_from_type(CustomerType::Bank, DisbursedReceivableAccountCategory::LongTerm).id,
        203
    );
    assert_eq!(
        all.disbursed_internal_account_set_from_type(CustomerType::NonDomiciledCompany, DisbursedReceivableAccountCategory::Overdue).id,
        306
    );
    assert_eq!(
        all.interest_internal_account_set_from_type(CustomerType::Individual, DurationType::ShortTerm).id,
        400
    );

    let ids = CreditFacilityAccountIds {
        facility_account_id: 1001,
        collateral_account_id: 1002,
        disbursed_receivable_not_yet_due_account_id: 1003,
        disbursed_receivable_due_account_id: 1004,
        disbursed_receivable_overdue_account_id: 1005,
        disbursed_defaulted_account_id: 1006,
        interest_receivable_not_yet_due_account_id: 1007,
        interest_receivable_due_account_id: 1008,
        interest_receivable_overdue_account_id: 1009,
        interest_defaulted_account_id: 1010,
        fee_income_account_id: 1011,
        interest_income_account_id: 1012,
    };
    let plan = all.account_plan_for_credit_facility(ids, CustomerType::Bank, DurationType::LongTerm);
    assert_eq!(plan.len(), 12);
    assert_eq!((plan[0].kind, plan[0].account_id, plan[0].account_set.id), (FacilityAccountKind::Collateral, 1002, 2));
    assert_eq!((plan[2].account_id, plan[2].account_set.id), (1003, 203));
    assert_eq!((plan[4].account_id, plan[4].account_set.id), (1005, 303));
    assert_eq!((plan[8].account_id, plan[8].account_set.id), (1009, 503));
    assert_eq!((plan[11].kind, plan[11].account_set.id), (FacilityAccountKind::FeeIncome, 6));
}
