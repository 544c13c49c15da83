use core_credit::balance::CreditFacilityBalanceSummary;
use core_credit::credit_facility::{
    CollateralAction, CollateralizationState, CreditFacility, CreditFacilityAccountIds,
    CreditFacilityError, CreditFacilityEvent, CreditFacilityStatus,
};
use core_credit::interest_accrual_cycle::InterestPeriod;
use core_credit::jobs::interest_accrual_cycles::complete_interest_cycle_and_maybe_start_new_cycle;
use core_credit::jobs::interest_accruals::{confirm_interest_accrual, next_accrual_job_step};
use core_credit::job::JobCompletion;
use core_credit::obligation::ObligationStatus;
use core_credit::primitives::{Idempotent, ObligationType, SECONDS_PER_DAY};
use core_credit::processes::{activate_credit_facility, ActivationIds};
use core_credit::terms::TermValues;

const NOW: u64 = 1_700_000_000;
const BTC: u64 = 100_000_000;
const PRICE_50K: u64 = 5_000_000;

fn terms() -> TermValues {
    TermValues {
        annual_rate_bps: 1200,
        duration_days: 365,
        accrual_interval_days: 1,
        accrual_cycle_interval_days: 30,
        obligation_overdue_days: 7,
        one_time_fee_rate_bps: 100,
        liquidation_cvl: 110,
        margin_call_cvl: 140,
        initial_cvl: 150,
    }
}

fn account_ids() -> CreditFacilityAccountIds {
    CreditFacilityAccountIds {
        facility_account_id: 1,
        collateral_account_id: 2,
        disbursed_receivable_not_yet_due_account_id: 3,
        disbursed_receivable_due_account_id: 4,
        disbursed_receivable_overdue_account_id: 5,
        disbursed_defaulted_account_id: 6,
        interest_receivable_not_yet_due_account_id: 7,
        interest_receivable_due_account_id: 8,
        interest_receivable_overdue_account_id: 9,
        interest_defaulted_account_id: 10,
        fee_income_account_id: 11,
        interest_income_account_id: 12,
    }
}

fn balances(collateral: u64, disbursed_outstanding: u64) -> CreditFacilityBalanceSummary {
    CreditFacilityBalanceSummary {
        facility_remaining: 0,
        collateral,
        disbursed: disbursed_outstanding,
        interest_posted: 0,
        not_yet_due_disbursed_outstanding: disbursed_outstanding,
        due_disbursed_outstanding: 0,
        overdue_disbursed_outstanding: 0,
        disbursed_defaulted: 0,
        not_yet_due_interest_outstanding: 0,
        due_interest_outstanding: 0,
        overdue_interest_outstanding: 0,
        interest_defaulted: 0,
    }
}

fn approved_facility(amount: u64) -> CreditFacility {
    let mut f = CreditFacility::new(100, 200, amount, terms(), account_ids(), 300);
    assert_eq!(f.approval_process_concluded(true), Idempotent::Executed(()));
    f
}

fn count_activations(f: &CreditFacility) -> usize {
    f.events
        .iter()
        .filter(|e| matches!(e, CreditFacilityEvent::Activated { .. }))
        .count()
}

#[test]
fn activate_twice_is_ignored_the_second_time() {
    let mut f = approved_facility(1_000_000);
    let first = f.activate(NOW, PRICE_50K, balances(BTC, 0), 1, 2);
    assert!(matches!(first, Ok(Idempotent::Executed(_))));
    assert_eq!(f.status, CreditFacilityStatus::Active);
    let events_after_first = f.events.len();
    let second = f.activate(NOW + 10, PRICE_50K, balances(BTC, 0), 3, 4);
    assert_eq!(second, Ok(Idempotent::Ignored));
    assert_eq!(f.events.len(), events_after_first);
    assert_eq!(count_activations(&f), 1);
}

#[test]
fn activation_errors() {
    let mut pending = CreditFacility::new(1, 2, 1_000_000, terms(), account_ids(), 3);
    assert_eq!(
        pending.activate(NOW, PRICE_50K, balances(BTC, 0), 1, 2),
        Err(CreditFacilityError::ApprovalInProgress)
    );
    let mut denied = CreditFacility::new(1, 2, 1_000_000, terms(), account_ids(), 3);
    denied.approval_process_concluded(false);
    assert_eq!(
        denied.activate(NOW, PRICE_50K, balances(BTC, 0), 1, 2),
        Err(CreditFacilityError::Denied)
    );
    let mut f = approved_facility(10_000_000);
    assert_eq!(
        f.activate(NOW, PRICE_50K, balances(BTC, 0), 1, 2),
        Err(CreditFacilityError::BelowMarginLimit)
    );
    assert_eq!(f.status, CreditFacilityStatus::PendingApproval);
}

#[test]
fn approval_concluded_twice_is_ignored() {
    let mut f = CreditFacility::new(1, 2, 1_000_000, terms(), account_ids(), 3);
    assert_eq!(f.approval_process_concluded(false), Idempotent::Executed(()));
    assert_eq!(f.approval_process_concluded(true), Idempotent::Ignored);
    assert_eq!(f.approved, Some(false));
}

#[test]
fn complete_twice_is_ignored_the_second_time() {
    let mut f = approved_facility(1_000_000);
    f.activate(NOW, PRICE_50K, balances(BTC, 0), 1, 2).unwrap();
    f.record_collateral_update(BTC, PRICE_50K, 5, balances(0, 0), 7).unwrap();
    let first = f.complete(balances(BTC, 0), 9).unwrap();
    match first {
        Idempotent::Executed(c) => {
            assert_eq!(c.collateral, BTC);
            assert_eq!(c.tx_id, 9);
        }
        Idempotent::Ignored => panic!("first completion ignored"),
    }
    assert_eq!(f.status, CreditFacilityStatus::Completed);
    assert_eq!(f.collateral, 0);
    let events = f.events.len();
    assert_eq!(f.complete(balances(0, 0), 10), Ok(Idempotent::Ignored));
    assert_eq!(f.events.len(), events);
}

#[test]
fn complete_errors() {
    let mut pending = approved_facility(1_000_000);
    assert_eq!(
        pending.complete(balances(0, 0), 1),
        Err(CreditFacilityError::NotActivatedYet)
    );
    let mut f = approved_facility(1_000_000);
    f.activate(NOW, PRICE_50K, balances(BTC, 0), 1, 2).unwrap();
    assert_eq!(
        f.complete(balances(0, 5), 3),
        Err(CreditFacilityError::OutstandingAmount)
    );
}

#[test]
fn cvl_gating_of_disbursals() {
    // $100,000 facility, 1 BTC at $50,000, margin call at 140%.
    let mut f = approved_facility(10_000_000);
    f.activate(NOW, PRICE_50K, balances(3 * BTC, 0), 1, 2).unwrap();
    f.record_collateral_update(BTC, PRICE_50K, 5, balances(0, 0), 3).unwrap();
    let at = NOW + SECONDS_PER_DAY;
    // $50,000 / 1.4 = $35,714.28...
    assert_eq!(f.check_disbursal(at, 3_571_428, balances(BTC, 0), PRICE_50K), Ok(()));
    assert_eq!(
        f.check_disbursal(at, 3_571_429, balances(BTC, 0), PRICE_50K),
        Err(CreditFacilityError::BelowMarginLimit)
    );
    assert_eq!(
        f.check_disbursal(at, 2_000_000, balances(BTC, 1_600_000), PRICE_50K),
        Err(CreditFacilityError::BelowMarginLimit)
    );
    assert_eq!(
        f.check_disbursal(at, 2_000_000, balances(BTC, 1_500_000), PRICE_50K),
        Ok(())
    );
}

#[test]
fn disbursal_checks_activation_and_maturity() {
    let pending = approved_facility(1_000_000);
    assert_eq!(
        pending.check_disbursal(NOW, 1, balances(BTC, 0), PRICE_50K),
        Err(CreditFacilityError::NotActivatedYet)
    );
    let mut f = approved_facility(1_000_000);
    f.activate(NOW, PRICE_50K, balances(BTC, 0), 1, 2).unwrap();
    f.record_collateral_update(BTC, PRICE_50K, 5, balances(0, 0), 3).unwrap();
    let maturity = NOW + 365 * SECONDS_PER_DAY;
    assert_eq!(f.matures_at, Some(maturity));
    assert_eq!(
        f.check_disbursal(maturity, 1, balances(BTC, 0), PRICE_50K),
        Err(CreditFacilityError::DisbursalPastMaturityDate)
    );
    assert_eq!(f.check_disbursal(maturity - 1, 1, balances(BTC, 0), PRICE_50K), Ok(()));
}

#[test]
fn collateral_updates_classify_and_buffer_upgrades() {
    let mut f = approved_facility(1_000_000);
    f.activate(NOW, PRICE_50K, balances(BTC, 0), 1, 2).unwrap();
    // Owed $10,000: 0.2 BTC at $50,000 is 100%: under the margin call, above liquidation.
    let u = f
        .record_collateral_update(20_000_000, PRICE_50K, 5, balances(0, 1_000_000), 3)
        .unwrap();
    assert_eq!(u.action, CollateralAction::Add);
    assert_eq!(u.abs_diff, 20_000_000);
    assert_eq!(f.collateralization_state, CollateralizationState::UnderLiquidationThreshold);
    // 0.284 BTC is 142%: above the margin call but within the 5% buffer: no upgrade yet.
    f.record_collateral_update(28_400_000, PRICE_50K, 5, balances(0, 1_000_000), 4)
        .unwrap();
    assert_eq!(f.collateralization_state, CollateralizationState::UnderLiquidationThreshold);
    // 0.3 BTC is 150%: clears 140% + 5%.
    f.record_collateral_update(30_000_000, PRICE_50K, 5, balances(0, 1_000_000), 5)
        .unwrap();
    assert_eq!(f.collateralization_state, CollateralizationState::FullyCollateralized);
    let down = f
        .record_collateral_update(10_000_000, PRICE_50K, 5, balances(0, 1_000_000), 6)
        .unwrap();
    assert_eq!(down.action, CollateralAction::Remove);
    assert_eq!(down.abs_diff, 20_000_000);
    assert_eq!(f.collateralization_state, CollateralizationState::UnderLiquidationThreshold);
    assert_eq!(
        f.record_collateral_update(10_000_000, PRICE_50K, 5, balances(0, 1_000_000), 7),
        Err(CreditFacilityError::CollateralNotUpdated)
    );
    f.record_collateral_update(0, PRICE_50K, 5, balances(0, 1_000_000), 8).unwrap();
    assert_eq!(f.collateralization_state, CollateralizationState::NoCollateral);
}

#[test]
fn end_to_end_activation_and_first_cycle() {
    // $10,000 at 12% a year, accrued daily, monthly cycles.
    let mut f = approved_facility(1_000_000);
    let ids = ActivationIds {
        activation_tx_id: 1,
        first_cycle_id: 2,
        fee_disbursal_id: 3,
        fee_disbursal_tx_id: 4,
        fee_obligation_id: 5,
    };
    let outcome = match activate_credit_facility(&mut f, NOW, PRICE_50K, balances(BTC, 0), ids) {
        Ok(Idempotent::Executed(o)) => o,
        other => panic!("activation failed: {:?}", other),
    };
    assert_eq!(outcome.fee_obligation.obligation_type, ObligationType::Disbursal);
    assert_eq!(outcome.fee_obligation.initial_amount, 10_000);
    assert_eq!(outcome.fee_obligation.status, ObligationStatus::NotYetDue);
    assert_eq!(outcome.activation.structuring_fee_amount, 10_000);
    assert_eq!(outcome.activation.facility_amount, 1_000_000);
    assert_eq!(
        outcome.first_period,
        InterestPeriod { start: NOW, end: NOW + SECONDS_PER_DAY }
    );
    assert_eq!(f.interest_accrual_cycles.len(), 1);
    assert_eq!(f.interest_accrual_cycles[0].end, NOW + 30 * SECONDS_PER_DAY);
    assert!(f.applied_balance_updates.contains(&4));

    let b = balances(BTC, 1_000_000);
    let mut per_period = Vec::new();
    let mut steps = 0;
    loop {
        let confirmed = confirm_interest_accrual(&mut f, &b, 1000 + steps).unwrap();
        per_period.push(confirmed.accrual.interest);
        steps += 1;
        let (completion, spawn_cycle_job) = next_accrual_job_step(confirmed.next_period);
        match confirmed.next_period {
            Some(p) => {
                assert_eq!(completion, JobCompletion::RescheduleAtWithOp(p.end));
                assert!(!spawn_cycle_job);
            }
            None => {
                assert_eq!(completion, JobCompletion::CompleteWithOp);
                assert!(spawn_cycle_job);
                break;
            }
        }
        assert!(steps <= 30);
    }
    assert_eq!(steps, 30);
    assert!(per_period.iter().all(|i| *i == 329));
    assert_eq!(
        confirm_interest_accrual(&mut f, &b, 5000).map(|_| ()),
        Err(CreditFacilityError::InterestAccrualCycleAlreadyCompleted)
    );

    let (obligation, next) =
        complete_interest_cycle_and_maybe_start_new_cycle(&mut f, 77, 78, 79, NOW + 30 * SECONDS_PER_DAY)
            .unwrap();
    let total: u64 = per_period.iter().sum();
    assert_eq!(obligation.initial_amount, total);
    assert_eq!(obligation.initial_amount, 9870);
    // 10000 * 0.12 * 30 / 365 dollars is 9863.01 cents; rounding up each day adds under a cent a day.
    assert!(obligation.initial_amount >= 9863 && obligation.initial_amount <= 9863 + 30);
    assert_eq!(obligation.obligation_type, ObligationType::Interest);
    assert_eq!(obligation.due_at, NOW + 30 * SECONDS_PER_DAY);
    assert_eq!(obligation.overdue_at, NOW + 37 * SECONDS_PER_DAY);
    assert_eq!(next, Some((79, NOW + 31 * SECONDS_PER_DAY)));
    assert_eq!(f.interest_accrual_cycles.len(), 2);
    assert!(f.interest_accrual_cycles[0].posted);
    assert_eq!(f.interest_accrual_cycles[1].start, NOW + 30 * SECONDS_PER_DAY);
}

#[test]
fn cycle_cannot_close_before_completion_or_twice() {
    let mut f = approved_facility(1_000_000);
    assert_eq!(
        f.record_interest_accrual_cycle(1, 2, NOW).map(|_| ()),
        Err(CreditFacilityError::NoInterestAccrualCycleInProgress)
    );
    assert_eq!(
        f.start_interest_accrual_cycle(5),
        Err(CreditFacilityError::NotActivatedYet)
    );
    f.activate(NOW, PRICE_50K, balances(BTC, 0), 1, 2).unwrap();
    assert_eq!(
        f.record_interest_accrual_cycle(1, 2, NOW).map(|_| ()),
        Err(CreditFacilityError::InterestAccrualCycleNotCompleted)
    );
    assert_eq!(
        f.start_interest_accrual_cycle(5),
        Err(CreditFacilityError::InProgressInterestAccrualCycleNotPosted)
    );
}

#[test]
fn cycles_stop_at_maturity() {
    let mut t = terms();
    t.duration_days = 45;
    let mut f = CreditFacility::new(1, 2, 1_000_000, t, account_ids(), 3);
    f.approval_process_concluded(true);
    f.activate(NOW, PRICE_50K, balances(BTC, 0), 1, 2).unwrap();
    let b = balances(BTC, 0);
    for _ in 0..30 {
        f.record_interest_accrual(b.disbursed_outstanding()).unwrap();
    }
    let (o, next) = complete_interest_cycle_and_maybe_start_new_cycle(&mut f, 10, 11, 12, NOW).unwrap();
    assert_eq!(o.initial_amount, 0);
    assert_eq!(o.status, ObligationStatus::Paid);
    assert_eq!(next, Some((12, NOW + 31 * SECONDS_PER_DAY)));
    assert_eq!(f.interest_accrual_cycles[1].end, NOW + 45 * SECONDS_PER_DAY);
    for _ in 0..15 {
        f.record_interest_accrual(1_000_000).unwrap();
    }
    let (o2, next2) = complete_interest_cycle_and_maybe_start_new_cycle(&mut f, 20, 21, 22, NOW).unwrap();
    assert_eq!(o2.initial_amount, 15 * 329);
    assert_eq!(next2, None);
    assert_eq!(f.interest_accrual_cycles.len(), 2);
}

#[test]
fn balance_updates_apply_once() {
    let mut f = approved_facility(1_000_000);
    let data = core_credit::payment_allocation::BalanceUpdateData {
        source: core_credit::payment_allocation::BalanceUpdateSource::Obligation,
        source_id: 1,
        ledger_tx_id: 42,
        balance_type: ObligationType::Disbursal,
        amount: 500,
        updated_at: NOW,
    };
    assert_eq!(f.update_balance(data), Idempotent::Executed(()));
    assert_eq!(f.update_balance(data), Idempotent::Ignored);
    assert_eq!(f.applied_balance_updates, vec![42]);
}
