use vstd::prelude::*;

use crate::balance::CreditFacilityBalanceSummary;
use crate::credit_facility::{CreditFacility, CreditFacilityAccountIds, CreditFacilityError};
use crate::interest_accrual_cycle::{accrual_step, InterestPeriod};
use crate::job::JobCompletion;
use crate::primitives::{CreditFacilityId, LedgerTxId, UsdCents};

verus! {

/// Configuration of the job that accrues one sub-period of interest.
#[derive(Debug, Clone, Copy, PartialEq, Eq, Structural)]
pub struct CreditFacilityJobConfig {
    pub credit_facility_id: CreditFacilityId,
}

/// Ledger payload of one accrual.
#[derive(Debug, Clone, Copy, PartialEq, Eq, Structural)]
pub struct CreditFacilityInterestAccrual {
    pub tx_id: LedgerTxId,
    pub interest: UsdCents,
    pub period: InterestPeriod,
    pub credit_facility_account_ids: CreditFacilityAccountIds,
}

/// What one accrual run recorded and where the cycle stands after it.
#[derive(Debug, Clone, Copy, PartialEq, Eq, Structural)]
pub struct ConfirmedAccrual {
    pub accrual: CreditFacilityInterestAccrual,
    pub next_period: Option<InterestPeriod>,
    pub accrual_idx: u64,
    pub accrued_count: usize,
}

/// Accrues the next sub-period of the open cycle on the principal the ledger
/// reports as outstanding.
pub fn confirm_interest_accrual(
    facility: &mut CreditFacility,
    balances: &CreditFacilityBalanceSummary,
    tx_id: LedgerTxId,
) -> (r: Result<ConfirmedAccrual, CreditFacilityError>)
    requires
        old(facility).wf(),
        balances.wf(),
    ensures
        final(facility).wf(),
        !old(facility).spec_has_cycle_in_progress() ==> r == Err::<ConfirmedAccrual, _>(
            CreditFacilityError::NoInterestAccrualCycleInProgress,
        ) && *final(facility) == *old(facility),
        old(facility).spec_has_cycle_in_progress() && old(
            facility,
        ).cycles().last().spec_is_completed() ==> r == Err::<ConfirmedAccrual, _>(
            CreditFacilityError::InterestAccrualCycleAlreadyCompleted,
        ) && *final(facility) == *old(facility),
        old(facility).spec_has_cycle_in_progress() && !old(
            facility,
        ).cycles().last().spec_is_completed() ==> r is Ok,
        r matches Ok(c) ==> {
            let before = old(facility).cycles().last();
            let after = final(facility).cycles().last();
            &&& accrual_step(
                before,
                after,
                balances.spec_disbursed_outstanding() as u64,
                crate::interest_accrual_cycle::InterestAccrualData {
                    interest: c.accrual.interest,
                    period: c.accrual.period,
                },
            )
            &&& c.accrual.tx_id == tx_id
            &&& c.accrual.credit_facility_account_ids == old(facility).account_ids
            &&& c.next_period == after.spec_next_accrual_period()
            &&& c.accrual_idx == before.idx
            &&& c.accrued_count == after.accruals@.len()
            &&& final(facility).cycles() == old(facility).cycles().drop_last().push(after)
            &&& *final(facility) == (CreditFacility {
                interest_accrual_cycles: final(facility).interest_accrual_cycles,
                ..*old(facility)
            })
        },
{
    let principal = balances.disbursed_outstanding();
    let account_ids = facility.account_ids;
    let (data, next_period) = facility.record_interest_accrual(principal)?;
    let n = facility.interest_accrual_cycles.len();
    let cycle = &facility.interest_accrual_cycles[n - 1];
    Ok(
        ConfirmedAccrual {
            accrual: CreditFacilityInterestAccrual {
                tx_id,
                interest: data.interest,
                period: data.period,
                credit_facility_account_ids: account_ids,
            },
            next_period,
            accrual_idx: cycle.idx,
            accrued_count: cycle.count_accrued(),
        },
    )
}

/// What the accrual job does after a run: sleep until the end of the next
/// sub-period, or, once the cycle has none left, complete and have the
/// cycle-processing job spawned (the `bool`).
pub fn next_accrual_job_step(next_period: Option<InterestPeriod>) -> (r: (JobCompletion, bool))
    ensures
        next_period matches Some(p) ==> r == (JobCompletion::RescheduleAtWithOp(p.end), false),
        next_period is None ==> r == (JobCompletion::CompleteWithOp, true),
{
    match next_period {
        Some(p) => (JobCompletion::RescheduleAtWithOp(p.end), false),
        None => (JobCompletion::CompleteWithOp, true),
    }
}

} // verus!
