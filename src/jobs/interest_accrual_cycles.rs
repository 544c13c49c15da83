use vstd::prelude::*;

use crate::credit_facility::{CreditFacility, CreditFacilityError};
use crate::job::JobCompletion;
use crate::obligation::Obligation;
use crate::primitives::{
    CreditFacilityId, InterestAccrualCycleId, LedgerTxId, ObligationId, ObligationType, Timestamp,
    SECONDS_PER_DAY,
};

verus! {

/// Configuration of the job that closes a cycle and opens the next one.
#[derive(Debug, Clone, Copy, PartialEq, Eq, Structural)]
pub struct CreditFacilityJobConfig {
    pub credit_facility_id: CreditFacilityId,
}

/// How long the job waits for obligation statuses to catch up, in seconds.
pub const OBLIGATION_STATUS_WAIT_SECS: u64 = 300;

/// First step of a run: while the obligations' status updates have not all
/// landed, the job sleeps five minutes instead of closing the cycle.
pub fn wait_for_obligation_statuses(statuses_updated: bool, now: Timestamp) -> (r: Option<
    JobCompletion,
>)
    requires
        now <= u64::MAX - OBLIGATION_STATUS_WAIT_SECS,
    ensures
        statuses_updated ==> r is None,
        !statuses_updated ==> r == Some(
            JobCompletion::RescheduleAt((now + OBLIGATION_STATUS_WAIT_SECS) as u64),
        ),
{
    if statuses_updated {
        None
    } else {
        Some(JobCompletion::RescheduleAt(now + OBLIGATION_STATUS_WAIT_SECS))
    }
}

/// Closes the completed cycle into an interest obligation, reflects it in the
/// facility's balances and opens the next cycle. Returns the obligation and,
/// when a new cycle was opened, its id and the end of its first accrual
/// period (when the accrual job must run).
pub fn complete_interest_cycle_and_maybe_start_new_cycle(
    facility: &mut CreditFacility,
    obligation_id: ObligationId,
    tx_id: LedgerTxId,
    next_cycle_id: InterestAccrualCycleId,
    now: Timestamp,
) -> (r: Result<(Obligation, Option<(InterestAccrualCycleId, Timestamp)>), CreditFacilityError>)
    requires
        old(facility).wf(),
    ensures
        final(facility).wf(),
        !old(facility).spec_has_cycle_in_progress() ==> r == Err::<
            (Obligation, Option<(InterestAccrualCycleId, Timestamp)>),
            _,
        >(CreditFacilityError::NoInterestAccrualCycleInProgress) && *final(facility) == *old(
            facility,
        ),
        old(facility).spec_has_cycle_in_progress() && !old(
            facility,
        ).cycles().last().spec_is_completed() ==> r == Err::<
            (Obligation, Option<(InterestAccrualCycleId, Timestamp)>),
            _,
        >(CreditFacilityError::InterestAccrualCycleNotCompleted) && *final(facility) == *old(
            facility,
        ),
        old(facility).spec_has_cycle_in_progress() && old(
            facility,
        ).cycles().last().spec_is_completed() ==> r is Ok,
        r matches Ok((o, next)) ==> {
            let c = old(facility).cycles().last();
            let closed = old(facility).cycles().len() - 1;
            &&& o.wf()
            &&& o.id == obligation_id
            &&& o.tx_id == tx_id
            &&& o.credit_facility_id == old(facility).id
            &&& o.obligation_type == ObligationType::Interest
            &&& o.initial_amount == c.spec_total_accrued()
            &&& o.outstanding == o.initial_amount
            &&& o.due_at == c.end
            &&& o.overdue_at == c.end + old(facility).terms.obligation_overdue_days
                * SECONDS_PER_DAY
            &&& o.recorded_at == now
            &&& final(facility).cycles()[closed].posted
            &&& final(facility).cycles()[closed].accruals == c.accruals
            &&& final(facility).applied_balance_updates@.contains(tx_id)
            &&& (next is Some) == (c.end < old(facility).matures_at.unwrap())
            &&& next matches Some((id, at)) ==> {
                &&& id == next_cycle_id
                &&& final(facility).cycles().len() == old(facility).cycles().len() + 1
                &&& final(facility).cycles().last().spec_next_accrual_period() matches Some(p)
                    && at == p.end
                &&& final(facility).cycles().last().start == c.end
            }
            &&& next is None ==> final(facility).cycles().len() == old(facility).cycles().len()
            &&& final(facility).status == old(facility).status
            &&& final(facility).collateral == old(facility).collateral
        },
{
    let ghost f0 = *facility;
    let new_obligation = facility.record_interest_accrual_cycle(obligation_id, tx_id, now)?;
    let obligation = Obligation::new(new_obligation);
    let ghost closed = facility.cycles().len() - 1;
    let ghost closed_cycle = facility.cycles()[closed];
    let _ = facility.update_balance(obligation.facility_balance_update_data());
    proof {
        assert(facility.cycles()[closed] == closed_cycle);
        assert(facility.applied_balance_updates@.contains(tx_id)) by {
            if facility.applied_balance_updates@.len() > 0 && facility.applied_balance_updates@.last() == tx_id {
                assert(facility.applied_balance_updates@[facility.applied_balance_updates@.len() - 1] == tx_id);
            }
        }
    }
    let res = facility.start_interest_accrual_cycle(next_cycle_id);
    let next = match res {
        Ok(Some(period)) => Some((next_cycle_id, period.end)),
        Ok(None) => None,
        Err(_) => {
            assert(false);
            None
        },
    };
    proof {
        let c = f0.cycles().last();
        assert(facility.cycles()[closed] == closed_cycle);
        assert(obligation.wf());
        assert(obligation.initial_amount == c.spec_total_accrued());
        assert(obligation.due_at == c.end);
        assert(facility.cycles()[closed].posted);
        assert(facility.cycles()[closed].accruals == c.accruals);
        assert(facility.applied_balance_updates@.contains(tx_id));
        assert((next is Some) == (c.end < f0.matures_at.unwrap()));
        assert(facility.status == f0.status);
    }
    Ok((obligation, next))
}

} // verus!
