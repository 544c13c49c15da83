use vstd::prelude::*;

use crate::balance::CreditFacilityBalanceSummary;
use crate::credit_facility::{
    activation_outcome, CreditFacility, CreditFacilityActivation, CreditFacilityError,
};
use crate::disbursal::Disbursal;
use crate::interest_accrual_cycle::InterestPeriod;
use crate::obligation::Obligation;
use crate::payment_allocation::{
    all_wf, allocate_payment, allocations_match, amounts_of, ids_distinct, min, paid_down,
    precedes, total_outstanding, PaymentAllocationResult,
};
use crate::primitives::{
    sum, CalaAccountId, DisbursalId, Idempotent, InterestAccrualCycleId, LedgerTxId, ObligationId,
    ObligationType, PaymentId, Timestamp, UsdCents,
};
use crate::terms::PriceOfOneBtc;

verus! {

/// Fresh identifiers an activation needs.
#[derive(Debug, Clone, Copy, PartialEq, Eq, Structural)]
pub struct ActivationIds {
    pub activation_tx_id: LedgerTxId,
    pub first_cycle_id: InterestAccrualCycleId,
    pub fee_disbursal_id: DisbursalId,
    pub fee_disbursal_tx_id: LedgerTxId,
    pub fee_obligation_id: ObligationId,
}

/// Everything an activation produced, to be persisted and posted together.
#[derive(Debug, Clone, Copy, PartialEq, Eq, Structural)]
pub struct ActivationOutcome {
    pub activation: CreditFacilityActivation,
    /// The structuring fee, disbursed at once.
    pub fee_disbursal: Disbursal,
    pub fee_obligation: Obligation,
    pub first_period: InterestPeriod,
    /// The first accrual job runs at the end of the first period.
    pub first_accrual_cycle_id: InterestAccrualCycleId,
}

/// Activates a facility: on success the structuring fee becomes a disbursal,
/// concluded at once, whose obligation is reflected in the facility's
/// balances; the first accrual job is to run at the end of the first period.
pub fn activate_credit_facility(
    facility: &mut CreditFacility,
    now: Timestamp,
    price: PriceOfOneBtc,
    balances: CreditFacilityBalanceSummary,
    ids: ActivationIds,
) -> (r: Result<Idempotent<ActivationOutcome>, CreditFacilityError>)
    requires
        old(facility).wf(),
        now <= crate::credit_facility::MAX_ACTIVATION_TIME,
    ensures
        final(facility).wf(),
        exists|f1: CreditFacility, r1: Result<Idempotent<(CreditFacilityActivation, InterestPeriod)>, CreditFacilityError>|
            activation_outcome(*old(facility), f1, now, price, balances, ids.activation_tx_id, ids.first_cycle_id, r1)
            && match r1 {
                Err(e) => r == Err::<Idempotent<ActivationOutcome>, _>(e) && *final(facility) == *old(facility),
                Ok(Idempotent::Ignored) => r == Ok::<_, CreditFacilityError>(Idempotent::<ActivationOutcome>::Ignored) && *final(facility) == *old(facility),
                Ok(Idempotent::Executed((activation, period))) => r matches Ok(Idempotent::Executed(out)) && {
                    &&& out.activation == activation
                    &&& out.first_period == period
                    &&& out.first_accrual_cycle_id == ids.first_cycle_id
                    &&& out.fee_obligation.wf()
                    &&& out.fee_obligation.id == ids.fee_obligation_id
                    &&& out.fee_obligation.tx_id == ids.fee_disbursal_tx_id
                    &&& out.fee_obligation.obligation_type == ObligationType::Disbursal
                    &&& out.fee_obligation.initial_amount == activation.structuring_fee_amount
                    &&& out.fee_obligation.due_at == now
                    &&& out.fee_disbursal.id == ids.fee_disbursal_id
                    &&& out.fee_disbursal.amount == activation.structuring_fee_amount
                    &&& final(facility).applied_balance_updates@.contains(ids.fee_disbursal_tx_id)
                    &&& *final(facility) == (CreditFacility {
                        applied_balance_updates: final(facility).applied_balance_updates,
                        events: final(facility).events,
                        ..f1
                    })
                },
            },
{
    let ghost f0 = *facility;
    let res = facility.activate(now, price, balances, ids.activation_tx_id, ids.first_cycle_id);
    let ghost f1 = *facility;
    let (activation, period) = match res {
        Err(e) => {
            return Err(e);
        },
        Ok(Idempotent::Ignored) => {
            return Ok(Idempotent::Ignored);
        },
        Ok(Idempotent::Executed(x)) => x,
    };
    let mut fee_disbursal = Disbursal {
        id: ids.fee_disbursal_id,
        credit_facility_id: facility.id,
        amount: activation.structuring_fee_amount,
        account_ids: facility.account_ids,
        disbursal_credit_account_id: facility.disbursal_credit_account_id,
        due_date: now,
        concluded: None,
    };
    let concluded = fee_disbursal.approval_process_concluded(
        ids.fee_disbursal_tx_id,
        true,
        ids.fee_obligation_id,
        facility.terms.obligation_overdue_days,
        now,
    );
    let new_obligation = match concluded {
        Idempotent::Executed(Some(o)) => o,
        _ => {
            assert(false);
            return Ok(Idempotent::Ignored);
        },
    };
    let fee_obligation = Obligation::new(new_obligation);
    let _ = facility.update_balance(fee_obligation.facility_balance_update_data());
    proof {
        let tx = ids.fee_disbursal_tx_id;
        let applied = facility.applied_balance_updates@;
        if applied.len() > 0 && applied.last() == tx {
            assert(applied[applied.len() - 1] == tx);
        }
    }
    Ok(
        Idempotent::Executed(
            ActivationOutcome {
                activation,
                fee_disbursal,
                fee_obligation,
                first_period: period,
                first_accrual_cycle_id: ids.first_cycle_id,
            },
        ),
    )
}

/// Records a payment on a facility: allocates it over the facility's
/// obligations (see `allocate_payment`) and reflects each allocation in the
/// facility's balances.
pub fn record_payment(
    facility: &mut CreditFacility,
    obligations: &mut Vec<Obligation>,
    payment_id: PaymentId,
    amount: UsdCents,
    account_to_be_debited_id: CalaAccountId,
    now: Timestamp,
) -> (r: PaymentAllocationResult)
    requires
        old(facility).wf(),
        all_wf(old(obligations)@),
        ids_distinct(old(obligations)@),
    ensures
        final(facility).wf(),
        all_wf(final(obligations)@),
        paid_down(old(obligations)@, final(obligations)@),
        sum(amounts_of(r.allocations@)) == min(
            amount as int,
            total_outstanding(old(obligations)@),
        ),
        total_outstanding(old(obligations)@) - total_outstanding(final(obligations)@) == min(
            amount as int,
            total_outstanding(old(obligations)@),
        ),
        forall|i: int, j: int|
            0 <= i < old(obligations)@.len() && 0 <= j < old(obligations)@.len() && precedes(
                old(obligations)@,
                i,
                j,
            ) && #[trigger] final(obligations)@[j].outstanding < old(obligations)@[j].outstanding
                ==> #[trigger] final(obligations)@[i].outstanding == 0,
        allocations_match(
            old(obligations)@,
            final(obligations)@,
            r.allocations@,
            payment_id,
            account_to_be_debited_id,
            now,
        ),
        forall|k: int|
            0 <= k < r.allocations@.len() ==> final(facility).applied_balance_updates@.contains(
                #[trigger] r.allocations@[k].ledger_tx_id,
            ),
        *final(facility) == (CreditFacility {
            applied_balance_updates: final(facility).applied_balance_updates,
            events: final(facility).events,
            ..*old(facility)
        }),
{
    let res = allocate_payment(obligations, payment_id, amount, account_to_be_debited_id, now);
    let ghost f0 = *facility;
    let mut i: usize = 0;
    while i < res.allocations.len()
        invariant
            facility.wf(),
            i <= res.allocations@.len(),
            forall|k: int|
                0 <= k < i ==> facility.applied_balance_updates@.contains(
                    #[trigger] res.allocations@[k].ledger_tx_id,
                ),
            *facility == (CreditFacility {
                applied_balance_updates: facility.applied_balance_updates,
                events: facility.events,
                ..f0
            }),
        decreases res.allocations.len() - i,
    {
        let ghost before = facility.applied_balance_updates@;
        let a = res.allocations[i];
        let _ = facility.update_balance(a.facility_balance_update_data());
        proof {
            let applied = facility.applied_balance_updates@;
            assert forall|x: LedgerTxId| before.contains(x) implies applied.contains(x) by {
                if applied != before {
                    let j = choose|j: int| 0 <= j < before.len() && before[j] == x;
                    assert(applied[j] == x);
                }
            }
            if applied != before {
                assert(applied[applied.len() - 1] == a.ledger_tx_id);
            }
        }
        i = i + 1;
    }
    res
}

} // verus!
