use vstd::prelude::*;

use crate::credit_facility::CreditFacilityAccountIds;
use crate::obligation::{NewObligation, ObligationAccounts};
use crate::primitives::{
    CalaAccountId, CreditFacilityId, DisbursalId, Idempotent, LedgerTxId, ObligationId,
    ObligationType, Timestamp, UsdCents, SECONDS_PER_DAY,
};
use crate::terms::MAX_DURATION_DAYS;

verus! {

/// Ledger transaction that concluded a disbursal, and whether it was approved.
#[derive(Debug, Clone, Copy, PartialEq, Eq, Structural)]
pub struct DisbursalConclusion {
    pub tx_id: LedgerTxId,
    pub approved: bool,
}

/// A drawdown on a facility, waiting for approval and then for the ledger.
#[derive(Debug, Clone, Copy, PartialEq, Eq, Structural)]
pub struct Disbursal {
    pub id: DisbursalId,
    pub credit_facility_id: CreditFacilityId,
    pub amount: UsdCents,
    pub account_ids: CreditFacilityAccountIds,
    pub disbursal_credit_account_id: CalaAccountId,
    pub due_date: Timestamp,
    /// How the approval process concluded; `None` while it runs.
    pub concluded: Option<DisbursalConclusion>,
}

/// The accounts a disbursed-principal obligation of a facility moves through.
pub open spec fn disbursed_accounts(ids: CreditFacilityAccountIds) -> ObligationAccounts {
    ObligationAccounts {
        not_yet_due_account_id: ids.disbursed_receivable_not_yet_due_account_id,
        due_account_id: ids.disbursed_receivable_due_account_id,
        overdue_account_id: ids.disbursed_receivable_overdue_account_id,
        defaulted_account_id: ids.disbursed_defaulted_account_id,
        account_to_be_credited_id: ids.facility_account_id,
    }
}

impl Disbursal {
    /// Concludes the approval process once. An approved disbursal yields the
    /// obligation for its amount, due on its due date and overdue
    /// `overdue_days` later; a denied one yields none.
    pub fn approval_process_concluded(
        &mut self,
        tx_id: LedgerTxId,
        approved: bool,
        obligation_id: ObligationId,
        overdue_days: u64,
        now: Timestamp,
    ) -> (r: Idempotent<Option<NewObligation>>)
        requires
            old(self).due_date <= u64::MAX / 2,
            overdue_days <= MAX_DURATION_DAYS,
        ensures
            old(self).concluded is Some ==> r == Idempotent::<Option<NewObligation>>::Ignored
                && *final(self) == *old(self),
            old(self).concluded is None ==> *final(self) == (Disbursal {
                concluded: Some(DisbursalConclusion { tx_id, approved }),
                ..*old(self)
            }),
            old(self).concluded is None && !approved ==> r == Idempotent::<
                Option<NewObligation>,
            >::Executed(None),
            old(self).concluded is None && approved ==> r == Idempotent::Executed(
                Some(
                    NewObligation {
                        id: obligation_id,
                        tx_id,
                        credit_facility_id: old(self).credit_facility_id,
                        obligation_type: ObligationType::Disbursal,
                        amount: old(self).amount,
                        accounts: disbursed_accounts(old(self).account_ids),
                        due_at: old(self).due_date,
                        overdue_at: (old(self).due_date + overdue_days * SECONDS_PER_DAY) as u64,
                        recorded_at: now,
                    },
                ),
            ),
    {
        if self.concluded.is_some() {
            return Idempotent::Ignored;
        }
        self.concluded = Some(DisbursalConclusion { tx_id, approved });
        if !approved {
            return Idempotent::Executed(None);
        }
        let ids = self.account_ids;
        Idempotent::Executed(
            Some(
                NewObligation {
                    id: obligation_id,
                    tx_id,
                    credit_facility_id: self.credit_facility_id,
                    obligation_type: ObligationType::Disbursal,
                    amount: self.amount,
                    accounts: ObligationAccounts {
                        not_yet_due_account_id: ids.disbursed_receivable_not_yet_due_account_id,
                        due_account_id: ids.disbursed_receivable_due_account_id,
                        overdue_account_id: ids.disbursed_receivable_overdue_account_id,
                        defaulted_account_id: ids.disbursed_defaulted_account_id,
                        account_to_be_credited_id: ids.facility_account_id,
                    },
                    due_at: self.due_date,
                    overdue_at: self.due_date + overdue_days * SECONDS_PER_DAY,
                    recorded_at: now,
                },
            ),
        )
    }
}

} // verus!
