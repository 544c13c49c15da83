use vstd::prelude::*;

use crate::payment_allocation::{BalanceUpdateData, BalanceUpdateSource};
use crate::primitives::{
    CalaAccountId, CreditFacilityId, Idempotent, LedgerTxId, ObligationId, ObligationType,
    Timestamp, UsdCents,
};

verus! {

/// Where an obligation stands. It only ever moves forward:
/// `NotYetDue -> Due -> Overdue -> Defaulted`, and to `Paid` from any of them.
#[derive(Debug, Clone, Copy, PartialEq, Eq, Structural)]
pub enum ObligationStatus {
    NotYetDue,
    Due,
    Overdue,
    Defaulted,
    Paid,
}

/// Position of a status along `NotYetDue -> Due -> Overdue -> Defaulted`.
pub open spec fn status_rank(s: ObligationStatus) -> int {
    match s {
        ObligationStatus::NotYetDue => 0,
        ObligationStatus::Due => 1,
        ObligationStatus::Overdue => 2,
        ObligationStatus::Defaulted => 3,
        ObligationStatus::Paid => 4,
    }
}

/// Whether `after` may follow `before`: the same status, a later one on the
/// way to default, or `Paid`.
pub open spec fn status_moves_forward(before: ObligationStatus, after: ObligationStatus) -> bool {
    before == after || (before != ObligationStatus::Paid && (after == ObligationStatus::Paid
        || status_rank(before) < status_rank(after)))
}

/// Ledger accounts an obligation's receivable moves through.
#[derive(Debug, Clone, Copy, PartialEq, Eq, Structural)]
pub struct ObligationAccounts {
    pub not_yet_due_account_id: CalaAccountId,
    pub due_account_id: CalaAccountId,
    pub overdue_account_id: CalaAccountId,
    pub defaulted_account_id: CalaAccountId,
    /// Account credited when the obligation is created (income, or the
    /// facility account for a disbursal).
    pub account_to_be_credited_id: CalaAccountId,
}

/// Payload for the ledger when an obligation becomes due.
#[derive(Debug, Clone, Copy, PartialEq, Eq, Structural)]
pub struct ObligationDueReallocationData {
    pub tx_id: LedgerTxId,
    pub obligation_id: ObligationId,
    pub amount: UsdCents,
    pub not_yet_due_account_id: CalaAccountId,
    pub due_account_id: CalaAccountId,
}

/// Payload for the ledger when an obligation becomes overdue.
#[derive(Debug, Clone, Copy, PartialEq, Eq, Structural)]
pub struct ObligationOverdueReallocationData {
    pub tx_id: LedgerTxId,
    pub obligation_id: ObligationId,
    pub outstanding_amount: UsdCents,
    pub due_account_id: CalaAccountId,
    pub overdue_account_id: CalaAccountId,
}

/// Payload for the ledger when an obligation is defaulted.
#[derive(Debug, Clone, Copy, PartialEq, Eq, Structural)]
pub struct ObligationDefaultedReallocationData {
    pub tx_id: LedgerTxId,
    pub obligation_id: ObligationId,
    pub amount: UsdCents,
    pub receivable_account_id: CalaAccountId,
    pub defaulted_account_id: CalaAccountId,
}

/// What is needed to record a new obligation.
#[derive(Debug, Clone, Copy, PartialEq, Eq, Structural)]
pub struct NewObligation {
    pub id: ObligationId,
    pub tx_id: LedgerTxId,
    pub credit_facility_id: CreditFacilityId,
    pub obligation_type: ObligationType,
    pub amount: UsdCents,
    pub accounts: ObligationAccounts,
    pub due_at: Timestamp,
    pub overdue_at: Timestamp,
    pub recorded_at: Timestamp,
}

/// An amount owed by a facility.
#[derive(Debug, Clone, Copy, PartialEq, Eq, Structural)]
pub struct Obligation {
    pub id: ObligationId,
    pub tx_id: LedgerTxId,
    pub credit_facility_id: CreditFacilityId,
    pub obligation_type: ObligationType,
    pub initial_amount: UsdCents,
    pub outstanding: UsdCents,
    pub status: ObligationStatus,
    pub accounts: ObligationAccounts,
    pub due_at: Timestamp,
    pub overdue_at: Timestamp,
    pub recorded_at: Timestamp,
}

impl Obligation {
    pub open spec fn wf(&self) -> bool {
        &&& self.outstanding <= self.initial_amount
        &&& (self.outstanding == 0 <==> self.status == ObligationStatus::Paid)
    }

    /// Creates the obligation; one of amount zero is paid from the start.
    pub fn new(data: NewObligation) -> (r: Self)
        ensures
            r.wf(),
            r.id == data.id,
            r.tx_id == data.tx_id,
            r.credit_facility_id == data.credit_facility_id,
            r.obligation_type == data.obligation_type,
            r.initial_amount == data.amount,
            r.outstanding == data.amount,
            r.status == (if data.amount == 0 {
                ObligationStatus::Paid
            } else {
                ObligationStatus::NotYetDue
            }),
            r.accounts == data.accounts,
            r.due_at == data.due_at,
            r.overdue_at == data.overdue_at,
            r.recorded_at == data.recorded_at,
    {
        Obligation {
            id: data.id,
            tx_id: data.tx_id,
            credit_facility_id: data.credit_facility_id,
            obligation_type: data.obligation_type,
            initial_amount: data.amount,
            outstanding: data.amount,
            status: if data.amount == 0 {
                ObligationStatus::Paid
            } else {
                ObligationStatus::NotYetDue
            },
            accounts: data.accounts,
            due_at: data.due_at,
            overdue_at: data.overdue_at,
            recorded_at: data.recorded_at,
        }
    }

    /// The movement this obligation makes in the facility's balances.
    pub fn facility_balance_update_data(&self) -> (r: BalanceUpdateData)
        ensures
            r == (BalanceUpdateData {
                source: BalanceUpdateSource::Obligation,
                source_id: self.id,
                ledger_tx_id: self.tx_id,
                balance_type: self.obligation_type,
                amount: self.initial_amount,
                updated_at: self.recorded_at,
            }),
    {
        BalanceUpdateData {
            source: BalanceUpdateSource::Obligation,
            source_id: self.id,
            ledger_tx_id: self.tx_id,
            balance_type: self.obligation_type,
            amount: self.initial_amount,
            updated_at: self.recorded_at,
        }
    }

    /// The receivable account that holds the outstanding amount now.
    pub open spec fn spec_receivable_account_id(&self) -> CalaAccountId {
        match self.status {
            ObligationStatus::NotYetDue => self.accounts.not_yet_due_account_id,
            ObligationStatus::Due => self.accounts.due_account_id,
            ObligationStatus::Overdue => self.accounts.overdue_account_id,
            ObligationStatus::Defaulted => self.accounts.defaulted_account_id,
            ObligationStatus::Paid => self.accounts.overdue_account_id,
        }
    }

    pub fn receivable_account_id(&self) -> (r: CalaAccountId)
        ensures
            r == self.spec_receivable_account_id(),
    {
        match self.status {
            ObligationStatus::NotYetDue => self.accounts.not_yet_due_account_id,
            ObligationStatus::Due => self.accounts.due_account_id,
            ObligationStatus::Overdue => self.accounts.overdue_account_id,
            ObligationStatus::Defaulted => self.accounts.defaulted_account_id,
            ObligationStatus::Paid => self.accounts.overdue_account_id,
        }
    }

    /// Moves a not-yet-due obligation to due; any other status is left as it is.
    pub fn record_due(&mut self, tx_id: LedgerTxId) -> (r: Idempotent<ObligationDueReallocationData>)
        requires
            old(self).wf(),
        ensures
            final(self).wf(),
            status_moves_forward(old(self).status, final(self).status),
            old(self).status == ObligationStatus::NotYetDue ==> {
                &&& *final(self) == (Obligation { status: ObligationStatus::Due, ..*old(self) })
                &&& r == Idempotent::Executed(
                    ObligationDueReallocationData {
                        tx_id,
                        obligation_id: old(self).id,
                        amount: old(self).outstanding,
                        not_yet_due_account_id: old(self).accounts.not_yet_due_account_id,
                        due_account_id: old(self).accounts.due_account_id,
                    },
                )
            },
            old(self).status != ObligationStatus::NotYetDue ==> {
                &&& *final(self) == *old(self)
                &&& r == Idempotent::<ObligationDueReallocationData>::Ignored
            },
    {
        if self.status != ObligationStatus::NotYetDue {
            return Idempotent::Ignored;
        }
        self.status = ObligationStatus::Due;
        Idempotent::Executed(
            ObligationDueReallocationData {
                tx_id,
                obligation_id: self.id,
                amount: self.outstanding,
                not_yet_due_account_id: self.accounts.not_yet_due_account_id,
                due_account_id: self.accounts.due_account_id,
            },
        )
    }

    /// Moves a not-yet-due or due obligation to overdue; an obligation that is
    /// already overdue, defaulted or paid is left as it is.
    pub fn record_overdue(&mut self, tx_id: LedgerTxId) -> (r: Idempotent<
        ObligationOverdueReallocationData,
    >)
        requires
            old(self).wf(),
        ensures
            final(self).wf(),
            status_moves_forward(old(self).status, final(self).status),
            overdue_outcome(*old(self), *final(self), tx_id, r),
    {
        match self.status {
            ObligationStatus::NotYetDue | ObligationStatus::Due => {},
            _ => {
                return Idempotent::Ignored;
            },
        }
        let from = self.receivable_account_id();
        self.status = ObligationStatus::Overdue;
        Idempotent::Executed(
            ObligationOverdueReallocationData {
                tx_id,
                obligation_id: self.id,
                outstanding_amount: self.outstanding,
                due_account_id: from,
                overdue_account_id: self.accounts.overdue_account_id,
            },
        )
    }

    /// Moves an unpaid obligation that is not yet defaulted to defaulted; one
    /// that is defaulted or paid is left as it is.
    pub fn record_defaulted(&mut self, tx_id: LedgerTxId) -> (r: Idempotent<
        ObligationDefaultedReallocationData,
    >)
        requires
            old(self).wf(),
        ensures
            final(self).wf(),
            status_moves_forward(old(self).status, final(self).status),
            status_rank(old(self).status) < 3 ==> {
                &&& *final(self) == (Obligation {
                    status: ObligationStatus::Defaulted,
                    ..*old(self)
                })
                &&& r == Idempotent::Executed(
                    ObligationDefaultedReallocationData {
                        tx_id,
                        obligation_id: old(self).id,
                        amount: old(self).outstanding,
                        receivable_account_id: old(self).spec_receivable_account_id(),
                        defaulted_account_id: old(self).accounts.defaulted_account_id,
                    },
                )
            },
            status_rank(old(self).status) >= 3 ==> {
                &&& *final(self) == *old(self)
                &&& r == Idempotent::<ObligationDefaultedReallocationData>::Ignored
            },
    {
        match self.status {
            ObligationStatus::Defaulted | ObligationStatus::Paid => {
                return Idempotent::Ignored;
            },
            _ => {},
        }
        let from = self.receivable_account_id();
        self.status = ObligationStatus::Defaulted;
        Idempotent::Executed(
            ObligationDefaultedReallocationData {
                tx_id,
                obligation_id: self.id,
                amount: self.outstanding,
                receivable_account_id: from,
                defaulted_account_id: self.accounts.defaulted_account_id,
            },
        )
    }

    /// Applies a payment of `amount`; the obligation is paid once nothing is
    /// left outstanding.
    pub fn record_payment(&mut self, amount: UsdCents)
        requires
            old(self).wf(),
            0 < amount <= old(self).outstanding,
        ensures
            final(self).wf(),
            status_moves_forward(old(self).status, final(self).status),
            *final(self) == (Obligation {
                outstanding: (old(self).outstanding - amount) as u64,
                status: if old(self).outstanding == amount {
                    ObligationStatus::Paid
                } else {
                    old(self).status
                },
                ..*old(self)
            }),
    {
        self.outstanding = self.outstanding - amount;
        if self.outstanding == 0 {
            self.status = ObligationStatus::Paid;
        }
    }
}

/// What `record_overdue` does to `before`, giving `after` and returning `r`.
pub open spec fn overdue_outcome(
    before: Obligation,
    after: Obligation,
    tx_id: LedgerTxId,
    r: Idempotent<ObligationOverdueReallocationData>,
) -> bool {
    if status_rank(before.status) < 2 {
        &&& after == (Obligation { status: ObligationStatus::Overdue, ..before })
        &&& r == Idempotent::Executed(
            ObligationOverdueReallocationData {
                tx_id,
                obligation_id: before.id,
                outstanding_amount: before.outstanding,
                due_account_id: before.spec_receivable_account_id(),
                overdue_account_id: before.accounts.overdue_account_id,
            },
        )
    } else {
        after == before && r == Idempotent::<ObligationOverdueReallocationData>::Ignored
    }
}

/// Status transitions only move forward: the relation is reflexive,
/// transitive and antisymmetric, so no sequence of transitions leads back to
/// an earlier status.
pub proof fn lemma_status_order()
    ensures
        forall|a: ObligationStatus| status_moves_forward(a, a),
        forall|a: ObligationStatus, b: ObligationStatus, c: ObligationStatus|
            status_moves_forward(a, b) && status_moves_forward(b, c) ==> status_moves_forward(
                a,
                c,
            ),
        forall|a: ObligationStatus, b: ObligationStatus|
            status_moves_forward(a, b) && status_moves_forward(b, a) ==> a == b,
        forall|a: ObligationStatus|
            status_moves_forward(ObligationStatus::Paid, a) ==> a == ObligationStatus::Paid,
{
}

/// Recording overdue twice: the second call is ignored and leaves the
/// obligation as the first call left it, overdue or further along.
pub proof fn lemma_record_overdue_idempotent(
    o0: Obligation,
    o1: Obligation,
    o2: Obligation,
    tx1: LedgerTxId,
    tx2: LedgerTxId,
    r1: Idempotent<ObligationOverdueReallocationData>,
    r2: Idempotent<ObligationOverdueReallocationData>,
)
    requires
        overdue_outcome(o0, o1, tx1, r1),
        overdue_outcome(o1, o2, tx2, r2),
    ensures
        r2 == Idempotent::<ObligationOverdueReallocationData>::Ignored,
        o2 == o1,
        status_rank(o1.status) >= 2,
        status_moves_forward(o0.status, o2.status),
{
}

} // verus!
