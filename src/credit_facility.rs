use vstd::prelude::*;

use crate::balance::CreditFacilityBalanceSummary;
use crate::interest_accrual_cycle::{
    accrual_step, InterestAccrualCycle, InterestAccrualData, InterestPeriod,
};
use crate::obligation::{NewObligation, ObligationAccounts};
use crate::payment_allocation::BalanceUpdateData;
use crate::primitives::{
    CalaAccountId, CreditFacilityId, Idempotent, InterestAccrualCycleId, LedgerTxId, ObligationId,
    ObligationType, Satoshis, Timestamp, UsdCents, SECONDS_PER_DAY,
};
use crate::terms::{
    cvl_is_met, meets_cvl, CvlPct, PriceOfOneBtc, TermValues, MAX_USD_CENTS,
};

verus! {

/// Latest activation time this library handles (far beyond any real date).
pub const MAX_ACTIVATION_TIME: u64 = 0x0000_ffff_ffff_ffff;

/// Largest buffer, in CVL percent, that an upgrade of collateralization may ask for.
pub const MAX_UPGRADE_BUFFER_CVL_PCT: u64 = 100000;

/// The ledger accounts of one facility.
#[derive(Debug, Clone, Copy, PartialEq, Eq, Structural)]
pub struct CreditFacilityAccountIds {
    pub facility_account_id: CalaAccountId,
    pub collateral_account_id: CalaAccountId,
    pub disbursed_receivable_not_yet_due_account_id: CalaAccountId,
    pub disbursed_receivable_due_account_id: CalaAccountId,
    pub disbursed_receivable_overdue_account_id: CalaAccountId,
    pub disbursed_defaulted_account_id: CalaAccountId,
    pub interest_receivable_not_yet_due_account_id: CalaAccountId,
    pub interest_receivable_due_account_id: CalaAccountId,
    pub interest_receivable_overdue_account_id: CalaAccountId,
    pub interest_defaulted_account_id: CalaAccountId,
    pub fee_income_account_id: CalaAccountId,
    pub interest_income_account_id: CalaAccountId,
}

#[derive(Debug, Clone, Copy, PartialEq, Eq, Structural)]
pub enum CreditFacilityStatus {
    PendingApproval,
    Active,
    Completed,
}

/// How well the collateral covers what is owed, best first.
#[derive(Debug, Clone, Copy, PartialEq, Eq, Structural)]
pub enum CollateralizationState {
    FullyCollateralized,
    UnderMarginCallThreshold,
    UnderLiquidationThreshold,
    NoCollateral,
}

#[derive(Debug, Clone, Copy, PartialEq, Eq, Structural)]
pub enum CollateralAction {
    Add,
    Remove,
}

/// Errors of the facility's commands.
#[derive(Debug, Clone, Copy, PartialEq, Eq, Structural)]
pub enum CreditFacilityError {
    ApprovalInProgress,
    Denied,
    NotActivatedYet,
    BelowMarginLimit,
    DisbursalPastMaturityDate,
    CollateralNotUpdated,
    OutstandingAmount,
    NoInterestAccrualCycleInProgress,
    InterestAccrualCycleNotCompleted,
    InterestAccrualCycleAlreadyCompleted,
    InProgressInterestAccrualCycleNotPosted,
}

/// The facility's history; its current state is what these events made it.
#[derive(Debug, Clone, Copy, PartialEq, Eq, Structural)]
pub enum CreditFacilityEvent {
    Initialized { id: CreditFacilityId, amount: UsdCents },
    ApprovalProcessConcluded { approved: bool },
    Activated { tx_id: LedgerTxId, activated_at: Timestamp },
    InterestAccrualCycleStarted { idx: u64, start: Timestamp, end: Timestamp },
    InterestAccrualCycleConcluded { idx: u64, obligation_id: ObligationId, amount: UsdCents },
    CollateralUpdated {
        tx_id: LedgerTxId,
        total_collateral: Satoshis,
        abs_diff: Satoshis,
        action: CollateralAction,
    },
    CollateralizationChanged { state: CollateralizationState },
    BalanceUpdated { ledger_tx_id: LedgerTxId, amount: UsdCents },
    Completed { tx_id: LedgerTxId },
}

/// Ledger payload of an activation.
#[derive(Debug, Clone, Copy, PartialEq, Eq, Structural)]
pub struct CreditFacilityActivation {
    pub tx_id: LedgerTxId,
    pub credit_facility_account_ids: CreditFacilityAccountIds,
    pub debit_account_id: CalaAccountId,
    pub facility_amount: UsdCents,
    pub structuring_fee_amount: UsdCents,
}

/// Ledger payload of a change of collateral.
#[derive(Debug, Clone, Copy, PartialEq, Eq, Structural)]
pub struct CreditFacilityCollateralUpdate {
    pub tx_id: LedgerTxId,
    pub abs_diff: Satoshis,
    pub action: CollateralAction,
    pub credit_facility_account_ids: CreditFacilityAccountIds,
}

/// Ledger payload of a completion: the collateral to release.
#[derive(Debug, Clone, Copy, PartialEq, Eq, Structural)]
pub struct CreditFacilityCompletion {
    pub tx_id: LedgerTxId,
    pub collateral: Satoshis,
    pub credit_facility_account_ids: CreditFacilityAccountIds,
}

/// Number of activation events in `events`.
pub open spec fn count_activations(events: Seq<CreditFacilityEvent>) -> nat
    decreases events.len(),
{
    if events.len() == 0 {
        0
    } else {
        count_activations(events.drop_last()) + if events.last() is Activated {
            1nat
        } else {
            0nat
        }
    }
}

/// Number of completion events in `events`.
pub open spec fn count_completions(events: Seq<CreditFacilityEvent>) -> nat
    decreases events.len(),
{
    if events.len() == 0 {
        0
    } else {
        count_completions(events.drop_last()) + if events.last() is Completed {
            1nat
        } else {
            0nat
        }
    }
}

/// The facility's state as its history leaves it: a left fold of the events.
#[derive(Debug, Clone, Copy, PartialEq, Eq, Structural)]
pub struct ReplayedState {
    pub status: CreditFacilityStatus,
    pub approved: Option<bool>,
    pub collateral: Satoshis,
    pub collateralization_state: CollateralizationState,
}

/// The state before any event.
pub open spec fn initial_state() -> ReplayedState {
    ReplayedState {
        status: CreditFacilityStatus::PendingApproval,
        approved: None,
        collateral: 0,
        collateralization_state: CollateralizationState::NoCollateral,
    }
}

/// What one event does to the state.
pub open spec fn apply_event(s: ReplayedState, e: CreditFacilityEvent) -> ReplayedState {
    match e {
        CreditFacilityEvent::ApprovalProcessConcluded { approved } => ReplayedState {
            approved: Some(approved),
            ..s
        },
        CreditFacilityEvent::Activated { .. } => ReplayedState {
            status: CreditFacilityStatus::Active,
            ..s
        },
        CreditFacilityEvent::CollateralUpdated { total_collateral, .. } => ReplayedState {
            collateral: total_collateral,
            ..s
        },
        CreditFacilityEvent::CollateralizationChanged { state } => ReplayedState {
            collateralization_state: state,
            ..s
        },
        CreditFacilityEvent::Completed { .. } => ReplayedState {
            status: CreditFacilityStatus::Completed,
            collateral: 0,
            collateralization_state: CollateralizationState::NoCollateral,
            ..s
        },
        _ => s,
    }
}

/// The state that `events` build from the initial one.
pub open spec fn replay(events: Seq<CreditFacilityEvent>) -> ReplayedState
    decreases events.len(),
{
    if events.len() == 0 {
        initial_state()
    } else {
        apply_event(replay(events.drop_last()), events.last())
    }
}

/// Appending one event applies it to the replayed state.
pub proof fn lemma_event_push(events: Seq<CreditFacilityEvent>, e: CreditFacilityEvent)
    ensures
        count_activations(events.push(e)) == count_activations(events) + if e is Activated {
            1nat
        } else {
            0nat
        },
        count_completions(events.push(e)) == count_completions(events) + if e is Completed {
            1nat
        } else {
            0nat
        },
        replay(events.push(e)) == apply_event(replay(events), e),
{
    assert(events.push(e).drop_last() =~= events);
}

/// Rank of a collateralization state, higher is better.
pub open spec fn collateralization_rank(s: CollateralizationState) -> int {
    match s {
        CollateralizationState::FullyCollateralized => 3,
        CollateralizationState::UnderMarginCallThreshold => 2,
        CollateralizationState::UnderLiquidationThreshold => 1,
        CollateralizationState::NoCollateral => 0,
    }
}

/// The state `collateral` at `price` puts a loan of `loan` in.
pub open spec fn classify(
    collateral: Satoshis,
    price: PriceOfOneBtc,
    loan: int,
    terms: TermValues,
) -> CollateralizationState {
    if collateral == 0 {
        CollateralizationState::NoCollateral
    } else if meets_cvl(collateral, price, loan, terms.margin_call_cvl) {
        CollateralizationState::FullyCollateralized
    } else if meets_cvl(collateral, price, loan, terms.liquidation_cvl) {
        CollateralizationState::UnderMarginCallThreshold
    } else {
        CollateralizationState::UnderLiquidationThreshold
    }
}

/// The CVL a state is entered at.
pub open spec fn entry_cvl(s: CollateralizationState, terms: TermValues) -> int {
    match s {
        CollateralizationState::FullyCollateralized => terms.margin_call_cvl as int,
        CollateralizationState::UnderMarginCallThreshold => terms.liquidation_cvl as int,
        _ => 0,
    }
}

/// The next collateralization state: moving down happens at once, moving up
/// only once the CVL clears the new state's threshold by `buffer` percent.
pub open spec fn next_collateralization(
    current: CollateralizationState,
    collateral: Satoshis,
    price: PriceOfOneBtc,
    loan: int,
    terms: TermValues,
    buffer: CvlPct,
) -> CollateralizationState {
    let computed = classify(collateral, price, loan, terms);
    if collateral != 0 && collateralization_rank(computed) > collateralization_rank(current)
        && current != CollateralizationState::NoCollateral && !meets_cvl(
        collateral,
        price,
        loan,
        (entry_cvl(computed, terms) + buffer) as u64,
    ) {
        current
    } else {
        computed
    }
}

/// A credit facility: its terms, status, collateral and interest accrual
/// cycles, with the events that brought it there. Its status, approval,
/// collateral and collateralization are always what replaying its events
/// gives (see `wf`); every command appends the events of its change.
#[derive(Debug, Clone)]
pub struct CreditFacility {
    pub id: CreditFacilityId,
    pub customer_id: u128,
    pub amount: UsdCents,
    pub terms: TermValues,
    pub account_ids: CreditFacilityAccountIds,
    pub disbursal_credit_account_id: CalaAccountId,
    pub status: CreditFacilityStatus,
    /// Outcome of the approval process, once it concluded.
    pub approved: Option<bool>,
    pub collateral: Satoshis,
    pub collateralization_state: CollateralizationState,
    pub activated_at: Option<Timestamp>,
    pub matures_at: Option<Timestamp>,
    pub interest_accrual_cycles: Vec<InterestAccrualCycle>,
    /// Ledger transactions already reflected by `update_balance`.
    pub applied_balance_updates: Vec<LedgerTxId>,
    pub events: Vec<CreditFacilityEvent>,
}

impl CreditFacility {
    pub open spec fn cycles(&self) -> Seq<InterestAccrualCycle> {
        self.interest_accrual_cycles@
    }

    /// The fields that the history determines.
    pub open spec fn replayed(&self) -> ReplayedState {
        ReplayedState {
            status: self.status,
            approved: self.approved,
            collateral: self.collateral,
            collateralization_state: self.collateralization_state,
        }
    }

    pub open spec fn wf(&self) -> bool {
        &&& self.replayed() == replay(self.events@)
        &&& self.terms.valid()
        &&& self.amount <= MAX_USD_CENTS
        &&& (self.status == CreditFacilityStatus::PendingApproval) == (self.activated_at is None)
        &&& (self.activated_at is None) == (self.matures_at is None)
        &&& (self.activated_at is None) == (self.cycles().len() == 0)
        &&& count_activations(self.events@) == if self.activated_at is Some {
            1nat
        } else {
            0nat
        }
        &&& count_completions(self.events@) == if self.status == CreditFacilityStatus::Completed {
            1nat
        } else {
            0nat
        }
        &&& self.activated_at is Some ==> {
            let a = self.activated_at.unwrap();
            let m = self.matures_at.unwrap();
            &&& a <= MAX_ACTIVATION_TIME
            &&& m == a + self.terms.duration_days * SECONDS_PER_DAY
            &&& self.cycles()[0].start == a
        }
        &&& forall|k: int|
            0 <= k < self.cycles().len() ==> {
                let c = #[trigger] self.cycles()[k];
                &&& c.wf()
                &&& c.idx == k
                &&& c.start < c.end <= self.matures_at.unwrap()
                &&& c.accrual_interval == self.terms.accrual_interval_days * SECONDS_PER_DAY
                &&& c.annual_rate_bps == self.terms.annual_rate_bps
                &&& k + 1 < self.cycles().len() ==> c.posted
                &&& k + 1 < self.cycles().len() ==> self.cycles()[k + 1].start == c.end
            }
    }

    /// State of a facility just initiated: waiting for approval, with no
    /// collateral and nothing reflected from the ledger yet.
    pub open spec fn initiated(&self) -> bool {
        &&& self.status == CreditFacilityStatus::PendingApproval
        &&& self.approved is None
        &&& self.collateral == 0
        &&& self.collateralization_state == CollateralizationState::NoCollateral
        &&& self.applied_balance_updates@.len() == 0
    }

    /// A facility of `amount` under `terms`, waiting for approval.
    pub fn new(
        id: CreditFacilityId,
        customer_id: u128,
        amount: UsdCents,
        terms: TermValues,
        account_ids: CreditFacilityAccountIds,
        disbursal_credit_account_id: CalaAccountId,
    ) -> (r: Self)
        requires
            terms.valid(),
            amount <= MAX_USD_CENTS,
        ensures
            r.wf(),
            r.initiated(),
            r.id == id,
            r.customer_id == customer_id,
            r.amount == amount,
            r.terms == terms,
            r.account_ids == account_ids,
            r.disbursal_credit_account_id == disbursal_credit_account_id,
            r.events@ == seq![CreditFacilityEvent::Initialized { id, amount }],
    {
        let mut events = Vec::new();
        events.push(CreditFacilityEvent::Initialized { id, amount });
        let r = CreditFacility {
            id,
            customer_id,
            amount,
            terms,
            account_ids,
            disbursal_credit_account_id,
            status: CreditFacilityStatus::PendingApproval,
            approved: None,
            collateral: 0,
            collateralization_state: CollateralizationState::NoCollateral,
            activated_at: None,
            matures_at: None,
            interest_accrual_cycles: Vec::new(),
            applied_balance_updates: Vec::new(),
            events,
        };
        proof {
            lemma_event_push(Seq::empty(), CreditFacilityEvent::Initialized { id, amount });
            assert(r.events@ =~= Seq::<CreditFacilityEvent>::empty().push(
                CreditFacilityEvent::Initialized { id, amount },
            ));
        }
        r
    }

    /// Records the outcome of the approval process; a second outcome is ignored.
    pub fn approval_process_concluded(&mut self, approved: bool) -> (r: Idempotent<()>)
        requires
            old(self).wf(),
        ensures
            final(self).wf(),
            old(self).approved is Some ==> r == Idempotent::<()>::Ignored && *final(self) == *old(
                self,
            ),
            old(self).approved is None ==> r == Idempotent::Executed(()) && *final(self) == (
            CreditFacility {
                approved: Some(approved),
                events: final(self).events,
                ..*old(self)
            }) && final(self).events@ == old(self).events@.push(
                CreditFacilityEvent::ApprovalProcessConcluded { approved },
            ),
    {
        if self.approved.is_some() {
            return Idempotent::Ignored;
        }
        self.approved = Some(approved);
        proof {
            lemma_event_push(self.events@, CreditFacilityEvent::ApprovalProcessConcluded { approved });
        }
        self.events.push(CreditFacilityEvent::ApprovalProcessConcluded { approved });
        Idempotent::Executed(())
    }

    /// Whether the facility has been activated.
    pub fn is_activated(&self) -> (r: bool)
        ensures
            r == (self.activated_at is Some),
    {
        self.activated_at.is_some()
    }

    /// The one-time structuring fee of the facility.
    pub fn structuring_fee(&self) -> (r: UsdCents)
        requires
            self.wf(),
        ensures
            r == self.terms.spec_structuring_fee(self.amount),
    {
        self.terms.structuring_fee(self.amount)
    }

    /// Activates an approved facility whose collateral covers its amount at
    /// the margin-call CVL: sets activation and maturity, opens the first
    /// accrual cycle and returns the activation's ledger payload with the
    /// first accrual period. A facility already active is left as it is.
    pub fn activate(
        &mut self,
        now: Timestamp,
        price: PriceOfOneBtc,
        balances: CreditFacilityBalanceSummary,
        tx_id: LedgerTxId,
        cycle_id: InterestAccrualCycleId,
    ) -> (r: Result<Idempotent<(CreditFacilityActivation, InterestPeriod)>, CreditFacilityError>)
        requires
            old(self).wf(),
            now <= MAX_ACTIVATION_TIME,
        ensures
            final(self).wf(),
            activation_outcome(*old(self), *final(self), now, price, balances, tx_id, cycle_id, r),
    {
        if self.status != CreditFacilityStatus::PendingApproval {
            return Ok(Idempotent::Ignored);
        }
        match self.approved {
            None => {
                return Err(CreditFacilityError::ApprovalInProgress);
            },
            Some(false) => {
                return Err(CreditFacilityError::Denied);
            },
            Some(true) => {},
        }
        if !cvl_is_met(balances.collateral, price, self.amount, 0, self.terms.margin_call_cvl) {
            return Err(CreditFacilityError::BelowMarginLimit);
        }
        let matures_at = now + self.terms.duration_days * SECONDS_PER_DAY;
        let full_cycle_end = now + self.terms.accrual_cycle_interval_days * SECONDS_PER_DAY;
        let cycle_end = if full_cycle_end <= matures_at {
            full_cycle_end
        } else {
            matures_at
        };
        let interval = self.terms.accrual_interval_days * SECONDS_PER_DAY;
        assert(cycle_end - now <= 366 * interval) by (nonlinear_arith)
            requires
                cycle_end - now <= self.terms.accrual_cycle_interval_days * SECONDS_PER_DAY,
                self.terms.accrual_cycle_interval_days <= 366,
                self.terms.accrual_interval_days >= 1,
                interval == self.terms.accrual_interval_days * SECONDS_PER_DAY,
        ;
        let cycle = InterestAccrualCycle::new(
            cycle_id,
            0,
            now,
            cycle_end,
            interval,
            self.terms.annual_rate_bps,
        );
        let period = match cycle.next_accrual_period() {
            Some(p) => p,
            None => {
                assert(false);
                return Err(CreditFacilityError::NotActivatedYet);
            },
        };
        let activation = CreditFacilityActivation {
            tx_id,
            credit_facility_account_ids: self.account_ids,
            debit_account_id: self.disbursal_credit_account_id,
            facility_amount: self.amount,
            structuring_fee_amount: self.terms.structuring_fee(self.amount),
        };
        self.status = CreditFacilityStatus::Active;
        self.activated_at = Some(now);
        self.matures_at = Some(matures_at);
        self.interest_accrual_cycles.push(cycle);
        proof {
            lemma_event_push(self.events@, CreditFacilityEvent::Activated { tx_id, activated_at: now });
            lemma_event_push(
                self.events@.push(CreditFacilityEvent::Activated { tx_id, activated_at: now }),
                CreditFacilityEvent::InterestAccrualCycleStarted { idx: 0, start: now, end: cycle_end },
            );
        }
        self.events.push(CreditFacilityEvent::Activated { tx_id, activated_at: now });
        self.events.push(
            CreditFacilityEvent::InterestAccrualCycleStarted { idx: 0, start: now, end: cycle_end },
        );
        Ok(Idempotent::Executed((activation, period)))
    }

    /// Whether the last cycle is still open (not yet posted).
    pub open spec fn spec_has_cycle_in_progress(&self) -> bool {
        self.cycles().len() > 0 && !self.cycles().last().posted
    }

    /// The cycle still open, if any.
    pub fn interest_accrual_cycle_in_progress(&self) -> (r: Option<&InterestAccrualCycle>)
        ensures
            self.spec_has_cycle_in_progress() ==> r == Some(&self.cycles().last()),
            !self.spec_has_cycle_in_progress() ==> r is None,
    {
        let n = self.interest_accrual_cycles.len();
        if n == 0 {
            return None;
        }
        let c = &self.interest_accrual_cycles[n - 1];
        if c.posted {
            None
        } else {
            Some(c)
        }
    }

    /// Accrues interest on `outstanding_principal` over the next sub-period
    /// of the open cycle; returns the accrual and the sub-period after it.
    pub fn record_interest_accrual(&mut self, outstanding_principal: UsdCents) -> (r: Result<
        (InterestAccrualData, Option<InterestPeriod>),
        CreditFacilityError,
    >)
        requires
            old(self).wf(),
            outstanding_principal <= MAX_USD_CENTS,
        ensures
            final(self).wf(),
            !old(self).spec_has_cycle_in_progress() ==> r == Err::<
                (InterestAccrualData, Option<InterestPeriod>),
                _,
            >(CreditFacilityError::NoInterestAccrualCycleInProgress) && *final(self) == *old(self),
            old(self).spec_has_cycle_in_progress() && old(self).cycles().last().spec_is_completed()
                ==> r == Err::<(InterestAccrualData, Option<InterestPeriod>), _>(
                CreditFacilityError::InterestAccrualCycleAlreadyCompleted,
            ) && *final(self) == *old(self),
            old(self).spec_has_cycle_in_progress() && !old(
                self,
            ).cycles().last().spec_is_completed() ==> r is Ok,
            r matches Ok((d, next)) ==> {
                &&& accrual_step(
                    old(self).cycles().last(),
                    final(self).cycles().last(),
                    outstanding_principal,
                    d,
                )
                &&& next == final(self).cycles().last().spec_next_accrual_period()
                &&& final(self).cycles() == old(self).cycles().drop_last().push(
                    final(self).cycles().last(),
                )
                &&& *final(self) == (CreditFacility {
                    interest_accrual_cycles: final(self).interest_accrual_cycles,
                    ..*old(self)
                })
            },
    {
        let n = self.interest_accrual_cycles.len();
        if n == 0 || self.interest_accrual_cycles[n - 1].posted {
            return Err(CreditFacilityError::NoInterestAccrualCycleInProgress);
        }
        if self.interest_accrual_cycles[n - 1].is_completed() {
            return Err(CreditFacilityError::InterestAccrualCycleAlreadyCompleted);
        }
        let ghost before = self.cycles();
        let mut cycle = self.interest_accrual_cycles.pop().unwrap();
        let data = cycle.record_accrual(outstanding_principal);
        let next = cycle.next_accrual_period();
        self.interest_accrual_cycles.push(cycle);
        proof {
            assert(self.cycles() =~= before.drop_last().push(cycle));
            assert forall|k: int| 0 <= k < self.cycles().len() implies {
                let c = #[trigger] self.cycles()[k];
                &&& c.wf()
                &&& c.idx == k
                &&& c.start < c.end <= self.matures_at.unwrap()
                &&& c.accrual_interval == self.terms.accrual_interval_days * SECONDS_PER_DAY
                &&& c.annual_rate_bps == self.terms.annual_rate_bps
                &&& k + 1 < self.cycles().len() ==> c.posted
                &&& k + 1 < self.cycles().len() ==> self.cycles()[k + 1].start == c.end
            } by {
                assert(before[k].idx == k);
                if k + 1 < self.cycles().len() {
                    assert(before[k + 1].idx == k + 1);
                }
            }
        }
        Ok((data, next))
    }

    /// The accounts an interest obligation of this facility moves through.
    pub open spec fn spec_interest_accounts(&self) -> ObligationAccounts {
        ObligationAccounts {
            not_yet_due_account_id: self.account_ids.interest_receivable_not_yet_due_account_id,
            due_account_id: self.account_ids.interest_receivable_due_account_id,
            overdue_account_id: self.account_ids.interest_receivable_overdue_account_id,
            defaulted_account_id: self.account_ids.interest_defaulted_account_id,
            account_to_be_credited_id: self.account_ids.interest_income_account_id,
        }
    }

    /// Closes the open cycle once all its sub-periods are accrued: marks it
    /// posted and returns the obligation for the interest it accrued, due at
    /// the cycle's end.
    pub fn record_interest_accrual_cycle(
        &mut self,
        obligation_id: ObligationId,
        tx_id: LedgerTxId,
        now: Timestamp,
    ) -> (r: Result<NewObligation, CreditFacilityError>)
        requires
            old(self).wf(),
        ensures
            final(self).wf(),
            !old(self).spec_has_cycle_in_progress() ==> r == Err::<NewObligation, _>(
                CreditFacilityError::NoInterestAccrualCycleInProgress,
            ) && *final(self) == *old(self),
            old(self).spec_has_cycle_in_progress() && !old(self).cycles().last().spec_is_completed()
                ==> r == Err::<NewObligation, _>(
                CreditFacilityError::InterestAccrualCycleNotCompleted,
            ) && *final(self) == *old(self),
            old(self).spec_has_cycle_in_progress() && old(self).cycles().last().spec_is_completed()
                ==> {
                let c = old(self).cycles().last();
                &&& 0 <= c.spec_total_accrued() <= u64::MAX
                &&& r == Ok::<_, CreditFacilityError>(
                    NewObligation {
                        id: obligation_id,
                        tx_id,
                        credit_facility_id: old(self).id,
                        obligation_type: ObligationType::Interest,
                        amount: c.spec_total_accrued() as u64,
                        accounts: old(self).spec_interest_accounts(),
                        due_at: c.end,
                        overdue_at: (c.end + old(self).terms.obligation_overdue_days
                            * SECONDS_PER_DAY) as u64,
                        recorded_at: now,
                    },
                )
                &&& final(self).cycles() == old(self).cycles().drop_last().push(
                    InterestAccrualCycle { posted: true, ..c },
                )
                &&& final(self).events@ == old(self).events@.push(
                    CreditFacilityEvent::InterestAccrualCycleConcluded {
                        idx: c.idx,
                        obligation_id,
                        amount: c.spec_total_accrued() as u64,
                    },
                )
                &&& *final(self) == (CreditFacility {
                    interest_accrual_cycles: final(self).interest_accrual_cycles,
                    events: final(self).events,
                    ..*old(self)
                })
            },
    {
        let n = self.interest_accrual_cycles.len();
        if n == 0 || self.interest_accrual_cycles[n - 1].posted {
            return Err(CreditFacilityError::NoInterestAccrualCycleInProgress);
        }
        if !self.interest_accrual_cycles[n - 1].is_completed() {
            return Err(CreditFacilityError::InterestAccrualCycleNotCompleted);
        }
        let ghost before = self.cycles();
        let mut cycle = self.interest_accrual_cycles.pop().unwrap();
        let amount = cycle.total_accrued();
        let idx = cycle.idx;
        let due_at = cycle.end;
        proof {
            assert(before[n - 1].idx == n - 1);
        }
        let overdue_at = due_at + self.terms.obligation_overdue_days * SECONDS_PER_DAY;
        cycle.record_posted();
        self.interest_accrual_cycles.push(cycle);
        let event = CreditFacilityEvent::InterestAccrualCycleConcluded { idx, obligation_id, amount };
        proof {
            lemma_event_push(self.events@, event);
            assert(self.cycles() =~= before.drop_last().push(cycle));
            assert forall|k: int| 0 <= k < self.cycles().len() implies {
                let c = #[trigger] self.cycles()[k];
                &&& c.wf()
                &&& c.idx == k
                &&& c.start < c.end <= self.matures_at.unwrap()
                &&& c.accrual_interval == self.terms.accrual_interval_days * SECONDS_PER_DAY
                &&& c.annual_rate_bps == self.terms.annual_rate_bps
                &&& k + 1 < self.cycles().len() ==> c.posted
                &&& k + 1 < self.cycles().len() ==> self.cycles()[k + 1].start == c.end
            } by {
                assert(before[k].idx == k);
                if k + 1 < self.cycles().len() {
                    assert(before[k + 1].idx == k + 1);
                }
            }
        }
        self.events.push(event);
        Ok(
            NewObligation {
                id: obligation_id,
                tx_id,
                credit_facility_id: self.id,
                obligation_type: ObligationType::Interest,
                amount,
                accounts: ObligationAccounts {
                    not_yet_due_account_id: self.account_ids.interest_receivable_not_yet_due_account_id,
                    due_account_id: self.account_ids.interest_receivable_due_account_id,
                    overdue_account_id: self.account_ids.interest_receivable_overdue_account_id,
                    defaulted_account_id: self.account_ids.interest_defaulted_account_id,
                    account_to_be_credited_id: self.account_ids.interest_income_account_id,
                },
                due_at,
                overdue_at,
                recorded_at: now,
            },
        )
    }

    /// Opens the next cycle once the last one is posted, running from the
    /// last one's end for one cycle interval, cut at maturity; returns its
    /// first accrual period, or `None` when the last cycle reached maturity.
    pub fn start_interest_accrual_cycle(&mut self, cycle_id: InterestAccrualCycleId) -> (r: Result<
        Option<InterestPeriod>,
        CreditFacilityError,
    >)
        requires
            old(self).wf(),
        ensures
            final(self).wf(),
            old(self).activated_at is None ==> r == Err::<Option<InterestPeriod>, _>(
                CreditFacilityError::NotActivatedYet,
            ) && *final(self) == *old(self),
            old(self).activated_at is Some && !old(self).cycles().last().posted ==> r == Err::<
                Option<InterestPeriod>,
                _,
            >(CreditFacilityError::InProgressInterestAccrualCycleNotPosted) && *final(self)
                == *old(self),
            old(self).activated_at is Some && old(self).cycles().last().posted && old(
                self,
            ).cycles().last().end >= old(self).matures_at.unwrap() ==> r == Ok::<
                Option<InterestPeriod>,
                CreditFacilityError,
            >(None) && *final(self) == *old(self),
            old(self).activated_at is Some && old(self).cycles().last().posted && old(
                self,
            ).cycles().last().end < old(self).matures_at.unwrap() ==> {
                let start = old(self).cycles().last().end;
                let m = old(self).matures_at.unwrap();
                let full_end = start + old(self).terms.accrual_cycle_interval_days * SECONDS_PER_DAY;
                let end = if full_end <= m {
                    full_end
                } else {
                    m as int
                };
                let c = final(self).cycles().last();
                let interval = old(self).terms.accrual_interval_days * SECONDS_PER_DAY;
                &&& r == Ok::<_, CreditFacilityError>(
                    Some(
                        InterestPeriod {
                            start,
                            end: (if start + interval <= end {
                                start + interval
                            } else {
                                end
                            }) as u64,
                        },
                    ),
                )
                &&& final(self).cycles().drop_last() == old(self).cycles()
                &&& c.id == cycle_id && c.idx == old(self).cycles().len()
                &&& c.start == start && c.end == end
                &&& c.accruals@.len() == 0 && !c.posted
                &&& final(self).events@ == old(self).events@.push(
                    CreditFacilityEvent::InterestAccrualCycleStarted {
                        idx: c.idx,
                        start,
                        end: end as u64,
                    },
                )
                &&& *final(self) == (CreditFacility {
                    interest_accrual_cycles: final(self).interest_accrual_cycles,
                    events: final(self).events,
                    ..*old(self)
                })
            },
    {
        let matures_at = match self.matures_at {
            Some(m) => m,
            None => {
                return Err(CreditFacilityError::NotActivatedYet);
            },
        };
        let n = self.interest_accrual_cycles.len();
        let last = &self.interest_accrual_cycles[n - 1];
        if !last.posted {
            return Err(CreditFacilityError::InProgressInterestAccrualCycleNotPosted);
        }
        let start = last.end;
        if start >= matures_at {
            return Ok(None);
        }
        let ghost before = self.cycles();
        proof {
            assert(before[n - 1].idx == n - 1);
        }
        let full_end = start + self.terms.accrual_cycle_interval_days * SECONDS_PER_DAY;
        let end = if full_end <= matures_at {
            full_end
        } else {
            matures_at
        };
        let interval = self.terms.accrual_interval_days * SECONDS_PER_DAY;
        assert(end - start <= 366 * interval) by (nonlinear_arith)
            requires
                end - start <= self.terms.accrual_cycle_interval_days * SECONDS_PER_DAY,
                self.terms.accrual_cycle_interval_days <= 366,
                self.terms.accrual_interval_days >= 1,
                interval == self.terms.accrual_interval_days * SECONDS_PER_DAY,
        ;
        let idx = n as u64;
        let cycle = InterestAccrualCycle::new(
            cycle_id,
            idx,
            start,
            end,
            interval,
            self.terms.annual_rate_bps,
        );
        let period = match cycle.next_accrual_period() {
            Some(p) => p,
            None => {
                assert(false);
                return Ok(None);
            },
        };
        self.interest_accrual_cycles.push(cycle);
        let event = CreditFacilityEvent::InterestAccrualCycleStarted { idx, start, end };
        proof {
            lemma_event_push(self.events@, event);
            assert(self.cycles().drop_last() =~= before);
            assert forall|k: int| 0 <= k < self.cycles().len() implies {
                let c = #[trigger] self.cycles()[k];
                &&& c.wf()
                &&& c.idx == k
                &&& c.start < c.end <= self.matures_at.unwrap()
                &&& c.accrual_interval == self.terms.accrual_interval_days * SECONDS_PER_DAY
                &&& c.annual_rate_bps == self.terms.annual_rate_bps
                &&& k + 1 < self.cycles().len() ==> c.posted
                &&& k + 1 < self.cycles().len() ==> self.cycles()[k + 1].start == c.end
            } by {
                if k < n {
                    assert(self.cycles()[k] == before[k]);
                    assert(before[k].idx == k);
                }
            }
        }
        self.events.push(event);
        Ok(Some(period))
    }

    /// Reflects a ledger movement in the facility's history, once per ledger
    /// transaction.
    pub fn update_balance(&mut self, data: BalanceUpdateData) -> (r: Idempotent<()>)
        requires
            old(self).wf(),
        ensures
            final(self).wf(),
            old(self).applied_balance_updates@.contains(data.ledger_tx_id) ==> r
                == Idempotent::<()>::Ignored && *final(self) == *old(self),
            !old(self).applied_balance_updates@.contains(data.ledger_tx_id) ==> {
                &&& r == Idempotent::Executed(())
                &&& final(self).applied_balance_updates@ == old(
                    self,
                ).applied_balance_updates@.push(data.ledger_tx_id)
                &&& final(self).events@ == old(self).events@.push(
                    CreditFacilityEvent::BalanceUpdated {
                        ledger_tx_id: data.ledger_tx_id,
                        amount: data.amount,
                    },
                )
                &&& *final(self) == (CreditFacility {
                    applied_balance_updates: final(self).applied_balance_updates,
                    events: final(self).events,
                    ..*old(self)
                })
            },
    {
        let mut i: usize = 0;
        while i < self.applied_balance_updates.len()
            invariant
                self.wf(),
                i <= self.applied_balance_updates@.len(),
                forall|j: int| 0 <= j < i ==> self.applied_balance_updates@[j] != data.ledger_tx_id,
            decreases self.applied_balance_updates.len() - i,
        {
            if self.applied_balance_updates[i] == data.ledger_tx_id {
                return Idempotent::Ignored;
            }
            i = i + 1;
        }
        self.applied_balance_updates.push(data.ledger_tx_id);
        let event = CreditFacilityEvent::BalanceUpdated {
            ledger_tx_id: data.ledger_tx_id,
            amount: data.amount,
        };
        proof {
            lemma_event_push(self.events@, event);
        }
        self.events.push(event);
        Idempotent::Executed(())
    }

    /// What the collateral is held against: the facility amount before
    /// activation, what is owed after.
    pub open spec fn spec_exposure(&self, balances: CreditFacilityBalanceSummary) -> int {
        if self.activated_at is Some {
            balances.spec_total_outstanding()
        } else {
            self.amount as int
        }
    }

    /// Sets the collateral to `updated_collateral` and reclassifies how well
    /// it covers the exposure; returns the ledger payload that moves the
    /// difference.
    pub fn record_collateral_update(
        &mut self,
        updated_collateral: Satoshis,
        price: PriceOfOneBtc,
        upgrade_buffer_cvl_pct: CvlPct,
        balances: CreditFacilityBalanceSummary,
        tx_id: LedgerTxId,
    ) -> (r: Result<CreditFacilityCollateralUpdate, CreditFacilityError>)
        requires
            old(self).wf(),
            balances.wf(),
            upgrade_buffer_cvl_pct <= MAX_UPGRADE_BUFFER_CVL_PCT,
        ensures
            final(self).wf(),
            collateral_update_outcome(
                *old(self),
                *final(self),
                updated_collateral,
                price,
                upgrade_buffer_cvl_pct,
                balances,
                tx_id,
                r,
            ),
    {
        if updated_collateral == self.collateral {
            return Err(CreditFacilityError::CollateralNotUpdated);
        }
        let (abs_diff, action) = if updated_collateral > self.collateral {
            (updated_collateral - self.collateral, CollateralAction::Add)
        } else {
            (self.collateral - updated_collateral, CollateralAction::Remove)
        };
        let (loan_a, loan_b) = if self.activated_at.is_some() {
            (balances.disbursed_outstanding(), balances.interest_outstanding())
        } else {
            (self.amount, 0)
        };
        let state = self.next_collateralization_state(
            updated_collateral,
            price,
            loan_a,
            loan_b,
            upgrade_buffer_cvl_pct,
        );
        let updated_event = CreditFacilityEvent::CollateralUpdated {
            tx_id,
            total_collateral: updated_collateral,
            abs_diff,
            action,
        };
        proof {
            lemma_event_push(self.events@, updated_event);
        }
        self.events.push(updated_event);
        if state != self.collateralization_state {
            proof {
                lemma_event_push(self.events@, CreditFacilityEvent::CollateralizationChanged { state });
            }
            self.events.push(CreditFacilityEvent::CollateralizationChanged { state });
        }
        self.collateral = updated_collateral;
        self.collateralization_state = state;
        Ok(
            CreditFacilityCollateralUpdate {
                tx_id,
                abs_diff,
                action,
                credit_facility_account_ids: self.account_ids,
            },
        )
    }

    fn next_collateralization_state(
        &self,
        collateral: Satoshis,
        price: PriceOfOneBtc,
        loan_a: UsdCents,
        loan_b: UsdCents,
        buffer: CvlPct,
    ) -> (r: CollateralizationState)
        requires
            self.terms.valid(),
            buffer <= MAX_UPGRADE_BUFFER_CVL_PCT,
        ensures
            r == next_collateralization(
                self.collateralization_state,
                collateral,
                price,
                loan_a + loan_b,
                self.terms,
                buffer,
            ),
    {
        let computed = if collateral == 0 {
            CollateralizationState::NoCollateral
        } else if cvl_is_met(collateral, price, loan_a, loan_b, self.terms.margin_call_cvl) {
            CollateralizationState::FullyCollateralized
        } else if cvl_is_met(collateral, price, loan_a, loan_b, self.terms.liquidation_cvl) {
            CollateralizationState::UnderMarginCallThreshold
        } else {
            CollateralizationState::UnderLiquidationThreshold
        };
        let current = self.collateralization_state;
        let upgrade = rank_of(computed) > rank_of(current);
        if collateral != 0 && upgrade && current != CollateralizationState::NoCollateral {
            let entry = match computed {
                CollateralizationState::FullyCollateralized => self.terms.margin_call_cvl,
                CollateralizationState::UnderMarginCallThreshold => self.terms.liquidation_cvl,
                _ => 0,
            };
            if !cvl_is_met(collateral, price, loan_a, loan_b, entry + buffer) {
                return current;
            }
        }
        computed
    }

    /// Completes a facility with nothing left owed: releases all collateral
    /// and returns the ledger payload for it. A completed facility is left as
    /// it is.
    pub fn complete(
        &mut self,
        balances: CreditFacilityBalanceSummary,
        tx_id: LedgerTxId,
    ) -> (r: Result<Idempotent<CreditFacilityCompletion>, CreditFacilityError>)
        requires
            old(self).wf(),
            balances.wf(),
        ensures
            final(self).wf(),
            completion_outcome(*old(self), *final(self), balances, tx_id, r),
    {
        if self.status == CreditFacilityStatus::Completed {
            return Ok(Idempotent::Ignored);
        }
        if self.status == CreditFacilityStatus::PendingApproval {
            return Err(CreditFacilityError::NotActivatedYet);
        }
        if !balances.is_fully_paid() {
            return Err(CreditFacilityError::OutstandingAmount);
        }
        let completion = CreditFacilityCompletion {
            tx_id,
            collateral: self.collateral,
            credit_facility_account_ids: self.account_ids,
        };
        self.status = CreditFacilityStatus::Completed;
        self.collateral = 0;
        self.collateralization_state = CollateralizationState::NoCollateral;
        proof {
            lemma_event_push(self.events@, CreditFacilityEvent::Completed { tx_id });
        }
        self.events.push(CreditFacilityEvent::Completed { tx_id });
        Ok(Idempotent::Executed(completion))
    }

    pub open spec fn spec_disbursal_check(
        &self,
        now: Timestamp,
        amount: UsdCents,
        balances: CreditFacilityBalanceSummary,
        price: PriceOfOneBtc,
    ) -> Result<(), CreditFacilityError> {
        if self.activated_at is None {
            Err(CreditFacilityError::NotActivatedYet)
        } else if now >= self.matures_at.unwrap() {
            Err(CreditFacilityError::DisbursalPastMaturityDate)
        } else if !meets_cvl(
            self.collateral,
            price,
            balances.spec_total_outstanding() + amount,
            self.terms.margin_call_cvl,
        ) {
            Err(CreditFacilityError::BelowMarginLimit)
        } else {
            Ok(())
        }
    }

    /// Decides whether a disbursal of `amount` may be initiated at `now`: the
    /// facility must be active and not matured, and its collateral must cover
    /// what is owed plus `amount` at the margin-call CVL.
    pub fn check_disbursal(
        &self,
        now: Timestamp,
        amount: UsdCents,
        balances: CreditFacilityBalanceSummary,
        price: PriceOfOneBtc,
    ) -> (r: Result<(), CreditFacilityError>)
        requires
            self.wf(),
            balances.wf(),
        ensures
            r == self.spec_disbursal_check(now, amount, balances, price),
    {
        let matures_at = match self.matures_at {
            Some(m) => m,
            None => {
                return Err(CreditFacilityError::NotActivatedYet);
            },
        };
        if now >= matures_at {
            return Err(CreditFacilityError::DisbursalPastMaturityDate);
        }
        if !cvl_is_met(
            self.collateral,
            price,
            balances.total_outstanding(),
            amount,
            self.terms.margin_call_cvl,
        ) {
            return Err(CreditFacilityError::BelowMarginLimit);
        }
        Ok(())
    }
}


/// What `activate` does to `before`, giving `after` and returning `r`.
pub open spec fn activation_outcome(
    before: CreditFacility,
    after: CreditFacility,
    now: Timestamp,
    price: PriceOfOneBtc,
    balances: CreditFacilityBalanceSummary,
    tx_id: LedgerTxId,
    cycle_id: InterestAccrualCycleId,
    r: Result<Idempotent<(CreditFacilityActivation, InterestPeriod)>, CreditFacilityError>,
) -> bool {
    if before.status != CreditFacilityStatus::PendingApproval {
        r == Ok::<_, CreditFacilityError>(
            Idempotent::<(CreditFacilityActivation, InterestPeriod)>::Ignored,
        ) && after == before
    } else if before.approved is None {
        r == Err::<Idempotent<(CreditFacilityActivation, InterestPeriod)>, _>(
            CreditFacilityError::ApprovalInProgress,
        ) && after == before
    } else if before.approved == Some(false) {
        r == Err::<Idempotent<(CreditFacilityActivation, InterestPeriod)>, _>(
            CreditFacilityError::Denied,
        ) && after == before
    } else if !meets_cvl(balances.collateral, price, before.amount as int, before.terms.margin_call_cvl) {
        r == Err::<Idempotent<(CreditFacilityActivation, InterestPeriod)>, _>(
            CreditFacilityError::BelowMarginLimit,
        ) && after == before
    } else {
        let matures_at = now + before.terms.duration_days * SECONDS_PER_DAY;
        let full_cycle_end = now + before.terms.accrual_cycle_interval_days * SECONDS_PER_DAY;
        let cycle_end = if full_cycle_end <= matures_at {
            full_cycle_end
        } else {
            matures_at
        };
        let interval = before.terms.accrual_interval_days * SECONDS_PER_DAY;
        let first_end = if now + interval <= cycle_end {
            now + interval
        } else {
            cycle_end
        };
        let c = after.cycles()[0];
        &&& r == Ok::<_, CreditFacilityError>(
            Idempotent::Executed(
                (
                    CreditFacilityActivation {
                        tx_id,
                        credit_facility_account_ids: before.account_ids,
                        debit_account_id: before.disbursal_credit_account_id,
                        facility_amount: before.amount,
                        structuring_fee_amount: before.terms.spec_structuring_fee(
                            before.amount,
                        ) as u64,
                    },
                    InterestPeriod { start: now, end: first_end as u64 },
                ),
            ),
        )
        &&& after == (CreditFacility {
            status: CreditFacilityStatus::Active,
            activated_at: Some(now),
            matures_at: Some(matures_at as u64),
            interest_accrual_cycles: after.interest_accrual_cycles,
            events: after.events,
            ..before
        })
        &&& after.cycles().len() == 1
        &&& c.id == cycle_id && c.idx == 0 && c.start == now && c.end == cycle_end
        &&& c.accruals@.len() == 0 && !c.posted
        &&& after.events@ == before.events@.push(
            CreditFacilityEvent::Activated { tx_id, activated_at: now },
        ).push(
            CreditFacilityEvent::InterestAccrualCycleStarted {
                idx: 0,
                start: now,
                end: cycle_end as u64,
            },
        )
    }
}

fn rank_of(s: CollateralizationState) -> (r: u8)
    ensures
        r == collateralization_rank(s),
{
    match s {
        CollateralizationState::FullyCollateralized => 3,
        CollateralizationState::UnderMarginCallThreshold => 2,
        CollateralizationState::UnderLiquidationThreshold => 1,
        CollateralizationState::NoCollateral => 0,
    }
}

/// What `record_collateral_update` does to `before`, giving `after` and
/// returning `r`.
pub open spec fn collateral_update_outcome(
    before: CreditFacility,
    after: CreditFacility,
    updated_collateral: Satoshis,
    price: PriceOfOneBtc,
    upgrade_buffer_cvl_pct: CvlPct,
    balances: CreditFacilityBalanceSummary,
    tx_id: LedgerTxId,
    r: Result<CreditFacilityCollateralUpdate, CreditFacilityError>,
) -> bool {
    if updated_collateral == before.collateral {
        r == Err::<CreditFacilityCollateralUpdate, _>(CreditFacilityError::CollateralNotUpdated)
            && after == before
    } else {
        let add = updated_collateral > before.collateral;
        let abs_diff = if add {
            updated_collateral - before.collateral
        } else {
            before.collateral - updated_collateral
        };
        let action = if add {
            CollateralAction::Add
        } else {
            CollateralAction::Remove
        };
        let state = next_collateralization(
            before.collateralization_state,
            updated_collateral,
            price,
            before.spec_exposure(balances),
            before.terms,
            upgrade_buffer_cvl_pct,
        );
        let updated_event = CreditFacilityEvent::CollateralUpdated {
            tx_id,
            total_collateral: updated_collateral,
            abs_diff: abs_diff as u64,
            action,
        };
        &&& r == Ok::<_, CreditFacilityError>(
            CreditFacilityCollateralUpdate {
                tx_id,
                abs_diff: abs_diff as u64,
                action,
                credit_facility_account_ids: before.account_ids,
            },
        )
        &&& after.events@ == if state == before.collateralization_state {
            before.events@.push(updated_event)
        } else {
            before.events@.push(updated_event).push(
                CreditFacilityEvent::CollateralizationChanged { state },
            )
        }
        &&& after == (CreditFacility {
            collateral: updated_collateral,
            collateralization_state: state,
            events: after.events,
            ..before
        })
    }
}

/// What `complete` does to `before`, giving `after` and returning `r`.
pub open spec fn completion_outcome(
    before: CreditFacility,
    after: CreditFacility,
    balances: CreditFacilityBalanceSummary,
    tx_id: LedgerTxId,
    r: Result<Idempotent<CreditFacilityCompletion>, CreditFacilityError>,
) -> bool {
    if before.status == CreditFacilityStatus::Completed {
        r == Ok::<_, CreditFacilityError>(Idempotent::<CreditFacilityCompletion>::Ignored)
            && after == before
    } else if before.status == CreditFacilityStatus::PendingApproval {
        r == Err::<Idempotent<CreditFacilityCompletion>, _>(CreditFacilityError::NotActivatedYet)
            && after == before
    } else if balances.spec_total_outstanding() != 0 {
        r == Err::<Idempotent<CreditFacilityCompletion>, _>(CreditFacilityError::OutstandingAmount)
            && after == before
    } else {
        &&& r == Ok::<_, CreditFacilityError>(
            Idempotent::Executed(
                CreditFacilityCompletion {
                    tx_id,
                    collateral: before.collateral,
                    credit_facility_account_ids: before.account_ids,
                },
            ),
        )
        &&& after.events@ == before.events@.push(CreditFacilityEvent::Completed { tx_id })
        &&& after == (CreditFacility {
            status: CreditFacilityStatus::Completed,
            collateral: 0,
            collateralization_state: CollateralizationState::NoCollateral,
            events: after.events,
            ..before
        })
    }
}

/// Activating twice: once the first call succeeded, the second is ignored
/// and changes nothing, and the facility holds exactly one activation event.
pub proof fn lemma_activate_idempotent(
    f0: CreditFacility,
    f1: CreditFacility,
    f2: CreditFacility,
    now1: Timestamp,
    now2: Timestamp,
    price1: PriceOfOneBtc,
    price2: PriceOfOneBtc,
    balances1: CreditFacilityBalanceSummary,
    balances2: CreditFacilityBalanceSummary,
    tx1: LedgerTxId,
    tx2: LedgerTxId,
    cycle1: InterestAccrualCycleId,
    cycle2: InterestAccrualCycleId,
    r1: Result<Idempotent<(CreditFacilityActivation, InterestPeriod)>, CreditFacilityError>,
    r2: Result<Idempotent<(CreditFacilityActivation, InterestPeriod)>, CreditFacilityError>,
)
    requires
        f0.wf(),
        f1.wf(),
        activation_outcome(f0, f1, now1, price1, balances1, tx1, cycle1, r1),
        activation_outcome(f1, f2, now2, price2, balances2, tx2, cycle2, r2),
        r1 is Ok,
    ensures
        r2 == Ok::<_, CreditFacilityError>(
            Idempotent::<(CreditFacilityActivation, InterestPeriod)>::Ignored,
        ),
        f2 == f1,
        count_activations(f2.events@) == 1,
{
}

/// Completing twice: once the first call succeeded, the second is ignored
/// and changes nothing, and the facility holds exactly one completion event.
pub proof fn lemma_complete_idempotent(
    f0: CreditFacility,
    f1: CreditFacility,
    f2: CreditFacility,
    balances1: CreditFacilityBalanceSummary,
    balances2: CreditFacilityBalanceSummary,
    tx1: LedgerTxId,
    tx2: LedgerTxId,
    r1: Result<Idempotent<CreditFacilityCompletion>, CreditFacilityError>,
    r2: Result<Idempotent<CreditFacilityCompletion>, CreditFacilityError>,
)
    requires
        f0.wf(),
        f1.wf(),
        completion_outcome(f0, f1, balances1, tx1, r1),
        completion_outcome(f1, f2, balances2, tx2, r2),
        r1 is Ok,
    ensures
        r2 == Ok::<_, CreditFacilityError>(Idempotent::<CreditFacilityCompletion>::Ignored),
        f2 == f1,
        count_completions(f2.events@) == 1,
{
}

} // verus!
