use vstd::prelude::*;

use crate::obligation::{Obligation, ObligationStatus};
use crate::primitives::{
    lemma_sum_nonneg, lemma_sum_push, lemma_sum_update, lemma_sum_all_zero, sum, CalaAccountId,
    CreditFacilityId, LedgerTxId, ObligationId, ObligationType, PaymentAllocationId, PaymentId,
    Timestamp, UsdCents,
};

verus! {

/// A fresh random identifier.
/// Relies on uuid::Uuid::new_v4, read as a 128-bit integer; nothing is
/// promised of its value.
#[verifier::external_body]
pub(crate) fn new_random_id() -> (r: u128) {
    uuid::Uuid::new_v4().as_u128()
}

/// Which balance of the facility a ledger movement affects.
#[derive(Debug, Clone, Copy, PartialEq, Eq, Structural)]
pub enum BalanceUpdateSource {
    Obligation,
    PaymentAllocation,
}

/// A movement to be reflected in the facility's running balances.
#[derive(Debug, Clone, Copy, PartialEq, Eq, Structural)]
pub struct BalanceUpdateData {
    pub source: BalanceUpdateSource,
    pub source_id: u128,
    pub ledger_tx_id: LedgerTxId,
    pub balance_type: ObligationType,
    pub amount: UsdCents,
    pub updated_at: Timestamp,
}

/// The part of one payment that goes to one obligation.
#[derive(Debug, Clone, Copy, PartialEq, Eq, Structural)]
pub struct PaymentAllocation {
    pub id: PaymentAllocationId,
    pub payment_id: PaymentId,
    pub obligation_id: ObligationId,
    pub obligation_type: ObligationType,
    pub credit_facility_id: CreditFacilityId,
    pub ledger_tx_id: LedgerTxId,
    pub amount: UsdCents,
    pub receivable_account_id: CalaAccountId,
    pub account_to_be_debited_id: CalaAccountId,
    pub recorded_at: Timestamp,
}

impl PaymentAllocation {
    /// The movement this allocation makes in the facility's balances.
    pub fn facility_balance_update_data(&self) -> (r: BalanceUpdateData)
        ensures
            r == (BalanceUpdateData {
                source: BalanceUpdateSource::PaymentAllocation,
                source_id: self.id,
                ledger_tx_id: self.ledger_tx_id,
                balance_type: self.obligation_type,
                amount: self.amount,
                updated_at: self.recorded_at,
            }),
    {
        BalanceUpdateData {
            source: BalanceUpdateSource::PaymentAllocation,
            source_id: self.id,
            ledger_tx_id: self.ledger_tx_id,
            balance_type: self.obligation_type,
            amount: self.amount,
            updated_at: self.recorded_at,
        }
    }
}

/// Number of allocation priority classes.
pub const NUM_PRIORITIES: u64 = 10;

/// Order in which obligations are paid: defaulted, then overdue, then due,
/// then not-yet-due (paid ones last, having nothing outstanding); within one
/// status interest before disbursed principal.
pub open spec fn priority(o: Obligation) -> int {
    let s = match o.status {
        ObligationStatus::Defaulted => 0int,
        ObligationStatus::Overdue => 1,
        ObligationStatus::Due => 2,
        ObligationStatus::NotYetDue => 3,
        ObligationStatus::Paid => 4,
    };
    let t = match o.obligation_type {
        ObligationType::Interest => 0int,
        ObligationType::Disbursal => 1int,
    };
    s * 2 + t
}

/// Computes `priority`.
pub fn allocation_priority(o: &Obligation) -> (r: u64)
    ensures
        r == priority(*o),
        r < NUM_PRIORITIES,
{
    let s: u64 = match o.status {
        ObligationStatus::Defaulted => 0,
        ObligationStatus::Overdue => 1,
        ObligationStatus::Due => 2,
        ObligationStatus::NotYetDue => 3,
        ObligationStatus::Paid => 4,
    };
    let t: u64 = match o.obligation_type {
        ObligationType::Interest => 0,
        ObligationType::Disbursal => 1,
    };
    s * 2 + t
}

/// Whether obligation `i` is paid before obligation `j` of `obs`.
pub open spec fn precedes(obs: Seq<Obligation>, i: int, j: int) -> bool {
    priority(obs[i]) < priority(obs[j]) || (priority(obs[i]) == priority(obs[j]) && i < j)
}

pub open spec fn outstanding_of(obs: Seq<Obligation>) -> Seq<u64> {
    obs.map_values(|o: Obligation| o.outstanding)
}

/// Total outstanding amount of `obs`.
pub open spec fn total_outstanding(obs: Seq<Obligation>) -> int {
    sum(outstanding_of(obs))
}

pub open spec fn amounts_of(allocs: Seq<PaymentAllocation>) -> Seq<u64> {
    allocs.map_values(|a: PaymentAllocation| a.amount)
}

pub open spec fn min(a: int, b: int) -> int {
    if a <= b {
        a
    } else {
        b
    }
}

pub open spec fn all_wf(obs: Seq<Obligation>) -> bool {
    forall|i: int| 0 <= i < obs.len() ==> #[trigger] obs[i].wf()
}

pub open spec fn ids_distinct(obs: Seq<Obligation>) -> bool {
    forall|i: int, j: int| 0 <= i < j < obs.len() ==> obs[i].id != obs[j].id
}

/// `after` is `before` with the outstanding amount of each obligation
/// reduced by a payment (possibly of nothing).
pub open spec fn paid_down(before: Seq<Obligation>, after: Seq<Obligation>) -> bool {
    &&& after.len() == before.len()
    &&& forall|i: int|
        0 <= i < before.len() ==> {
            &&& #[trigger] after[i].outstanding <= before[i].outstanding
            &&& after[i] == (Obligation {
                outstanding: after[i].outstanding,
                status: if after[i].outstanding == 0 {
                    ObligationStatus::Paid
                } else {
                    before[i].status
                },
                ..before[i]
            })
        }
}

/// The allocations of one payment against the obligations they were made on:
/// one per obligation whose outstanding amount went down, of exactly that
/// reduction, in the order the obligations were paid.
pub open spec fn allocations_match(
    before: Seq<Obligation>,
    after: Seq<Obligation>,
    allocs: Seq<PaymentAllocation>,
    payment_id: PaymentId,
    account_to_be_debited_id: CalaAccountId,
    recorded_at: Timestamp,
) -> bool {
    &&& forall|k: int|
        0 <= k < allocs.len() ==> exists|i: int|
            0 <= i < before.len() && #[trigger] allocs[k].obligation_id == #[trigger] before[i].id && {
                &&& allocs[k].amount == before[i].outstanding - after[i].outstanding
                &&& allocs[k].amount > 0
                &&& allocs[k].obligation_type == before[i].obligation_type
                &&& allocs[k].credit_facility_id == before[i].credit_facility_id
                &&& allocs[k].receivable_account_id == before[i].spec_receivable_account_id()
            }
    &&& forall|k: int|
        0 <= k < allocs.len() ==> {
            &&& #[trigger] allocs[k].payment_id == payment_id
            &&& allocs[k].ledger_tx_id == allocs[k].id
            &&& allocs[k].account_to_be_debited_id == account_to_be_debited_id
            &&& allocs[k].recorded_at == recorded_at
        }
    &&& forall|i: int|
        0 <= i < before.len() && #[trigger] after[i].outstanding < before[i].outstanding
            ==> exists|k: int| 0 <= k < allocs.len() && allocs[k].obligation_id == before[i].id
    &&& forall|j: int, k: int|
        0 <= j < k < allocs.len() ==> allocs[j].obligation_id != allocs[k].obligation_id
}

/// The outcome of allocating one payment.
#[derive(Debug, Clone)]
pub struct PaymentAllocationResult {
    pub allocations: Vec<PaymentAllocation>,
}

impl PaymentAllocationResult {
    /// Part of the payment that went to disbursed principal.
    pub fn disbursed_amount(&self) -> (r: UsdCents)
        requires
            sum(amounts_of(self.allocations@)) <= u64::MAX,
        ensures
            r == amount_of_type(self.allocations@, ObligationType::Disbursal),
    {
        self.amount_of_type(ObligationType::Disbursal)
    }

    /// Part of the payment that went to interest.
    pub fn interest_amount(&self) -> (r: UsdCents)
        requires
            sum(amounts_of(self.allocations@)) <= u64::MAX,
        ensures
            r == amount_of_type(self.allocations@, ObligationType::Interest),
    {
        self.amount_of_type(ObligationType::Interest)
    }

    fn amount_of_type(&self, t: ObligationType) -> (r: UsdCents)
        requires
            sum(amounts_of(self.allocations@)) <= u64::MAX,
        ensures
            r == amount_of_type(self.allocations@, t),
    {
        let mut total: u64 = 0;
        let mut i: usize = 0;
        while i < self.allocations.len()
            invariant
                i <= self.allocations@.len(),
                sum(amounts_of(self.allocations@)) <= u64::MAX,
                total == amount_of_type(self.allocations@.subrange(0, i as int), t),
                total <= sum(amounts_of(self.allocations@.subrange(0, i as int))),
            decreases self.allocations.len() - i,
        {
            let a = self.allocations[i];
            proof {
                let s = self.allocations@.subrange(0, i as int);
                let s1 = self.allocations@.subrange(0, i + 1);
                assert(s1 =~= s.push(a));
                assert(amounts_of(s1) =~= amounts_of(s).push(a.amount));
                lemma_sum_push(amounts_of(s), a.amount);
                assert(s1.drop_last() =~= s);
                lemma_prefix_sum_le(self.allocations@, i + 1);
            }
            if a.obligation_type == t {
                total = total + a.amount;
            }
            i = i + 1;
        }
        assert(self.allocations@.subrange(0, i as int) =~= self.allocations@);
        total
    }
}

/// Sum of the allocations of `allocs` made to obligations of type `t`.
pub open spec fn amount_of_type(allocs: Seq<PaymentAllocation>, t: ObligationType) -> int
    decreases allocs.len(),
{
    if allocs.len() == 0 {
        0
    } else {
        amount_of_type(allocs.drop_last(), t) + if allocs.last().obligation_type == t {
            allocs.last().amount as int
        } else {
            0
        }
    }
}

proof fn lemma_prefix_sum_le(s: Seq<PaymentAllocation>, n: int)
    requires
        0 <= n <= s.len(),
    ensures
        sum(amounts_of(s.subrange(0, n))) <= sum(amounts_of(s)),
    decreases s.len(),
{
    if n < s.len() {
        lemma_prefix_sum_le(s.drop_last(), n);
        assert(s.drop_last().subrange(0, n) =~= s.subrange(0, n));
        assert(amounts_of(s) =~= amounts_of(s.drop_last()).push(s.last().amount));
        lemma_sum_push(amounts_of(s.drop_last()), s.last().amount);
    } else {
        assert(s.subrange(0, n) =~= s);
    }
}

} // verus!

verus! {

/// Whether obligation `i` of `obs` comes before the cursor `(p, c)` of the
/// allocation loop: in an earlier priority class, or earlier in class `p`.
pub open spec fn processed(obs: Seq<Obligation>, p: int, c: int, i: int) -> bool {
    priority(obs[i]) < p || (priority(obs[i]) == p && i < c)
}

spec fn allocation_inv(
    before: Seq<Obligation>,
    cur: Seq<Obligation>,
    allocs: Seq<PaymentAllocation>,
    targets: Seq<int>,
    left: int,
    amount: int,
    p: int,
    c: int,
    payment_id: PaymentId,
    account_to_be_debited_id: CalaAccountId,
    recorded_at: Timestamp,
) -> bool {
    &&& cur.len() == before.len()
    &&& all_wf(cur)
    &&& paid_down(before, cur)
    &&& forall|i: int| 0 <= i < before.len() && !processed(before, p, c, i) ==> cur[i] == before[i]
    &&& forall|i: int|
        0 <= i < before.len() && processed(before, p, c, i) ==> cur[i].outstanding == 0 || left
            == 0
    &&& forall|i: int, j: int|
        0 <= i < before.len() && 0 <= j < before.len() && processed(before, p, c, i) && processed(
            before,
            p,
            c,
            j,
        ) && precedes(before, i, j) && cur[j].outstanding < before[j].outstanding
            ==> cur[i].outstanding == 0
    &&& 0 <= left <= amount
    &&& left + total_outstanding(before) - total_outstanding(cur) == amount
    &&& sum(amounts_of(allocs)) + left == amount
    &&& targets.len() == allocs.len()
    &&& forall|k: int|
        0 <= k < allocs.len() ==> {
            let t = #[trigger] targets[k];
            &&& 0 <= t < before.len()
            &&& processed(before, p, c, t)
            &&& allocs[k].obligation_id == before[t].id
            &&& allocs[k].amount == before[t].outstanding - cur[t].outstanding
            &&& allocs[k].amount > 0
            &&& allocs[k].obligation_type == before[t].obligation_type
            &&& allocs[k].credit_facility_id == before[t].credit_facility_id
            &&& allocs[k].receivable_account_id == before[t].spec_receivable_account_id()
            &&& allocs[k].payment_id == payment_id
            &&& allocs[k].ledger_tx_id == allocs[k].id
            &&& allocs[k].account_to_be_debited_id == account_to_be_debited_id
            &&& allocs[k].recorded_at == recorded_at
        }
    &&& forall|j: int, k: int| 0 <= j < k < allocs.len() ==> targets[j] != targets[k]
    &&& forall|i: int|
        0 <= i < before.len() && cur[i].outstanding < before[i].outstanding ==> exists|k: int|
            0 <= k < allocs.len() && targets[k] == i
}

proof fn lemma_total_outstanding_update(obs: Seq<Obligation>, i: int, o: Obligation)
    requires
        0 <= i < obs.len(),
    ensures
        total_outstanding(obs.update(i, o)) == total_outstanding(obs) - obs[i].outstanding
            + o.outstanding,
{
    assert(outstanding_of(obs.update(i, o)) =~= outstanding_of(obs).update(i, o.outstanding));
    lemma_sum_update(outstanding_of(obs), i, o.outstanding);
}

proof fn lemma_skip_step(
    before: Seq<Obligation>,
    cur: Seq<Obligation>,
    allocs: Seq<PaymentAllocation>,
    targets: Seq<int>,
    left: int,
    amount: int,
    p: int,
    i: int,
    payment_id: PaymentId,
    account_to_be_debited_id: CalaAccountId,
    recorded_at: Timestamp,
)
    requires
        allocation_inv(before, cur, allocs, targets, left, amount, p, i, payment_id, account_to_be_debited_id, recorded_at),
        0 <= i < before.len(),
        !(left > 0 && cur[i].outstanding > 0 && priority(cur[i]) == p),
    ensures
        allocation_inv(before, cur, allocs, targets, left, amount, p, i + 1, payment_id, account_to_be_debited_id, recorded_at),
{
    assert forall|k: int| 0 <= k < allocs.len() implies processed(before, p, i + 1, #[trigger] targets[k]) by {
        assert(processed(before, p, i, targets[k]));
    }
    if !processed(before, p, i, i) {
        assert(cur[i] == before[i]);
    }
    assert forall|ii: int| 0 <= ii < before.len() && processed(before, p, i + 1, ii) implies
        cur[ii].outstanding == 0 || left == 0 by {
        if ii != i {
            assert(processed(before, p, i, ii));
        }
    }
    assert forall|ii: int, j: int|
        0 <= ii < before.len() && 0 <= j < before.len() && processed(before, p, i + 1, ii) && processed(
            before,
            p,
            i + 1,
            j,
        ) && precedes(before, ii, j) && cur[j].outstanding < before[j].outstanding
            implies cur[ii].outstanding == 0 by {
        if j == i {
            if !processed(before, p, i, i) {
                assert(cur[i] == before[i]);
            }
            if ii != i {
                assert(processed(before, p, i, ii));
            }
        } else if ii == i {
            assert(processed(before, p, i, j));
        } else {
            assert(processed(before, p, i, ii));
            assert(processed(before, p, i, j));
        }
    }
}

proof fn lemma_allocate_step(
    before: Seq<Obligation>,
    cur: Seq<Obligation>,
    allocs: Seq<PaymentAllocation>,
    targets: Seq<int>,
    left: int,
    amount: int,
    p: int,
    i: int,
    payment_id: PaymentId,
    account_to_be_debited_id: CalaAccountId,
    recorded_at: Timestamp,
    take: u64,
    paid: Obligation,
    a: PaymentAllocation,
)
    requires
        allocation_inv(before, cur, allocs, targets, left, amount, p, i, payment_id, account_to_be_debited_id, recorded_at),
        0 <= i < before.len(),
        left > 0 && cur[i].outstanding > 0 && priority(cur[i]) == p,
        take == min(left, cur[i].outstanding as int),
        paid == (Obligation {
            outstanding: (cur[i].outstanding - take) as u64,
            status: if cur[i].outstanding == take {
                ObligationStatus::Paid
            } else {
                cur[i].status
            },
            ..cur[i]
        }),
        paid.wf(),
        a.payment_id == payment_id,
        a.obligation_id == cur[i].id,
        a.obligation_type == cur[i].obligation_type,
        a.credit_facility_id == cur[i].credit_facility_id,
        a.ledger_tx_id == a.id,
        a.amount == take,
        a.receivable_account_id == cur[i].spec_receivable_account_id(),
        a.account_to_be_debited_id == account_to_be_debited_id,
        a.recorded_at == recorded_at,
    ensures
        allocation_inv(
            before,
            cur.update(i, paid),
            allocs.push(a),
            targets.push(i),
            left - take,
            amount,
            p,
            i + 1,
            payment_id,
            account_to_be_debited_id,
            recorded_at,
        ),
{
    let cur2 = cur.update(i, paid);
    let allocs2 = allocs.push(a);
    let targets2 = targets.push(i);
    assert(!processed(before, p, i, i) ==> cur[i] == before[i]);
    assert(!processed(before, p, i, i)) by {
        if processed(before, p, i, i) {
            assert(cur[i].outstanding == 0 || left == 0);
        }
    }
    assert(cur[i] == before[i]);
    lemma_total_outstanding_update(cur, i, paid);
    assert(amounts_of(allocs2) =~= amounts_of(allocs).push(take));
    lemma_sum_push(amounts_of(allocs), take);
    assert(all_wf(cur2));
    assert(paid_down(before, cur2));
    assert forall|k: int| 0 <= k < allocs2.len() implies {
        let t = #[trigger] targets2[k];
        &&& 0 <= t < before.len()
        &&& processed(before, p, i + 1, t)
        &&& allocs2[k].obligation_id == before[t].id
        &&& allocs2[k].amount == before[t].outstanding - cur2[t].outstanding
        &&& allocs2[k].amount > 0
        &&& allocs2[k].obligation_type == before[t].obligation_type
        &&& allocs2[k].credit_facility_id == before[t].credit_facility_id
        &&& allocs2[k].receivable_account_id == before[t].spec_receivable_account_id()
        &&& allocs2[k].payment_id == payment_id
        &&& allocs2[k].ledger_tx_id == allocs2[k].id
        &&& allocs2[k].account_to_be_debited_id == account_to_be_debited_id
        &&& allocs2[k].recorded_at == recorded_at
    } by {
        if k < allocs.len() {
            assert(targets2[k] == targets[k]);
            assert(processed(before, p, i, targets[k]));
            assert(targets[k] != i);
        }
    }
    assert forall|j: int, k: int| 0 <= j < k < allocs2.len() implies targets2[j] != targets2[k] by {
        if k == allocs.len() {
            assert(processed(before, p, i, targets[j]));
        }
    }
    assert forall|ii: int|
        0 <= ii < before.len() && cur2[ii].outstanding < before[ii].outstanding implies exists|k: int|
        0 <= k < allocs2.len() && targets2[k] == ii by {
        if ii == i {
            assert(targets2[allocs.len() as int] == ii);
        } else {
            assert(cur[ii].outstanding < before[ii].outstanding);
            let k = choose|k: int| 0 <= k < allocs.len() && targets[k] == ii;
            assert(targets2[k] == ii);
        }
    }
    assert forall|ii: int, j: int|
        0 <= ii < before.len() && 0 <= j < before.len() && processed(before, p, i + 1, ii) && processed(
            before,
            p,
            i + 1,
            j,
        ) && precedes(before, ii, j) && cur2[j].outstanding < before[j].outstanding
            implies cur2[ii].outstanding == 0 by {
        if j == i {
            if ii != i {
                assert(processed(before, p, i, ii));
            }
        } else if ii == i {
            assert(processed(before, p, i, j));
        } else {
            assert(processed(before, p, i, ii));
            assert(processed(before, p, i, j));
        }
    }
    assert forall|ii: int| 0 <= ii < before.len() && processed(before, p, i + 1, ii) implies
        cur2[ii].outstanding == 0 || left - take == 0 by {
        if ii != i {
            assert(processed(before, p, i, ii));
        }
    }
}

proof fn lemma_allocation_done(
    before: Seq<Obligation>,
    cur: Seq<Obligation>,
    allocs: Seq<PaymentAllocation>,
    targets: Seq<int>,
    left: int,
    amount: int,
    payment_id: PaymentId,
    account_to_be_debited_id: CalaAccountId,
    recorded_at: Timestamp,
)
    requires
        allocation_inv(before, cur, allocs, targets, left, amount, NUM_PRIORITIES as int, 0, payment_id, account_to_be_debited_id, recorded_at),
        ids_distinct(before),
    ensures
        sum(amounts_of(allocs)) == min(amount, total_outstanding(before)),
        total_outstanding(before) - total_outstanding(cur) == min(amount, total_outstanding(before)),
        forall|i: int, j: int|
            0 <= i < before.len() && 0 <= j < before.len() && precedes(before, i, j)
                && #[trigger] cur[j].outstanding < before[j].outstanding
                ==> #[trigger] cur[i].outstanding == 0,
        allocations_match(before, cur, allocs, payment_id, account_to_be_debited_id, recorded_at),
{
    let n = before.len();
    assert forall|ii: int| 0 <= ii < n implies processed(before, NUM_PRIORITIES as int, 0, ii) by {
        assert(priority(before[ii]) < NUM_PRIORITIES);
    }
    if left != 0 {
        assert forall|ii: int| 0 <= ii < outstanding_of(cur).len() implies outstanding_of(cur)[ii]
            == 0 by {
            assert(processed(before, NUM_PRIORITIES as int, 0, ii));
        }
        lemma_sum_all_zero(outstanding_of(cur));
    }
    lemma_sum_nonneg(outstanding_of(cur));
    lemma_allocations_match_at_end(before, cur, allocs, targets, left, amount, payment_id, account_to_be_debited_id, recorded_at);
    assert forall|ii: int, j: int|
        0 <= ii < n && 0 <= j < n && precedes(before, ii, j) && #[trigger] cur[j].outstanding
            < before[j].outstanding implies #[trigger] cur[ii].outstanding == 0 by {
        assert(processed(before, NUM_PRIORITIES as int, 0, ii));
        assert(processed(before, NUM_PRIORITIES as int, 0, j));
    }
}

#[verifier::rlimit(50)]
proof fn lemma_allocations_match_at_end(
    before: Seq<Obligation>,
    cur: Seq<Obligation>,
    allocs: Seq<PaymentAllocation>,
    targets: Seq<int>,
    left: int,
    amount: int,
    payment_id: PaymentId,
    account_to_be_debited_id: CalaAccountId,
    recorded_at: Timestamp,
)
    requires
        allocation_inv(before, cur, allocs, targets, left, amount, NUM_PRIORITIES as int, 0, payment_id, account_to_be_debited_id, recorded_at),
        ids_distinct(before),
    ensures
        allocations_match(before, cur, allocs, payment_id, account_to_be_debited_id, recorded_at),
{
    assert forall|k: int| 0 <= k < allocs.len() implies exists|ii: int|
        0 <= ii < before.len() && #[trigger] allocs[k].obligation_id == #[trigger] before[ii].id && {
            &&& allocs[k].amount == before[ii].outstanding - cur[ii].outstanding
            &&& allocs[k].amount > 0
            &&& allocs[k].obligation_type == before[ii].obligation_type
            &&& allocs[k].credit_facility_id == before[ii].credit_facility_id
            &&& allocs[k].receivable_account_id == before[ii].spec_receivable_account_id()
        } by {
        let t = targets[k];
        assert(0 <= t < before.len() && allocs[k].obligation_id == before[t].id);
    }
    assert forall|k: int| 0 <= k < allocs.len() implies {
        &&& #[trigger] allocs[k].payment_id == payment_id
        &&& allocs[k].ledger_tx_id == allocs[k].id
        &&& allocs[k].account_to_be_debited_id == account_to_be_debited_id
        &&& allocs[k].recorded_at == recorded_at
    } by {
        let t = targets[k];
    }
    assert forall|ii: int|
        0 <= ii < before.len() && #[trigger] cur[ii].outstanding < before[ii].outstanding implies exists|k: int|
        0 <= k < allocs.len() && allocs[k].obligation_id == before[ii].id by {
        let k = choose|k: int| 0 <= k < allocs.len() && targets[k] == ii;
        let t = targets[k];
        assert(allocs[k].obligation_id == before[ii].id);
    }
    assert forall|j: int, k: int| 0 <= j < k < allocs.len() implies allocs[j].obligation_id
        != allocs[k].obligation_id by {
        let tj = targets[j];
        let tk = targets[k];
        assert(tj != tk);
        if tj < tk {
            assert(before[tj].id != before[tk].id);
        } else {
            assert(before[tk].id != before[tj].id);
        }
    }
}

/// Splits a payment of `amount` over `obligations` and applies it to them.
///
/// Obligations are paid in the order of `priority` (defaulted, overdue, due,
/// not yet due; interest before principal), and in list order within one
/// class: each one as far as what is left of the payment goes. The amounts
/// allocated add up to the smaller of `amount` and the total outstanding;
/// whatever exceeds the total is left unapplied.
pub fn allocate_payment(
    obligations: &mut Vec<Obligation>,
    payment_id: PaymentId,
    amount: UsdCents,
    account_to_be_debited_id: CalaAccountId,
    recorded_at: Timestamp,
) -> (r: PaymentAllocationResult)
    requires
        all_wf(old(obligations)@),
        ids_distinct(old(obligations)@),
    ensures
        all_wf(final(obligations)@),
        paid_down(old(obligations)@, final(obligations)@),
        sum(amounts_of(r.allocations@)) == min(
            amount as int,
            total_outstanding(old(obligations)@),
        ),
        total_outstanding(old(obligations)@) - total_outstanding(final(obligations)@) == min(
            amount as int,
            total_outstanding(old(obligations)@),
        ),
        forall|i: int, j: int|
            0 <= i < old(obligations)@.len() && 0 <= j < old(obligations)@.len() && precedes(
                old(obligations)@,
                i,
                j,
            ) && #[trigger] final(obligations)@[j].outstanding < old(obligations)@[j].outstanding
                ==> #[trigger] final(obligations)@[i].outstanding == 0,
        allocations_match(
            old(obligations)@,
            final(obligations)@,
            r.allocations@,
            payment_id,
            account_to_be_debited_id,
            recorded_at,
        ),
{
    let ghost before = obligations@;
    let n = obligations.len();
    let mut allocations: Vec<PaymentAllocation> = Vec::new();
    let ghost mut targets: Seq<int> = Seq::empty();
    let mut left: u64 = amount;
    let mut p: u64 = 0;
    proof {
        assert(amounts_of(allocations@) =~= Seq::<u64>::empty());
        assert(obligations@ =~= before);
        assert forall|ii: int| 0 <= ii < n implies #[trigger] before[ii] == (Obligation {
            outstanding: before[ii].outstanding,
            status: if before[ii].outstanding == 0 {
                ObligationStatus::Paid
            } else {
                before[ii].status
            },
            ..before[ii]
        }) by {
            assert(before[ii].wf());
        }
    }
    while p < NUM_PRIORITIES
        invariant
            n == before.len(),
            ids_distinct(before),
            p <= NUM_PRIORITIES,
            allocation_inv(before, obligations@, allocations@, targets, left as int, amount as int, p as int, 0, payment_id, account_to_be_debited_id, recorded_at),
        decreases NUM_PRIORITIES - p,
    {
        let mut i: usize = 0;
        while i < n
            invariant
                n == before.len(),
                p < NUM_PRIORITIES,
                i <= n,
                allocation_inv(before, obligations@, allocations@, targets, left as int, amount as int, p as int, i as int, payment_id, account_to_be_debited_id, recorded_at),
            decreases n - i,
        {
            let o = obligations[i];
            let pri = allocation_priority(&o);
            if left > 0 && o.outstanding > 0 && pri == p {
                let take = if left < o.outstanding {
                    left
                } else {
                    o.outstanding
                };
                let receivable_account_id = o.receivable_account_id();
                let id = new_random_id();
                let mut paid = o;
                paid.record_payment(take);
                let a = PaymentAllocation {
                    id,
                    payment_id,
                    obligation_id: o.id,
                    obligation_type: o.obligation_type,
                    credit_facility_id: o.credit_facility_id,
                    ledger_tx_id: id,
                    amount: take,
                    receivable_account_id,
                    account_to_be_debited_id,
                    recorded_at,
                };
                proof {
                    lemma_allocate_step(before, obligations@, allocations@, targets, left as int, amount as int, p as int, i as int, payment_id, account_to_be_debited_id, recorded_at, take, paid, a);
                    targets = targets.push(i as int);
                }
                obligations.set(i, paid);
                allocations.push(a);
                left = left - take;
            } else {
                proof {
                    lemma_skip_step(before, obligations@, allocations@, targets, left as int, amount as int, p as int, i as int, payment_id, account_to_be_debited_id, recorded_at);
                }
            }
            i = i + 1;
        }
        p = p + 1;
        proof {
            assert forall|ii: int| 0 <= ii < n implies processed(before, p as int, 0, ii)
                == processed(before, (p - 1) as int, n as int, ii) by {}
        }
    }
    proof {
        lemma_allocation_done(before, obligations@, allocations@, targets, left as int, amount as int, payment_id, account_to_be_debited_id, recorded_at);
    }
    PaymentAllocationResult { allocations }
}

} // verus!
