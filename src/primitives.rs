use vstd::prelude::*;

verus! {

/// An amount of US dollars, in cents.
pub type UsdCents = u64;

/// An amount of bitcoin, in satoshis.
pub type Satoshis = u64;

/// A point in time, in seconds since the Unix epoch.
pub type Timestamp = u64;

pub type CreditFacilityId = u128;

pub type ObligationId = u128;

pub type PaymentId = u128;

pub type PaymentAllocationId = u128;

pub type DisbursalId = u128;

pub type LedgerTxId = u128;

pub type InterestAccrualCycleId = u128;

pub type CalaAccountId = u128;

pub type CalaAccountSetId = u128;

pub const SECONDS_PER_DAY: u64 = 86400;

pub const DAYS_PER_YEAR: u64 = 365;

pub const SATS_PER_BTC: u64 = 100000000;

/// Outcome of a command that may already have been applied: `Ignored` means
/// the state already reflects it and nothing was changed.
#[derive(Debug, PartialEq, Eq)]
pub enum Idempotent<T> {
    Executed(T),
    Ignored,
}

impl<T> Idempotent<T> {
    pub open spec fn spec_was_ignored(&self) -> bool {
        self is Ignored
    }

    pub fn was_ignored(&self) -> (r: bool)
        ensures
            r == self.spec_was_ignored(),
    {
        match self {
            Idempotent::Executed(_) => false,
            Idempotent::Ignored => true,
        }
    }
}

/// What an obligation is owed for.
#[derive(Debug, Clone, Copy, PartialEq, Eq, Structural)]
pub enum ObligationType {
    Disbursal,
    Interest,
}

/// Sum of a sequence of amounts.
pub open spec fn sum(s: Seq<u64>) -> int
    decreases s.len(),
{
    if s.len() == 0 {
        0
    } else {
        sum(s.drop_last()) + s.last()
    }
}

pub proof fn lemma_sum_push(s: Seq<u64>, x: u64)
    ensures
        sum(s.push(x)) == sum(s) + x,
{
    assert(s.push(x).drop_last() =~= s);
}

pub proof fn lemma_sum_nonneg(s: Seq<u64>)
    ensures
        sum(s) >= 0,
    decreases s.len(),
{
    if s.len() > 0 {
        lemma_sum_nonneg(s.drop_last());
    }
}

pub proof fn lemma_sum_update(s: Seq<u64>, i: int, v: u64)
    requires
        0 <= i < s.len(),
    ensures
        sum(s.update(i, v)) == sum(s) - s[i] + v,
    decreases s.len(),
{
    if i == s.len() - 1 {
        assert(s.update(i, v).drop_last() =~= s.drop_last());
    } else {
        lemma_sum_update(s.drop_last(), i, v);
        assert(s.update(i, v).drop_last() =~= s.drop_last().update(i, v));
    }
}

pub proof fn lemma_sum_all_zero(s: Seq<u64>)
    requires
        forall|i: int| 0 <= i < s.len() ==> s[i] == 0,
    ensures
        sum(s) == 0,
    decreases s.len(),
{
    if s.len() > 0 {
        lemma_sum_all_zero(s.drop_last());
    }
}

pub proof fn lemma_sum_le(s: Seq<u64>, t: Seq<u64>)
    requires
        s.len() == t.len(),
        forall|i: int| 0 <= i < s.len() ==> s[i] <= t[i],
    ensures
        sum(s) <= sum(t),
    decreases s.len(),
{
    if s.len() > 0 {
        lemma_sum_le(s.drop_last(), t.drop_last());
    }
}

} // verus!
