use vstd::prelude::*;

use crate::balance::CreditFacilityBalanceSummary;
use crate::credit_facility::{
    collateral_update_outcome, CreditFacility, CreditFacilityCollateralUpdate,
    CreditFacilityError,
};
use crate::primitives::{LedgerTxId, Satoshis};
use crate::terms::{CvlPct, PriceOfOneBtc};

verus! {

/// A write was computed from a version that is no longer current.
#[derive(Debug, Clone, Copy, PartialEq, Eq, Structural)]
pub enum ConcurrencyError {
    ConcurrentModification,
}

/// The version after a write computed from `expected` lands on a store at
/// `current`; `None` when another write landed in between.
pub open spec fn spec_commit(current: u64, expected: u64) -> Option<u64> {
    if current == expected && current < u64::MAX {
        Some((current + 1) as u64)
    } else {
        None
    }
}

/// Optimistic concurrency check of one write: it lands only on the version
/// it was computed from, and moves the version on by one.
pub fn check_version(current: u64, expected: u64) -> (r: Result<u64, ConcurrencyError>)
    ensures
        r matches Ok(v) ==> spec_commit(current, expected) == Some(v),
        r is Err ==> spec_commit(current, expected) is None,
{
    if current == expected && current < u64::MAX {
        Ok(current + 1)
    } else {
        Err(ConcurrencyError::ConcurrentModification)
    }
}

/// What a command wrapped in the retry helper does after one attempt.
#[derive(Debug, Clone, Copy, PartialEq, Eq, Structural)]
pub enum RetryStep {
    /// The attempt's write landed.
    Done,
    /// Another write landed first: read the state again and recompute.
    RetryFromFreshRead,
    /// Conflicts used up every attempt: surface the error.
    GiveUp,
}

/// Decides the next step after attempt `attempt` (counted from 1) of at most
/// `max_attempts`.
pub fn after_attempt(attempt: u32, max_attempts: u32, conflicted: bool) -> (r: RetryStep)
    ensures
        !conflicted ==> r == RetryStep::Done,
        conflicted && attempt < max_attempts ==> r == RetryStep::RetryFromFreshRead,
        conflicted && attempt >= max_attempts ==> r == RetryStep::GiveUp,
{
    if !conflicted {
        RetryStep::Done
    } else if attempt < max_attempts {
        RetryStep::RetryFromFreshRead
    } else {
        RetryStep::GiveUp
    }
}

/// Two concurrent collateral updates of one facility, to `a` and then `b`
/// (each different from the collateral it was computed against): both read
/// version `v`; the first write lands, the second conflicts and is dropped,
/// then is recomputed from a fresh read of what the first left and lands. Both succeed, the
/// version moves on by two, and the collateral ends at `b`.
pub proof fn lemma_concurrent_collateral_updates(
    v: u64,
    f: CreditFacility,
    a: Satoshis,
    b: Satoshis,
    fa: CreditFacility,
    ra: Result<CreditFacilityCollateralUpdate, CreditFacilityError>,
    fb2: CreditFacility,
    rb2: Result<CreditFacilityCollateralUpdate, CreditFacilityError>,
    price: PriceOfOneBtc,
    buffer: CvlPct,
    balances: CreditFacilityBalanceSummary,
    tx_a: LedgerTxId,
    tx_b: LedgerTxId,
)
    requires
        v < u64::MAX - 1,
        a != f.collateral,
        b != a,
        collateral_update_outcome(f, fa, a, price, buffer, balances, tx_a, ra),
        collateral_update_outcome(fa, fb2, b, price, buffer, balances, tx_b, rb2),
    ensures
        spec_commit(v, v) == Some((v + 1) as u64),
        spec_commit((v + 1) as u64, v) is None,
        spec_commit((v + 1) as u64, (v + 1) as u64) == Some((v + 2) as u64),
        ra is Ok,
        rb2 is Ok,
        fa.collateral == a,
        fb2.collateral == b,
{
}

} // verus!
