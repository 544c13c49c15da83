use vstd::prelude::*;

use crate::job::JobCompletion;
use crate::obligation::{overdue_outcome, Obligation, ObligationOverdueReallocationData};
use crate::primitives::{Idempotent, LedgerTxId, ObligationId};

verus! {

/// Configuration of the job that marks one obligation overdue.
#[derive(Debug, Clone, Copy, PartialEq, Eq, Structural)]
pub struct CreditFacilityJobConfig {
    pub obligation_id: ObligationId,
}

/// One run of the overdue job: records the obligation as overdue and returns
/// the ledger payload to post, or none when it already was; the job is then
/// complete either way.
pub fn overdue_job_step(obligation: &mut Obligation, tx_id: LedgerTxId) -> (r: (
    JobCompletion,
    Option<ObligationOverdueReallocationData>,
))
    requires
        old(obligation).wf(),
    ensures
        final(obligation).wf(),
        r.0 == JobCompletion::Complete,
        exists|res: Idempotent<ObligationOverdueReallocationData>|
            overdue_outcome(*old(obligation), *final(obligation), tx_id, res) && r.1 == match res {
                Idempotent::Executed(d) => Some(d),
                Idempotent::Ignored => None,
            },
{
    let res = obligation.record_overdue(tx_id);
    let data = match res {
        Idempotent::Executed(d) => Some(d),
        Idempotent::Ignored => None,
    };
    (JobCompletion::Complete, data)
}

} // verus!
