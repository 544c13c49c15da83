//! Decisions of the recurring jobs that drive a facility: each run loads the
//! state, takes one step here, persists it and tells the scheduler what next.

pub mod interest_accrual_cycles;
pub mod interest_accruals;
pub mod obligation_overdue;
