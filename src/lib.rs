//! Credit-facility lifecycle engine: facility aggregate, interest accrual
//! cycles, obligations and payment allocation, with the decisions taken by
//! the recurring jobs that drive them.

pub mod primitives;
pub mod terms;
pub mod interest_accrual_cycle;
pub mod obligation;
pub mod payment_allocation;
pub mod balance;
pub mod credit_facility;
pub mod job;
pub mod disbursal;
pub mod jobs;
pub mod processes;
pub mod ledger;
pub mod concurrency;
pub mod withdraw;
pub mod chart_of_accounts;
