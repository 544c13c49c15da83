use core_credit::withdraw::{check_withdrawal_balance, WithdrawError};
use core_credit::concurrency::{after_attempt, check_version, ConcurrencyError, RetryStep};
use core_credit::job::{JobCompletion, RetrySettings};
use core_credit::jobs::interest_accrual_cycles::wait_for_obligation_statuses;
use core_credit::jobs::obligation_overdue::overdue_job_step;
use core_credit::obligation::{NewObligation, Obligation, ObligationAccounts, ObligationStatus};
use core_credit::primitives::ObligationType;

#[test]
fn repeat_indefinitely_has_no_attempt_limits() {
    let r = RetrySettings::repeat_indefinitely();
    assert_eq!(r.n_attempts, None);
    assert_eq!(r.n_warn_attempts, None);
    assert_eq!(r.min_backoff, 1000);
    assert_eq!(r.max_backoff, 30 * 24 * 60 * 60 * 1000);
    assert_eq!(r.backoff_jitter_pct, 20);
    let d = RetrySettings::default();
    assert_eq!(d.n_attempts, Some(30));
    assert_eq!(d.n_warn_attempts, Some(3));
}

#[test]
fn backoff_doubles_and_is_capped() {
    let r = RetrySettings::default();
    assert_eq!(r.backoff_with_jitter(1, 0), 1000);
    assert_eq!(r.backoff_with_jitter(3, 0), 4000);
    assert_eq!(r.backoff_with_jitter(3, 800), 4800);
    assert_eq!(r.backoff_with_jitter(3, -800), 3200);
    assert_eq!(r.backoff_with_jitter(40, 0), r.max_backoff);
    let tiny = RetrySettings { min_backoff: 10, max_backoff: 100, backoff_jitter_pct: 100, ..r };
    assert_eq!(tiny.backoff_with_jitter(1, -10), 0);
}

#[test]
fn next_attempt_stays_within_the_jitter_window() {
    let r = RetrySettings::default();
    let mut seen = Vec::new();
    for _ in 0..50 {
        let at = r.next_attempt_at(3, 1_000_000);
        assert!(at >= 1_000_000 + 3200 && at <= 1_000_000 + 4800, "{}", at);
        seen.push(at);
    }
    // The jitter is drawn, not fixed at either end of the window.
    assert!(seen.iter().any(|at| *at != 1_000_000 + 4800));
    assert!(seen.iter().any(|at| *at != seen[0]));
}

#[test]
fn cycle_job_waits_for_obligation_statuses() {
    assert_eq!(
        wait_for_obligation_statuses(false, 1000),
        Some(JobCompletion::RescheduleAt(1300))
    );
    assert_eq!(wait_for_obligation_statuses(true, 1000), None);
}

#[test]
fn overdue_job_posts_once() {
    let mut o = Obligation::new(NewObligation {
        id: 1,
        tx_id: 2,
        credit_facility_id: 3,
        obligation_type: ObligationType::Disbursal,
        amount: 700,
        accounts: ObligationAccounts {
            not_yet_due_account_id: 1,
            due_account_id: 2,
            overdue_account_id: 3,
            defaulted_account_id: 4,
            account_to_be_credited_id: 5,
        },
        due_at: 10,
        overdue_at: 20,
        recorded_at: 0,
    });
    let (c, data) = overdue_job_step(&mut o, 9);
    assert_eq!(c, JobCompletion::Complete);
    assert_eq!(data.map(|d| d.outstanding_amount), Some(700));
    assert_eq!(o.status, ObligationStatus::Overdue);
    let (c, data) = overdue_job_step(&mut o, 10);
    assert_eq!(c, JobCompletion::Complete);
    assert_eq!(data, None);
}

#[test]
fn concurrent_writes_one_wins_the_other_retries() {
    let v = 7;
    assert_eq!(check_version(v, v), Ok(8));
    assert_eq!(check_version(8, v), Err(ConcurrencyError::ConcurrentModification));
    assert_eq!(after_attempt(1, 3, true), RetryStep::RetryFromFreshRead);
    assert_eq!(check_version(8, 8), Ok(9));
    assert_eq!(after_attempt(2, 3, false), RetryStep::Done);
    assert_eq!(after_attempt(3, 3, true), RetryStep::GiveUp);
}

#[test]
fn withdrawal_needs_enough_balance() {
    assert_eq!(check_withdrawal_balance(500, 500), Ok(()));
    assert_eq!(
        check_withdrawal_balance(501, 500),
        Err(WithdrawError::InsufficientBalance(501, 500))
    );
}
