use core_credit::obligation::{NewObligation, Obligation, ObligationAccounts, ObligationStatus};
use core_credit::payment_allocation::allocate_payment;
use core_credit::primitives::{Idempotent, ObligationType};

fn accounts() -> ObligationAccounts {
    ObligationAccounts {
        not_yet_due_account_id: 11,
        due_account_id: 12,
        overdue_account_id: 13,
        defaulted_account_id: 14,
        account_to_be_credited_id: 15,
    }
}

fn obligation(id: u128, t: ObligationType, amount: u64) -> Obligation {
    Obligation::new(NewObligation {
        id,
        tx_id: id + 1000,
        credit_facility_id: 7,
        obligation_type: t,
        amount,
        accounts: accounts(),
        due_at: 100,
        overdue_at: 200,
        recorded_at: 50,
    })
}

#[test]
fn record_overdue_twice_is_a_no_op() {
    let mut o = obligation(1, ObligationType::Disbursal, 500);
    match o.record_due(1) {
        Idempotent::Executed(d) => {
            assert_eq!(d.amount, 500);
            assert_eq!(d.not_yet_due_account_id, 11);
            assert_eq!(d.due_account_id, 12);
        }
        Idempotent::Ignored => panic!("due ignored"),
    }
    assert_eq!(o.status, ObligationStatus::Due);
    match o.record_overdue(2) {
        Idempotent::Executed(d) => {
            assert_eq!(d.outstanding_amount, 500);
            assert_eq!(d.due_account_id, 12);
            assert_eq!(d.overdue_account_id, 13);
        }
        Idempotent::Ignored => panic!("overdue ignored"),
    }
    let after_first = o;
    assert_eq!(o.record_overdue(3), Idempotent::Ignored);
    assert_eq!(o, after_first);
    assert_eq!(o.status, ObligationStatus::Overdue);
}

#[test]
fn status_only_moves_forward() {
    let mut o = obligation(1, ObligationType::Interest, 500);
    o.record_overdue(1);
    assert_eq!(o.status, ObligationStatus::Overdue);
    assert_eq!(o.record_due(2), Idempotent::Ignored);
    assert_eq!(o.status, ObligationStatus::Overdue);
    assert!(matches!(o.record_defaulted(3), Idempotent::Executed(_)));
    assert_eq!(o.status, ObligationStatus::Defaulted);
    assert_eq!(o.record_overdue(4), Idempotent::Ignored);
    assert_eq!(o.record_due(5), Idempotent::Ignored);
    assert_eq!(o.record_defaulted(6), Idempotent::Ignored);
    assert_eq!(o.status, ObligationStatus::Defaulted);
    o.record_payment(500);
    assert_eq!(o.status, ObligationStatus::Paid);
    assert_eq!(o.record_overdue(7), Idempotent::Ignored);
    assert_eq!(o.status, ObligationStatus::Paid);
}

#[test]
fn zero_obligation_is_paid_from_the_start() {
    let o = obligation(1, ObligationType::Interest, 0);
    assert_eq!(o.status, ObligationStatus::Paid);
}

#[test]
fn partial_payment_keeps_status() {
    let mut o = obligation(1, ObligationType::Interest, 500);
    o.record_payment(200);
    assert_eq!(o.outstanding, 300);
    assert_eq!(o.status, ObligationStatus::NotYetDue);
}

fn allocated_total(r: &core_credit::payment_allocation::PaymentAllocationResult) -> u64 {
    r.allocations.iter().map(|a| a.amount).sum()
}

#[test]
fn allocation_pays_by_priority_and_caps_at_outstanding() {
    let not_yet_due = obligation(1, ObligationType::Disbursal, 1000);
    let mut overdue = obligation(2, ObligationType::Disbursal, 300);
    overdue.record_overdue(9);
    let mut due_interest = obligation(3, ObligationType::Interest, 200);
    due_interest.record_due(9);
    let mut obligations = vec![not_yet_due, overdue, due_interest];

    let r = allocate_payment(&mut obligations, 55, 600, 99, 123);
    assert_eq!(allocated_total(&r), 600);
    assert_eq!(r.allocations.len(), 3);
    // Overdue first, then due, then not yet due.
    assert_eq!(r.allocations[0].obligation_id, 2);
    assert_eq!(r.allocations[0].amount, 300);
    assert_eq!(r.allocations[0].receivable_account_id, 13);
    assert_eq!(r.allocations[1].obligation_id, 3);
    assert_eq!(r.allocations[1].amount, 200);
    assert_eq!(r.allocations[1].receivable_account_id, 12);
    assert_eq!(r.allocations[2].obligation_id, 1);
    assert_eq!(r.allocations[2].amount, 100);
    assert_eq!(r.allocations[2].receivable_account_id, 11);
    for a in &r.allocations {
        assert_eq!(a.payment_id, 55);
        assert_eq!(a.account_to_be_debited_id, 99);
        assert_eq!(a.recorded_at, 123);
        assert_eq!(a.ledger_tx_id, a.id);
    }
    assert_ne!(r.allocations[0].id, r.allocations[1].id);
    assert_eq!(r.disbursed_amount(), 400);
    assert_eq!(r.interest_amount(), 200);
    assert_eq!(obligations[0].outstanding, 900);
    assert_eq!(obligations[1].status, ObligationStatus::Paid);
    assert_eq!(obligations[2].status, ObligationStatus::Paid);
}

#[test]
fn allocation_of_more_than_owed_leaves_the_rest_unapplied() {
    let mut obligations = vec![
        obligation(1, ObligationType::Disbursal, 1000),
        obligation(2, ObligationType::Interest, 250),
    ];
    let r = allocate_payment(&mut obligations, 1, 5000, 2, 3);
    assert_eq!(allocated_total(&r), 1250);
    // Interest before principal within one status.
    assert_eq!(r.allocations[0].obligation_id, 2);
    assert_eq!(r.allocations[1].obligation_id, 1);
    assert!(obligations.iter().all(|o| o.status == ObligationStatus::Paid));
}

#[test]
fn allocation_edge_cases() {
    let mut none: Vec<Obligation> = Vec::new();
    let r = allocate_payment(&mut none, 1, 100, 2, 3);
    assert!(r.allocations.is_empty());

    let mut obligations = vec![obligation(1, ObligationType::Disbursal, 1000)];
    let r = allocate_payment(&mut obligations, 1, 0, 2, 3);
    assert!(r.allocations.is_empty());
    assert_eq!(obligations[0].outstanding, 1000);

    let mut paid = vec![obligation(1, ObligationType::Disbursal, 0)];
    let r = allocate_payment(&mut paid, 1, 10, 2, 3);
    assert!(r.allocations.is_empty());
}

#[test]
fn allocation_within_one_class_goes_in_list_order() {
    let mut obligations = vec![
        obligation(1, ObligationType::Disbursal, 100),
        obligation(2, ObligationType::Disbursal, 100),
        obligation(3, ObligationType::Disbursal, 100),
    ];
    let r = allocate_payment(&mut obligations, 1, 150, 2, 3);
    assert_eq!(r.allocations.len(), 2);
    assert_eq!((r.allocations[0].obligation_id, r.allocations[0].amount), (1, 100));
    assert_eq!((r.allocations[1].obligation_id, r.allocations[1].amount), (2, 50));
    assert_eq!(obligations[2].outstanding, 100);
}
