use micropayments::ledger::{next_payment_id, ARVRMicropayments};
use micropayments::payment::{payment_or_not_found, Payment, NOT_FOUND};

fn s(text: &str) -> String {
    text.to_string()
}

fn assert_not_found(p: &Payment) {
    assert_eq!(p.payment_id, 0);
    assert_eq!(p.user, "Not Found");
    assert_eq!(p.creator, "Not Found");
    assert_eq!(p.amount, 0);
    assert_eq!(p.timestamp, 0);
}

#[test]
fn fresh_ledger_counts_zero() {
    let l = ARVRMicropayments::new();
    assert_eq!(l.view_total_payments(), 0);
}

#[test]
fn alice_bob_then_carol_dave() {
    let mut l = ARVRMicropayments::new();
    let t1: u64 = 1_700_000_000;
    assert_eq!(l.make_payment(s("alice"), s("bob"), 100, t1), 1);
    assert_eq!(l.view_total_payments(), 1);
    let p = l.view_payment(1);
    assert_eq!(p.payment_id, 1);
    assert_eq!(p.user, "alice");
    assert_eq!(p.creator, "bob");
    assert_eq!(p.amount, 100);
    assert_eq!(p.timestamp, t1);

    assert_eq!(l.make_payment(s("carol"), s("dave"), 50, t1 + 5), 2);
    assert_eq!(l.view_total_payments(), 2);
    let again = l.view_payment(1);
    assert_eq!(again.payment_id, 1);
    assert_eq!(again.user, "alice");
    assert_eq!(again.creator, "bob");
    assert_eq!(again.amount, 100);
    assert_eq!(again.timestamp, t1);
    let second = l.view_payment(2);
    assert_eq!(second.payment_id, 2);
    assert_eq!(second.user, "carol");
    assert_eq!(second.creator, "dave");
    assert_eq!(second.amount, 50);
    assert_eq!(second.timestamp, t1 + 5);
    assert_not_found(&l.view_payment(3));
}

#[test]
fn ids_are_consecutive_in_call_order() {
    let mut l = ARVRMicropayments::new();
    for n in 1..=25u64 {
        let id = l.make_payment(format!("payer{}", n), format!("payee{}", n), n * 3, 1000 + n);
        assert_eq!(id, n);
        assert_eq!(l.view_total_payments(), n);
    }
    for n in 1..=25u64 {
        let p = l.view_payment(n);
        assert_eq!(p.payment_id, n);
        assert_eq!(p.user, format!("payer{}", n));
        assert_eq!(p.creator, format!("payee{}", n));
        assert_eq!(p.amount, n * 3);
        assert_eq!(p.timestamp, 1000 + n);
    }
}

#[test]
fn unassigned_ids_give_marker() {
    let mut l = ARVRMicropayments::new();
    assert_not_found(&l.view_payment(0));
    assert_not_found(&l.view_payment(1));
    l.make_payment(s("a"), s("b"), 1, 2);
    l.make_payment(s("c"), s("d"), 3, 4);
    assert_not_found(&l.view_payment(0));
    assert_not_found(&l.view_payment(3));
    assert_not_found(&l.view_payment(u64::MAX));
}

#[test]
fn record_then_read_back() {
    let mut l = ARVRMicropayments::new();
    l.make_payment(s("x"), s("y"), 9, 9);
    let id = l.make_payment(s("viewer"), s("artist"), 42, 123_456);
    let p = l.view_payment(id);
    assert_eq!(p.payment_id, id);
    assert_eq!(p.user, "viewer");
    assert_eq!(p.creator, "artist");
    assert_eq!(p.amount, 42);
    assert_eq!(p.timestamp, 123_456);
}

#[test]
fn permissive_inputs_are_recorded() {
    let mut l = ARVRMicropayments::new();
    let id = l.make_payment(String::new(), String::new(), 0, 0);
    assert_eq!(id, 1);
    let p = l.view_payment(1);
    assert_eq!(p.payment_id, 1);
    assert_eq!(p.user, "");
    assert_eq!(p.creator, "");
    assert_eq!(p.amount, 0);
    assert!(!p.is_not_found());
    let big = l.make_payment(s("a"), s("b"), u64::MAX, u64::MAX);
    assert_eq!(big, 2);
    assert_eq!(l.view_payment(2).amount, u64::MAX);
    assert_eq!(l.view_payment(2).timestamp, u64::MAX);
}

#[test]
fn next_id_from_stored_counter() {
    assert_eq!(next_payment_id(None), 1);
    assert_eq!(next_payment_id(Some(0)), 1);
    assert_eq!(next_payment_id(Some(41)), 42);
    assert_eq!(next_payment_id(Some(u64::MAX - 1)), u64::MAX);
}

#[test]
fn marker_and_lookup_results() {
    assert_eq!(NOT_FOUND, "Not Found");
    let m = Payment::not_found();
    assert_not_found(&m);
    assert!(m.is_not_found());
    assert_not_found(&payment_or_not_found(None));
    let p = Payment::new(7, s("u"), s("c"), 5, 6);
    let kept = payment_or_not_found(Some(p.duplicate()));
    assert_eq!(kept.payment_id, 7);
    assert_eq!(kept.user, "u");
    assert_eq!(kept.creator, "c");
    assert_eq!(kept.amount, 5);
    assert_eq!(kept.timestamp, 6);
    assert!(!kept.is_not_found());
}
