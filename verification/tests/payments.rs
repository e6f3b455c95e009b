use qddxp::error::AppError;
use qddxp::orders::{PublishPaymentAttemptOutcome, check_publish_update, decide_publish};
use qddxp::payments::expiration::{ExpireSnapshot, expire_reserved_attempt};
use qddxp::payments::ledger::{AttemptRow, LedgerWrite, OrderRow, ProductRow};
use qddxp::payments::service::{
    ConfirmPaymentOutcome, ConfirmSnapshot, PaymentConfirmation, confirm_payment,
};

const ORDER: u128 = 10;
const ATTEMPT: u128 = 20;
const ITEM: u128 = 30;
const INFO: u128 = 40;
const DEADLINE: i64 = 1_000_000;

fn attempt(provider: &str, state: &str) -> AttemptRow {
    AttemptRow {
        id: ATTEMPT,
        order_id: ORDER,
        provider: provider.to_string(),
        merchant_trade_no: "trade".to_string(),
        state: state.to_string(),
        provider_transaction_id: None,
        amount_cents: 500,
        currency: "CNY".to_string(),
        paid_at: None,
    }
}

fn order(status: &str) -> OrderRow {
    OrderRow {
        id: ORDER,
        product_id: Some(ITEM),
        product_info_id: INFO,
        amount_cents: 500,
        currency: "CNY".to_string(),
        status: status.to_string(),
        expires_at: DEADLINE,
        paid_at: None,
    }
}

fn item(status: &str) -> ProductRow {
    ProductRow { id: ITEM, product_info_id: INFO, status: status.to_string() }
}

fn confirmation(provider: &str, paid_at: i64) -> PaymentConfirmation {
    PaymentConfirmation {
        provider: provider.to_string(),
        provider_event_id: "evt-1".to_string(),
        event_type: "TRADE_SUCCESS".to_string(),
        merchant_trade_no: "trade".to_string(),
        provider_transaction_id: "tx-1".to_string(),
        expected_order_id: Some(ORDER),
        amount_cents: 500,
        currency: "CNY".to_string(),
        paid_at,
        request_body: "{}".to_string(),
    }
}

fn snapshot(a: AttemptRow, o: OrderRow, p: ProductRow) -> ConfirmSnapshot {
    ConfirmSnapshot { attempt: Some(a), event_attempt_id: None, order: Some(o), product: Some(p) }
}

#[test]
fn timely_payment_delivers_the_reserved_item() {
    let s = snapshot(attempt("epay", "ready"), order("pending"), item("reserved"));
    let plan = confirm_payment(&s, &confirmation("epay", DEADLINE)).unwrap();
    assert_eq!(plan.outcome, ConfirmPaymentOutcome::Applied);
    assert!(plan.writes.iter().any(|w| matches!(w, LedgerWrite::DeliverProduct { product_id } if *product_id == ITEM)));
    assert!(plan.writes.iter().any(|w| matches!(w, LedgerWrite::DeliverOrder { order_id, .. } if *order_id == ORDER)));
}

#[test]
fn late_epay_payment_is_recorded_and_releases_the_item() {
    let s = snapshot(attempt("epay", "ready"), order("pending"), item("reserved"));
    let plan = confirm_payment(&s, &confirmation("epay", DEADLINE + 1)).unwrap();
    assert_eq!(plan.outcome, ConfirmPaymentOutcome::RecordedAfterExpiry);
    assert!(!plan.writes.iter().any(|w| matches!(w, LedgerWrite::DeliverProduct { .. })));
    assert!(plan.writes.iter().any(|w| matches!(w, LedgerWrite::ReleaseReservedProduct { .. })));
}

#[test]
fn replayed_event_changes_nothing() {
    let mut s = snapshot(attempt("epay", "succeeded"), order("delivered"), item("delivered"));
    s.event_attempt_id = Some(ATTEMPT);
    let plan = confirm_payment(&s, &confirmation("epay", DEADLINE)).unwrap();
    assert_eq!(plan.outcome, ConfirmPaymentOutcome::AlreadyApplied);
    assert!(plan.writes.is_empty());
}

#[test]
fn confirmation_errors() {
    let s = ConfirmSnapshot { attempt: None, event_attempt_id: None, order: None, product: None };
    assert!(matches!(confirm_payment(&s, &confirmation("epay", 0)), Err(AppError::NotFound(_))));
    let s = snapshot(attempt("epay", "ready"), order("pending"), item("reserved"));
    let mut c = confirmation("epay", 0);
    c.expected_order_id = Some(ORDER + 1);
    assert!(matches!(confirm_payment(&s, &c), Err(AppError::BadRequest(m)) if m == "payment order mismatch"));
    let mut c = confirmation("epay", 0);
    c.amount_cents = 1;
    assert!(matches!(confirm_payment(&s, &c), Err(AppError::BadRequest(m)) if m == "payment amount mismatch"));
}

#[test]
fn lapsed_reservation_is_released() {
    let s = ExpireSnapshot {
        attempt: Some(attempt("epay", "ready")),
        order: Some(order("pending")),
        product: Some(item("reserved")),
    };
    let plan = expire_reserved_attempt(&s, DEADLINE).unwrap();
    assert!(plan.expired);
    assert_eq!(plan.writes.len(), 3);
    let plan = expire_reserved_attempt(&s, DEADLINE - 1).unwrap();
    assert!(!plan.expired);
    assert!(plan.writes.is_empty());
}

#[test]
fn paid_or_settled_orders_are_never_expired() {
    let s = ExpireSnapshot {
        attempt: Some(attempt("epay", "succeeded")),
        order: Some(order("pending")),
        product: Some(item("reserved")),
    };
    assert!(!expire_reserved_attempt(&s, DEADLINE + 5).unwrap().expired);
    let s = ExpireSnapshot {
        attempt: Some(attempt("epay", "ready")),
        order: Some(order("delivered")),
        product: Some(item("delivered")),
    };
    assert!(!expire_reserved_attempt(&s, DEADLINE + 5).unwrap().expired);
}

#[test]
fn expiration_refuses_a_missing_reservation() {
    let s = ExpireSnapshot {
        attempt: Some(attempt("epay", "ready")),
        order: Some(order("pending")),
        product: Some(item("available")),
    };
    assert!(matches!(
        expire_reserved_attempt(&s, DEADLINE),
        Err(AppError::Conflict(m)) if m == "reserved inventory could not be released"
    ));
}

#[test]
fn publication_follows_the_locked_state() {
    assert_eq!(
        decide_publish(&attempt("wechatpay", "created"), &order("pending"), DEADLINE - 1),
        PublishPaymentAttemptOutcome::Ready
    );
    assert_eq!(
        decide_publish(&attempt("wechatpay", "created"), &order("pending"), DEADLINE),
        PublishPaymentAttemptOutcome::Unavailable
    );
    assert_eq!(
        decide_publish(&attempt("wechatpay", "closed"), &order("expired"), 0),
        PublishPaymentAttemptOutcome::Unavailable
    );
    assert_eq!(
        decide_publish(&attempt("wechatpay", "succeeded"), &order("pending"), 0),
        PublishPaymentAttemptOutcome::AlreadyDelivered
    );
    assert_eq!(check_publish_update(1).unwrap(), PublishPaymentAttemptOutcome::Ready);
    assert!(matches!(check_publish_update(0), Err(AppError::Conflict(_))));
}

#[test]
fn expired_order_is_never_published_afterwards() {
    let s = ExpireSnapshot {
        attempt: Some(attempt("wechatpay", "created")),
        order: Some(order("pending")),
        product: Some(item("reserved")),
    };
    assert!(expire_reserved_attempt(&s, DEADLINE).unwrap().expired);
    // After the writes: attempt closed, order expired.
    assert_eq!(
        decide_publish(&attempt("wechatpay", "closed"), &order("expired"), DEADLINE - 100),
        PublishPaymentAttemptOutcome::Unavailable
    );
}
