use qddxp::domain::PaymentProvider;
use qddxp::payments::service::is_epay_paid_after_deadline;

const MICROS_PER_MILLI: i64 = 1_000;
const MICROS_PER_MINUTE: i64 = 60_000_000;

#[test]
fn only_epay_confirmed_after_deadline_is_locally_classified_as_late() {
    let expires_at: i64 = 1_700_000_000_000_000;

    assert!(is_epay_paid_after_deadline(
        PaymentProvider::Epay.as_ref(),
        expires_at + MICROS_PER_MILLI,
        expires_at,
    ));
    assert!(!is_epay_paid_after_deadline(
        PaymentProvider::Epay.as_ref(),
        expires_at,
        expires_at,
    ));
    assert!(!is_epay_paid_after_deadline(
        PaymentProvider::Wechatpay.as_ref(),
        expires_at + MICROS_PER_MINUTE,
        expires_at,
    ));
}
