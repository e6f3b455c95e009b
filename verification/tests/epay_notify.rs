use qddxp::config::EpayConfig;
use qddxp::epay::{EpayNotifyRequest, NotifyPlan, notify_amount_fits, plan_notify, sign_params};

fn epay() -> Option<EpayConfig> {
    Some(EpayConfig {
        gateway: "https://pay.example.com".to_string(),
        pid: "merchant-id".to_string(),
        key: "merchant-secret".to_string(),
    })
}

fn signed(money: &str, status: &str) -> EpayNotifyRequest {
    let mut n = EpayNotifyRequest {
        pid: "merchant-id".to_string(),
        name: "卡".to_string(),
        money: money.to_string(),
        out_trade_no: "trade-1".to_string(),
        trade_no: "gw-9".to_string(),
        param: Some("019c2ddf-78fb-7fe0-8ed8-22577c255c83".to_string()),
        trade_status: status.to_string(),
        payment_type: "alipay".to_string(),
        sign: String::new(),
        sign_type: "MD5".to_string(),
    };
    n.sign = sign_params(&n.signed_params(), "merchant-secret");
    n
}

#[test]
fn trusted_paid_notifications_are_confirmed() {
    match plan_notify(&epay(), &signed("10.99", "TRADE_SUCCESS"), 7, "body".to_string()) {
        NotifyPlan::Confirm(c) => {
            assert_eq!(c.provider, "epay");
            assert_eq!(c.provider_event_id, "notify:gw-9");
            assert_eq!(c.merchant_trade_no, "trade-1");
            assert_eq!(c.amount_cents, 1099);
            assert_eq!(c.expected_order_id, Some(0x019c2ddf_78fb_7fe0_8ed8_22577c255c83));
            assert_eq!(c.paid_at, 7);
        }
        NotifyPlan::Reply(r) => panic!("unexpected reply {:?}", r),
    }
}

#[test]
fn untrusted_or_unpaid_notifications_are_answered() {
    let mut forged = signed("10.99", "TRADE_SUCCESS");
    forged.money = "0.01".to_string();
    match plan_notify(&epay(), &forged, 7, String::new()) {
        NotifyPlan::Reply(r) => {
            assert!(!r.success);
            assert_eq!(r.body, "fail");
            assert_eq!(r.error_message.as_deref(), Some("invalid sign"));
        }
        NotifyPlan::Confirm(_) => panic!("a forged notification must not be confirmed"),
    }
    match plan_notify(&epay(), &signed("10.99", "WAIT_BUYER_PAY"), 7, String::new()) {
        NotifyPlan::Reply(r) => assert!(r.success && r.body == "success" && r.error_message.is_none()),
        NotifyPlan::Confirm(_) => panic!("an unpaid trade must not be confirmed"),
    }
    match plan_notify(&None, &signed("10.99", "TRADE_SUCCESS"), 7, String::new()) {
        NotifyPlan::Reply(r) => assert_eq!(r.error_message.as_deref(), Some("epay is not configured")),
        NotifyPlan::Confirm(_) => panic!("ePay is not configured"),
    }
}

#[test]
fn amounts_that_overflow_are_caught_before_planning() {
    assert!(notify_amount_fits(&epay(), &signed("10.99", "TRADE_SUCCESS")));
    assert!(!notify_amount_fits(&epay(), &signed("99999999999999999", "TRADE_SUCCESS")));
    // An amount that is never converted does not matter.
    assert!(notify_amount_fits(&epay(), &signed("99999999999999999", "WAIT_BUYER_PAY")));
    assert!(notify_amount_fits(&None, &signed("99999999999999999", "TRADE_SUCCESS")));
}
