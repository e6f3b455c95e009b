use qddxp::payments::wechatpay::{WechatPayApiErrorBody, check_api_status};
use qddxp::error::AppError;
use qddxp::payments::expiration::{
    ExpirationWorkers, WechatpayExpiryStep, expiration_workers, is_expiration_candidate,
    retry_deferrable, wechatpay_close_step, wechatpay_query_step,
};
use qddxp::payments::wechatpay::{
    WechatPayError, WechatPayQueryTransaction, WechatPayTransactionAmount, api_error,
    authorization_header, canonical_request_message, close_order_path, query_order_path,
};
use qddxp::domain::PaymentProvider;
use qddxp::wechatpay_notify::{NotifyError, notify_error_reply, transaction_parse_error, validate_callback_timestamp};

fn query(state: &str) -> WechatPayQueryTransaction {
    WechatPayQueryTransaction {
        appid: "wx".to_string(),
        mchid: "m".to_string(),
        out_trade_no: "t".to_string(),
        transaction_id: Some("tx".to_string()),
        trade_type: Some("NATIVE".to_string()),
        trade_state: state.to_string(),
        success_time: Some("2024-01-01T00:00:00+08:00".to_string()),
        attach: None,
        amount: Some(WechatPayTransactionAmount { total: 1, payer_total: None, currency: "CNY".to_string(), payer_currency: None }),
    }
}

#[test]
fn canonical_request_has_five_lines() {
    assert_eq!(
        canonical_request_message("POST", "/v3/pay/transactions/native", 1700000000, "abc", "{}"),
        "POST\n/v3/pay/transactions/native\n1700000000\nabc\n{}\n"
    );
    assert_eq!(canonical_request_message("GET", "/p", -5, "", ""), "GET\n/p\n-5\n\n\n");
}

#[test]
fn authorization_header_is_assembled() {
    assert_eq!(
        authorization_header("m1", "n", 7, "S", "sig=="),
        "WECHATPAY2-SHA256-RSA2048 mchid=\"m1\",nonce_str=\"n\",timestamp=\"7\",serial_no=\"S\",signature=\"sig==\""
    );
    assert_eq!(query_order_path("T", "M"), "/v3/pay/transactions/out-trade-no/T?mchid=M");
    assert_eq!(close_order_path("T"), "/v3/pay/transactions/out-trade-no/T/close");
}

#[test]
fn query_results_are_narrowed() {
    let t = query("SUCCESS").into_success().unwrap();
    assert_eq!(t.transaction_id, "tx");
    let e = query("NOTPAY").into_success().unwrap_err();
    assert_eq!(e.to_string(), "invalid WeChat Pay response: query result is not successful: NOTPAY");
    let mut q = query("SUCCESS");
    q.amount = None;
    assert_eq!(q.into_success().unwrap_err().to_string(), "invalid WeChat Pay response: successful query is missing amount");
}

#[test]
fn expiration_steps_release_only_settled_orders() {
    assert!(matches!(wechatpay_query_step(Ok(query("SUCCESS"))), WechatpayExpiryStep::ApplySuccess(_)));
    assert!(matches!(wechatpay_query_step(Ok(query("CLOSED"))), WechatpayExpiryStep::Expire(r) if r == "wechatpay_already_closed"));
    assert!(matches!(wechatpay_query_step(Ok(query("NOTPAY"))), WechatpayExpiryStep::CloseRemote));
    let missing = api_error("404 Not Found".to_string(), Some("ORDER_NOT_EXIST".to_string()), None);
    assert!(matches!(wechatpay_query_step(Err(missing)), WechatpayExpiryStep::Expire(r) if r == "wechatpay_order_not_exist"));
    let other = api_error("500 Internal Server Error".to_string(), None, None);
    assert_eq!(other.to_string(), "WeChat Pay API returned HTTP 500 Internal Server Error: UNKNOWN - unknown WeChat Pay API error");
    assert!(matches!(wechatpay_query_step(Err(other)), WechatpayExpiryStep::Retry));
    assert!(matches!(wechatpay_query_step(Err(WechatPayError::Http("timeout".to_string()))), WechatpayExpiryStep::Retry));
    assert!(matches!(wechatpay_close_step(Ok(())), WechatpayExpiryStep::Expire(r) if r == "wechatpay_closed"));
    assert!(matches!(wechatpay_close_step(Err(WechatPayError::SignatureVerification)), WechatpayExpiryStep::Retry));
}

#[test]
fn scans_pick_lapsed_open_attempts() {
    assert!(is_expiration_candidate(PaymentProvider::Epay, "ready", "pending", 5, 5));
    assert!(!is_expiration_candidate(PaymentProvider::Epay, "failed", "pending", 5, 5));
    assert!(is_expiration_candidate(PaymentProvider::Wechatpay, "failed", "pending", 5, 5));
    assert!(!is_expiration_candidate(PaymentProvider::Epay, "ready", "pending", 6, 5));
    assert!(!is_expiration_candidate(PaymentProvider::Epay, "ready", "delivered", 5, 5));
    assert!(retry_deferrable("failed"));
    assert!(!retry_deferrable("closed"));
    assert_eq!(expiration_workers(false, false), ExpirationWorkers::Disabled);
    assert_eq!(expiration_workers(true, true), ExpirationWorkers::Both);
}

#[test]
fn callback_timestamps_must_be_recent() {
    let now = 1_700_000_000;
    assert!(validate_callback_timestamp(&Some((now - 300).to_string()), now).is_ok());
    assert!(validate_callback_timestamp(&Some((now + 300).to_string()), now).is_ok());
    match validate_callback_timestamp(&Some((now - 301).to_string()), now) {
        Err(NotifyError::Unauthorized(m)) => assert_eq!(m, "回调时间戳超出五分钟安全窗口"),
        other => panic!("{:?}", other),
    }
    match validate_callback_timestamp(&None, now) {
        Err(NotifyError::Unauthorized(m)) => assert_eq!(m, "回调时间戳缺失或无效"),
        other => panic!("{:?}", other),
    }
    assert!(validate_callback_timestamp(&Some("abc".to_string()), now).is_err());
}

#[test]
fn notify_errors_map_to_answers() {
    let (s, c, m) = notify_error_reply(&NotifyError::BadRequest("x".to_string()));
    assert_eq!((s, c.as_str(), m.as_str()), (400, "PARAM_ERROR", "x"));
    let (s, c, _) = notify_error_reply(&NotifyError::Unauthorized("y".to_string()));
    assert_eq!((s, c.as_str()), (401, "SIGN_ERROR"));
    let (s, c, _) = notify_error_reply(&NotifyError::Business("z".to_string()));
    assert_eq!((s, c.as_str()), (500, "FAIL"));
    assert!(matches!(transaction_parse_error("eof"), NotifyError::Unauthorized(m) if m == "WeChat Pay message serialization failed: eof"));
    let _ = AppError::Unauthorized;
}

#[test]
fn api_answers_outside_2xx_are_errors() {
    assert!(check_api_status(204, "204 No Content".to_string(), None).is_ok());
    let body = WechatPayApiErrorBody { code: Some("ORDER_NOT_EXIST".to_string()), message: None };
    match check_api_status(404, "404 Not Found".to_string(), Some(body)) {
        Err(e) => assert_eq!(e.to_string(), "WeChat Pay API returned HTTP 404 Not Found: ORDER_NOT_EXIST - unknown WeChat Pay API error"),
        Ok(()) => panic!("404 is not a success"),
    }
    match check_api_status(500, "500".to_string(), None) {
        Err(WechatPayError::Api { code, .. }) => assert_eq!(code, "UNKNOWN"),
        _ => panic!("500 is not a success"),
    }
}
