//! Official WeChat Pay payment notifications: every check between the raw callback and
//! the payment fact that the domain logic confirms, and the answer WeChat Pay gets.
//!
//! The callback is read as raw bytes: its signature covers the body exactly as sent.
use vstd::prelude::*;
use vstd::string::*;
use crate::codec::{parse_rfc3339_micros, parse_uuid, spec_parse_rfc3339, spec_parse_uuid};
use crate::decimal::{parse_i64, spec_parse_i64};
use crate::domain::PaymentProvider;
use crate::error::{AppError, spec_error_text};
use crate::payments::service::{ConfirmationView, PaymentConfirmation};
use crate::payments::wechatpay::{
    spec_signed_message_valid,
    WechatPayClient, WechatPayNotification, WechatPayTransaction, SignatureHeaders,
    decrypt_notification, spec_decrypt_resource, spec_wechatpay_error_text, verify_signed_message,
};
use crate::text::str_eq;

verus! {

/// Event type of a successful payment.
pub const TRANSACTION_SUCCESS: &'static str = "TRANSACTION.SUCCESS";

/// Trade state of a paid transaction.
pub const TRADE_STATE_SUCCESS: &'static str = "SUCCESS";

/// Trade type of a Native (QR code) payment.
pub const TRADE_TYPE_NATIVE: &'static str = "NATIVE";

/// Where notifications arrive.
pub const NOTIFY_PATH: &'static str = "/api/payments/wechatpay/notify";

/// Longest accepted distance between a callback's timestamp and now, in seconds.
pub const CALLBACK_WINDOW_SECONDS: i64 = 300;

/// Why a notification was not applied.
#[derive(Debug)]
pub enum NotifyError {
    /// It could not be authenticated.
    Unauthorized(String),
    /// It is authentic but not a payment this shop can apply.
    BadRequest(String),
    /// Applying it failed; WeChat Pay should deliver it again.
    Business(String),
}

/// The distance between the callback's timestamp and now can be computed.
pub open spec fn spec_timestamp_computable(timestamp: Option<Seq<char>>, now_secs: i64) -> bool {
    match timestamp {
        Some(t) => match spec_parse_i64(t) {
            Some(ts) => i64::MIN < now_secs - ts <= i64::MAX,
            None => true,
        },
        None => true,
    }
}

/// The check of a callback timestamp: present, decimal, and within five minutes of now
/// on either side.
pub open spec fn spec_timestamp_check(timestamp: Option<Seq<char>>, now_secs: i64) -> Result<(), Seq<char>> {
    let parsed = match timestamp {
        Some(t) => spec_parse_i64(t),
        None => None,
    };
    match parsed {
        None => Err("回调时间戳缺失或无效"@),
        Some(ts) => if now_secs - ts > 300 || ts - now_secs > 300 {
            Err("回调时间戳超出五分钟安全窗口"@)
        } else {
            Ok(())
        },
    }
}

/// A callback must carry a decimal timestamp within five minutes of now, so that a
/// captured callback cannot be replayed later.
pub fn validate_callback_timestamp(timestamp: &Option<String>, now_secs: i64) -> (res: Result<
    (),
    NotifyError,
>)
    requires
        spec_timestamp_computable(
            match timestamp {
                Some(t) => Some(t@),
                None => None,
            },
            now_secs,
        ),
    ensures
        match spec_timestamp_check(
            match timestamp {
                Some(t) => Some(t@),
                None => None,
            },
            now_secs,
        ) {
            Ok(()) => res is Ok,
            Err(m) => res matches Err(NotifyError::Unauthorized(r)) && r@ == m,
        },
{
    let ts = match timestamp {
        Some(t) => parse_i64(t.as_str()),
        None => None,
    };
    let ts = match ts {
        Some(ts) => ts,
        None => return Err(NotifyError::Unauthorized(String::from_str("回调时间戳缺失或无效"))),
    };
    let diff = now_secs - ts;
    let distance = if diff < 0 {
        -diff
    } else {
        diff
    };
    if distance > CALLBACK_WINDOW_SECONDS {
        return Err(NotifyError::Unauthorized(String::from_str("回调时间戳超出五分钟安全窗口")));
    }
    Ok(())
}

/// Authenticates a callback: WeChat Pay must be configured, the timestamp recent, and the
/// signature valid over the raw body.
pub fn authenticate_notify(
    client: Option<&WechatPayClient>,
    headers: &SignatureHeaders,
    body: &str,
    now_secs: i64,
) -> (res: Result<(), NotifyError>)
    requires
        client is Some ==> spec_timestamp_computable(
            match headers.timestamp {
                Some(t) => Some(t@),
                None => None,
            },
            now_secs,
        ),
        client matches Some(c) ==> c.wf(),
    ensures
        client is None ==> (res matches Err(NotifyError::Business(m)) && m@ == "微信支付未配置"@),
        client is Some ==> match spec_timestamp_check(
            match headers.timestamp {
                Some(t) => Some(t@),
                None => None,
            },
            now_secs,
        ) {
            Err(m) => res matches Err(NotifyError::Unauthorized(r)) && r@ == m,
            Ok(()) => match client {
                Some(c) => if spec_signed_message_valid(c.public_key_id@, c.public_key_pem@, *headers, body@) {
                    res is Ok
                } else {
                    res matches Err(NotifyError::Unauthorized(_))
                },
                None => true,
            },
        },
{
    let c = match client {
        Some(c) => c,
        None => return Err(NotifyError::Business(String::from_str("微信支付未配置"))),
    };
    validate_callback_timestamp(&headers.timestamp, now_secs)?;
    match verify_signed_message(c, headers, body) {
        Ok(()) => Ok(()),
        Err(e) => Err(NotifyError::Unauthorized(e.to_string())),
    }
}

/// Only a successful-transaction notification is applied; its resource is decrypted
/// with the APIv3 key. The plaintext is the transaction, as JSON.
pub fn decrypt_notify_resource(client: &WechatPayClient, notification: &WechatPayNotification) -> (res:
    Result<Vec<u8>, NotifyError>)
    requires
        client.wf(),
    ensures
        !(notification.event_type@ == TRANSACTION_SUCCESS@ && notification.resource.original_type@
            == "transaction"@) ==> (res matches Err(NotifyError::BadRequest(m)) && m@
            == "不支持的微信支付通知类型"@),
        notification.event_type@ == TRANSACTION_SUCCESS@ && notification.resource.original_type@
            == "transaction"@ ==> match spec_decrypt_resource(
            client.api_v3_key@,
            notification.resource,
        ) {
            Ok(p) => res matches Ok(r) && r@ == p,
            Err(t) => res matches Err(NotifyError::Unauthorized(m)) && m@ == t,
        },
{
    if !str_eq(notification.event_type.as_str(), TRANSACTION_SUCCESS) || !str_eq(
        notification.resource.original_type.as_str(),
        "transaction",
    ) {
        return Err(NotifyError::BadRequest(String::from_str("不支持的微信支付通知类型")));
    }
    match decrypt_notification(client, &notification.resource) {
        Ok(p) => Ok(p),
        Err(e) => Err(NotifyError::Unauthorized(e.to_string())),
    }
}

/// A decrypted resource that is not a transaction fails authentication like any other
/// decryption failure.
pub fn transaction_parse_error(error_text: &str) -> (e: NotifyError)
    ensures
        e matches NotifyError::Unauthorized(m) && m@ == "WeChat Pay message serialization failed: "@
            + error_text@,
{
    let mut m = String::from_str("WeChat Pay message serialization failed: ");
    m.append(error_text);
    NotifyError::Unauthorized(m)
}

/// The transaction belongs to this merchant and its official account.
pub open spec fn spec_identity_matches(client: WechatPayClient, t: WechatPayTransaction) -> bool {
    t.appid@ == client.app_id@ && t.mchid@ == client.mch_id@
}

/// Checks that a transaction belongs to this merchant.
pub fn validate_transaction_identity(client: &WechatPayClient, transaction: &WechatPayTransaction) -> (res:
    Result<(), String>)
    ensures
        spec_identity_matches(*client, *transaction) ==> res is Ok,
        !spec_identity_matches(*client, *transaction) ==> (res matches Err(m) && m@
            == "微信支付商户身份不匹配"@),
{
    if !str_eq(transaction.appid.as_str(), client.app_id()) || !str_eq(
        transaction.mchid.as_str(),
        client.mch_id(),
    ) {
        return Err(String::from_str("微信支付商户身份不匹配"));
    }
    Ok(())
}

/// Checks of a notified transaction, in order: merchant identity, a paid state, a Native
/// payment, and CNY.
pub open spec fn spec_validate_transaction(client: WechatPayClient, t: WechatPayTransaction) -> Result<
    (),
    Seq<char>,
> {
    if !spec_identity_matches(client, t) {
        Err("微信支付商户身份不匹配"@)
    } else if t.trade_state@ != TRADE_STATE_SUCCESS@ {
        Err("微信支付交易状态不是 SUCCESS"@)
    } else if t.trade_type@ != TRADE_TYPE_NATIVE@ {
        Err("微信支付交易类型不是 NATIVE"@)
    } else if t.amount.currency@ != "CNY"@ {
        Err("微信支付币种不是 CNY"@)
    } else {
        Ok(())
    }
}

/// Checks a notified transaction.
pub fn validate_transaction(client: &WechatPayClient, transaction: &WechatPayTransaction) -> (res:
    Result<(), String>)
    ensures
        match spec_validate_transaction(*client, *transaction) {
            Ok(()) => res is Ok,
            Err(m) => res matches Err(r) && r@ == m,
        },
{
    validate_transaction_identity(client, transaction)?;
    if !str_eq(transaction.trade_state.as_str(), TRADE_STATE_SUCCESS) {
        return Err(String::from_str("微信支付交易状态不是 SUCCESS"));
    }
    if !str_eq(transaction.trade_type.as_str(), TRADE_TYPE_NATIVE) {
        return Err(String::from_str("微信支付交易类型不是 NATIVE"));
    }
    if !str_eq(transaction.amount.currency.as_str(), "CNY") {
        return Err(String::from_str("微信支付币种不是 CNY"));
    }
    Ok(())
}

/// When the transaction was paid, in UTC microseconds.
pub open spec fn spec_success_time(t: WechatPayTransaction) -> Result<i64, Seq<char>> {
    match t.success_time {
        None => Err("微信支付成功时间缺失"@),
        Some(s) => match spec_parse_rfc3339(s@) {
            Some(v) => Ok(v),
            None => Err("微信支付成功时间格式无效"@),
        },
    }
}

/// Reads the payment time of a transaction (RFC 3339).
pub fn parse_success_time(transaction: &WechatPayTransaction) -> (res: Result<i64, String>)
    ensures
        match spec_success_time(*transaction) {
            Ok(v) => res == Ok::<i64, String>(v),
            Err(m) => res matches Err(r) && r@ == m,
        },
{
    let value = match &transaction.success_time {
        Some(v) => v,
        None => return Err(String::from_str("微信支付成功时间缺失")),
    };
    match parse_rfc3339_micros(value.as_str()) {
        Some(v) => Ok(v),
        None => Err(String::from_str("微信支付成功时间格式无效")),
    }
}

/// The payment fact of an authentic notification: the transaction must pass its checks,
/// carry its payment time and name the order in `attach`.
pub open spec fn spec_notify_confirmation(
    client: WechatPayClient,
    notification_id: Seq<char>,
    event_type: Seq<char>,
    t: WechatPayTransaction,
    body: Seq<char>,
) -> Result<ConfirmationView, Seq<char>> {
    match spec_validate_transaction(client, t) {
        Err(m) => Err(m),
        Ok(()) => match spec_success_time(t) {
            Err(m) => Err(m),
            Ok(paid_at) => match t.attach {
                None => Err("支付通知缺少 attach 订单号"@),
                Some(a) => match spec_parse_uuid(a@) {
                    None => Err("支付通知订单号无效"@),
                    Some(order_id) => Ok(
                        ConfirmationView {
                            provider: "wechatpay"@,
                            provider_event_id: notification_id,
                            event_type,
                            merchant_trade_no: t.out_trade_no@,
                            provider_transaction_id: t.transaction_id@,
                            expected_order_id: Some(order_id),
                            amount_cents: t.amount.total,
                            currency: t.amount.currency@,
                            paid_at,
                            request_body: body,
                        },
                    ),
                },
            },
        },
    }
}

/// Turns an authentic notification into the payment fact to confirm; `body` is the raw
/// notification, kept with the payment event.
pub fn notify_confirmation(
    client: &WechatPayClient,
    notification_id: &str,
    event_type: &str,
    transaction: &WechatPayTransaction,
    body: &str,
) -> (res: Result<PaymentConfirmation, NotifyError>)
    ensures
        match spec_notify_confirmation(*client, notification_id@, event_type@, *transaction, body@) {
            Ok(c) => res matches Ok(r) && r@ == c,
            Err(m) => res matches Err(NotifyError::BadRequest(r)) && r@ == m,
        },
{
    match validate_transaction(client, transaction) {
        Ok(()) => {},
        Err(m) => return Err(NotifyError::BadRequest(m)),
    }
    let paid_at = match parse_success_time(transaction) {
        Ok(v) => v,
        Err(m) => return Err(NotifyError::BadRequest(m)),
    };
    let attach = match &transaction.attach {
        Some(a) => a,
        None => return Err(NotifyError::BadRequest(String::from_str("支付通知缺少 attach 订单号"))),
    };
    let order_id = match parse_uuid(attach.as_str()) {
        Some(id) => id,
        None => return Err(NotifyError::BadRequest(String::from_str("支付通知订单号无效"))),
    };
    let provider = String::from_str(PaymentProvider::Wechatpay.as_ref());
    proof {
        reveal_strlit("wechatpay");
    }
    Ok(
        PaymentConfirmation {
            provider,
            provider_event_id: String::from_str(notification_id),
            event_type: String::from_str(event_type),
            merchant_trade_no: transaction.out_trade_no.clone(),
            provider_transaction_id: transaction.transaction_id.clone(),
            expected_order_id: Some(order_id),
            amount_cents: transaction.amount.total,
            currency: transaction.amount.currency.clone(),
            paid_at,
            request_body: String::from_str(body),
        },
    )
}

/// A failed confirmation asks WeChat Pay to deliver the notification again.
pub fn business_error(e: &AppError) -> (n: NotifyError)
    ensures
        n matches NotifyError::Business(m) && m@ == spec_error_text(e@),
{
    NotifyError::Business(e.to_string())
}

/// The answer to a refused notification: HTTP status, code and message of its JSON body.
pub fn notify_error_reply(e: &NotifyError) -> (r: (u16, String, String))
    ensures
        match e {
            NotifyError::Unauthorized(m) => r.0 == 401 && r.1@ == "SIGN_ERROR"@ && r.2@ == m@,
            NotifyError::BadRequest(m) => r.0 == 400 && r.1@ == "PARAM_ERROR"@ && r.2@ == m@,
            NotifyError::Business(m) => r.0 == 500 && r.1@ == "FAIL"@ && r.2@ == m@,
        },
{
    match e {
        NotifyError::Unauthorized(m) => (401, String::from_str("SIGN_ERROR"), m.clone()),
        NotifyError::BadRequest(m) => (400, String::from_str("PARAM_ERROR"), m.clone()),
        NotifyError::Business(m) => (500, String::from_str("FAIL"), m.clone()),
    }
}

/// The answer to a notification whose body is not UTF-8.
pub fn non_utf8_body_reply() -> (r: (u16, String, String))
    ensures
        r.0 == 400 && r.1@ == "PARAM_ERROR"@ && r.2@ == "通知报文不是 UTF-8"@,
{
    (400, String::from_str("PARAM_ERROR"), String::from_str("通知报文不是 UTF-8"))
}

/// A notified transaction is confirmed exactly when it belongs to this merchant, is a paid
/// Native payment in CNY, carries a readable payment time and names an order in `attach`.
/// The confirmation then names the attempt by the transaction's `out_trade_no` and keeps
/// WeChat Pay's own `transaction_id` as the provider transaction, with the notified amount,
/// payment time and order.
pub proof fn lemma_notify_confirmation_names_the_trade(
    client: WechatPayClient,
    notification_id: Seq<char>,
    event_type: Seq<char>,
    t: WechatPayTransaction,
    body: Seq<char>,
)
    ensures
        spec_notify_confirmation(client, notification_id, event_type, t, body) is Ok <==> {
            &&& t.appid@ == client.app_id@
            &&& t.mchid@ == client.mch_id@
            &&& t.trade_state@ == "SUCCESS"@
            &&& t.trade_type@ == "NATIVE"@
            &&& t.amount.currency@ == "CNY"@
            &&& spec_success_time(t) is Ok
            &&& t.attach matches Some(a) && spec_parse_uuid(a@) is Some
        },
        spec_notify_confirmation(client, notification_id, event_type, t, body) matches Ok(c) ==> {
            &&& c.merchant_trade_no == t.out_trade_no@
            &&& c.provider_transaction_id == t.transaction_id@
            &&& c.provider == "wechatpay"@
            &&& c.provider_event_id == notification_id
            &&& c.event_type == event_type
            &&& c.amount_cents == t.amount.total
            &&& c.currency == "CNY"@
            &&& Ok::<i64, Seq<char>>(c.paid_at) == spec_success_time(t)
            &&& c.expected_order_id == spec_parse_uuid(t.attach->0@)
            &&& c.request_body == body
        },
{
}

/// A notification that was applied is answered with 204 and no body.
pub const NOTIFY_APPLIED_STATUS: u16 = 204;

} // verus!
