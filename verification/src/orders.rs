//! The storefront's order flow: checking an order request, reserving one real inventory
//! item for it, publishing its payment entry and answering the buyer.
//!
//! Every order locks one available inventory item in the transaction that creates it;
//! an order is never accepted for stock that is not there.
use vstd::prelude::*;
use vstd::string::*;
use crate::codec::{micros_in_range, spec_hex_fixed, uuid_simple};
use crate::config::AppConfig;
use crate::domain::{
    OrderStatus, PaymentAttemptState, PaymentChannel, PaymentProvider, ProductStatus,
    spec_valid_payment_method, validate_payment_method,
};
use crate::epay::{build_payment_url, spec_payment_url};
use crate::error::{AppError, AppErrorView};
use crate::pagination::{OffsetPagination, normalize_offset_page, spec_offset_fits, spec_page, spec_page_size};
use crate::payments::EPAY_RESERVATION_MINUTES;
use crate::payments::ledger::{AttemptRow, Ledger, LedgerWrite, LedgerWriteView, OrderRow, writes_view};
use crate::payments::expiration::expire_model;
use crate::security::{hash_order_password, spec_order_password_hash, spec_order_password_matches, verify_order_password};
use crate::text::{spec_trim, str_eq, trim};

verus! {

/// Longest contact, in characters (Unicode scalar values, so that a Chinese character
/// counts once). The contact is stored with the order and used for exact look-ups, so
/// oversized input must not reach logs, the database or its index.
pub const CONTACT_MAX_LENGTH: usize = 50;

/// Microseconds in a minute.
pub const MICROS_PER_MINUTE: i64 = 60_000_000;

/// The contact of a request, trimmed, or the reason why it is refused.
pub open spec fn spec_contact_check(contact: Seq<char>) -> Result<Seq<char>, Seq<char>> {
    let t = spec_trim(contact);
    if t.len() == 0 {
        Err("contact is required"@)
    } else if t.len() > CONTACT_MAX_LENGTH {
        Err("contact must be at most 50 characters"@)
    } else {
        Ok(t)
    }
}

/// Checks a contact: required, and at most `CONTACT_MAX_LENGTH` characters once trimmed.
pub fn validate_contact(contact: &str) -> (res: Result<&str, AppError>)
    ensures
        match spec_contact_check(contact@) {
            Ok(t) => res matches Ok(r) && r@ == t,
            Err(m) => res matches Err(e) && e@ == AppErrorView::BadRequest(m),
        },
{
    let t = trim(contact);
    let n = t.unicode_len();
    if n == 0 {
        return Err(AppError::bad_request("contact is required"));
    }
    if n > CONTACT_MAX_LENGTH {
        return Err(AppError::bad_request("contact must be at most 50 characters"));
    }
    Ok(t)
}

/// The payment method a buyer picked.
#[derive(Debug, Clone)]
pub struct PaymentSelectionRequest {
    pub provider: String,
    pub channel: String,
}

/// A buyer's order request.
#[derive(Debug, Clone)]
pub struct CreateOrderRequest {
    pub product_info_id: u128,
    pub contact: String,
    pub order_password: String,
    pub payment: PaymentSelectionRequest,
}

/// Whether the provider is configured.
pub open spec fn spec_provider_configured(
    provider: PaymentProvider,
    epay_configured: bool,
    wechatpay_configured: bool,
) -> bool {
    match provider {
        PaymentProvider::Epay => epay_configured,
        PaymentProvider::Wechatpay => wechatpay_configured,
    }
}

/// The checks of an order request, in order: the contact, a password of at least six
/// bytes, a known provider and channel (after trimming), a supported combination of the
/// two, and a provider that is configured. The result is the trimmed contact and the
/// payment method, or the reason of the refusal.
pub open spec fn spec_check_order_request(
    r: CreateOrderRequest,
    epay_configured: bool,
    wechatpay_configured: bool,
) -> Result<(Seq<char>, PaymentProvider, PaymentChannel), Seq<char>> {
    match spec_contact_check(r.contact@) {
        Err(m) => Err(m),
        Ok(contact) => if r.order_password@.len() < 6 {
            Err("order_password must be at least 6 characters"@)
        } else {
            match PaymentProvider::spec_parse(spec_trim(r.payment.provider@)) {
                None => Err("unsupported payment provider"@),
                Some(p) => match PaymentChannel::spec_parse(spec_trim(r.payment.channel@)) {
                    None => Err("unsupported payment channel"@),
                    Some(c) => if !spec_valid_payment_method(p, c) {
                        Err("unsupported payment provider/channel combination"@)
                    } else if !spec_provider_configured(p, epay_configured, wechatpay_configured) {
                        Err("selected payment provider is not configured"@)
                    } else {
                        Ok((contact, p, c))
                    },
                },
            }
        },
    }
}

/// How long an order reserves its item: a fixed three minutes for ePay, the configured
/// time for WeChat Pay, whose own payment deadline it matches.
pub open spec fn spec_reservation_minutes(provider: PaymentProvider, wechatpay_expire_minutes: i64) -> i64 {
    match provider {
        PaymentProvider::Epay => EPAY_RESERVATION_MINUTES,
        PaymentProvider::Wechatpay => wechatpay_expire_minutes,
    }
}

/// An order request that passed its checks.
#[derive(Debug)]
pub struct OrderDraft {
    pub contact: String,
    pub password_hash: String,
    pub provider: PaymentProvider,
    pub channel: PaymentChannel,
    pub reservation_minutes: i64,
}

/// Checks an order request and prepares what the order stores: the trimmed contact,
/// the password hash and the reservation time.
pub fn validate_order_request(
    request: &CreateOrderRequest,
    epay_configured: bool,
    wechatpay_configured: bool,
    pepper: &str,
    wechatpay_expire_minutes: i64,
) -> (res: Result<OrderDraft, AppError>)
    ensures
        match spec_check_order_request(*request, epay_configured, wechatpay_configured) {
            Err(m) => res matches Err(e) && e@ == AppErrorView::BadRequest(m),
            Ok((contact, p, c)) => res matches Ok(d) && {
                &&& d.contact@ == contact
                &&& d.provider == p
                &&& d.channel == c
                &&& d.password_hash@ == spec_order_password_hash(request.order_password@, pepper@)
                &&& d.reservation_minutes == spec_reservation_minutes(p, wechatpay_expire_minutes)
            },
        },
{
    let contact = validate_contact(request.contact.as_str())?;
    if request.order_password.as_str().unicode_len() < 6 {
        return Err(AppError::bad_request("order_password must be at least 6 characters"));
    }
    let provider = match PaymentProvider::parse(trim(request.payment.provider.as_str())) {
        Some(p) => p,
        None => return Err(AppError::bad_request("unsupported payment provider")),
    };
    let channel = match PaymentChannel::parse(trim(request.payment.channel.as_str())) {
        Some(c) => c,
        None => return Err(AppError::bad_request("unsupported payment channel")),
    };
    if !validate_payment_method(provider, channel) {
        return Err(AppError::bad_request("unsupported payment provider/channel combination"));
    }
    let configured = match provider {
        PaymentProvider::Epay => epay_configured,
        PaymentProvider::Wechatpay => wechatpay_configured,
    };
    if !configured {
        return Err(AppError::bad_request("selected payment provider is not configured"));
    }
    let password_hash = match hash_order_password(request.order_password.as_str(), pepper) {
        Ok(h) => h,
        Err(e) => return Err(e),
    };
    let reservation_minutes = match provider {
        PaymentProvider::Epay => EPAY_RESERVATION_MINUTES,
        PaymentProvider::Wechatpay => wechatpay_expire_minutes,
    };
    Ok(
        OrderDraft {
            contact: String::from_str(contact),
            password_hash,
            provider,
            channel,
            reservation_minutes,
        },
    )
}

/// A new row of `orders`.
#[derive(Debug)]
pub struct NewOrderRow {
    pub id: u128,
    pub product_id: Option<u128>,
    pub product_info_id: u128,
    pub product_name_snapshot: String,
    pub amount_cents: i64,
    pub currency: String,
    pub expires_at: i64,
    pub status: String,
    pub contact: String,
    pub order_password_hash: String,
}

/// A new row of `payment_attempts`.
#[derive(Debug)]
pub struct NewAttemptRow {
    pub id: u128,
    pub order_id: u128,
    pub provider: String,
    pub channel: String,
    pub merchant_trade_no: String,
    pub state: String,
    pub amount_cents: i64,
    pub currency: String,
}

/// The writes that create an order: the inventory item it reserves, the order and its
/// payment attempt.
#[derive(Debug)]
pub struct OrderCreation {
    pub reserve_product_id: u128,
    pub order: NewOrderRow,
    pub attempt: NewAttemptRow,
}

/// When a reservation made at `now` lapses.
pub open spec fn spec_expires_at(now: i64, minutes: i64) -> int {
    now + minutes * MICROS_PER_MINUTE
}

/// The reservation deadline is a time that the clock type can hold, computed without
/// overflow.
pub open spec fn spec_deadline_representable(now: i64, minutes: i64) -> bool {
    &&& -153722867280912930 <= minutes <= 153722867280912930
    &&& min_micros_int() <= spec_expires_at(now, minutes) <= max_micros_int()
}

/// Smallest representable time.
pub open spec fn min_micros_int() -> int {
    crate::codec::min_micros()
}

/// Largest representable time.
pub open spec fn max_micros_int() -> int {
    crate::codec::max_micros()
}

/// Creates the order inside its transaction, from the product definition locked while it
/// is on sale (`product_info`: name and price) and one available inventory item locked
/// for it. Without the definition the product does not exist for buyers; without an
/// item the product is out of stock and no order is made.
///
/// The order is pending, holds the item, snapshots the name and price, and lapses
/// `reservation_minutes` after `now`; its attempt is created, for the same amount,
/// with the attempt id's 32 hexadecimal digits as merchant trade number (WeChat Pay's
/// limit for that field).
pub fn plan_order_creation(
    draft: &OrderDraft,
    product_info_id: u128,
    product_info: Option<(String, i64)>,
    available_product_id: Option<u128>,
    order_id: u128,
    attempt_id: u128,
    now: i64,
) -> (res: Result<OrderCreation, AppError>)
    requires
        product_info is Some && available_product_id is Some ==> spec_deadline_representable(
            now,
            draft.reservation_minutes,
        ),
    ensures
        product_info is None ==> (res matches Err(e) && e@ == AppErrorView::NotFound(
            "product info not found"@,
        )),
        product_info is Some && available_product_id is None ==> (res matches Err(e) && e@
            == AppErrorView::Conflict("product is out of stock"@)),
        match (product_info, available_product_id) {
            (Some((name, price)), Some(item)) => res matches Ok(c) && {
            &&& c.reserve_product_id == item
            &&& c.order.id == order_id
            &&& c.order.product_id == Some(item)
            &&& c.order.product_info_id == product_info_id
            &&& c.order.product_name_snapshot@ == name@
            &&& c.order.amount_cents == price
            &&& c.order.currency@ == "CNY"@
            &&& c.order.expires_at == spec_expires_at(now, draft.reservation_minutes)
            &&& c.order.status@ == OrderStatus::Pending.spec_str()
            &&& c.order.contact@ == draft.contact@
            &&& c.order.order_password_hash@ == draft.password_hash@
            &&& c.attempt.id == attempt_id
            &&& c.attempt.order_id == order_id
            &&& c.attempt.provider@ == draft.provider.spec_str()
            &&& c.attempt.channel@ == draft.channel.spec_str()
            &&& c.attempt.merchant_trade_no@ == spec_hex_fixed(attempt_id as nat, 32)
            &&& c.attempt.state@ == PaymentAttemptState::Created.spec_str()
            &&& c.attempt.amount_cents == price
            &&& c.attempt.currency@ == "CNY"@
            },
            _ => true,
        },
{
    let (name, price) = match product_info {
        Some(info) => info,
        None => return Err(AppError::not_found("product info not found")),
    };
    let item = match available_product_id {
        Some(item) => item,
        None => return Err(AppError::conflict("product is out of stock")),
    };
    let wide: i128 = (now as i128) + (draft.reservation_minutes as i128) * (MICROS_PER_MINUTE as i128);
    let expires_at = wide as i64;
    let merchant_trade_no = uuid_simple(attempt_id);
    Ok(
        OrderCreation {
            reserve_product_id: item,
            order: NewOrderRow {
                id: order_id,
                product_id: Some(item),
                product_info_id,
                product_name_snapshot: name,
                amount_cents: price,
                currency: String::from_str("CNY"),
                expires_at,
                status: String::from_str(OrderStatus::Pending.as_ref()),
                contact: draft.contact.clone(),
                order_password_hash: draft.password_hash.clone(),
            },
            attempt: NewAttemptRow {
                id: attempt_id,
                order_id,
                provider: String::from_str(draft.provider.as_ref()),
                channel: String::from_str(draft.channel.as_ref()),
                merchant_trade_no,
                state: String::from_str(PaymentAttemptState::Created.as_ref()),
                amount_cents: price,
                currency: String::from_str("CNY"),
            },
        },
    )
}

/// Whether a prepared payment entry may be shown to the buyer.
#[derive(Debug, Clone, Copy, PartialEq, Eq, Structural)]
pub enum PublishPaymentAttemptOutcome {
    /// The entry was published.
    Ready,
    /// The payment completed before the entry was published.
    AlreadyDelivered,
    /// The local reservation is gone; the entry must not be shown.
    Unavailable,
}

/// The decision on publishing a prepared entry, taken under the locks of the attempt and
/// then its order (the order the expiration worker locks in): only a created attempt of
/// a pending order that has not lapsed becomes ready, so an entry can never come back
/// after its reservation was released.
pub open spec fn spec_publish(
    attempt_state: Seq<char>,
    order_status: Seq<char>,
    expires_at: i64,
    now: i64,
) -> PublishPaymentAttemptOutcome {
    if attempt_state == PaymentAttemptState::Succeeded.spec_str() || order_status
        == OrderStatus::Delivered.spec_str() {
        PublishPaymentAttemptOutcome::AlreadyDelivered
    } else if attempt_state != PaymentAttemptState::Created.spec_str() || order_status
        != OrderStatus::Pending.spec_str() || expires_at <= now {
        PublishPaymentAttemptOutcome::Unavailable
    } else {
        PublishPaymentAttemptOutcome::Ready
    }
}

/// Decides whether the locked attempt's prepared entry is published at `now`.
pub fn decide_publish(attempt: &AttemptRow, order: &OrderRow, now: i64) -> (res:
    PublishPaymentAttemptOutcome)
    ensures
        res == spec_publish(attempt.state@, order.status@, order.expires_at, now),
{
    if str_eq(attempt.state.as_str(), PaymentAttemptState::Succeeded.as_ref()) || str_eq(
        order.status.as_str(),
        OrderStatus::Delivered.as_ref(),
    ) {
        return PublishPaymentAttemptOutcome::AlreadyDelivered;
    }
    if !str_eq(attempt.state.as_str(), PaymentAttemptState::Created.as_ref()) || !str_eq(
        order.status.as_str(),
        OrderStatus::Pending.as_ref(),
    ) || order.expires_at <= now {
        return PublishPaymentAttemptOutcome::Unavailable;
    }
    PublishPaymentAttemptOutcome::Ready
}

/// The write that publishes an entry: the attempt becomes ready with its QR code, if it
/// has one. The caller restricts the update to an attempt that is still created.
pub fn publish_write(attempt_id: u128, code_url: Option<String>) -> (w: LedgerWrite)
    ensures
        w@ == (LedgerWriteView::PublishAttempt {
            attempt_id,
            code_url: match code_url {
                Some(u) => Some(u@),
                None => None,
            },
        }),
{
    LedgerWrite::PublishAttempt { attempt_id, code_url }
}

/// The publication must have updated exactly the one attempt it locked.
pub fn check_publish_update(updated: usize) -> (res: Result<PublishPaymentAttemptOutcome, AppError>)
    ensures
        updated == 1 ==> res == Ok::<PublishPaymentAttemptOutcome, AppError>(
            PublishPaymentAttemptOutcome::Ready,
        ),
        updated != 1 ==> (res matches Err(e) && e@ == AppErrorView::Conflict(
            "payment attempt state changed while publishing"@,
        )),
{
    if updated != 1 {
        return Err(AppError::conflict("payment attempt state changed while publishing"));
    }
    Ok(PublishPaymentAttemptOutcome::Ready)
}

/// A prepared entry is published exactly for a created attempt of a pending order whose
/// deadline is still ahead, and reported as already delivered exactly when the attempt
/// succeeded or the order was delivered; everything else is unavailable.
pub proof fn lemma_publish_decision(
    attempt_state: Seq<char>,
    order_status: Seq<char>,
    expires_at: i64,
    now: i64,
)
    ensures
        spec_publish(attempt_state, order_status, expires_at, now)
            == PublishPaymentAttemptOutcome::Ready <==> (attempt_state == "created"@
            && order_status == "pending"@ && now < expires_at),
        spec_publish(attempt_state, order_status, expires_at, now)
            == PublishPaymentAttemptOutcome::AlreadyDelivered <==> (attempt_state == "succeeded"@
            || order_status == "delivered"@),
{
    reveal_strlit("created");
    reveal_strlit("succeeded");
    reveal_strlit("pending");
    reveal_strlit("delivered");
    assert("created"@.len() != "succeeded"@.len());
    assert("pending"@.len() != "delivered"@.len());
}

/// Once the expiration worker has released a reservation, its payment entry is never
/// published, whenever the publication is attempted.
pub proof fn lemma_no_publication_after_expiry(l: Ledger, expired_at: i64, now: i64)
    requires
        expire_model(l, expired_at).0 == Ok::<bool, AppErrorView>(true),
    ensures
        spec_publish(
            expire_model(l, expired_at).1.attempt.state,
            expire_model(l, expired_at).1.order.status,
            expire_model(l, expired_at).1.order.expires_at,
            now,
        ) == PublishPaymentAttemptOutcome::Unavailable,
{
    let o = l.order;
    let a = l.attempt;
    crate::payments::ledger::lemma_apply_writes_3(
        l,
        LedgerWriteView::ReleaseReservedProduct { product_id: o.product_id->0 },
        LedgerWriteView::ExpireOrder { order_id: o.id },
        LedgerWriteView::CloseAttempt { attempt_id: a.id },
    );
    let l1 = expire_model(l, expired_at).1;
    assert(l1.attempt.state == PaymentAttemptState::Closed.spec_str());
    assert(l1.order.status == OrderStatus::Expired.spec_str());
    PaymentAttemptState::lemma_parse_as_ref(PaymentAttemptState::Closed);
    PaymentAttemptState::lemma_parse_as_ref(PaymentAttemptState::Succeeded);
    PaymentAttemptState::lemma_parse_as_ref(PaymentAttemptState::Created);
    OrderStatus::lemma_parse_as_ref(OrderStatus::Expired);
    OrderStatus::lemma_parse_as_ref(OrderStatus::Delivered);
}

/// What the buyer is sent to pay with.
#[derive(Debug)]
pub enum PaymentAction {
    /// A link to the ePay gateway.
    Redirect { url: String },
    /// A WeChat Pay QR code and when it stops being payable.
    QrCode { content: String, expires_at: i64 },
}

/// The answer to an order request.
#[derive(Debug)]
pub struct CreateOrderResponse {
    pub id: u128,
    pub status: String,
    pub payment_action: Option<PaymentAction>,
    pub payment_error: Option<String>,
}

/// Message when an ePay order lapsed before its entry was published.
pub const EPAY_ENTRY_EXPIRED: &'static str = "订单已过期，支付入口未生成，请重新下单";

/// Message when a WeChat Pay order lapsed before its QR code was published.
pub const WECHATPAY_ENTRY_EXPIRED: &'static str = "订单已过期，微信支付入口已关闭，请重新下单";

/// Message when WeChat Pay refused to prepare the payment.
pub const WECHATPAY_PREPAY_FAILED: &'static str = "微信支付下单失败，请稍后重新下单；当前订单到期后会自动释放库存";

/// The answer for an ePay order, once its entry was published or not: the signed
/// gateway link when it is ready; a delivered order when the payment already completed;
/// otherwise no link and an explanation.
pub fn epay_order_response(
    config: &AppConfig,
    creation: &OrderCreation,
    outcome: PublishPaymentAttemptOutcome,
) -> (r: CreateOrderResponse)
    requires
        config.epay is Some,
    ensures
        r.id == creation.order.id,
        match outcome {
            PublishPaymentAttemptOutcome::Ready => {
                &&& r.status@ == creation.order.status@
                &&& r.payment_error is None
                &&& r.payment_action matches Some(PaymentAction::Redirect { url }) && Some(url@)
                    == spec_payment_url(
                    *config,
                    creation.order.id,
                    creation.attempt.merchant_trade_no@,
                    creation.order.product_name_snapshot@,
                    creation.order.amount_cents,
                    creation.attempt.channel@,
                )
            },
            PublishPaymentAttemptOutcome::AlreadyDelivered => {
                &&& r.status@ == OrderStatus::Delivered.spec_str()
                &&& r.payment_action is None
                &&& r.payment_error is None
            },
            PublishPaymentAttemptOutcome::Unavailable => {
                &&& r.status@ == creation.order.status@
                &&& r.payment_action is None
                &&& r.payment_error matches Some(m) && m@ == EPAY_ENTRY_EXPIRED@
            },
        },
{
    match outcome {
        PublishPaymentAttemptOutcome::Ready => {
            let url = build_payment_url(
                config,
                creation.order.id,
                creation.attempt.merchant_trade_no.as_str(),
                creation.order.product_name_snapshot.as_str(),
                creation.order.amount_cents,
                creation.attempt.channel.as_str(),
            );
            let url = match url {
                Some(u) => u,
                None => {
                    // ePay is configured, so a link is always built.
                    proof {
                        assert(false);
                    }
                    String::new()
                },
            };
            CreateOrderResponse {
                id: creation.order.id,
                status: creation.order.status.clone(),
                payment_action: Some(PaymentAction::Redirect { url }),
                payment_error: None,
            }
        },
        PublishPaymentAttemptOutcome::AlreadyDelivered => CreateOrderResponse {
            id: creation.order.id,
            status: String::from_str(OrderStatus::Delivered.as_ref()),
            payment_action: None,
            payment_error: None,
        },
        PublishPaymentAttemptOutcome::Unavailable => CreateOrderResponse {
            id: creation.order.id,
            status: creation.order.status.clone(),
            payment_action: None,
            payment_error: Some(String::from_str(EPAY_ENTRY_EXPIRED)),
        },
    }
}

/// The answer for a WeChat Pay order whose prepayment succeeded with `code_url`, and
/// whether the remote order must be closed: when the local reservation lapsed during the
/// remote call, the still payable QR code is withdrawn and never shown.
pub fn wechatpay_order_response(
    creation: &OrderCreation,
    code_url: String,
    outcome: PublishPaymentAttemptOutcome,
) -> (res: (CreateOrderResponse, bool))
    ensures
        res.0.id == creation.order.id,
        res.1 == (outcome == PublishPaymentAttemptOutcome::Unavailable),
        match outcome {
            PublishPaymentAttemptOutcome::Ready => {
                &&& res.0.status@ == creation.order.status@
                &&& res.0.payment_error is None
                &&& res.0.payment_action matches Some(PaymentAction::QrCode { content, expires_at })
                    && content@ == code_url@ && expires_at == creation.order.expires_at
            },
            PublishPaymentAttemptOutcome::AlreadyDelivered => {
                &&& res.0.status@ == OrderStatus::Delivered.spec_str()
                &&& res.0.payment_action is None
                &&& res.0.payment_error is None
            },
            PublishPaymentAttemptOutcome::Unavailable => {
                &&& res.0.status@ == creation.order.status@
                &&& res.0.payment_action is None
                &&& res.0.payment_error matches Some(m) && m@ == WECHATPAY_ENTRY_EXPIRED@
            },
        },
{
    match outcome {
        PublishPaymentAttemptOutcome::Ready => (
            CreateOrderResponse {
                id: creation.order.id,
                status: creation.order.status.clone(),
                payment_action: Some(
                    PaymentAction::QrCode { content: code_url, expires_at: creation.order.expires_at },
                ),
                payment_error: None,
            },
            false,
        ),
        PublishPaymentAttemptOutcome::AlreadyDelivered => (
            CreateOrderResponse {
                id: creation.order.id,
                status: String::from_str(OrderStatus::Delivered.as_ref()),
                payment_action: None,
                payment_error: None,
            },
            false,
        ),
        PublishPaymentAttemptOutcome::Unavailable => (
            CreateOrderResponse {
                id: creation.order.id,
                status: creation.order.status.clone(),
                payment_action: None,
                payment_error: Some(String::from_str(WECHATPAY_ENTRY_EXPIRED)),
            },
            true,
        ),
    }
}

/// The answer for a WeChat Pay order whose prepayment failed: no payment entry; the
/// order lapses and releases its item on its own.
pub fn wechatpay_prepay_failed_response(creation: &OrderCreation) -> (r: CreateOrderResponse)
    ensures
        r.id == creation.order.id,
        r.status@ == creation.order.status@,
        r.payment_action is None,
        r.payment_error matches Some(m) && m@ == WECHATPAY_PREPAY_FAILED@,
{
    CreateOrderResponse {
        id: creation.order.id,
        status: creation.order.status.clone(),
        payment_action: None,
        payment_error: Some(String::from_str(WECHATPAY_PREPAY_FAILED)),
    }
}

/// After a failed prepayment the attempt becomes failed only while it is still created:
/// an attempt that the expiration worker already closed stays closed.
pub fn fail_attempt_if_created(attempt_state: &str) -> (res: bool)
    ensures
        res == (attempt_state@ == PaymentAttemptState::Created.spec_str()),
{
    str_eq(attempt_state, PaymentAttemptState::Created.as_ref())
}

/// A payment method offered to buyers.
#[derive(Debug, Clone)]
pub struct PaymentMethodResponse {
    pub provider: String,
    pub channel: String,
    pub label: String,
    pub action_type: String,
}

/// View of a payment method: provider, channel, label, action type.
pub open spec fn method_view(m: PaymentMethodResponse) -> (Seq<char>, Seq<char>, Seq<char>, Seq<char>) {
    (m.provider@, m.channel@, m.label@, m.action_type@)
}

/// The methods offered: Alipay and WeChat through ePay when ePay is configured, then
/// official WeChat Pay when its client is configured.
pub open spec fn spec_payment_methods(epay_configured: bool, wechatpay_configured: bool) -> Seq<
    (Seq<char>, Seq<char>, Seq<char>, Seq<char>),
> {
    let epay = if epay_configured {
        seq![
            ("epay"@, "alipay"@, "支付宝（易支付）"@, "redirect"@),
            ("epay"@, "wxpay"@, "微信（易支付）"@, "redirect"@),
        ]
    } else {
        Seq::empty()
    };
    let wechatpay = if wechatpay_configured {
        seq![("wechatpay"@, "native"@, "微信支付（官方）"@, "qr_code"@)]
    } else {
        Seq::empty()
    };
    epay + wechatpay
}

/// The storefront offers a payment method exactly when its provider is configured: the
/// two ePay channels when ePay is, official WeChat Pay Native when WeChat Pay is, each
/// regardless of the other provider, and nothing else.
pub proof fn lemma_methods_follow_configuration(epay_configured: bool, wechatpay_configured: bool)
    ensures
        spec_payment_methods(epay_configured, wechatpay_configured).len() == (if epay_configured {
            2int
        } else {
            0int
        }) + (if wechatpay_configured {
            1int
        } else {
            0int
        }),
        spec_payment_methods(epay_configured, wechatpay_configured).contains(
            ("epay"@, "alipay"@, "支付宝（易支付）"@, "redirect"@),
        ) <==> epay_configured,
        spec_payment_methods(epay_configured, wechatpay_configured).contains(
            ("epay"@, "wxpay"@, "微信（易支付）"@, "redirect"@),
        ) <==> epay_configured,
        spec_payment_methods(epay_configured, wechatpay_configured).contains(
            ("wechatpay"@, "native"@, "微信支付（官方）"@, "qr_code"@),
        ) <==> wechatpay_configured,
        forall|i: int|
            0 <= i < spec_payment_methods(epay_configured, wechatpay_configured).len() ==> (
            #[trigger] spec_payment_methods(epay_configured, wechatpay_configured)[i].0 == "epay"@
                ==> epay_configured) && (spec_payment_methods(epay_configured, wechatpay_configured)[i].0
                == "wechatpay"@ ==> wechatpay_configured),
{
    reveal_strlit("epay");
    reveal_strlit("wechatpay");
    reveal_strlit("alipay");
    reveal_strlit("wxpay");
    reveal_strlit("native");
    let m = spec_payment_methods(epay_configured, wechatpay_configured);
    let a = ("epay"@, "alipay"@, "支付宝（易支付）"@, "redirect"@);
    let b = ("epay"@, "wxpay"@, "微信（易支付）"@, "redirect"@);
    let n = ("wechatpay"@, "native"@, "微信支付（官方）"@, "qr_code"@);
    assert("epay"@.len() != "wechatpay"@.len());
    assert("alipay"@.len() != "wxpay"@.len());
    assert(a.0 != n.0);
    assert(a.1 != b.1);
    if epay_configured {
        assert(m[0] == a);
        assert(m[1] == b);
    }
    if wechatpay_configured {
        assert(m[m.len() - 1] == n);
    }
}

fn method(provider: &str, channel: &str, label: &str, action_type: &str) -> (m: PaymentMethodResponse)
    ensures
        method_view(m) == (provider@, channel@, label@, action_type@),
{
    PaymentMethodResponse {
        provider: String::from_str(provider),
        channel: String::from_str(channel),
        label: String::from_str(label),
        action_type: String::from_str(action_type),
    }
}

/// Lists the configured payment methods.
pub fn list_payment_methods(epay_configured: bool, wechatpay_configured: bool) -> (methods: Vec<
    PaymentMethodResponse,
>)
    ensures
        methods@.map_values(|m: PaymentMethodResponse| method_view(m)) == spec_payment_methods(
            epay_configured,
            wechatpay_configured,
        ),
{
    let mut methods: Vec<PaymentMethodResponse> = Vec::new();
    if epay_configured {
        methods.push(
            method(
                PaymentProvider::Epay.as_ref(),
                PaymentChannel::Alipay.as_ref(),
                "支付宝（易支付）",
                "redirect",
            ),
        );
        methods.push(
            method(
                PaymentProvider::Epay.as_ref(),
                PaymentChannel::Wxpay.as_ref(),
                "微信（易支付）",
                "redirect",
            ),
        );
    }
    if wechatpay_configured {
        methods.push(
            method(
                PaymentProvider::Wechatpay.as_ref(),
                PaymentChannel::Native.as_ref(),
                "微信支付（官方）",
                "qr_code",
            ),
        );
    }
    assert(methods@.map_values(|m: PaymentMethodResponse| method_view(m)) =~= spec_payment_methods(
        epay_configured,
        wechatpay_configured,
    ));
    methods
}

/// A request for the orders placed under a contact.
#[derive(Debug, Clone)]
pub struct ListOrdersByContactRequest {
    pub contact: String,
    pub page: Option<i64>,
    pub page_size: Option<i64>,
}

/// Checks a request for the orders of a contact and returns the trimmed contact and
/// `(page, page_size, offset)`: the contact is checked first, then the page.
pub fn validate_orders_by_contact(request: &ListOrdersByContactRequest) -> (res: Result<
    (String, i64, i64, i64),
    AppError,
>)
    requires
        spec_offset_fits(OffsetPagination { page: request.page, page_size: request.page_size }),
    ensures
        match spec_contact_check(request.contact@) {
            Err(m) => res matches Err(e) && e@ == AppErrorView::BadRequest(m),
            Ok(contact) => {
                let page_ok = spec_page(request.page) >= 1 && match request.page_size {
                    Some(s) => s >= 1,
                    None => true,
                };
                &&& res is Ok <==> page_ok
                &&& res matches Ok((c, page, size, offset)) ==> {
                    &&& c@ == contact
                    &&& page == spec_page(request.page)
                    &&& size == spec_page_size(request.page_size)
                    &&& offset == (page - 1) * size
                }
                &&& res matches Err(e) ==> e@ == (if spec_page(request.page) < 1 {
                    AppErrorView::BadRequest("page must be greater than 0"@)
                } else {
                    AppErrorView::BadRequest("page_size must be greater than 0"@)
                })
            },
        },
{
    let contact = validate_contact(request.contact.as_str())?;
    let pagination = OffsetPagination { page: request.page, page_size: request.page_size };
    let (page, page_size, offset) = normalize_offset_page(&pagination)?;
    Ok((String::from_str(contact), page, page_size, offset))
}

/// A request for one order's details, authenticated by the order password.
#[derive(Debug, Clone)]
pub struct QueryOrderRequest {
    pub id: u128,
    pub order_password: String,
}

/// An order query must carry a password.
pub fn check_query_password(password: &str) -> (res: Result<(), AppError>)
    ensures
        password@.len() == 0 ==> (res matches Err(e) && e@ == AppErrorView::BadRequest(
            "order_password is required"@,
        )),
        password@.len() > 0 ==> res is Ok,
{
    if password.unicode_len() == 0 {
        return Err(AppError::bad_request("order_password is required"));
    }
    Ok(())
}

/// The order's details are shown only for the password it was created with.
pub fn authorize_order_query(password: &str, stored_hash: &str, pepper: &str) -> (res: Result<
    (),
    AppError,
>)
    ensures
        spec_order_password_matches(password@, stored_hash@, pepper@) ==> res is Ok,
        !spec_order_password_matches(password@, stored_hash@, pepper@) ==> (res matches Err(e)
            && e@ == AppErrorView::Unauthorized),
{
    let ok = verify_order_password(password, stored_hash, pepper)?;
    if !ok {
        return Err(AppError::Unauthorized);
    }
    Ok(())
}

/// The inventory item whose content a query reveals: the order's item, once the order
/// is delivered; nothing before.
pub fn released_content_item(order_status: &str, product_id: Option<u128>) -> (res: Option<u128>)
    ensures
        res == (if order_status@ == OrderStatus::Delivered.spec_str() {
            product_id
        } else {
            None
        }),
{
    if str_eq(order_status, OrderStatus::Delivered.as_ref()) {
        product_id
    } else {
        None
    }
}

/// A product definition on sale, as the storefront lists it.
#[derive(Debug, Clone)]
pub struct ProductInfoRow {
    pub id: u128,
    pub image_base64: Option<String>,
    pub name: String,
    pub details: String,
    pub price_cents: i64,
}

/// A product with its sales and live stock.
#[derive(Debug, Clone)]
pub struct ProductListItem {
    pub id: u128,
    pub image_base64: Option<String>,
    pub name: String,
    pub details: String,
    pub price_cents: i64,
    pub sold_count: i64,
    pub stock: i64,
}

/// The count of a product in a per-product tally (one entry per product, as a
/// `GROUP BY` returns it), 0 for a product that has no entry.
pub open spec fn spec_count_of(counts: Seq<(u128, i64)>, id: u128) -> i64
    decreases counts.len(),
{
    if counts.len() == 0 {
        0
    } else if counts[0].0 == id {
        counts[0].1
    } else {
        spec_count_of(counts.drop_first(), id)
    }
}

/// Looks a product up in a tally.
pub fn count_of(counts: &Vec<(u128, i64)>, id: u128) -> (n: i64)
    ensures
        n == spec_count_of(counts@, id),
{
    let mut i: usize = 0;
    assert(counts@.skip(0) =~= counts@);
    while i < counts.len()
        invariant
            i <= counts@.len(),
            spec_count_of(counts@, id) == spec_count_of(counts@.skip(i as int), id),
        decreases counts.len() - i,
    {
        assert(counts@.skip(i as int)[0] == counts@[i as int]);
        if counts[i].0 == id {
            return counts[i].1;
        }
        assert(counts@.skip(i as int).drop_first() =~= counts@.skip(i + 1));
        i = i + 1;
    }
    0
}

/// The list item of a product: its definition, how many of its orders were delivered
/// and how many of its items are available.
pub open spec fn spec_list_item(
    info: ProductInfoRow,
    stock_counts: Seq<(u128, i64)>,
    sold_counts: Seq<(u128, i64)>,
    item: ProductListItem,
) -> bool {
    &&& item.id == info.id
    &&& item.image_base64 == info.image_base64
    &&& item.name == info.name
    &&& item.details == info.details
    &&& item.price_cents == info.price_cents
    &&& item.sold_count == spec_count_of(sold_counts, info.id)
    &&& item.stock == spec_count_of(stock_counts, info.id)
}

/// Joins product definitions with their tallies, in the order of the definitions.
pub fn product_list_items(
    infos: Vec<ProductInfoRow>,
    stock_counts: &Vec<(u128, i64)>,
    sold_counts: &Vec<(u128, i64)>,
) -> (items: Vec<ProductListItem>)
    ensures
        items@.len() == infos@.len(),
        forall|i: int|
            0 <= i < infos@.len() ==> spec_list_item(
                #[trigger] infos@[i],
                stock_counts@,
                sold_counts@,
                items@[i],
            ),
{
    let mut items: Vec<ProductListItem> = Vec::new();
    let mut i: usize = 0;
    while i < infos.len()
        invariant
            i <= infos@.len(),
            items@.len() == i,
            forall|j: int|
                0 <= j < i ==> spec_list_item(
                    #[trigger] infos@[j],
                    stock_counts@,
                    sold_counts@,
                    items@[j],
                ),
        decreases infos.len() - i,
    {
        let info = &infos[i];
        let item = ProductListItem {
            id: info.id,
            image_base64: info.image_base64.clone(),
            name: info.name.clone(),
            details: info.details.clone(),
            price_cents: info.price_cents,
            sold_count: count_of(sold_counts, info.id),
            stock: count_of(stock_counts, info.id),
        };
        items.push(item);
        i = i + 1;
    }
    items
}

/// The public product needed to place an order: a definition on sale, or not found.
pub fn public_product(
    info: Option<ProductInfoRow>,
    stock_counts: &Vec<(u128, i64)>,
    sold_counts: &Vec<(u128, i64)>,
) -> (res: Result<ProductListItem, AppError>)
    ensures
        match info {
            None => res matches Err(e) && e@ == AppErrorView::NotFound("product info not found"@),
            Some(i) => res matches Ok(item) && spec_list_item(i, stock_counts@, sold_counts@, item),
        },
{
    match info {
        None => Err(AppError::not_found("product info not found")),
        Some(info) => Ok(
            ProductListItem {
                id: info.id,
                image_base64: info.image_base64.clone(),
                name: info.name.clone(),
                details: info.details.clone(),
                price_cents: info.price_cents,
                sold_count: count_of(sold_counts, info.id),
                stock: count_of(stock_counts, info.id),
            },
        ),
    }
}

/// The storefront's name and where its logo is served.
#[derive(Debug, Clone)]
pub struct StorefrontResponse {
    pub shop_name: String,
    pub logo_url: String,
}

/// The public storefront settings.
pub fn get_storefront(config: &AppConfig) -> (r: StorefrontResponse)
    ensures
        r.shop_name@ == config.shop_name@,
        r.logo_url@ == "/api/storefront/logo"@,
{
    StorefrontResponse {
        shop_name: config.shop_name.clone(),
        logo_url: String::from_str("/api/storefront/logo"),
    }
}

} // verus!
