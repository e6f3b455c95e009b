//! Expiration of unpaid reservations.
//!
//! ePay has no merchant-set payment deadline, so its reservations lapse locally when the
//! order's deadline passes. WeChat Pay orders are first queried and closed remotely;
//! only when the order can no longer be paid is the reservation released.
use vstd::prelude::*;
use vstd::string::*;
use crate::codec::{parse_rfc3339_micros, parse_uuid, spec_parse_rfc3339, spec_parse_uuid};
use crate::domain::{OrderStatus, PaymentAttemptState, PaymentProvider};
use crate::error::{AppError, AppErrorView, DbError};
use crate::text::str_eq;
use super::ledger::{
    AttemptRow, AttemptView, Ledger, LedgerWrite, LedgerWriteView, OrderRow, OrderView, ProductRow,
    ProductView, apply_write, apply_writes, ledger_wf, writes_view, lemma_apply_writes_0,
    lemma_apply_writes_1, lemma_apply_writes_3, lemma_apply_writes_4, lemma_apply_writes_5,
};
use super::service::{
    ConfirmPaymentOutcome, ConfirmationView, PaymentConfirmation, confirm_model, confirm_snapshot_of,
    spec_confirm, spec_epay_paid_after_deadline, spec_reserved_item,
};
use super::wechatpay::{
    WechatPayClient, WechatPayError, WechatPayQueryTransaction, WechatPayTransaction,
    spec_wechatpay_error_text,
};

verus! {

/// Rows read, under row locks and in the order attempt, order, inventory item, for the
/// expiration of one candidate attempt.
#[derive(Debug)]
pub struct ExpireSnapshot {
    pub attempt: Option<AttemptRow>,
    pub order: Option<OrderRow>,
    pub product: Option<ProductRow>,
}

pub struct ExpireSnapshotView {
    pub attempt: Option<AttemptView>,
    pub order: Option<OrderView>,
    pub product: Option<ProductView>,
}

impl View for ExpireSnapshot {
    type V = ExpireSnapshotView;

    open spec fn view(&self) -> ExpireSnapshotView {
        ExpireSnapshotView {
            attempt: match self.attempt {
                Some(a) => Some(a@),
                None => None,
            },
            order: match self.order {
                Some(o) => Some(o@),
                None => None,
            },
            product: match self.product {
                Some(p) => Some(p@),
                None => None,
            },
        }
    }
}

/// Decision of an expiration: whether the reservation lapses, and the writes for it.
#[derive(Debug)]
pub struct ExpirePlan {
    pub expired: bool,
    pub writes: Vec<LedgerWrite>,
}

pub open spec fn expire_plan_view(r: Result<ExpirePlan, AppError>) -> Result<
    (bool, Seq<LedgerWriteView>),
    AppErrorView,
> {
    match r {
        Ok(p) => Ok((p.expired, writes_view(p.writes@))),
        Err(e) => Err(e@),
    }
}

/// Decision of the expiration of one attempt at time `now`.
pub open spec fn spec_expire(s: ExpireSnapshotView, now: i64) -> Result<
    (bool, Seq<LedgerWriteView>),
    AppErrorView,
> {
    match s.attempt {
        None => Err(AppErrorView::DatabaseNotFound),
        Some(a) => if a.state == PaymentAttemptState::Succeeded.spec_str() {
            Ok((false, seq![]))
        } else {
            match s.order {
                None => Err(AppErrorView::DatabaseNotFound),
                Some(o) => if o.status != OrderStatus::Pending.spec_str() || o.expires_at > now {
                    Ok((false, seq![]))
                } else if o.product_id is None {
                    Err(AppErrorView::Conflict("pending order is missing reserved inventory"@))
                } else if !spec_reserved_item(o, s.product) {
                    Err(AppErrorView::Conflict("reserved inventory could not be released"@))
                } else {
                    Ok(
                        (
                            true,
                            seq![
                                LedgerWriteView::ReleaseReservedProduct { product_id: o.product_id->0 },
                                LedgerWriteView::ExpireOrder { order_id: o.id },
                                LedgerWriteView::CloseAttempt { attempt_id: a.id },
                            ],
                        ),
                    )
                },
            }
        },
    }
}

/// Decides whether an attempt's reservation lapses at time `now`.
///
/// A succeeded attempt, an order that is no longer pending and an order whose deadline
/// has not passed are left alone. Otherwise the reserved item becomes available again,
/// the order expires and the attempt is closed; the payment confirmation takes the same
/// locks in the same order, so only one of the two completes its transition.
pub fn expire_reserved_attempt(snapshot: &ExpireSnapshot, now: i64) -> (res: Result<
    ExpirePlan,
    AppError,
>)
    ensures
        expire_plan_view(res) == spec_expire(snapshot@, now),
{
    let a = match &snapshot.attempt {
        Some(a) => a,
        None => {
            return Err(AppError::Database(DbError::NotFound));
        },
    };
    if str_eq(a.state.as_str(), PaymentAttemptState::Succeeded.as_ref()) {
        let writes: Vec<LedgerWrite> = Vec::new();
        assert(writes_view(writes@) =~= seq![]);
        return Ok(ExpirePlan { expired: false, writes });
    }
    let o = match &snapshot.order {
        Some(o) => o,
        None => {
            return Err(AppError::Database(DbError::NotFound));
        },
    };
    if !str_eq(o.status.as_str(), OrderStatus::Pending.as_ref()) || o.expires_at > now {
        let writes: Vec<LedgerWrite> = Vec::new();
        assert(writes_view(writes@) =~= seq![]);
        return Ok(ExpirePlan { expired: false, writes });
    }
    let product_id = match o.product_id {
        Some(pid) => pid,
        None => {
            return Err(AppError::conflict("pending order is missing reserved inventory"));
        },
    };
    let reserved = match &snapshot.product {
        Some(p) => p.id == product_id && p.product_info_id == o.product_info_id && str_eq(
            p.status.as_str(),
            crate::domain::ProductStatus::Reserved.as_ref(),
        ),
        None => false,
    };
    if !reserved {
        return Err(AppError::conflict("reserved inventory could not be released"));
    }
    let mut writes: Vec<LedgerWrite> = Vec::new();
    writes.push(LedgerWrite::ReleaseReservedProduct { product_id });
    writes.push(LedgerWrite::ExpireOrder { order_id: o.id });
    writes.push(LedgerWrite::CloseAttempt { attempt_id: a.id });
    assert(writes_view(writes@) =~= seq![
        LedgerWriteView::ReleaseReservedProduct { product_id: o.product_id->0 },
        LedgerWriteView::ExpireOrder { order_id: o.id },
        LedgerWriteView::CloseAttempt { attempt_id: a.id },
    ]);
    Ok(ExpirePlan { expired: true, writes })
}

/// The rows an expiration reads from the database that `l` models.
pub open spec fn expire_snapshot_of(l: Ledger) -> ExpireSnapshotView {
    ExpireSnapshotView {
        attempt: Some(l.attempt),
        order: Some(l.order),
        product: confirm_snapshot_of(
            l,
            ConfirmationView {
                provider: l.attempt.provider,
                provider_event_id: seq![],
                event_type: seq![],
                merchant_trade_no: l.attempt.merchant_trade_no,
                provider_transaction_id: seq![],
                expected_order_id: None,
                amount_cents: 0,
                currency: seq![],
                paid_at: 0,
                request_body: seq![],
            },
        ).product,
    }
}

/// An expiration run at time `now` on the database that `l` models: its result and the
/// database after the transaction.
pub open spec fn expire_model(l: Ledger, now: i64) -> (Result<bool, AppErrorView>, Ledger) {
    match spec_expire(expire_snapshot_of(l), now) {
        Ok((e, ws)) => (Ok(e), apply_writes(l, ws)),
        Err(e) => (Err(e), l),
    }
}

/// Expiration never touches a paid attempt, an order that is no longer pending, or an
/// order whose deadline has not passed.
pub proof fn lemma_expiration_spares_live_orders(l: Ledger, now: i64)
    requires
        l.attempt.state == PaymentAttemptState::Succeeded.spec_str() || l.order.status
            != OrderStatus::Pending.spec_str() || l.order.expires_at > now,
    ensures
        expire_model(l, now).1 == l,
        !(expire_model(l, now).0 == Ok::<bool, AppErrorView>(true)),
{
}

/// A lapsed reservation is always released, never left standing: an attempt that has not
/// succeeded, of a pending order whose deadline has passed and whose reserved item is in
/// place, expires at `now`; afterwards the item is available again, the order is expired
/// and holds no item, and the attempt is closed.
pub proof fn lemma_lapsed_reservation_is_released(l: Ledger, now: i64)
    requires
        l.attempt.state != "succeeded"@,
        l.order.status == "pending"@,
        l.order.expires_at <= now,
        l.product matches Some(p) && l.order.product_id == Some(p.id) && p.product_info_id
            == l.order.product_info_id && p.status == "reserved"@,
    ensures
        expire_model(l, now).0 == Ok::<bool, AppErrorView>(true),
        expire_model(l, now).1.product matches Some(p) && p.status == "available"@,
        expire_model(l, now).1.order.status == "expired"@,
        expire_model(l, now).1.order.product_id is None,
        expire_model(l, now).1.attempt.state == "closed"@,
{
    let o = l.order;
    let a = l.attempt;
    lemma_apply_writes_3(
        l,
        LedgerWriteView::ReleaseReservedProduct { product_id: o.product_id->0 },
        LedgerWriteView::ExpireOrder { order_id: o.id },
        LedgerWriteView::CloseAttempt { attempt_id: a.id },
    );
}

/// An expired reservation stays released: once the order expired, no later payment
/// confirmation delivers, and the inventory item it gave back stays available.
pub proof fn lemma_expired_order_never_delivers(l: Ledger, now: i64, c: ConfirmationView)
    requires
        ledger_wf(l),
    ensures
        expire_model(l, now).0 == Ok::<bool, AppErrorView>(true) ==> {
            let l1 = expire_model(l, now).1;
            &&& l1.order.status == OrderStatus::Expired.spec_str()
            &&& l1.product matches Some(p) && p.status == crate::domain::ProductStatus::Available.spec_str()
            &&& confirm_model(l1, c).0 != Ok::<ConfirmPaymentOutcome, AppErrorView>(
                ConfirmPaymentOutcome::Applied,
            )
            &&& confirm_model(l1, c).1.product == l1.product
        },
{
    if expire_model(l, now).0 == Ok::<bool, AppErrorView>(true) {
        let o = l.order;
        let a = l.attempt;
        lemma_apply_writes_3(
            l,
            LedgerWriteView::ReleaseReservedProduct { product_id: o.product_id->0 },
            LedgerWriteView::ExpireOrder { order_id: o.id },
            LedgerWriteView::CloseAttempt { attempt_id: a.id },
        );
        let l1 = expire_model(l, now).1;
        assert(l1.order.status == OrderStatus::Expired.spec_str());
        assert(l1.attempt.state == PaymentAttemptState::Closed.spec_str());
        crate::domain::PaymentAttemptState::lemma_parse_as_ref(PaymentAttemptState::Closed);
        crate::domain::PaymentAttemptState::lemma_parse_as_ref(PaymentAttemptState::Succeeded);
        assert(l1.attempt.state != PaymentAttemptState::Succeeded.spec_str());
        let a1 = l1.attempt;
        let paid = LedgerWriteView::SetOrderPaidAt { order_id: o.id, paid_at: c.paid_at };
        lemma_apply_writes_3(
            l1,
            paid,
            super::service::succeeded_write(a1, c),
            super::service::event_write(a1, c),
        );
        lemma_apply_writes_1(l1, super::service::event_write(a1, c));
        crate::domain::OrderStatus::lemma_parse_as_ref(OrderStatus::Expired);
        crate::domain::OrderStatus::lemma_parse_as_ref(OrderStatus::Pending);
        assert(l1.order.status != OrderStatus::Pending.spec_str());
    }
}

/// A late ePay payment (paid after the reservation deadline) never delivers; the
/// reservation is released instead and the item is available again, or the item is
/// left as it was.
pub proof fn lemma_late_epay_payment_never_delivers(l: Ledger, c: ConfirmationView)
    requires
        ledger_wf(l),
        spec_epay_paid_after_deadline(l.attempt.provider, c.paid_at, l.order.expires_at),
    ensures
        confirm_model(l, c).0 != Ok::<ConfirmPaymentOutcome, AppErrorView>(ConfirmPaymentOutcome::Applied),
        confirm_model(l, c).1.product == l.product || (confirm_model(l, c).1.product matches Some(p)
            && p.status == crate::domain::ProductStatus::Available.spec_str()),
{
    let o = l.order;
    let a = l.attempt;
    let paid = LedgerWriteView::SetOrderPaidAt { order_id: o.id, paid_at: c.paid_at };
    let release = LedgerWriteView::ReleaseReservedProduct { product_id: o.product_id->0 };
    let expire = LedgerWriteView::ExpireOrder { order_id: o.id };
    let succ = super::service::succeeded_write(a, c);
    let ev = super::service::event_write(a, c);
    lemma_apply_writes_1(l, ev);
    lemma_apply_writes_3(l, paid, succ, ev);
    super::ledger::lemma_apply_writes_5(l, release, expire, paid, succ, ev);
    lemma_apply_writes_3(apply_write(apply_write(l, release), expire), paid, succ, ev);
    assert(seq![release, expire] + seq![paid, succ, ev] =~= seq![release, expire, paid, succ, ev]);
    super::ledger::lemma_apply_writes_0(l);
}

/// One transaction on a reservation: a payment confirmation, or an expiration run at a
/// time.
pub enum LedgerStep {
    Confirm(ConfirmationView),
    Expire(i64),
}

/// A step run on the database that `l` models: whether it delivered the reserved item,
/// and the database afterwards.
pub open spec fn step_model(l: Ledger, step: LedgerStep) -> (bool, Ledger) {
    match step {
        LedgerStep::Confirm(c) => (
            confirm_model(l, c).0 == Ok::<ConfirmPaymentOutcome, AppErrorView>(ConfirmPaymentOutcome::Applied),
            confirm_model(l, c).1,
        ),
        LedgerStep::Expire(now) => (false, expire_model(l, now).1),
    }
}

/// How many of a series of steps, run in order, deliver.
pub open spec fn deliveries(l: Ledger, steps: Seq<LedgerStep>) -> nat
    decreases steps.len(),
{
    if steps.len() == 0 {
        0
    } else {
        let (d, next) = step_model(l, steps[0]);
        (if d { 1nat } else { 0nat }) + deliveries(next, steps.drop_first())
    }
}

/// The reservation is settled: the attempt was paid, or the order expired and gave its
/// item back.
pub open spec fn settled(l: Ledger) -> bool {
    l.attempt.state == PaymentAttemptState::Succeeded.spec_str() || l.order.status
        == OrderStatus::Expired.spec_str()
}

/// No write changes which order the attempt belongs to.
proof fn lemma_writes_keep_ids(l: Ledger, ws: Seq<LedgerWriteView>)
    ensures
        apply_writes(l, ws).attempt.order_id == l.attempt.order_id,
        apply_writes(l, ws).order.id == l.order.id,
    decreases ws.len(),
{
    if ws.len() > 0 {
        lemma_writes_keep_ids(apply_write(l, ws[0]), ws.drop_first());
    }
}

/// One step keeps the database well formed and a settled reservation settled; a step
/// that delivers starts from an unsettled reservation and leaves the attempt paid.
proof fn lemma_step(l: Ledger, step: LedgerStep)
    requires
        ledger_wf(l),
    ensures
        ledger_wf(step_model(l, step).1),
        step_model(l, step).0 ==> !settled(l),
        step_model(l, step).0 ==> step_model(l, step).1.attempt.state
            == PaymentAttemptState::Succeeded.spec_str(),
        settled(l) ==> settled(step_model(l, step).1),
{
    PaymentAttemptState::lemma_parse_as_ref(PaymentAttemptState::Succeeded);
    PaymentAttemptState::lemma_parse_as_ref(PaymentAttemptState::Closed);
    OrderStatus::lemma_parse_as_ref(OrderStatus::Expired);
    OrderStatus::lemma_parse_as_ref(OrderStatus::Pending);
    OrderStatus::lemma_parse_as_ref(OrderStatus::Delivered);
    match step {
        LedgerStep::Confirm(c) => {
            match spec_confirm(confirm_snapshot_of(l, c), c) {
                Ok((_, ws)) => lemma_writes_keep_ids(l, ws),
                Err(_) => {},
            }
            if step_model(l, step).0 {
                super::service::lemma_applied_delivers(l, c);
            }
            let s = confirm_snapshot_of(l, c);
            let a = l.attempt;
            let o = l.order;
            let paid = LedgerWriteView::SetOrderPaidAt { order_id: o.id, paid_at: c.paid_at };
            let release = LedgerWriteView::ReleaseReservedProduct { product_id: o.product_id->0 };
            let expire = LedgerWriteView::ExpireOrder { order_id: o.id };
            let succ = super::service::succeeded_write(a, c);
            let ev = super::service::event_write(a, c);
            lemma_apply_writes_0(l);
            lemma_apply_writes_1(l, ev);
            lemma_apply_writes_3(l, paid, succ, ev);
            lemma_apply_writes_4(
                l,
                LedgerWriteView::DeliverOrder { order_id: o.id, paid_at: c.paid_at },
                LedgerWriteView::DeliverProduct { product_id: o.product_id->0 },
                succ,
                ev,
            );
            lemma_apply_writes_5(l, release, expire, paid, succ, ev);
            lemma_apply_writes_3(apply_write(apply_write(l, release), expire), paid, succ, ev);
            assert(seq![release, expire] + seq![paid, succ, ev] =~= seq![release, expire, paid, succ, ev]);
        },
        LedgerStep::Expire(now) => {
            match spec_expire(expire_snapshot_of(l), now) {
                Ok((_, ws)) => lemma_writes_keep_ids(l, ws),
                Err(_) => {},
            }
            let o = l.order;
            let a = l.attempt;
            lemma_apply_writes_0(l);
            lemma_apply_writes_3(
                l,
                LedgerWriteView::ReleaseReservedProduct { product_id: o.product_id->0 },
                LedgerWriteView::ExpireOrder { order_id: o.id },
                LedgerWriteView::CloseAttempt { attempt_id: a.id },
            );
        },
    }
}

/// Once settled, no series of confirmations and expiration runs delivers.
proof fn lemma_settled_never_delivers(l: Ledger, steps: Seq<LedgerStep>)
    requires
        ledger_wf(l),
        settled(l),
    ensures
        deliveries(l, steps) == 0,
    decreases steps.len(),
{
    if steps.len() > 0 {
        lemma_step(l, steps[0]);
        lemma_settled_never_delivers(step_model(l, steps[0]).1, steps.drop_first());
    }
}

/// However payment callbacks, their replays and expiration runs interleave, a
/// reservation is delivered at most once, and never after it was released: any series
/// of confirmations and expiration runs delivers at most one item, and none once the
/// order has expired (or the attempt was already paid).
pub proof fn lemma_any_run_delivers_at_most_once(l: Ledger, steps: Seq<LedgerStep>)
    requires
        ledger_wf(l),
    ensures
        deliveries(l, steps) <= 1,
        settled(l) ==> deliveries(l, steps) == 0,
    decreases steps.len(),
{
    if steps.len() > 0 {
        let (d, next) = step_model(l, steps[0]);
        lemma_step(l, steps[0]);
        if d {
            PaymentAttemptState::lemma_parse_as_ref(PaymentAttemptState::Succeeded);
            assert(settled(next));
            lemma_settled_never_delivers(next, steps.drop_first());
        } else {
            lemma_any_run_delivers_at_most_once(next, steps.drop_first());
        }
    }
}

/// Once an expiration released the reservation, no later series of steps delivers.
pub proof fn lemma_no_delivery_after_release(l: Ledger, now: i64, steps: Seq<LedgerStep>)
    requires
        ledger_wf(l),
        expire_model(l, now).0 == Ok::<bool, AppErrorView>(true),
    ensures
        expire_model(l, now).1.order.status == OrderStatus::Expired.spec_str(),
        deliveries(expire_model(l, now).1, steps) == 0,
{
    lemma_expired_order_never_delivers(l, now, ConfirmationView {
        provider: seq![],
        provider_event_id: seq![],
        event_type: seq![],
        merchant_trade_no: seq![],
        provider_transaction_id: seq![],
        expected_order_id: None,
        amount_cents: 0,
        currency: seq![],
        paid_at: 0,
        request_body: seq![],
    });
    lemma_step(l, LedgerStep::Expire(now));
    lemma_settled_never_delivers(expire_model(l, now).1, steps);
}

/// Seconds between two scans for lapsed ePay reservations.
pub const EPAY_SCAN_INTERVAL_SECONDS: u64 = 5;

/// Seconds between two scans for lapsed WeChat Pay reservations.
pub const WXPAY_SCAN_INTERVAL_SECONDS: u64 = 60;

/// WeChat Pay candidates handled per scan, so that a backlog never starts an unbounded
/// number of remote requests.
pub const WXPAY_BATCH_SIZE: i64 = 20;

/// WeChat Pay candidates handled at the same time.
pub const WXPAY_MAX_CONCURRENCY: usize = 4;

/// Which expiration loops run. The two providers have separate loops: slow WeChat Pay
/// requests must never hold up ePay's three-minute deadline.
#[derive(Debug, Clone, Copy, PartialEq, Eq, Structural)]
pub enum ExpirationWorkers {
    Disabled,
    EpayOnly,
    WechatpayOnly,
    Both,
}

/// The loops for the configured providers; none when no provider is configured.
pub fn expiration_workers(epay_enabled: bool, wechatpay_enabled: bool) -> (w: ExpirationWorkers)
    ensures
        w == (if epay_enabled && wechatpay_enabled {
            ExpirationWorkers::Both
        } else if epay_enabled {
            ExpirationWorkers::EpayOnly
        } else if wechatpay_enabled {
            ExpirationWorkers::WechatpayOnly
        } else {
            ExpirationWorkers::Disabled
        }),
{
    match (epay_enabled, wechatpay_enabled) {
        (true, true) => ExpirationWorkers::Both,
        (true, false) => ExpirationWorkers::EpayOnly,
        (false, true) => ExpirationWorkers::WechatpayOnly,
        (false, false) => ExpirationWorkers::Disabled,
    }
}

/// An attempt the scan of its provider picks up: a pending order whose deadline has
/// passed, with an attempt still open — created or ready, and for WeChat Pay also a
/// failed prepayment, whose remote order may still exist.
pub open spec fn spec_expiration_candidate(
    provider: PaymentProvider,
    attempt_state: Seq<char>,
    order_status: Seq<char>,
    expires_at: i64,
    now: i64,
) -> bool {
    &&& order_status == OrderStatus::Pending.spec_str()
    &&& expires_at <= now
    &&& (attempt_state == PaymentAttemptState::Created.spec_str() || attempt_state
        == PaymentAttemptState::Ready.spec_str() || (provider == PaymentProvider::Wechatpay
        && attempt_state == PaymentAttemptState::Failed.spec_str()))
}

/// Which attempts the scans pick up. For every provider, an attempt that is created or
/// ready (its payment entry published) of a pending order whose deadline has passed is
/// picked up; a failed attempt is picked up by the WeChat Pay scan only; a succeeded or
/// closed attempt, an order that is not pending, and an order whose deadline is still
/// ahead are never picked up.
pub proof fn lemma_scans_pick_lapsed_open_attempts(
    provider: PaymentProvider,
    attempt_state: Seq<char>,
    order_status: Seq<char>,
    expires_at: i64,
    now: i64,
)
    ensures
        (attempt_state == "created"@ || attempt_state == "ready"@) && order_status == "pending"@
            && expires_at <= now ==> spec_expiration_candidate(
            provider,
            attempt_state,
            order_status,
            expires_at,
            now,
        ),
        attempt_state == "failed"@ && order_status == "pending"@ && expires_at <= now ==> (
        spec_expiration_candidate(provider, attempt_state, order_status, expires_at, now) <==> provider
            == PaymentProvider::Wechatpay),
        attempt_state == "succeeded"@ || attempt_state == "closed"@ ==> !spec_expiration_candidate(
            provider,
            attempt_state,
            order_status,
            expires_at,
            now,
        ),
        spec_expiration_candidate(provider, attempt_state, order_status, expires_at, now) ==> (
        order_status == "pending"@ && expires_at <= now),
{
    reveal_strlit("created");
    reveal_strlit("ready");
    reveal_strlit("failed");
    reveal_strlit("succeeded");
    reveal_strlit("closed");
    reveal_strlit("pending");
    assert("failed"@.len() != "created"@.len() && "failed"@.len() != "ready"@.len());
    assert("succeeded"@.len() != "created"@.len() && "succeeded"@.len() != "ready"@.len()
        && "succeeded"@.len() != "failed"@.len());
    assert("closed"@.len() != "created"@.len() && "closed"@.len() != "ready"@.len());
    assert("closed"@[0] != "failed"@[0]);
}

/// Whether the scan of `provider` picks up the attempt at `now`.
pub fn is_expiration_candidate(
    provider: PaymentProvider,
    attempt_state: &str,
    order_status: &str,
    expires_at: i64,
    now: i64,
) -> (res: bool)
    ensures
        res == spec_expiration_candidate(provider, attempt_state@, order_status@, expires_at, now),
{
    let open_state = str_eq(attempt_state, PaymentAttemptState::Created.as_ref()) || str_eq(
        attempt_state,
        PaymentAttemptState::Ready.as_ref(),
    ) || (provider == PaymentProvider::Wechatpay && str_eq(
        attempt_state,
        PaymentAttemptState::Failed.as_ref(),
    ));
    str_eq(order_status, OrderStatus::Pending.as_ref()) && expires_at <= now && open_state
}

/// What the WeChat Pay loop does next with a lapsed attempt.
#[derive(Debug)]
pub enum WechatpayExpiryStep {
    /// The order was paid after all: confirm the payment.
    ApplySuccess(WechatPayQueryTransaction),
    /// The order can no longer be paid: release the reservation, for this reason.
    Expire(String),
    /// The order is still payable remotely: close it first.
    CloseRemote,
    /// The outcome is unknown: keep the attempt and try again in a later scan, behind
    /// the other candidates.
    Retry,
}

/// The step after querying a lapsed order. The reservation is released only when
/// WeChat Pay reports the order closed or unknown; a paid order is confirmed; any other
/// state is closed remotely first; a failed query is retried.
pub fn wechatpay_query_step(query: Result<WechatPayQueryTransaction, WechatPayError>) -> (step:
    WechatpayExpiryStep)
    ensures
        match query {
            Ok(t) => if t.trade_state@ == "SUCCESS"@ {
                step matches WechatpayExpiryStep::ApplySuccess(u) && u == t
            } else if t.trade_state@ == "CLOSED"@ {
                step matches WechatpayExpiryStep::Expire(r) && r@ == "wechatpay_already_closed"@
            } else {
                step is CloseRemote
            },
            Err(WechatPayError::Api { code, .. }) => if code@ == "ORDER_NOT_EXIST"@ {
                step matches WechatpayExpiryStep::Expire(r) && r@ == "wechatpay_order_not_exist"@
            } else {
                step is Retry
            },
            Err(_) => step is Retry,
        },
{
    match query {
        Ok(t) => {
            if str_eq(t.trade_state.as_str(), "SUCCESS") {
                WechatpayExpiryStep::ApplySuccess(t)
            } else if str_eq(t.trade_state.as_str(), "CLOSED") {
                WechatpayExpiryStep::Expire(String::from_str("wechatpay_already_closed"))
            } else {
                WechatpayExpiryStep::CloseRemote
            }
        },
        Err(WechatPayError::Api { code, .. }) => {
            if str_eq(code.as_str(), "ORDER_NOT_EXIST") {
                WechatpayExpiryStep::Expire(String::from_str("wechatpay_order_not_exist"))
            } else {
                WechatpayExpiryStep::Retry
            }
        },
        Err(_) => WechatpayExpiryStep::Retry,
    }
}

/// The step after closing a lapsed order remotely: release the reservation once the
/// close succeeded, else retry later.
pub fn wechatpay_close_step(close: Result<(), WechatPayError>) -> (step: WechatpayExpiryStep)
    ensures
        close is Ok ==> (step matches WechatpayExpiryStep::Expire(r) && r@ == "wechatpay_closed"@),
        close is Err ==> step is Retry,
{
    match close {
        Ok(()) => WechatpayExpiryStep::Expire(String::from_str("wechatpay_closed")),
        Err(_) => WechatpayExpiryStep::Retry,
    }
}

/// A retry moves the attempt to the back of the queue, unless it was settled meanwhile.
pub fn retry_deferrable(attempt_state: &str) -> (res: bool)
    ensures
        res == (attempt_state@ == PaymentAttemptState::Created.spec_str() || attempt_state@
            == PaymentAttemptState::Ready.spec_str() || attempt_state@
            == PaymentAttemptState::Failed.spec_str()),
{
    str_eq(attempt_state, PaymentAttemptState::Created.as_ref()) || str_eq(
        attempt_state,
        PaymentAttemptState::Ready.as_ref(),
    ) || str_eq(attempt_state, PaymentAttemptState::Failed.as_ref())
}

/// The checks of a lapsed order that WeChat Pay reports paid, in order: it is this
/// merchant's order for this attempt, a complete successful transaction, a Native CNY
/// payment, attached to the attempt's order, with its payment time. The result is the
/// payment time.
pub open spec fn spec_expiration_success(
    client: WechatPayClient,
    attempt: AttemptRow,
    q: WechatPayQueryTransaction,
) -> Result<i64, Seq<char>> {
    if q.appid@ != client.app_id@ || q.mchid@ != client.mch_id@ || q.out_trade_no@
        != attempt.merchant_trade_no@ {
        Err("expired WeChat Pay query identity mismatch"@)
    } else if !(q.trade_state@ == "SUCCESS"@ && q.transaction_id is Some && q.trade_type is Some
        && q.amount is Some) {
        Err(
            "invalid WeChat Pay response: "@ + (if q.trade_state@ != "SUCCESS"@ {
                "query result is not successful: "@ + q.trade_state@
            } else if q.transaction_id is None {
                "successful query is missing transaction_id"@
            } else if q.trade_type is None {
                "successful query is missing trade_type"@
            } else {
                "successful query is missing amount"@
            }),
        )
    } else if q.trade_type->0@ != "NATIVE"@ || q.amount->0.currency@ != "CNY"@ {
        Err("expired WeChat Pay query payment details mismatch"@)
    } else {
        match q.attach {
            None => Err("WeChat Pay attach missing"@),
            Some(a) => match spec_parse_uuid(a@) {
                None => Err("invalid WeChat Pay attach"@),
                Some(id) => if id != attempt.order_id {
                    Err("expired WeChat Pay query attach mismatch"@)
                } else {
                    match q.success_time {
                        None => Err("WeChat Pay success_time missing"@),
                        Some(t) => match spec_parse_rfc3339(t@) {
                            None => Err("invalid WeChat Pay success_time"@),
                            Some(v) => Ok(v),
                        },
                    }
                },
            },
        }
    }
}

/// Checks the transaction of a lapsed order that WeChat Pay reports paid, and returns it
/// with its payment time.
pub fn expiration_success(
    client: &WechatPayClient,
    attempt: &AttemptRow,
    query: WechatPayQueryTransaction,
) -> (res: Result<(WechatPayTransaction, i64), AppError>)
    ensures
        match spec_expiration_success(*client, *attempt, query) {
            Err(m) => res matches Err(e) && e@ == AppErrorView::BadRequest(m),
            Ok(paid_at) => res matches Ok((t, p)) && p == paid_at && {
                &&& t.appid == query.appid
                &&& t.mchid == query.mchid
                &&& t.out_trade_no == query.out_trade_no
                &&& Some(t.transaction_id) == query.transaction_id
                &&& Some(t.trade_type) == query.trade_type
                &&& t.trade_state == query.trade_state
                &&& t.success_time == query.success_time
                &&& t.attach == query.attach
                &&& Some(t.amount) == query.amount
            },
        },
{
    if !str_eq(query.appid.as_str(), client.app_id()) || !str_eq(query.mchid.as_str(), client.mch_id())
        || !str_eq(query.out_trade_no.as_str(), attempt.merchant_trade_no.as_str()) {
        return Err(AppError::bad_request("expired WeChat Pay query identity mismatch"));
    }
    let ghost q = query;
    let t = match query.into_success() {
        Ok(t) => t,
        Err(e) => {
            let text = e.to_string();
            return Err(AppError::BadRequest(text));
        },
    };
    if !str_eq(t.trade_type.as_str(), "NATIVE") || !str_eq(t.amount.currency.as_str(), "CNY") {
        return Err(AppError::bad_request("expired WeChat Pay query payment details mismatch"));
    }
    let attached = match &t.attach {
        Some(a) => a,
        None => return Err(AppError::bad_request("WeChat Pay attach missing")),
    };
    let order_id = match parse_uuid(attached.as_str()) {
        Some(id) => id,
        None => return Err(AppError::bad_request("invalid WeChat Pay attach")),
    };
    if order_id != attempt.order_id {
        return Err(AppError::bad_request("expired WeChat Pay query attach mismatch"));
    }
    let success_time = match &t.success_time {
        Some(v) => v,
        None => return Err(AppError::bad_request("WeChat Pay success_time missing")),
    };
    let paid_at = match parse_rfc3339_micros(success_time.as_str()) {
        Some(v) => v,
        None => return Err(AppError::bad_request("invalid WeChat Pay success_time")),
    };
    Ok((t, paid_at))
}

/// The payment fact of a lapsed order found paid by the expiration loop; `body` is the
/// transaction as recorded with the event.
pub fn expiration_confirmation(
    attempt: &AttemptRow,
    transaction: &WechatPayTransaction,
    paid_at: i64,
    body: String,
) -> (c: PaymentConfirmation)
    ensures
        c@ == (ConfirmationView {
            provider: "wechatpay"@,
            provider_event_id: "expiration-query:"@ + transaction.transaction_id@,
            event_type: "TRANSACTION.SUCCESS.EXPIRATION_QUERY"@,
            merchant_trade_no: transaction.out_trade_no@,
            provider_transaction_id: transaction.transaction_id@,
            expected_order_id: Some(attempt.order_id),
            amount_cents: transaction.amount.total,
            currency: transaction.amount.currency@,
            paid_at,
            request_body: body@,
        }),
{
    let mut event_id = String::from_str("expiration-query:");
    event_id.append(transaction.transaction_id.as_str());
    let provider = String::from_str(PaymentProvider::Wechatpay.as_ref());
    proof {
        reveal_strlit("wechatpay");
    }
    PaymentConfirmation {
        provider,
        provider_event_id: event_id,
        event_type: String::from_str("TRANSACTION.SUCCESS.EXPIRATION_QUERY"),
        merchant_trade_no: transaction.out_trade_no.clone(),
        provider_transaction_id: transaction.transaction_id.clone(),
        expected_order_id: Some(attempt.order_id),
        amount_cents: transaction.amount.total,
        currency: transaction.amount.currency.clone(),
        paid_at,
        request_body: body,
    }
}

} // verus!
