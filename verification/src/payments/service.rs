//! Confirmation of a trusted payment: idempotency checks, recording the payment and
//! delivering the reserved inventory item, decided in one database transaction.
//!
//! The caller locks and reads the rows of a [`ConfirmSnapshot`] in one transaction
//! (attempt, event, order, inventory item, in that order), asks [`confirm_payment`] for
//! the decision, performs the returned writes and commits; on an error it rolls back.
use vstd::prelude::*;
use vstd::string::*;
use crate::domain::{OrderStatus, PaymentAttemptState, PaymentProvider, ProductStatus};
use crate::error::{AppError, AppErrorView};
use crate::text::str_eq;
use super::ledger::{
    AttemptRow, AttemptView, Ledger, LedgerWrite, LedgerWriteView, OrderRow, OrderView, ProductRow,
    ProductView, apply_write, apply_writes, ledger_wf, writes_view, lemma_apply_writes_0,
    lemma_apply_writes_1, lemma_apply_writes_3, lemma_apply_writes_4, lemma_apply_writes_5,
};

verus! {

/// A payment fact whose signature, decryption and merchant identity the protocol layer
/// has already checked. The domain logic accepts only this form, never a raw callback.
#[derive(Debug)]
pub struct PaymentConfirmation {
    pub provider: String,
    pub provider_event_id: String,
    pub event_type: String,
    pub merchant_trade_no: String,
    pub provider_transaction_id: String,
    pub expected_order_id: Option<u128>,
    pub amount_cents: i64,
    pub currency: String,
    pub paid_at: i64,
    pub request_body: String,
}

pub struct ConfirmationView {
    pub provider: Seq<char>,
    pub provider_event_id: Seq<char>,
    pub event_type: Seq<char>,
    pub merchant_trade_no: Seq<char>,
    pub provider_transaction_id: Seq<char>,
    pub expected_order_id: Option<u128>,
    pub amount_cents: i64,
    pub currency: Seq<char>,
    pub paid_at: i64,
    pub request_body: Seq<char>,
}

impl View for PaymentConfirmation {
    type V = ConfirmationView;

    open spec fn view(&self) -> ConfirmationView {
        ConfirmationView {
            provider: self.provider@,
            provider_event_id: self.provider_event_id@,
            event_type: self.event_type@,
            merchant_trade_no: self.merchant_trade_no@,
            provider_transaction_id: self.provider_transaction_id@,
            expected_order_id: self.expected_order_id,
            amount_cents: self.amount_cents,
            currency: self.currency@,
            paid_at: self.paid_at,
            request_body: self.request_body@,
        }
    }
}

/// Result of a confirmation that did not fail.
#[derive(Debug, Clone, Copy, PartialEq, Eq, Structural)]
pub enum ConfirmPaymentOutcome {
    /// The payment was recorded and the reserved item delivered.
    Applied,
    /// The payment came after the reservation lapsed: recorded, nothing delivered.
    RecordedAfterExpiry,
    /// The payment had been applied before; at most the event is recorded.
    AlreadyApplied,
}

/// Rows read, under row locks, for one confirmation.
#[derive(Debug)]
pub struct ConfirmSnapshot {
    /// The attempt with the confirmation's provider and merchant trade number.
    pub attempt: Option<AttemptRow>,
    /// The attempt that the event (provider, provider event id) is recorded for, if any.
    pub event_attempt_id: Option<u128>,
    /// The order of the attempt.
    pub order: Option<OrderRow>,
    /// The inventory item with the id the order refers to, if any.
    pub product: Option<ProductRow>,
}

pub struct ConfirmSnapshotView {
    pub attempt: Option<AttemptView>,
    pub event_attempt_id: Option<u128>,
    pub order: Option<OrderView>,
    pub product: Option<ProductView>,
}

impl View for ConfirmSnapshot {
    type V = ConfirmSnapshotView;

    open spec fn view(&self) -> ConfirmSnapshotView {
        ConfirmSnapshotView {
            attempt: match self.attempt {
                Some(a) => Some(a@),
                None => None,
            },
            event_attempt_id: self.event_attempt_id,
            order: match self.order {
                Some(o) => Some(o@),
                None => None,
            },
            product: match self.product {
                Some(p) => Some(p@),
                None => None,
            },
        }
    }
}

/// Decision of a confirmation: its outcome and the writes that realise it.
#[derive(Debug)]
pub struct ConfirmPlan {
    pub outcome: ConfirmPaymentOutcome,
    pub writes: Vec<LedgerWrite>,
}

/// View of a decision, or of the error that refuses the confirmation.
pub open spec fn plan_view(r: Result<ConfirmPlan, AppError>) -> Result<
    (ConfirmPaymentOutcome, Seq<LedgerWriteView>),
    AppErrorView,
> {
    match r {
        Ok(p) => Ok((p.outcome, writes_view(p.writes@))),
        Err(e) => Err(e@),
    }
}

/// An ePay payment made after the local reservation deadline.
pub open spec fn spec_epay_paid_after_deadline(provider: Seq<char>, paid_at: i64, expires_at: i64) -> bool {
    provider == PaymentProvider::Epay.spec_str() && paid_at > expires_at
}

/// Records the provider event for the attempt.
pub open spec fn event_write(a: AttemptView, c: ConfirmationView) -> LedgerWriteView {
    LedgerWriteView::InsertEvent {
        provider: c.provider,
        provider_event_id: c.provider_event_id,
        attempt_id: a.id,
        event_type: c.event_type,
        request_body: c.request_body,
    }
}

/// Marks the attempt as paid by the confirmed transaction.
pub open spec fn succeeded_write(a: AttemptView, c: ConfirmationView) -> LedgerWriteView {
    LedgerWriteView::MarkAttemptSucceeded {
        attempt_id: a.id,
        provider_transaction_id: c.provider_transaction_id,
        paid_at: c.paid_at,
    }
}

/// The inventory item reserved by the order can be released (or delivered): it exists,
/// belongs to the order's product and is still reserved.
pub open spec fn spec_reserved_item(o: OrderView, product: Option<ProductView>) -> bool {
    match o.product_id {
        Some(pid) => match product {
            Some(p) => p.id == pid && p.product_info_id == o.product_info_id && p.status
                == ProductStatus::Reserved.spec_str(),
            None => false,
        },
        None => false,
    }
}

/// The inventory item the order refers to exists and belongs to the order's product.
pub open spec fn spec_item_present(o: OrderView, product: Option<ProductView>) -> bool {
    match o.product_id {
        Some(pid) => match product {
            Some(p) => p.id == pid && p.product_info_id == o.product_info_id,
            None => false,
        },
        None => false,
    }
}

/// Decision once the order is known. `prefix` holds the writes that released the
/// reservation of a late ePay payment; `status` is the order status after them.
pub open spec fn spec_confirm_with_order(
    a: AttemptView,
    o: OrderView,
    product: Option<ProductView>,
    c: ConfirmationView,
    prefix: Seq<LedgerWriteView>,
    status: Seq<char>,
) -> Result<(ConfirmPaymentOutcome, Seq<LedgerWriteView>), AppErrorView> {
    let late = spec_epay_paid_after_deadline(a.provider, c.paid_at, o.expires_at);
    if status == OrderStatus::Expired.spec_str() || late {
        Ok(
            (
                ConfirmPaymentOutcome::RecordedAfterExpiry,
                prefix + seq![
                    LedgerWriteView::SetOrderPaidAt { order_id: o.id, paid_at: c.paid_at },
                    succeeded_write(a, c),
                    event_write(a, c),
                ],
            ),
        )
    } else if status == OrderStatus::Delivered.spec_str() {
        Err(AppErrorView::Conflict("order already paid by another payment attempt"@))
    } else if status != OrderStatus::Pending.spec_str() {
        Err(AppErrorView::Conflict("order cannot accept payment in its current state"@))
    } else if o.product_id is None {
        Err(AppErrorView::Conflict("pending order is missing reserved inventory"@))
    } else if !spec_item_present(o, product) {
        Err(AppErrorView::Conflict("reserved inventory record is missing"@))
    } else if !spec_reserved_item(o, product) {
        Err(AppErrorView::Conflict("reserved inventory is not in reserved state"@))
    } else {
        Ok(
            (
                ConfirmPaymentOutcome::Applied,
                seq![
                    LedgerWriteView::DeliverOrder { order_id: o.id, paid_at: c.paid_at },
                    LedgerWriteView::DeliverProduct { product_id: o.product_id->0 },
                    succeeded_write(a, c),
                    event_write(a, c),
                ],
            ),
        )
    }
}

/// Decision of a trusted payment confirmation on the rows it reads.
pub open spec fn spec_confirm(s: ConfirmSnapshotView, c: ConfirmationView) -> Result<
    (ConfirmPaymentOutcome, Seq<LedgerWriteView>),
    AppErrorView,
> {
    match s.attempt {
        None => Err(AppErrorView::NotFound("payment attempt not found"@)),
        Some(a) => if c.expected_order_id matches Some(e) && e != a.order_id {
            Err(AppErrorView::BadRequest("payment order mismatch"@))
        } else if s.event_attempt_id is Some {
            if s.event_attempt_id->0 != a.id {
                Err(AppErrorView::Conflict("payment event belongs to another attempt"@))
            } else {
                Ok((ConfirmPaymentOutcome::AlreadyApplied, seq![]))
            }
        } else if a.amount_cents != c.amount_cents || a.currency != c.currency {
            Err(AppErrorView::BadRequest("payment amount mismatch"@))
        } else if a.state == PaymentAttemptState::Succeeded.spec_str() {
            match a.provider_transaction_id {
                None => Err(
                    AppErrorView::Conflict("succeeded payment is missing provider transaction id"@),
                ),
                Some(t) => if t != c.provider_transaction_id {
                    Err(AppErrorView::Conflict("payment already applied with another transaction"@))
                } else {
                    Ok((ConfirmPaymentOutcome::AlreadyApplied, seq![event_write(a, c)]))
                },
            }
        } else {
            match s.order {
                None => Err(AppErrorView::DatabaseNotFound),
                Some(o) => if o.amount_cents != c.amount_cents || o.currency != c.currency {
                    Err(AppErrorView::Conflict("order payment snapshot mismatch"@))
                } else if spec_epay_paid_after_deadline(a.provider, c.paid_at, o.expires_at)
                    && o.status == OrderStatus::Pending.spec_str() {
                    if o.product_id is None {
                        Err(AppErrorView::Conflict("pending order is missing reserved inventory"@))
                    } else if !spec_reserved_item(o, s.product) {
                        Err(AppErrorView::Conflict("reserved inventory could not be released"@))
                    } else {
                        spec_confirm_with_order(
                            a,
                            o,
                            s.product,
                            c,
                            seq![
                                LedgerWriteView::ReleaseReservedProduct { product_id: o.product_id->0 },
                                LedgerWriteView::ExpireOrder { order_id: o.id },
                            ],
                            OrderStatus::Expired.spec_str(),
                        )
                    }
                } else {
                    spec_confirm_with_order(a, o, s.product, c, seq![], o.status)
                },
            }
        },
    }
}

/// Whether an ePay payment arrived after its local reservation deadline. Only ePay is
/// classified locally; WeChat Pay closes its orders remotely before they expire.
pub fn is_epay_paid_after_deadline(provider: &str, paid_at: i64, expires_at: i64) -> (res: bool)
    ensures
        res == spec_epay_paid_after_deadline(provider@, paid_at, expires_at),
{
    str_eq(provider, PaymentProvider::Epay.as_ref()) && paid_at > expires_at
}

fn insert_event(a: &AttemptRow, c: &PaymentConfirmation) -> (w: LedgerWrite)
    ensures
        w@ == event_write(a@, c@),
{
    LedgerWrite::InsertEvent {
        provider: c.provider.clone(),
        provider_event_id: c.provider_event_id.clone(),
        attempt_id: a.id,
        event_type: c.event_type.clone(),
        request_body: c.request_body.clone(),
    }
}

fn mark_succeeded(a: &AttemptRow, c: &PaymentConfirmation) -> (w: LedgerWrite)
    ensures
        w@ == succeeded_write(a@, c@),
{
    LedgerWrite::MarkAttemptSucceeded {
        attempt_id: a.id,
        provider_transaction_id: c.provider_transaction_id.clone(),
        paid_at: c.paid_at,
    }
}

fn reserved_item(o: &OrderRow, product: &Option<ProductRow>) -> (res: bool)
    ensures
        res == spec_reserved_item(o@, match product { Some(p) => Some(p@), None => None }),
{
    match (o.product_id, product) {
        (Some(pid), Some(p)) => p.id == pid && p.product_info_id == o.product_info_id && str_eq(
            p.status.as_str(),
            ProductStatus::Reserved.as_ref(),
        ),
        _ => false,
    }
}

fn item_present(o: &OrderRow, product: &Option<ProductRow>) -> (res: bool)
    ensures
        res == spec_item_present(o@, match product { Some(p) => Some(p@), None => None }),
{
    match (o.product_id, product) {
        (Some(pid), Some(p)) => p.id == pid && p.product_info_id == o.product_info_id,
        _ => false,
    }
}

fn confirm_with_order(
    a: &AttemptRow,
    o: &OrderRow,
    product: &Option<ProductRow>,
    c: &PaymentConfirmation,
    prefix: Vec<LedgerWrite>,
    status: &str,
) -> (res: Result<ConfirmPlan, AppError>)
    ensures
        plan_view(res) == spec_confirm_with_order(
            a@,
            o@,
            match product { Some(p) => Some(p@), None => None },
            c@,
            writes_view(prefix@),
            status@,
        ),
{
    let late = is_epay_paid_after_deadline(a.provider.as_str(), c.paid_at, o.expires_at);
    if str_eq(status, OrderStatus::Expired.as_ref()) || late {
        let mut writes = prefix;
        let ghost p0 = writes@;
        writes.push(LedgerWrite::SetOrderPaidAt { order_id: o.id, paid_at: c.paid_at });
        writes.push(mark_succeeded(a, c));
        writes.push(insert_event(a, c));
        assert(writes_view(writes@) =~= writes_view(p0) + seq![
            LedgerWriteView::SetOrderPaidAt { order_id: o.id, paid_at: c.paid_at },
            succeeded_write(a@, c@),
            event_write(a@, c@),
        ]);
        return Ok(ConfirmPlan { outcome: ConfirmPaymentOutcome::RecordedAfterExpiry, writes });
    }
    if str_eq(status, OrderStatus::Delivered.as_ref()) {
        return Err(AppError::conflict("order already paid by another payment attempt"));
    }
    if !str_eq(status, OrderStatus::Pending.as_ref()) {
        return Err(AppError::conflict("order cannot accept payment in its current state"));
    }
    let product_id = match o.product_id {
        Some(pid) => pid,
        None => {
            return Err(AppError::conflict("pending order is missing reserved inventory"));
        },
    };
    if !item_present(o, product) {
        return Err(AppError::conflict("reserved inventory record is missing"));
    }
    if !reserved_item(o, product) {
        return Err(AppError::conflict("reserved inventory is not in reserved state"));
    }
    let mut writes: Vec<LedgerWrite> = Vec::new();
    writes.push(LedgerWrite::DeliverOrder { order_id: o.id, paid_at: c.paid_at });
    writes.push(LedgerWrite::DeliverProduct { product_id });
    writes.push(mark_succeeded(a, c));
    writes.push(insert_event(a, c));
    assert(writes_view(writes@) =~= seq![
        LedgerWriteView::DeliverOrder { order_id: o.id, paid_at: c.paid_at },
        LedgerWriteView::DeliverProduct { product_id: o.product_id->0 },
        succeeded_write(a@, c@),
        event_write(a@, c@),
    ]);
    Ok(ConfirmPlan { outcome: ConfirmPaymentOutcome::Applied, writes })
}

/// Decides a trusted payment confirmation on the locked rows of one transaction.
///
/// Every entry point (payment callbacks and active order queries) goes through this
/// decision, so that no entry point delivers an item twice: an event already recorded
/// for the attempt changes nothing, an attempt that already succeeded only records the
/// event, and a payment that arrives after the reservation lapsed (the order expired,
/// or an ePay payment after its deadline, whose reservation is then released here) is
/// recorded without delivery.
pub fn confirm_payment(snapshot: &ConfirmSnapshot, c: &PaymentConfirmation) -> (res: Result<
    ConfirmPlan,
    AppError,
>)
    ensures
        plan_view(res) == spec_confirm(snapshot@, c@),
{
    let a = match &snapshot.attempt {
        Some(a) => a,
        None => {
            return Err(AppError::not_found("payment attempt not found"));
        },
    };
    if let Some(e) = c.expected_order_id {
        if e != a.order_id {
            return Err(AppError::bad_request("payment order mismatch"));
        }
    }
    if let Some(owner) = snapshot.event_attempt_id {
        if owner != a.id {
            return Err(AppError::conflict("payment event belongs to another attempt"));
        }
        let writes: Vec<LedgerWrite> = Vec::new();
        assert(writes_view(writes@) =~= seq![]);
        return Ok(ConfirmPlan { outcome: ConfirmPaymentOutcome::AlreadyApplied, writes });
    }
    if a.amount_cents != c.amount_cents || !str_eq(a.currency.as_str(), c.currency.as_str()) {
        return Err(AppError::bad_request("payment amount mismatch"));
    }
    if str_eq(a.state.as_str(), PaymentAttemptState::Succeeded.as_ref()) {
        match &a.provider_transaction_id {
            None => {
                return Err(
                    AppError::conflict("succeeded payment is missing provider transaction id"),
                );
            },
            Some(t) => {
                if !str_eq(t.as_str(), c.provider_transaction_id.as_str()) {
                    return Err(
                        AppError::conflict("payment already applied with another transaction"),
                    );
                }
                let mut writes: Vec<LedgerWrite> = Vec::new();
                writes.push(insert_event(a, c));
                assert(writes_view(writes@) =~= seq![event_write(a@, c@)]);
                return Ok(ConfirmPlan { outcome: ConfirmPaymentOutcome::AlreadyApplied, writes });
            },
        }
    }
    let o = match &snapshot.order {
        Some(o) => o,
        None => {
            return Err(AppError::Database(crate::error::DbError::NotFound));
        },
    };
    if o.amount_cents != c.amount_cents || !str_eq(o.currency.as_str(), c.currency.as_str()) {
        return Err(AppError::conflict("order payment snapshot mismatch"));
    }
    if is_epay_paid_after_deadline(a.provider.as_str(), c.paid_at, o.expires_at) && str_eq(
        o.status.as_str(),
        OrderStatus::Pending.as_ref(),
    ) {
        let product_id = match o.product_id {
            Some(pid) => pid,
            None => {
                return Err(AppError::conflict("pending order is missing reserved inventory"));
            },
        };
        if !reserved_item(o, &snapshot.product) {
            return Err(AppError::conflict("reserved inventory could not be released"));
        }
        let mut prefix: Vec<LedgerWrite> = Vec::new();
        prefix.push(LedgerWrite::ReleaseReservedProduct { product_id });
        prefix.push(LedgerWrite::ExpireOrder { order_id: o.id });
        assert(writes_view(prefix@) =~= seq![
            LedgerWriteView::ReleaseReservedProduct { product_id: o.product_id->0 },
            LedgerWriteView::ExpireOrder { order_id: o.id },
        ]);
        return confirm_with_order(a, o, &snapshot.product, c, prefix, OrderStatus::Expired.as_ref());
    }
    let prefix: Vec<LedgerWrite> = Vec::new();
    assert(writes_view(prefix@) =~= seq![]);
    confirm_with_order(a, o, &snapshot.product, c, prefix, o.status.as_str())
}

/// The rows a confirmation reads from the database that `l` models: the attempt when
/// its provider and merchant trade number match, the recorded owner of the event, the
/// attempt's order, and the inventory item the order refers to.
pub open spec fn confirm_snapshot_of(l: Ledger, c: ConfirmationView) -> ConfirmSnapshotView {
    ConfirmSnapshotView {
        attempt: if l.attempt.provider == c.provider && l.attempt.merchant_trade_no
            == c.merchant_trade_no {
            Some(l.attempt)
        } else {
            None
        },
        event_attempt_id: if l.events.contains_key((c.provider, c.provider_event_id)) {
            Some(l.events[(c.provider, c.provider_event_id)])
        } else {
            None
        },
        order: Some(l.order),
        product: match l.order.product_id {
            Some(pid) => match l.product {
                Some(p) => if p.id == pid {
                    Some(p)
                } else {
                    None
                },
                None => None,
            },
            None => None,
        },
    }
}

/// A confirmation run on the database `l` models: its result, and the database after
/// the transaction (unchanged when the confirmation is refused and rolled back).
pub open spec fn confirm_model(l: Ledger, c: ConfirmationView) -> (
    Result<ConfirmPaymentOutcome, AppErrorView>,
    Ledger,
) {
    match spec_confirm(confirm_snapshot_of(l, c), c) {
        Ok((o, ws)) => (Ok(o), apply_writes(l, ws)),
        Err(e) => (Err(e), l),
    }
}

/// A confirmation that delivers leaves the order and its inventory item delivered and the
/// attempt succeeded with the confirmed transaction and payment time.
pub proof fn lemma_applied_delivers(l: Ledger, c: ConfirmationView)
    requires
        ledger_wf(l),
        confirm_model(l, c).0 == Ok::<ConfirmPaymentOutcome, AppErrorView>(ConfirmPaymentOutcome::Applied),
    ensures
        ({
            let l1 = confirm_model(l, c).1;
            &&& l1.order.status == OrderStatus::Delivered.spec_str()
            &&& l1.order.paid_at == Some(c.paid_at)
            &&& l1.product matches Some(p) && p.status == ProductStatus::Delivered.spec_str()
            &&& l1.attempt.state == PaymentAttemptState::Succeeded.spec_str()
            &&& l1.attempt.provider_transaction_id == Some(c.provider_transaction_id)
            &&& l1.events.contains_key((c.provider, c.provider_event_id))
        }),
{
    let s = confirm_snapshot_of(l, c);
    let a = s.attempt->0;
    let o = l.order;
    lemma_apply_writes_4(
        l,
        LedgerWriteView::DeliverOrder { order_id: o.id, paid_at: c.paid_at },
        LedgerWriteView::DeliverProduct { product_id: o.product_id->0 },
        succeeded_write(a, c),
        event_write(a, c),
    );
}

/// An attempt that already succeeded never delivers again.
proof fn lemma_succeeded_attempt_never_delivers(l: Ledger, c: ConfirmationView)
    requires
        l.attempt.state == PaymentAttemptState::Succeeded.spec_str(),
    ensures
        confirm_model(l, c).0 != Ok::<ConfirmPaymentOutcome, AppErrorView>(ConfirmPaymentOutcome::Applied),
{
}

/// No entry point delivers an item twice: after a confirmation delivered, no later
/// confirmation (another callback, a replay, an active order query) delivers again.
pub proof fn lemma_delivers_at_most_once(l: Ledger, c1: ConfirmationView, c2: ConfirmationView)
    requires
        ledger_wf(l),
    ensures
        confirm_model(l, c1).0 == Ok::<ConfirmPaymentOutcome, AppErrorView>(ConfirmPaymentOutcome::Applied)
            ==> confirm_model(confirm_model(l, c1).1, c2).0 != Ok::<ConfirmPaymentOutcome, AppErrorView>(
            ConfirmPaymentOutcome::Applied,
        ),
{
    if confirm_model(l, c1).0 == Ok::<ConfirmPaymentOutcome, AppErrorView>(ConfirmPaymentOutcome::Applied) {
        lemma_applied_delivers(l, c1);
        lemma_succeeded_attempt_never_delivers(confirm_model(l, c1).1, c2);
    }
}

/// Confirmations are idempotent: replaying a confirmation that was accepted (a
/// provider retrying its callback) is answered `AlreadyApplied` and changes nothing.
pub proof fn lemma_replay_is_noop(l: Ledger, c: ConfirmationView)
    requires
        ledger_wf(l),
    ensures
        confirm_model(l, c).0 is Ok ==> confirm_model(confirm_model(l, c).1, c) == (
            Ok::<ConfirmPaymentOutcome, AppErrorView>(ConfirmPaymentOutcome::AlreadyApplied),
            confirm_model(l, c).1,
        ),
{
    if confirm_model(l, c).0 is Ok {
        let s = confirm_snapshot_of(l, c);
        let a = s.attempt->0;
        let o = l.order;
        let paid = LedgerWriteView::SetOrderPaidAt { order_id: o.id, paid_at: c.paid_at };
        let release = LedgerWriteView::ReleaseReservedProduct { product_id: o.product_id->0 };
        let expire = LedgerWriteView::ExpireOrder { order_id: o.id };
        lemma_apply_writes_0(l);
        lemma_apply_writes_1(l, event_write(a, c));
        lemma_apply_writes_3(l, paid, succeeded_write(a, c), event_write(a, c));
        lemma_apply_writes_4(
            l,
            LedgerWriteView::DeliverOrder { order_id: o.id, paid_at: c.paid_at },
            LedgerWriteView::DeliverProduct { product_id: o.product_id->0 },
            succeeded_write(a, c),
            event_write(a, c),
        );
        lemma_apply_writes_5(l, release, expire, paid, succeeded_write(a, c), event_write(a, c));
        lemma_apply_writes_3(
            apply_write(apply_write(l, release), expire),
            paid,
            succeeded_write(a, c),
            event_write(a, c),
        );
        let l1 = confirm_model(l, c).1;
        let late = spec_epay_paid_after_deadline(a.provider, c.paid_at, o.expires_at);
        if s.event_attempt_id is Some {
            assert(l1 == l);
        } else if a.state == PaymentAttemptState::Succeeded.spec_str() {
            assert(l1 == apply_write(l, event_write(a, c)));
        } else if late && o.status == OrderStatus::Pending.spec_str() {
            assert(seq![release, expire] + seq![paid, succeeded_write(a, c), event_write(a, c)]
                =~= seq![release, expire, paid, succeeded_write(a, c), event_write(a, c)]);
            assert(l1 == apply_writes(
                apply_write(apply_write(l, release), expire),
                seq![paid, succeeded_write(a, c), event_write(a, c)],
            ));
        } else if o.status == OrderStatus::Expired.spec_str() || late {
            assert(l1 == apply_write(
                apply_write(apply_write(l, paid), succeeded_write(a, c)),
                event_write(a, c),
            ));
        } else {
            assert(l1 == apply_write(
                apply_write(
                    apply_write(
                        apply_write(l, LedgerWriteView::DeliverOrder { order_id: o.id, paid_at: c.paid_at }),
                        LedgerWriteView::DeliverProduct { product_id: o.product_id->0 },
                    ),
                    succeeded_write(a, c),
                ),
                event_write(a, c),
            ));
        }
        assert(l1.attempt.provider == l.attempt.provider);
        assert(l1.attempt.merchant_trade_no == l.attempt.merchant_trade_no);
        assert(l1.attempt.id == l.attempt.id);
        assert(l1.attempt.order_id == l.attempt.order_id);
        assert(l1.events.contains_key((c.provider, c.provider_event_id)));
        assert(l1.events[(c.provider, c.provider_event_id)] == a.id);
        lemma_apply_writes_0(l1);
    }
}

/// A trusted payment that arrives after its order expired is always recorded, never
/// refused: for an attempt that has not succeeded, with no event recorded yet and the
/// amounts matching, the confirmation succeeds as `RecordedAfterExpiry`; afterwards the
/// attempt is paid by the confirmed transaction, the order keeps the payment time but
/// stays expired, the inventory item is untouched and the event is recorded.
pub proof fn lemma_late_payment_is_recorded(l: Ledger, c: ConfirmationView)
    requires
        ledger_wf(l),
        l.order.status == "expired"@,
        l.attempt.state != "succeeded"@,
        l.attempt.provider == c.provider,
        l.attempt.merchant_trade_no == c.merchant_trade_no,
        !l.events.contains_key((c.provider, c.provider_event_id)),
        c.expected_order_id is None || c.expected_order_id == Some(l.order.id),
        l.attempt.amount_cents == c.amount_cents,
        l.attempt.currency == c.currency,
        l.order.amount_cents == c.amount_cents,
        l.order.currency == c.currency,
    ensures
        confirm_model(l, c).0 == Ok::<ConfirmPaymentOutcome, AppErrorView>(
            ConfirmPaymentOutcome::RecordedAfterExpiry,
        ),
        confirm_model(l, c).1.attempt.state == "succeeded"@,
        confirm_model(l, c).1.attempt.provider_transaction_id == Some(c.provider_transaction_id),
        confirm_model(l, c).1.attempt.paid_at == Some(c.paid_at),
        confirm_model(l, c).1.order.paid_at == Some(c.paid_at),
        confirm_model(l, c).1.order.status == "expired"@,
        confirm_model(l, c).1.product == l.product,
        confirm_model(l, c).1.events.contains_key((c.provider, c.provider_event_id)),
{
    reveal_strlit("expired");
    reveal_strlit("pending");
    reveal_strlit("succeeded");
    assert("expired"@[0] != "pending"@[0]);
    let a = l.attempt;
    let o = l.order;
    let paid = LedgerWriteView::SetOrderPaidAt { order_id: o.id, paid_at: c.paid_at };
    lemma_apply_writes_3(l, paid, succeeded_write(a, c), event_write(a, c));
}

/// A trusted payment of a pending order is delivered, never refused, while its
/// reservation holds: for an attempt that has not succeeded, with no event recorded yet,
/// the amounts matching, the reserved item in place and (for ePay) the payment made by the
/// deadline, the confirmation succeeds as `Applied`; afterwards the order and its item are
/// delivered, the attempt is paid by the confirmed transaction and the event is recorded.
pub proof fn lemma_timely_payment_delivers(l: Ledger, c: ConfirmationView)
    requires
        ledger_wf(l),
        l.order.status == "pending"@,
        l.attempt.state != "succeeded"@,
        l.attempt.provider == c.provider,
        l.attempt.merchant_trade_no == c.merchant_trade_no,
        !l.events.contains_key((c.provider, c.provider_event_id)),
        c.expected_order_id is None || c.expected_order_id == Some(l.order.id),
        l.attempt.amount_cents == c.amount_cents,
        l.attempt.currency == c.currency,
        l.order.amount_cents == c.amount_cents,
        l.order.currency == c.currency,
        !(c.provider == "epay"@ && c.paid_at > l.order.expires_at),
        l.product matches Some(p) && l.order.product_id == Some(p.id) && p.product_info_id
            == l.order.product_info_id && p.status == "reserved"@,
    ensures
        confirm_model(l, c).0 == Ok::<ConfirmPaymentOutcome, AppErrorView>(
            ConfirmPaymentOutcome::Applied,
        ),
        confirm_model(l, c).1.order.status == "delivered"@,
        confirm_model(l, c).1.order.paid_at == Some(c.paid_at),
        confirm_model(l, c).1.product matches Some(p) && p.status == "delivered"@,
        confirm_model(l, c).1.attempt.state == "succeeded"@,
        confirm_model(l, c).1.attempt.provider_transaction_id == Some(c.provider_transaction_id),
        confirm_model(l, c).1.events.contains_key((c.provider, c.provider_event_id)),
{
    reveal_strlit("expired");
    reveal_strlit("pending");
    reveal_strlit("delivered");
    reveal_strlit("succeeded");
    assert("expired"@[0] != "pending"@[0]);
    assert("delivered"@[0] != "pending"@[0]);
    lemma_applied_delivers(l, c);
}

/// An ePay payment made after the reservation deadline of a still pending order is
/// recorded, never refused and never delivered: the reservation is released (the item is
/// available again and the order expires), the order keeps the payment time and the
/// attempt is paid by the confirmed transaction.
pub proof fn lemma_late_epay_payment_releases(l: Ledger, c: ConfirmationView)
    requires
        ledger_wf(l),
        l.order.status == "pending"@,
        l.attempt.state != "succeeded"@,
        l.attempt.provider == c.provider,
        l.attempt.merchant_trade_no == c.merchant_trade_no,
        !l.events.contains_key((c.provider, c.provider_event_id)),
        c.expected_order_id is None || c.expected_order_id == Some(l.order.id),
        l.attempt.amount_cents == c.amount_cents,
        l.attempt.currency == c.currency,
        l.order.amount_cents == c.amount_cents,
        l.order.currency == c.currency,
        c.provider == "epay"@,
        c.paid_at > l.order.expires_at,
        l.product matches Some(p) && l.order.product_id == Some(p.id) && p.product_info_id
            == l.order.product_info_id && p.status == "reserved"@,
    ensures
        confirm_model(l, c).0 == Ok::<ConfirmPaymentOutcome, AppErrorView>(
            ConfirmPaymentOutcome::RecordedAfterExpiry,
        ),
        confirm_model(l, c).1.product matches Some(p) && p.status == "available"@,
        confirm_model(l, c).1.order.status == "expired"@,
        confirm_model(l, c).1.order.product_id is None,
        confirm_model(l, c).1.order.paid_at == Some(c.paid_at),
        confirm_model(l, c).1.attempt.state == "succeeded"@,
        confirm_model(l, c).1.attempt.provider_transaction_id == Some(c.provider_transaction_id),
        confirm_model(l, c).1.events.contains_key((c.provider, c.provider_event_id)),
{
    reveal_strlit("epay");
    reveal_strlit("pending");
    reveal_strlit("succeeded");
    let a = l.attempt;
    let o = l.order;
    let paid = LedgerWriteView::SetOrderPaidAt { order_id: o.id, paid_at: c.paid_at };
    let release = LedgerWriteView::ReleaseReservedProduct { product_id: o.product_id->0 };
    let expire = LedgerWriteView::ExpireOrder { order_id: o.id };
    assert(seq![release, expire] + seq![paid, succeeded_write(a, c), event_write(a, c)]
        =~= seq![release, expire, paid, succeeded_write(a, c), event_write(a, c)]);
    lemma_apply_writes_5(l, release, expire, paid, succeeded_write(a, c), event_write(a, c));
    lemma_apply_writes_3(
        apply_write(apply_write(l, release), expire),
        paid,
        succeeded_write(a, c),
        event_write(a, c),
    );
}

} // verus!
