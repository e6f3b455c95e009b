//! The rows that payment decisions read, the writes they ask for, and a model of the
//! database on which those writes act.
//!
//! Times are microseconds since the Unix epoch; identifiers are UUIDs as 128-bit integers.
use vstd::prelude::*;
use crate::domain::{OrderStatus, PaymentAttemptState, ProductStatus};

verus! {

/// A row of `payment_attempts`, as far as payment decisions read it.
#[derive(Debug, Clone)]
pub struct AttemptRow {
    pub id: u128,
    pub order_id: u128,
    pub provider: String,
    pub merchant_trade_no: String,
    pub state: String,
    pub provider_transaction_id: Option<String>,
    pub amount_cents: i64,
    pub currency: String,
    pub paid_at: Option<i64>,
}

/// A row of `orders`, as far as payment decisions read it.
#[derive(Debug, Clone)]
pub struct OrderRow {
    pub id: u128,
    pub product_id: Option<u128>,
    pub product_info_id: u128,
    pub amount_cents: i64,
    pub currency: String,
    pub status: String,
    pub expires_at: i64,
    pub paid_at: Option<i64>,
}

/// A row of `products` (one inventory item).
#[derive(Debug, Clone)]
pub struct ProductRow {
    pub id: u128,
    pub product_info_id: u128,
    pub status: String,
}

pub struct AttemptView {
    pub id: u128,
    pub order_id: u128,
    pub provider: Seq<char>,
    pub merchant_trade_no: Seq<char>,
    pub state: Seq<char>,
    pub provider_transaction_id: Option<Seq<char>>,
    pub amount_cents: i64,
    pub currency: Seq<char>,
    pub paid_at: Option<i64>,
}

pub struct OrderView {
    pub id: u128,
    pub product_id: Option<u128>,
    pub product_info_id: u128,
    pub amount_cents: i64,
    pub currency: Seq<char>,
    pub status: Seq<char>,
    pub expires_at: i64,
    pub paid_at: Option<i64>,
}

pub struct ProductView {
    pub id: u128,
    pub product_info_id: u128,
    pub status: Seq<char>,
}

impl View for AttemptRow {
    type V = AttemptView;

    open spec fn view(&self) -> AttemptView {
        AttemptView {
            id: self.id,
            order_id: self.order_id,
            provider: self.provider@,
            merchant_trade_no: self.merchant_trade_no@,
            state: self.state@,
            provider_transaction_id: match self.provider_transaction_id {
                Some(t) => Some(t@),
                None => None,
            },
            amount_cents: self.amount_cents,
            currency: self.currency@,
            paid_at: self.paid_at,
        }
    }
}

impl View for OrderRow {
    type V = OrderView;

    open spec fn view(&self) -> OrderView {
        OrderView {
            id: self.id,
            product_id: self.product_id,
            product_info_id: self.product_info_id,
            amount_cents: self.amount_cents,
            currency: self.currency@,
            status: self.status@,
            expires_at: self.expires_at,
            paid_at: self.paid_at,
        }
    }
}

impl View for ProductRow {
    type V = ProductView;

    open spec fn view(&self) -> ProductView {
        ProductView { id: self.id, product_info_id: self.product_info_id, status: self.status@ }
    }
}

/// One database write that a payment decision asks the caller to perform, inside the
/// same transaction that read the rows.
#[derive(Debug)]
pub enum LedgerWrite {
    /// `products`: a reserved item of the order's product becomes available again.
    ReleaseReservedProduct { product_id: u128 },
    /// `orders`: the order expires and gives up its inventory item.
    ExpireOrder { order_id: u128 },
    /// `orders`: record when the order was paid.
    SetOrderPaidAt { order_id: u128, paid_at: i64 },
    /// `orders`: the order is delivered, paid at the given time.
    DeliverOrder { order_id: u128, paid_at: i64 },
    /// `products`: the reserved item is delivered.
    DeliverProduct { product_id: u128 },
    /// `payment_attempts`: the attempt succeeded with the provider's transaction.
    MarkAttemptSucceeded { attempt_id: u128, provider_transaction_id: String, paid_at: i64 },
    /// `payment_attempts`: the attempt is closed without payment.
    CloseAttempt { attempt_id: u128 },
    /// `payment_attempts`: the prepared payment entry is published.
    PublishAttempt { attempt_id: u128, code_url: Option<String> },
    /// `payment_events`: record a provider event for the attempt.
    InsertEvent {
        provider: String,
        provider_event_id: String,
        attempt_id: u128,
        event_type: String,
        request_body: String,
    },
}

pub enum LedgerWriteView {
    ReleaseReservedProduct { product_id: u128 },
    ExpireOrder { order_id: u128 },
    SetOrderPaidAt { order_id: u128, paid_at: i64 },
    DeliverOrder { order_id: u128, paid_at: i64 },
    DeliverProduct { product_id: u128 },
    MarkAttemptSucceeded { attempt_id: u128, provider_transaction_id: Seq<char>, paid_at: i64 },
    CloseAttempt { attempt_id: u128 },
    PublishAttempt { attempt_id: u128, code_url: Option<Seq<char>> },
    InsertEvent {
        provider: Seq<char>,
        provider_event_id: Seq<char>,
        attempt_id: u128,
        event_type: Seq<char>,
        request_body: Seq<char>,
    },
}

impl View for LedgerWrite {
    type V = LedgerWriteView;

    open spec fn view(&self) -> LedgerWriteView {
        match self {
            LedgerWrite::ReleaseReservedProduct { product_id } =>
                LedgerWriteView::ReleaseReservedProduct { product_id: *product_id },
            LedgerWrite::ExpireOrder { order_id } => LedgerWriteView::ExpireOrder { order_id: *order_id },
            LedgerWrite::SetOrderPaidAt { order_id, paid_at } =>
                LedgerWriteView::SetOrderPaidAt { order_id: *order_id, paid_at: *paid_at },
            LedgerWrite::DeliverOrder { order_id, paid_at } =>
                LedgerWriteView::DeliverOrder { order_id: *order_id, paid_at: *paid_at },
            LedgerWrite::DeliverProduct { product_id } =>
                LedgerWriteView::DeliverProduct { product_id: *product_id },
            LedgerWrite::MarkAttemptSucceeded { attempt_id, provider_transaction_id, paid_at } =>
                LedgerWriteView::MarkAttemptSucceeded {
                attempt_id: *attempt_id,
                provider_transaction_id: provider_transaction_id@,
                paid_at: *paid_at,
            },
            LedgerWrite::CloseAttempt { attempt_id } => LedgerWriteView::CloseAttempt { attempt_id: *attempt_id },
            LedgerWrite::PublishAttempt { attempt_id, code_url } => LedgerWriteView::PublishAttempt {
                attempt_id: *attempt_id,
                code_url: match code_url {
                    Some(u) => Some(u@),
                    None => None,
                },
            },
            LedgerWrite::InsertEvent {
                provider,
                provider_event_id,
                attempt_id,
                event_type,
                request_body,
            } => LedgerWriteView::InsertEvent {
                provider: provider@,
                provider_event_id: provider_event_id@,
                attempt_id: *attempt_id,
                event_type: event_type@,
                request_body: request_body@,
            },
        }
    }
}

/// The writes of a list, by their views.
pub open spec fn writes_view(ws: Seq<LedgerWrite>) -> Seq<LedgerWriteView> {
    ws.map_values(|w: LedgerWrite| w@)
}

/// Model of the part of the database that one payment attempt touches: the attempt,
/// its order, the inventory item the order reserved, and the recorded provider events
/// (keyed by provider and event id, valued by the attempt they belong to).
pub struct Ledger {
    pub attempt: AttemptView,
    pub order: OrderView,
    pub product: Option<ProductView>,
    pub events: Map<(Seq<char>, Seq<char>), u128>,
}

/// The attempt refers to the order.
pub open spec fn ledger_wf(l: Ledger) -> bool {
    l.attempt.order_id == l.order.id
}

/// Effect of one write on the model.
pub open spec fn apply_write(l: Ledger, w: LedgerWriteView) -> Ledger {
    match w {
        LedgerWriteView::ReleaseReservedProduct { product_id } => match l.product {
            Some(p) => if p.id == product_id {
                Ledger { product: Some(ProductView { status: ProductStatus::Available.spec_str(), ..p }), ..l }
            } else {
                l
            },
            None => l,
        },
        LedgerWriteView::ExpireOrder { order_id } => if l.order.id == order_id {
            Ledger {
                order: OrderView { status: OrderStatus::Expired.spec_str(), product_id: None, ..l.order },
                ..l
            }
        } else {
            l
        },
        LedgerWriteView::SetOrderPaidAt { order_id, paid_at } => if l.order.id == order_id {
            Ledger { order: OrderView { paid_at: Some(paid_at), ..l.order }, ..l }
        } else {
            l
        },
        LedgerWriteView::DeliverOrder { order_id, paid_at } => if l.order.id == order_id {
            Ledger {
                order: OrderView {
                    status: OrderStatus::Delivered.spec_str(),
                    paid_at: Some(paid_at),
                    ..l.order
                },
                ..l
            }
        } else {
            l
        },
        LedgerWriteView::DeliverProduct { product_id } => match l.product {
            Some(p) => if p.id == product_id {
                Ledger { product: Some(ProductView { status: ProductStatus::Delivered.spec_str(), ..p }), ..l }
            } else {
                l
            },
            None => l,
        },
        LedgerWriteView::MarkAttemptSucceeded { attempt_id, provider_transaction_id, paid_at } =>
            if l.attempt.id == attempt_id {
            Ledger {
                attempt: AttemptView {
                    state: PaymentAttemptState::Succeeded.spec_str(),
                    provider_transaction_id: Some(provider_transaction_id),
                    paid_at: Some(paid_at),
                    ..l.attempt
                },
                ..l
            }
        } else {
            l
        },
        LedgerWriteView::CloseAttempt { attempt_id } => if l.attempt.id == attempt_id {
            Ledger {
                attempt: AttemptView { state: PaymentAttemptState::Closed.spec_str(), ..l.attempt },
                ..l
            }
        } else {
            l
        },
        LedgerWriteView::PublishAttempt { attempt_id, code_url } => if l.attempt.id == attempt_id {
            Ledger {
                attempt: AttemptView { state: PaymentAttemptState::Ready.spec_str(), ..l.attempt },
                ..l
            }
        } else {
            l
        },
        LedgerWriteView::InsertEvent { provider, provider_event_id, attempt_id, .. } => Ledger {
            events: l.events.insert((provider, provider_event_id), attempt_id),
            ..l
        },
    }
}

/// Effect of a list of writes, applied in order.
pub open spec fn apply_writes(l: Ledger, ws: Seq<LedgerWriteView>) -> Ledger
    decreases ws.len(),
{
    if ws.len() == 0 {
        l
    } else {
        apply_writes(apply_write(l, ws[0]), ws.drop_first())
    }
}

/// No writes leave the ledger as it is.
pub proof fn lemma_apply_writes_0(l: Ledger)
    ensures
        apply_writes(l, seq![]) == l,
{
}

/// One write has its own effect.
pub proof fn lemma_apply_writes_1(l: Ledger, w0: LedgerWriteView)
    ensures
        apply_writes(l, seq![w0]) == apply_write(l, w0),
{
    reveal_with_fuel(apply_writes, 2);
    assert(seq![w0].drop_first() =~= Seq::<LedgerWriteView>::empty());
}

/// A first write is applied before the rest.
pub proof fn lemma_apply_writes_prepend(l: Ledger, w: LedgerWriteView, ws: Seq<LedgerWriteView>)
    ensures
        apply_writes(l, seq![w] + ws) == apply_writes(apply_write(l, w), ws),
{
    assert((seq![w] + ws).drop_first() =~= ws);
}

/// Three writes, unfolded in order.
pub proof fn lemma_apply_writes_3(l: Ledger, w0: LedgerWriteView, w1: LedgerWriteView, w2: LedgerWriteView)
    ensures
        apply_writes(l, seq![w0, w1, w2]) == apply_write(apply_write(apply_write(l, w0), w1), w2),
{
    assert(seq![w0, w1, w2] =~= seq![w0] + (seq![w1] + seq![w2]));
    lemma_apply_writes_prepend(l, w0, seq![w1] + seq![w2]);
    lemma_apply_writes_prepend(apply_write(l, w0), w1, seq![w2]);
    lemma_apply_writes_1(apply_write(apply_write(l, w0), w1), w2);
}

/// Four writes, unfolded in order.
pub proof fn lemma_apply_writes_4(
    l: Ledger,
    w0: LedgerWriteView,
    w1: LedgerWriteView,
    w2: LedgerWriteView,
    w3: LedgerWriteView,
)
    ensures
        apply_writes(l, seq![w0, w1, w2, w3]) == apply_write(
            apply_write(apply_write(apply_write(l, w0), w1), w2),
            w3,
        ),
{
    assert(seq![w0, w1, w2, w3] =~= seq![w0] + seq![w1, w2, w3]);
    lemma_apply_writes_prepend(l, w0, seq![w1, w2, w3]);
    lemma_apply_writes_3(apply_write(l, w0), w1, w2, w3);
}

/// Five writes: the first two unfolded, the last three still to apply.
pub proof fn lemma_apply_writes_5(
    l: Ledger,
    w0: LedgerWriteView,
    w1: LedgerWriteView,
    w2: LedgerWriteView,
    w3: LedgerWriteView,
    w4: LedgerWriteView,
)
    ensures
        apply_writes(l, seq![w0, w1, w2, w3, w4]) == apply_writes(
            apply_write(apply_write(l, w0), w1),
            seq![w2, w3, w4],
        ),
{
    assert(seq![w0, w1, w2, w3, w4] =~= seq![w0] + (seq![w1] + seq![w2, w3, w4]));
    lemma_apply_writes_prepend(l, w0, seq![w1] + seq![w2, w3, w4]);
    lemma_apply_writes_prepend(apply_write(l, w0), w1, seq![w2, w3, w4]);
}

} // verus!
