use vstd::prelude::*;
use crate::text::str_eq;

verus! {

/// Delivery state of an order: `pending` until the reserved item is delivered, `expired` when the reservation lapsed unpaid.
#[derive(Debug, Clone, Copy, PartialEq, Eq, Structural)]
pub enum OrderStatus {
    Pending,
    Delivered,
    Expired,
    Cancelled,
}

impl OrderStatus {
    /// The wire and database spelling of the value.
    pub open spec fn spec_str(self) -> Seq<char> {
        match self {
            OrderStatus::Pending => "pending"@,
            OrderStatus::Delivered => "delivered"@,
            OrderStatus::Expired => "expired"@,
            OrderStatus::Cancelled => "cancelled"@,
        }
    }

    /// Returns the wire and database spelling of the value.
    pub fn as_ref(&self) -> (s: &'static str)
        ensures
            s@ == self.spec_str(),
    {
        match self {
            OrderStatus::Pending => "pending",
            OrderStatus::Delivered => "delivered",
            OrderStatus::Expired => "expired",
            OrderStatus::Cancelled => "cancelled",
        }
    }

    /// The value spelled `s`, if any.
    pub open spec fn spec_parse(s: Seq<char>) -> Option<Self> {
        if s == "pending"@ {
            Some(OrderStatus::Pending)
        } else if s == "delivered"@ {
            Some(OrderStatus::Delivered)
        } else if s == "expired"@ {
            Some(OrderStatus::Expired)
        } else if s == "cancelled"@ {
            Some(OrderStatus::Cancelled)
        } else {
            None
        }
    }

    /// Parses the exact (case-sensitive) wire spelling of a value.
    pub fn parse(s: &str) -> (res: Option<Self>)
        ensures
            res == Self::spec_parse(s@),
    {
        if str_eq(s, "pending") {
            Some(OrderStatus::Pending)
        } else if str_eq(s, "delivered") {
            Some(OrderStatus::Delivered)
        } else if str_eq(s, "expired") {
            Some(OrderStatus::Expired)
        } else if str_eq(s, "cancelled") {
            Some(OrderStatus::Cancelled)
        } else {
            None
        }
    }

    /// Parsing the spelling of a value gives the value back.
    pub proof fn lemma_parse_as_ref(v: OrderStatus)
        ensures
            Self::spec_parse(v.spec_str()) == Some(v),
    {
        reveal_strlit("pending");
        reveal_strlit("delivered");
        reveal_strlit("expired");
        reveal_strlit("cancelled");
        assert("pending"@.len() != "delivered"@.len());
        assert("pending"@[0] != "expired"@[0]);
        assert("pending"@.len() != "cancelled"@.len());
        assert("delivered"@.len() != "expired"@.len());
        assert("delivered"@[0] != "cancelled"@[0]);
        assert("expired"@.len() != "cancelled"@.len());
    }
}

/// Payment provider. ePay and the official WeChat Pay API are two independent protocols whose configuration and callbacks must never be mixed.
#[derive(Debug, Clone, Copy, PartialEq, Eq, Structural)]
pub enum PaymentProvider {
    Epay,
    Wechatpay,
}

impl PaymentProvider {
    /// The wire and database spelling of the value.
    pub open spec fn spec_str(self) -> Seq<char> {
        match self {
            PaymentProvider::Epay => "epay"@,
            PaymentProvider::Wechatpay => "wechatpay"@,
        }
    }

    /// Returns the wire and database spelling of the value.
    pub fn as_ref(&self) -> (s: &'static str)
        ensures
            s@ == self.spec_str(),
    {
        match self {
            PaymentProvider::Epay => "epay",
            PaymentProvider::Wechatpay => "wechatpay",
        }
    }

    /// The value spelled `s`, if any.
    pub open spec fn spec_parse(s: Seq<char>) -> Option<Self> {
        if s == "epay"@ {
            Some(PaymentProvider::Epay)
        } else if s == "wechatpay"@ {
            Some(PaymentProvider::Wechatpay)
        } else {
            None
        }
    }

    /// Parses the exact (case-sensitive) wire spelling of a value.
    pub fn parse(s: &str) -> (res: Option<Self>)
        ensures
            res == Self::spec_parse(s@),
    {
        if str_eq(s, "epay") {
            Some(PaymentProvider::Epay)
        } else if str_eq(s, "wechatpay") {
            Some(PaymentProvider::Wechatpay)
        } else {
            None
        }
    }

    /// Parsing the spelling of a value gives the value back.
    pub proof fn lemma_parse_as_ref(v: PaymentProvider)
        ensures
            Self::spec_parse(v.spec_str()) == Some(v),
    {
        reveal_strlit("epay");
        reveal_strlit("wechatpay");
        assert("epay"@.len() != "wechatpay"@.len());
    }
}

/// Payment channel; it is only meaningful together with its provider (see `validate_payment_method`).
#[derive(Debug, Clone, Copy, PartialEq, Eq, Structural)]
pub enum PaymentChannel {
    Alipay,
    Wxpay,
    Native,
}

impl PaymentChannel {
    /// The wire and database spelling of the value.
    pub open spec fn spec_str(self) -> Seq<char> {
        match self {
            PaymentChannel::Alipay => "alipay"@,
            PaymentChannel::Wxpay => "wxpay"@,
            PaymentChannel::Native => "native"@,
        }
    }

    /// Returns the wire and database spelling of the value.
    pub fn as_ref(&self) -> (s: &'static str)
        ensures
            s@ == self.spec_str(),
    {
        match self {
            PaymentChannel::Alipay => "alipay",
            PaymentChannel::Wxpay => "wxpay",
            PaymentChannel::Native => "native",
        }
    }

    /// The value spelled `s`, if any.
    pub open spec fn spec_parse(s: Seq<char>) -> Option<Self> {
        if s == "alipay"@ {
            Some(PaymentChannel::Alipay)
        } else if s == "wxpay"@ {
            Some(PaymentChannel::Wxpay)
        } else if s == "native"@ {
            Some(PaymentChannel::Native)
        } else {
            None
        }
    }

    /// Parses the exact (case-sensitive) wire spelling of a value.
    pub fn parse(s: &str) -> (res: Option<Self>)
        ensures
            res == Self::spec_parse(s@),
    {
        if str_eq(s, "alipay") {
            Some(PaymentChannel::Alipay)
        } else if str_eq(s, "wxpay") {
            Some(PaymentChannel::Wxpay)
        } else if str_eq(s, "native") {
            Some(PaymentChannel::Native)
        } else {
            None
        }
    }

    /// Parsing the spelling of a value gives the value back.
    pub proof fn lemma_parse_as_ref(v: PaymentChannel)
        ensures
            Self::spec_parse(v.spec_str()) == Some(v),
    {
        reveal_strlit("alipay");
        reveal_strlit("wxpay");
        reveal_strlit("native");
        assert("alipay"@.len() != "wxpay"@.len());
        assert("alipay"@[0] != "native"@[0]);
        assert("wxpay"@.len() != "native"@.len());
    }
}

/// State of one payment attempt. `Ready` means the provider-specific preparation finished and the payment entry may be shown to the customer.
#[derive(Debug, Clone, Copy, PartialEq, Eq, Structural)]
pub enum PaymentAttemptState {
    Created,
    Ready,
    Succeeded,
    Failed,
    Closed,
}

impl PaymentAttemptState {
    /// The wire and database spelling of the value.
    pub open spec fn spec_str(self) -> Seq<char> {
        match self {
            PaymentAttemptState::Created => "created"@,
            PaymentAttemptState::Ready => "ready"@,
            PaymentAttemptState::Succeeded => "succeeded"@,
            PaymentAttemptState::Failed => "failed"@,
            PaymentAttemptState::Closed => "closed"@,
        }
    }

    /// Returns the wire and database spelling of the value.
    pub fn as_ref(&self) -> (s: &'static str)
        ensures
            s@ == self.spec_str(),
    {
        match self {
            PaymentAttemptState::Created => "created",
            PaymentAttemptState::Ready => "ready",
            PaymentAttemptState::Succeeded => "succeeded",
            PaymentAttemptState::Failed => "failed",
            PaymentAttemptState::Closed => "closed",
        }
    }

    /// The value spelled `s`, if any.
    pub open spec fn spec_parse(s: Seq<char>) -> Option<Self> {
        if s == "created"@ {
            Some(PaymentAttemptState::Created)
        } else if s == "ready"@ {
            Some(PaymentAttemptState::Ready)
        } else if s == "succeeded"@ {
            Some(PaymentAttemptState::Succeeded)
        } else if s == "failed"@ {
            Some(PaymentAttemptState::Failed)
        } else if s == "closed"@ {
            Some(PaymentAttemptState::Closed)
        } else {
            None
        }
    }

    /// Parses the exact (case-sensitive) wire spelling of a value.
    pub fn parse(s: &str) -> (res: Option<Self>)
        ensures
            res == Self::spec_parse(s@),
    {
        if str_eq(s, "created") {
            Some(PaymentAttemptState::Created)
        } else if str_eq(s, "ready") {
            Some(PaymentAttemptState::Ready)
        } else if str_eq(s, "succeeded") {
            Some(PaymentAttemptState::Succeeded)
        } else if str_eq(s, "failed") {
            Some(PaymentAttemptState::Failed)
        } else if str_eq(s, "closed") {
            Some(PaymentAttemptState::Closed)
        } else {
            None
        }
    }

    /// Parsing the spelling of a value gives the value back.
    pub proof fn lemma_parse_as_ref(v: PaymentAttemptState)
        ensures
            Self::spec_parse(v.spec_str()) == Some(v),
    {
        reveal_strlit("created");
        reveal_strlit("ready");
        reveal_strlit("succeeded");
        reveal_strlit("failed");
        reveal_strlit("closed");
        assert("created"@.len() != "ready"@.len());
        assert("created"@.len() != "succeeded"@.len());
        assert("created"@.len() != "failed"@.len());
        assert("created"@.len() != "closed"@.len());
        assert("ready"@.len() != "succeeded"@.len());
        assert("ready"@.len() != "failed"@.len());
        assert("ready"@.len() != "closed"@.len());
        assert("succeeded"@.len() != "failed"@.len());
        assert("succeeded"@.len() != "closed"@.len());
        assert("failed"@[0] != "closed"@[0]);
    }
}

/// State of one inventory item (one deliverable card secret).
#[derive(Debug, Clone, Copy, PartialEq, Eq, Structural)]
pub enum ProductStatus {
    Available,
    Reserved,
    Delivered,
    Disabled,
}

impl ProductStatus {
    /// The wire and database spelling of the value.
    pub open spec fn spec_str(self) -> Seq<char> {
        match self {
            ProductStatus::Available => "available"@,
            ProductStatus::Reserved => "reserved"@,
            ProductStatus::Delivered => "delivered"@,
            ProductStatus::Disabled => "disabled"@,
        }
    }

    /// Returns the wire and database spelling of the value.
    pub fn as_ref(&self) -> (s: &'static str)
        ensures
            s@ == self.spec_str(),
    {
        match self {
            ProductStatus::Available => "available",
            ProductStatus::Reserved => "reserved",
            ProductStatus::Delivered => "delivered",
            ProductStatus::Disabled => "disabled",
        }
    }

    /// The value spelled `s`, if any.
    pub open spec fn spec_parse(s: Seq<char>) -> Option<Self> {
        if s == "available"@ {
            Some(ProductStatus::Available)
        } else if s == "reserved"@ {
            Some(ProductStatus::Reserved)
        } else if s == "delivered"@ {
            Some(ProductStatus::Delivered)
        } else if s == "disabled"@ {
            Some(ProductStatus::Disabled)
        } else {
            None
        }
    }

    /// Parses the exact (case-sensitive) wire spelling of a value.
    pub fn parse(s: &str) -> (res: Option<Self>)
        ensures
            res == Self::spec_parse(s@),
    {
        if str_eq(s, "available") {
            Some(ProductStatus::Available)
        } else if str_eq(s, "reserved") {
            Some(ProductStatus::Reserved)
        } else if str_eq(s, "delivered") {
            Some(ProductStatus::Delivered)
        } else if str_eq(s, "disabled") {
            Some(ProductStatus::Disabled)
        } else {
            None
        }
    }

    /// Parsing the spelling of a value gives the value back.
    pub proof fn lemma_parse_as_ref(v: ProductStatus)
        ensures
            Self::spec_parse(v.spec_str()) == Some(v),
    {
        reveal_strlit("available");
        reveal_strlit("reserved");
        reveal_strlit("delivered");
        reveal_strlit("disabled");
        assert("available"@.len() != "reserved"@.len());
        assert("available"@[0] != "delivered"@[0]);
        assert("available"@.len() != "disabled"@.len());
        assert("reserved"@.len() != "delivered"@.len());
        assert("reserved"@[0] != "disabled"@[0]);
        assert("delivered"@.len() != "disabled"@.len());
    }
}

/// Signature algorithm of the ePay protocol.
#[derive(Debug, Clone, Copy, PartialEq, Eq, Structural)]
pub enum EpaySignType {
    Md5,
}

impl EpaySignType {
    /// The wire and database spelling of the value.
    pub open spec fn spec_str(self) -> Seq<char> {
        match self {
            EpaySignType::Md5 => "MD5"@,
        }
    }

    /// Returns the wire and database spelling of the value.
    pub fn as_ref(&self) -> (s: &'static str)
        ensures
            s@ == self.spec_str(),
    {
        match self {
            EpaySignType::Md5 => "MD5",
        }
    }
}

/// Name under which an inbound API call is logged.
#[derive(Debug, Clone, Copy, PartialEq, Eq, Structural)]
pub enum ApiName {
    EpayNotify,
    WechatpayNotify,
}

impl ApiName {
    /// The wire and database spelling of the value.
    pub open spec fn spec_str(self) -> Seq<char> {
        match self {
            ApiName::EpayNotify => "epay_notify"@,
            ApiName::WechatpayNotify => "wechatpay_notify"@,
        }
    }

    /// Returns the wire and database spelling of the value.
    pub fn as_ref(&self) -> (s: &'static str)
        ensures
            s@ == self.spec_str(),
    {
        match self {
            ApiName::EpayNotify => "epay_notify",
            ApiName::WechatpayNotify => "wechatpay_notify",
        }
    }
}

/// HTTP method of a logged inbound call.
#[derive(Debug, Clone, Copy, PartialEq, Eq, Structural)]
pub enum HttpMethod {
    Get,
    Post,
}

impl HttpMethod {
    /// The wire and database spelling of the value.
    pub open spec fn spec_str(self) -> Seq<char> {
        match self {
            HttpMethod::Get => "GET"@,
            HttpMethod::Post => "POST"@,
        }
    }

    /// Returns the wire and database spelling of the value.
    pub fn as_ref(&self) -> (s: &'static str)
        ensures
            s@ == self.spec_str(),
    {
        match self {
            HttpMethod::Get => "GET",
            HttpMethod::Post => "POST",
        }
    }
}

/// Whether a provider and a channel form a supported payment method.
pub open spec fn spec_valid_payment_method(provider: PaymentProvider, channel: PaymentChannel) -> bool {
    ||| provider == PaymentProvider::Epay && channel == PaymentChannel::Alipay
    ||| provider == PaymentProvider::Epay && channel == PaymentChannel::Wxpay
    ||| provider == PaymentProvider::Wechatpay && channel == PaymentChannel::Native
}

/// Checks the provider/channel combination, so that ePay's `wxpay` channel is never
/// taken for the official WeChat Pay protocol.
pub fn validate_payment_method(provider: PaymentProvider, channel: PaymentChannel) -> (res: bool)
    ensures
        res == spec_valid_payment_method(provider, channel),
{
    match (provider, channel) {
        (PaymentProvider::Epay, PaymentChannel::Alipay) => true,
        (PaymentProvider::Epay, PaymentChannel::Wxpay) => true,
        (PaymentProvider::Wechatpay, PaymentChannel::Native) => true,
        _ => false,
    }
}

} // verus!
