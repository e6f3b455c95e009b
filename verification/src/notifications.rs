//! Telegram notifications of new orders and confirmed payments: the recipient, the
//! message texts and the errors. Telegram is an auxiliary channel: each event is sent
//! once, after its transaction committed, and a failure is only logged.
use vstd::prelude::*;
use vstd::string::*;
use crate::codec::{format_utc, micros_in_range, spec_format_utc, spec_uuid_hyphenated, uuid_to_string};
use crate::decimal::{parse_i64, push_digits, push_i64, spec_digits, spec_int_text, spec_parse_i64};
use crate::epay::spec_pad2;
use crate::text::{byte_len_below, push_char, str_eq};

verus! {

/// Seconds a single send may take before it is given up.
pub const SEND_TIMEOUT_SECONDS: u64 = 15;

/// How times appear in notices (`strftime`): `YYYY-MM-DD HH:MM:SS UTC`.
pub const TIME_PATTERN: &'static str = "%Y-%m-%d %H:%M:%S UTC";

/// Errors of the Telegram notifier.
#[derive(Debug)]
pub enum TelegramNotifierError {
    /// The configured chat id is neither numeric nor `@channelusername`.
    InvalidChatId,
    /// A send failed; the text never contains the bot token.
    Request(String),
}

/// The text that describes a notifier error.
pub open spec fn spec_notifier_error_text(e: TelegramNotifierError) -> Seq<char> {
    match e {
        TelegramNotifierError::InvalidChatId => "invalid Telegram notify chat id: use a numeric chat id or @channelusername"@,
        TelegramNotifierError::Request(m) => m@,
    }
}

impl TelegramNotifierError {
    /// The text that describes this error.
    pub fn to_string(&self) -> (s: String)
        ensures
            s@ == spec_notifier_error_text(*self),
    {
        match self {
            TelegramNotifierError::InvalidChatId => String::from_str(
                "invalid Telegram notify chat id: use a numeric chat id or @channelusername",
            ),
            TelegramNotifierError::Request(m) => m.clone(),
        }
    }
}

/// How a Telegram request failed, as far as the notifier reports it.
#[derive(Debug)]
pub enum TelegramRequestFailure {
    /// Telegram answered with an error; its description.
    Api(String),
    /// The group became a supergroup with this id.
    MigrateToChatId(i64),
    /// Flood control: retry after this many seconds.
    RetryAfter(u32),
    Network,
    InvalidJson,
    Io,
}

/// The reported text of a failed request. Network, parsing and IO errors keep only
/// their category: their texts may hold the request URL, which embeds the bot token.
pub open spec fn spec_request_failure_text(f: TelegramRequestFailure) -> Seq<char> {
    match f {
        TelegramRequestFailure::Api(m) => "Telegram API error: "@ + m@,
        TelegramRequestFailure::MigrateToChatId(id) => "Telegram chat migrated to "@ + spec_int_text(
            id as int,
        ),
        TelegramRequestFailure::RetryAfter(s) => "Telegram rate limited the bot; retry after "@
            + spec_digits(s as nat) + "s"@,
        TelegramRequestFailure::Network => "Telegram network request failed"@,
        TelegramRequestFailure::InvalidJson => "Telegram returned an invalid JSON response"@,
        TelegramRequestFailure::Io => "Telegram request IO failed"@,
    }
}

/// The notifier error of a failed request.
pub fn request_error(failure: TelegramRequestFailure) -> (e: TelegramNotifierError)
    ensures
        e matches TelegramNotifierError::Request(m) && m@ == spec_request_failure_text(failure),
{
    let m = match failure {
        TelegramRequestFailure::Api(text) => {
            let mut m = String::from_str("Telegram API error: ");
            m.append(text.as_str());
            m
        },
        TelegramRequestFailure::MigrateToChatId(id) => {
            let mut m = String::from_str("Telegram chat migrated to ");
            push_i64(&mut m, id);
            m
        },
        TelegramRequestFailure::RetryAfter(s) => {
            let mut m = String::from_str("Telegram rate limited the bot; retry after ");
            push_digits(&mut m, s as u64);
            m.append("s");
            m
        },
        TelegramRequestFailure::Network => String::from_str("Telegram network request failed"),
        TelegramRequestFailure::InvalidJson => String::from_str(
            "Telegram returned an invalid JSON response",
        ),
        TelegramRequestFailure::Io => String::from_str("Telegram request IO failed"),
    };
    TelegramNotifierError::Request(m)
}

/// The chat that notifications go to.
#[derive(Debug, Clone, PartialEq, Eq)]
pub enum ChatRecipient {
    /// A numeric chat id.
    Id(i64),
    /// A public channel, `@name`.
    ChannelUsername(String),
}

/// The recipient a chat id names: a number, or `@` followed by a name.
pub open spec fn spec_recipient(value: Seq<char>) -> Option<Result<int, Seq<char>>> {
    match spec_parse_i64(value) {
        Some(id) => Some(Ok(id)),
        None => if value.len() > 1 && value[0] == '@' {
            Some(Err(value))
        } else {
            None
        },
    }
}

/// Reads the configured chat id.
pub fn parse_recipient(value: &str) -> (res: Result<ChatRecipient, TelegramNotifierError>)
    ensures
        match spec_recipient(value@) {
            Some(Ok(id)) => res matches Ok(ChatRecipient::Id(i)) && i == id,
            Some(Err(name)) => res matches Ok(ChatRecipient::ChannelUsername(n)) && n@ == name,
            None => res matches Err(TelegramNotifierError::InvalidChatId),
        },
{
    match parse_i64(value) {
        Some(id) => return Ok(ChatRecipient::Id(id)),
        None => {},
    }
    let n = value.unicode_len();
    if n > 0 && value.get_char(0) == '@' {
        // '@' is one byte, so more than one byte means more than one character.
        let long_enough = !byte_len_below(value, 2);
        proof {
            let s = value@;
            assert(s =~= seq![s[0]] + s.drop_first());
            if s.len() == 1 {
                assert(s.drop_first() =~= Seq::<char>::empty());
                assert(vstd::utf8::encode_utf8(s).len() == 1) by {
                    assert(vstd::utf8::encode_utf8(s.drop_first()) =~= Seq::<u8>::empty());
                }
            } else {
                crate::epay::lemma_encode_utf8_len_at_least(s);
            }
        }
        if long_enough {
            return Ok(ChatRecipient::ChannelUsername(String::from_str(value)));
        }
    }
    Err(TelegramNotifierError::InvalidChatId)
}

/// An amount for people: a minus sign when negative, `¥` for CNY or else the currency
/// code, then the yuan and two digits of cents.
pub open spec fn spec_display_money(amount_cents: i64, currency: Seq<char>) -> Seq<char> {
    let sign = if amount_cents < 0 {
        "-"@
    } else {
        Seq::empty()
    };
    let absolute: int = if amount_cents < 0 {
        -amount_cents
    } else {
        amount_cents as int
    };
    let symbol = if currency == "CNY"@ {
        "¥"@
    } else {
        currency
    };
    sign + symbol + spec_digits((absolute / 100) as nat) + "."@ + spec_pad2(absolute % 100)
}

/// Formats an amount for a notification.
pub fn format_money(amount_cents: i64, currency: &str) -> (s: String)
    ensures
        s@ == spec_display_money(amount_cents, currency@),
{
    let absolute: u64 = if amount_cents < 0 {
        if amount_cents == i64::MIN {
            9223372036854775808u64
        } else {
            (-amount_cents) as u64
        }
    } else {
        amount_cents as u64
    };
    let mut s = String::new();
    if amount_cents < 0 {
        s.append("-");
    }
    if str_eq(currency, "CNY") {
        s.append("¥");
    } else {
        s.append(currency);
    }
    push_digits(&mut s, absolute / 100);
    s.append(".");
    let r = absolute % 100;
    if r < 10 {
        push_char(&mut s, '0');
    }
    push_digits(&mut s, r);
    proof {
        reveal_strlit(".");
        assert(spec_pad2(r as int) == (if r < 10 { seq!['0'] + spec_digits(r as nat) } else {
            spec_digits(r as nat)
        }));
    }
    assert(s@ =~= spec_display_money(amount_cents, currency@));
    s
}

/// The label of a payment method, or `provider/channel` for an unknown one.
pub open spec fn spec_payment_label(provider: Seq<char>, channel: Seq<char>) -> Seq<char> {
    if provider == "epay"@ && channel == "alipay"@ {
        "支付宝（易支付）"@
    } else if provider == "epay"@ && channel == "wxpay"@ {
        "微信（易支付）"@
    } else if provider == "wechatpay"@ && channel == "native"@ {
        "微信支付（官方）"@
    } else {
        provider + "/"@ + channel
    }
}

/// Labels a payment method for people.
pub fn payment_label(provider: &str, channel: &str) -> (s: String)
    ensures
        s@ == spec_payment_label(provider@, channel@),
{
    if str_eq(provider, "epay") && str_eq(channel, "alipay") {
        String::from_str("支付宝（易支付）")
    } else if str_eq(provider, "epay") && str_eq(channel, "wxpay") {
        String::from_str("微信（易支付）")
    } else if str_eq(provider, "wechatpay") && str_eq(channel, "native") {
        String::from_str("微信支付（官方）")
    } else {
        let mut s = String::from_str(provider);
        s.append("/");
        s.append(channel);
        s
    }
}

/// `n` stars.
pub open spec fn spec_stars(n: nat) -> Seq<char> {
    Seq::new(n, |i: int| '*')
}

/// A contact for a notification: up to four characters are all hidden; a longer one
/// keeps its first two and last two characters, with a star for each hidden one.
pub open spec fn spec_mask_contact(value: Seq<char>) -> Seq<char> {
    let n = value.len();
    if n <= 4 {
        spec_stars(n)
    } else {
        value.take(2) + spec_stars((n - 4) as nat) + value.skip(n - 2)
    }
}

fn push_stars(s: &mut String, n: usize)
    ensures
        final(s)@ == old(s)@ + spec_stars(n as nat),
{
    let mut i: usize = 0;
    while i < n
        invariant
            i <= n,
            s@ == old(s)@ + spec_stars(i as nat),
        decreases n - i,
    {
        push_char(s, '*');
        i = i + 1;
        assert(s@ =~= old(s)@ + spec_stars(i as nat));
    }
}

/// Masks a contact.
pub fn mask_contact(value: &str) -> (s: String)
    ensures
        s@ == spec_mask_contact(value@),
{
    let n = value.unicode_len();
    let mut s = String::new();
    if n <= 4 {
        push_stars(&mut s, n);
        assert(s@ =~= spec_mask_contact(value@));
        return s;
    }
    s.append(value.substring_char(0, 2));
    push_stars(&mut s, n - 4);
    s.append(value.substring_char(n - 2, n));
    assert(s@ =~= spec_mask_contact(value@));
    s
}

/// A masked contact is as long as the contact, and shows at most four of its
/// characters.
pub proof fn lemma_mask_contact_hides(value: Seq<char>)
    ensures
        spec_mask_contact(value).len() == value.len(),
        forall|i: int|
            0 <= i < value.len() && !(i < 2 || i >= value.len() - 2) ==> #[trigger] spec_mask_contact(
                value,
            )[i] == '*',
        value.len() <= 4 ==> forall|i: int|
            0 <= i < value.len() ==> #[trigger] spec_mask_contact(value)[i] == '*',
{
}

/// What a new-order message says about the order.
#[derive(Debug, Clone)]
pub struct NotifiedOrder {
    pub id: u128,
    pub product_name_snapshot: String,
    pub amount_cents: i64,
    pub currency: String,
    pub contact: String,
    pub created_at: i64,
    pub expires_at: i64,
}

/// The message of a new order.
pub open spec fn spec_order_created_text(o: NotifiedOrder, provider: Seq<char>, channel: Seq<char>) -> Seq<char> {
    "🛒 新订单\n\n订单："@ + spec_uuid_hyphenated(o.id) + "\n商品："@ + o.product_name_snapshot@
        + "\n金额："@ + spec_display_money(o.amount_cents, o.currency@) + "\n支付："@
        + spec_payment_label(provider, channel) + "\n联系："@ + spec_mask_contact(o.contact@)
        + "\n状态：待付款\n下单时间："@ + spec_format_utc(o.created_at, TIME_PATTERN@) + "\n过期时间："@
        + spec_format_utc(o.expires_at, TIME_PATTERN@)
}

/// Writes the message of a new order; the contact is masked.
pub fn render_order_created(order: &NotifiedOrder, provider: &str, channel: &str) -> (s: String)
    requires
        micros_in_range(order.created_at),
        micros_in_range(order.expires_at),
    ensures
        s@ == spec_order_created_text(*order, provider@, channel@),
{
    let mut s = String::from_str("🛒 新订单\n\n订单：");
    s.append(uuid_to_string(order.id).as_str());
    s.append("\n商品：");
    s.append(order.product_name_snapshot.as_str());
    s.append("\n金额：");
    s.append(format_money(order.amount_cents, order.currency.as_str()).as_str());
    s.append("\n支付：");
    s.append(payment_label(provider, channel).as_str());
    s.append("\n联系：");
    s.append(mask_contact(order.contact.as_str()).as_str());
    s.append("\n状态：待付款\n下单时间：");
    s.append(format_utc(order.created_at, TIME_PATTERN).as_str());
    s.append("\n过期时间：");
    s.append(format_utc(order.expires_at, TIME_PATTERN).as_str());
    s
}

/// The message of a confirmed payment: delivered automatically, or — when it came after
/// the reservation lapsed — received but not delivered, which needs a person at once.
pub open spec fn spec_payment_confirmed_text(
    o: NotifiedOrder,
    provider: Seq<char>,
    channel: Seq<char>,
    provider_transaction_id: Seq<char>,
    paid_at: i64,
    delivered: bool,
) -> Seq<char> {
    let heading = if delivered {
        "✅ 支付成功"@
    } else {
        "🚨 超时后到账"@
    };
    let result = if delivered {
        "已自动交付"@
    } else {
        "已收款但未交付，请立即人工处理"@
    };
    heading + "\n\n订单："@ + spec_uuid_hyphenated(o.id) + "\n商品："@ + o.product_name_snapshot@
        + "\n金额："@ + spec_display_money(o.amount_cents, o.currency@) + "\n支付："@
        + spec_payment_label(provider, channel) + "\n交易号："@ + provider_transaction_id
        + "\n支付时间："@ + spec_format_utc(paid_at, TIME_PATTERN@) + "\n处理结果："@ + result
}

/// Writes the message of a confirmed payment.
pub fn render_payment_confirmed(
    order: &NotifiedOrder,
    provider: &str,
    channel: &str,
    provider_transaction_id: &str,
    paid_at: i64,
    delivered: bool,
) -> (s: String)
    requires
        micros_in_range(paid_at),
    ensures
        s@ == spec_payment_confirmed_text(
            *order,
            provider@,
            channel@,
            provider_transaction_id@,
            paid_at,
            delivered,
        ),
{
    let mut s = if delivered {
        String::from_str("✅ 支付成功")
    } else {
        String::from_str("🚨 超时后到账")
    };
    s.append("\n\n订单：");
    s.append(uuid_to_string(order.id).as_str());
    s.append("\n商品：");
    s.append(order.product_name_snapshot.as_str());
    s.append("\n金额：");
    s.append(format_money(order.amount_cents, order.currency.as_str()).as_str());
    s.append("\n支付：");
    s.append(payment_label(provider, channel).as_str());
    s.append("\n交易号：");
    s.append(provider_transaction_id);
    s.append("\n支付时间：");
    s.append(format_utc(paid_at, TIME_PATTERN).as_str());
    s.append("\n处理结果：");
    if delivered {
        s.append("已自动交付");
    } else {
        s.append("已收款但未交付，请立即人工处理");
    }
    s
}

} // verus!
