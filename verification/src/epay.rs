//! The ePay (彩虹易支付) protocol: signed payment links and signed payment notifications.
//!
//! Parameters are kept as a list of key/value pairs in ascending key order, the order in
//! which the gateway signs and reads them.
use vstd::prelude::*;
use vstd::string::*;
use crate::codec::{parse_uuid, spec_hex_lower, spec_parse_uuid, spec_url_encode, spec_uuid_hyphenated, url_encode, uuid_to_string};
use crate::config::{AppConfig, EpayConfig};
use crate::crypto::{md5_hex, spec_md5};
use crate::decimal::{push_i64, spec_int_text, spec_parse_i64, parse_i64, spec_digits, lemma_parse_int_text, lemma_digits_value, spec_all_digits};
use crate::domain::{EpaySignType, PaymentProvider};
use crate::error::{AppError, AppErrorView, spec_error_text};
use crate::payments::service::{ConfirmationView, PaymentConfirmation};
use crate::text::{utf8_width, contains_char, ends_with, eq_ignore_ascii_case, push_char, spec_ascii_lower, spec_trim, str_eq, trim};

verus! {

/// Trade status of a paid ePay order.
pub const EPAY_TRADE_SUCCESS: &'static str = "TRADE_SUCCESS";

/// Body that acknowledges a notification.
pub const EPAY_NOTIFY_SUCCESS: &'static str = "success";

/// Body that asks the gateway to deliver the notification again.
pub const EPAY_NOTIFY_FAIL: &'static str = "fail";

/// View of key/value parameters.
pub open spec fn pairs_view(ps: Seq<(String, String)>) -> Seq<(Seq<char>, Seq<char>)> {
    ps.map_values(|p: (String, String)| (p.0@, p.1@))
}

/// `key=value`.
pub open spec fn spec_kv(k: Seq<char>, v: Seq<char>) -> Seq<char> {
    k + seq!['='] + v
}

/// A parameter that takes part in the signature: not the signature itself nor its type,
/// and not empty.
pub open spec fn spec_is_signed(k: Seq<char>, v: Seq<char>) -> bool {
    k != "sign"@ && k != "sign_type"@ && v.len() > 0
}

/// The signed parameters as `k1=v1&k2=v2...`, in the order given.
pub open spec fn spec_signed_payload(ps: Seq<(Seq<char>, Seq<char>)>) -> Seq<char>
    decreases ps.len(),
{
    if ps.len() == 0 {
        Seq::empty()
    } else {
        let prev = spec_signed_payload(ps.drop_last());
        let p = ps.last();
        if spec_is_signed(p.0, p.1) {
            if prev.len() == 0 {
                spec_kv(p.0, p.1)
            } else {
                prev + seq!['&'] + spec_kv(p.0, p.1)
            }
        } else {
            prev
        }
    }
}

/// The ePay signature: lower-case hexadecimal MD5 of the signed payload followed
/// directly by the merchant key.
pub open spec fn spec_sign(ps: Seq<(Seq<char>, Seq<char>)>, key: Seq<char>) -> Seq<char> {
    spec_hex_lower(spec_md5(vstd::utf8::encode_utf8(spec_signed_payload(ps) + key)))
}

/// Signs parameters with the merchant key.
pub fn sign_params(params: &Vec<(String, String)>, key: &str) -> (s: String)
    ensures
        s@ == spec_sign(pairs_view(params@), key@),
{
    let ghost ps = pairs_view(params@);
    let mut payload = String::new();
    let mut i: usize = 0;
    assert(ps.take(0) =~= Seq::<(Seq<char>, Seq<char>)>::empty());
    while i < params.len()
        invariant
            i <= params@.len(),
            ps == pairs_view(params@),
            payload@ == spec_signed_payload(ps.take(i as int)),
        decreases params.len() - i,
    {
        let k = params[i].0.as_str();
        let v = params[i].1.as_str();
        proof {
            assert(ps.take(i + 1).drop_last() =~= ps.take(i as int));
            assert(ps.take(i + 1).last() == (k@, v@));
        }
        let skip = str_eq(k, "sign") || str_eq(k, "sign_type") || v.unicode_len() == 0;
        if !skip {
            if payload.as_str().unicode_len() > 0 {
                push_char(&mut payload, '&');
            }
            payload.append(k);
            push_char(&mut payload, '=');
            payload.append(v);
            assert(payload@ =~= spec_signed_payload(ps.take(i + 1)));
        }
        i = i + 1;
    }
    assert(ps.take(params@.len() as int) =~= ps);
    payload.append(key);
    md5_hex(payload.as_str())
}

/// `urlencode(key)=urlencode(value)`.
pub open spec fn spec_query_entry(k: Seq<char>, v: Seq<char>) -> Seq<char> {
    spec_url_encode(vstd::utf8::encode_utf8(k)) + seq!['='] + spec_url_encode(
        vstd::utf8::encode_utf8(v),
    )
}

/// The query string of the parameters, every key and value percent-encoded.
pub open spec fn spec_query(ps: Seq<(Seq<char>, Seq<char>)>) -> Seq<char>
    decreases ps.len(),
{
    if ps.len() == 0 {
        Seq::empty()
    } else {
        let prev = spec_query(ps.drop_last());
        let p = ps.last();
        if prev.len() == 0 {
            spec_query_entry(p.0, p.1)
        } else {
            prev + seq!['&'] + spec_query_entry(p.0, p.1)
        }
    }
}

/// Encodes parameters as a query string.
pub fn encode_query(params: &Vec<(String, String)>) -> (q: String)
    ensures
        q@ == spec_query(pairs_view(params@)),
{
    let ghost ps = pairs_view(params@);
    let mut query = String::new();
    let mut i: usize = 0;
    assert(ps.take(0) =~= Seq::<(Seq<char>, Seq<char>)>::empty());
    while i < params.len()
        invariant
            i <= params@.len(),
            ps == pairs_view(params@),
            query@ == spec_query(ps.take(i as int)),
        decreases params.len() - i,
    {
        let k = params[i].0.as_str();
        let v = params[i].1.as_str();
        proof {
            assert(ps.take(i + 1).drop_last() =~= ps.take(i as int));
            assert(ps.take(i + 1).last() == (k@, v@));
        }
        if query.as_str().unicode_len() > 0 {
            push_char(&mut query, '&');
        }
        let ek = url_encode(k);
        let ev = url_encode(v);
        query.append(ek.as_str());
        push_char(&mut query, '=');
        query.append(ev.as_str());
        assert(query@ =~= spec_query(ps.take(i + 1)));
        i = i + 1;
    }
    assert(ps.take(params@.len() as int) =~= ps);
    query
}

/// Quotient of a division by 100, rounded towards zero as Rust's `/` does.
pub open spec fn spec_div100(c: int) -> int {
    if c >= 0 {
        c / 100
    } else {
        -((-c) / 100)
    }
}

/// Remainder of a division by 100, with the sign of the dividend as Rust's `%` has it.
pub open spec fn spec_rem100(c: int) -> int {
    c - 100 * spec_div100(c)
}

/// An integer written with at least two characters, padded with a leading zero (`{:02}`).
pub open spec fn spec_pad2(r: int) -> Seq<char> {
    if 0 <= r < 10 {
        seq!['0'] + spec_int_text(r)
    } else {
        spec_int_text(r)
    }
}

/// The amount in yuan that ePay expects, `format!("{}.{:02}", cents / 100, cents % 100)`.
/// Amounts are never negative in practice; a negative one is written the way that
/// formula writes it (`-150` gives `-1.-50`).
pub open spec fn spec_money_text(c: int) -> Seq<char> {
    spec_int_text(spec_div100(c)) + seq!['.'] + spec_pad2(spec_rem100(c))
}

/// Formats cents as yuan with two decimals.
pub fn format_money(price_cents: i64) -> (s: String)
    ensures
        s@ == spec_money_text(price_cents as int),
{
    let (q, r): (i64, i64) = if price_cents >= 0 {
        (price_cents / 100, price_cents % 100)
    } else {
        let m: u64 = if price_cents == i64::MIN {
            9223372036854775808u64
        } else {
            (-price_cents) as u64
        };
        let mq = (m / 100) as i64;
        let mr = (m % 100) as i64;
        (-mq, -mr)
    };
    assert(q == spec_div100(price_cents as int));
    assert(r == spec_rem100(price_cents as int));
    let mut s = String::new();
    push_i64(&mut s, q);
    push_char(&mut s, '.');
    if 0 <= r && r < 10 {
        push_char(&mut s, '0');
    }
    push_i64(&mut s, r);
    assert(s@ =~= spec_money_text(price_cents as int));
    s
}

/// `t` split at the first occurrence of `c` (`str::split_once`), or `t` and an empty rest
/// when `c` does not occur.
pub open spec fn spec_split_once_or_all(t: Seq<char>, c: char) -> (Seq<char>, Seq<char>) {
    match t.index_of_first(c) {
        Some(i) => (t.take(i), t.skip(i + 1)),
        None => (t, Seq::empty()),
    }
}

/// Whole yuan and cents of an ePay amount: an `i64` number, optionally followed by a dot
/// and one or two more bytes that read as an `i64` (one digit counts tenths).
pub open spec fn spec_money_parts(s: Seq<char>) -> Option<(int, int)> {
    let t = spec_trim(s);
    let parts = spec_split_once_or_all(t, '.');
    let whole = parts.0;
    let fraction = parts.1;
    let flen = vstd::utf8::encode_utf8(fraction).len();
    if whole.len() == 0 || flen > 2 {
        None
    } else {
        match spec_parse_i64(whole) {
            None => None,
            Some(w) => if flen == 0 {
                Some((w, 0))
            } else {
                match spec_parse_i64(fraction) {
                    None => None,
                    Some(f) => Some((w, if flen == 1 { f * 10 } else { f })),
                }
            },
        }
    }
}

/// The amount in cents: whole yuan times 100 plus the cents.
pub open spec fn spec_money_to_cents(s: Seq<char>) -> Option<int> {
    match spec_money_parts(s) {
        Some((w, f)) => Some(w * 100 + f),
        None => None,
    }
}

/// The conversion to cents stays within `i64`, as its arithmetic requires.
pub open spec fn spec_money_fits(s: Seq<char>) -> bool {
    match spec_money_parts(s) {
        Some((w, f)) => i64::MIN <= w * 100 <= i64::MAX && i64::MIN <= w * 100 + f <= i64::MAX,
        None => true,
    }
}

/// Splits at the first `c`, or returns the whole string and an empty rest.
fn split_once_or_all(t: &str, c: char) -> (res: (&str, &str))
    ensures
        (res.0@, res.1@) == spec_split_once_or_all(t@, c),
{
    let n = t.unicode_len();
    let mut i: usize = 0;
    while i < n
        invariant
            n == t@.len(),
            i <= n,
            forall|k: int| 0 <= k < i ==> t@[k] != c,
        decreases n - i,
    {
        if t.get_char(i) == c {
            proof {
                t@.index_of_first_ensures(c);
                assert(t@.contains(c));
                let j = t@.index_of_first(c).unwrap();
                if j < i {
                    assert(t@[j] != c);
                } else if j > i {
                    assert(t@[i as int] == c);
                }
                assert(t@.take(i as int) =~= t@.subrange(0, i as int));
                assert(t@.skip(i + 1) =~= t@.subrange(i + 1, n as int));
            }
            return (t.substring_char(0, i), t.substring_char(i + 1, n));
        }
        i = i + 1;
    }
    proof {
        t@.index_of_first_ensures(c);
        assert(!t@.contains(c)) by {
            if t@.contains(c) {
                let j = choose|j: int| 0 <= j < t@.len() && t@[j] == c;
                assert(t@[j] != c);
            }
        }
        reveal_strlit("");
    }
    (t, "")
}

/// Number of bytes of the UTF-8 encoding of a text of at most two characters.
fn short_utf8_len(s: &str) -> (n: usize)
    requires
        s@.len() <= 2,
    ensures
        n == vstd::utf8::encode_utf8(s@).len(),
{
    let k = s.unicode_len();
    if k == 0 {
        0
    } else {
        let a = utf8_width(s.get_char(0));
        proof {
            assert(s@.drop_first().len() == k - 1);
        }
        if k == 1 {
            proof {
                assert(s@.drop_first() =~= Seq::<char>::empty());
                assert(vstd::utf8::encode_utf8(s@.drop_first()).len() == 0);
            }
            a
        } else {
            let b = utf8_width(s.get_char(1));
            proof {
                let r = s@.drop_first();
                assert(r[0] == s@[1]);
                assert(r.drop_first() =~= Seq::<char>::empty());
                assert(vstd::utf8::encode_utf8(r.drop_first()).len() == 0);
                assert(vstd::utf8::encode_utf8(r) == vstd::utf8::encode_scalar(r[0] as u32)
                    + vstd::utf8::encode_utf8(r.drop_first()));
            }
            a + b
        }
    }
}

/// Reads whole yuan and cents from an ePay amount.
pub fn money_parts(value: &str) -> (res: Option<(i64, i64)>)
    ensures
        match res {
            Some((w, f)) => spec_money_parts(value@) == Some((w as int, f as int)),
            None => spec_money_parts(value@) is None,
        },
{
    let trimmed = trim(value);
    let (whole, fraction) = split_once_or_all(trimmed, '.');
    if whole.unicode_len() == 0 {
        return None;
    }
    if fraction.unicode_len() > 2 {
        proof {
            lemma_encode_utf8_len_at_least(fraction@);
        }
        return None;
    }
    let flen = short_utf8_len(fraction);
    if flen > 2 {
        return None;
    }
    let w = match parse_i64(whole) {
        Some(w) => w,
        None => return None,
    };
    if flen == 0 {
        return Some((w, 0));
    }
    let f = match parse_i64(fraction) {
        Some(f) => f,
        None => return None,
    };
    if flen == 1 {
        proof {
            lemma_encode_utf8_len_at_least(fraction@);
            lemma_short_parse_bounds(fraction@);
        }
        Some((w, f * 10))
    } else {
        Some((w, f))
    }
}

/// UTF-8 needs at least one byte per character.
pub proof fn lemma_encode_utf8_len_at_least(s: Seq<char>)
    ensures
        s.len() <= vstd::utf8::encode_utf8(s).len(),
    decreases s.len(),
{
    if s.len() > 0 {
        lemma_encode_utf8_len_at_least(s.drop_first());
        assert(vstd::utf8::encode_scalar(s[0] as u32).len() >= 1);
    }
}

/// A one-character text that reads as an `i64` is a single digit.
proof fn lemma_short_parse_bounds(s: Seq<char>)
    requires
        s.len() <= 1,
        spec_parse_i64(s) is Some,
    ensures
        0 <= spec_parse_i64(s).unwrap() <= 9,
{
    assert(!(s[0] == '+' || s[0] == '-')) by {
        if s[0] == '+' || s[0] == '-' {
            assert(s.drop_first().len() == 0);
        }
    }
    assert(s.drop_last() =~= Seq::<char>::empty());
    assert(crate::decimal::spec_digits_value(Seq::<char>::empty()) == 0);
    assert(crate::decimal::spec_is_digit(s[0]));
}

/// Converts an ePay amount to cents; `None` when it is not an amount.
pub fn money_to_cents(value: &str) -> (res: Option<i64>)
    requires
        spec_money_fits(value@),
    ensures
        match res {
            Some(c) => spec_money_to_cents(value@) == Some(c as int),
            None => spec_money_to_cents(value@) is None,
        },
{
    match money_parts(value) {
        Some((w, f)) => Some(w * 100 + f),
        None => None,
    }
}

/// Whether converting the amount to cents stays within `i64`.
pub fn money_fits(value: &str) -> (res: bool)
    ensures
        res == spec_money_fits(value@),
{
    match money_parts(value) {
        Some((w, f)) => {
            let wide = (w as i128) * 100;
            let total = wide + (f as i128);
            -9223372036854775808i128 <= wide && wide <= 9223372036854775807i128
                && -9223372036854775808i128 <= total && total <= 9223372036854775807i128
        },
        None => true,
    }
}

/// `s` without its trailing slashes.
pub open spec fn spec_trim_end_slash(s: Seq<char>) -> Seq<char>
    decreases s.len(),
{
    if s.len() > 0 && s.last() == '/' {
        spec_trim_end_slash(s.drop_last())
    } else {
        s
    }
}

/// Removes trailing slashes (`str::trim_end_matches('/')`).
pub fn trim_end_slash(value: &str) -> (r: &str)
    ensures
        r@ == spec_trim_end_slash(value@),
{
    let n = value.unicode_len();
    let mut j: usize = n;
    assert(value@.subrange(0, n as int) =~= value@);
    while j > 0 && value.get_char(j - 1) == '/'
        invariant
            n == value@.len(),
            j <= n,
            spec_trim_end_slash(value@) == spec_trim_end_slash(value@.subrange(0, j as int)),
        decreases j,
    {
        assert(value@.subrange(0, j as int).drop_last() =~= value@.subrange(0, j - 1));
        j = j - 1;
    }
    value.substring_char(0, j)
}

/// The gateway's payment submission address: the configured gateway, trimmed, without
/// trailing slashes, ending in `/submit.php`.
pub open spec fn spec_submit_url(gateway: Seq<char>) -> Seq<char> {
    let g = spec_trim_end_slash(spec_trim(gateway));
    let suffix = "/submit.php"@;
    if suffix.len() <= g.len() && g.subrange(g.len() - suffix.len(), g.len() as int) == suffix {
        g
    } else {
        g + suffix
    }
}

/// Builds the payment submission address from the configured gateway.
pub fn build_submit_url(gateway: &str) -> (url: String)
    ensures
        url@ == spec_submit_url(gateway@),
{
    let g = trim_end_slash(trim(gateway));
    if ends_with(g, "/submit.php") {
        String::from_str(g)
    } else {
        let mut url = String::from_str(g);
        url.append("/submit.php");
        url
    }
}

/// The trimmed value, refused with `message` when it is blank.
pub fn non_empty<'a>(value: &'a str, message: &str) -> (res: Result<&'a str, AppError>)
    ensures
        spec_trim(value@).len() == 0 ==> (res matches Err(e) && e@ == AppErrorView::BadRequest(
            message@,
        )),
        spec_trim(value@).len() > 0 ==> (res matches Ok(t) && t@ == spec_trim(value@)),
{
    let trimmed = trim(value);
    if trimmed.unicode_len() == 0 {
        return Err(AppError::bad_request(message));
    }
    Ok(trimmed)
}

/// The fields of an ePay payment notification, as the gateway sends them.
#[derive(Debug, Clone)]
pub struct EpayNotifyRequest {
    pub pid: String,
    pub name: String,
    pub money: String,
    pub out_trade_no: String,
    pub trade_no: String,
    pub param: Option<String>,
    pub trade_status: String,
    /// The `type` field: the payment channel.
    pub payment_type: String,
    pub sign: String,
    pub sign_type: String,
}

/// The parameters of a notification that its signature covers, in ascending key order;
/// `param` only when the notification has one.
pub open spec fn spec_notify_params(n: EpayNotifyRequest) -> Seq<(Seq<char>, Seq<char>)> {
    let head = seq![
        ("money"@, n.money@),
        ("name"@, n.name@),
        ("out_trade_no"@, n.out_trade_no@),
    ];
    let param = match n.param {
        Some(p) => seq![("param"@, p@)],
        None => Seq::empty(),
    };
    let tail = seq![
        ("pid"@, n.pid@),
        ("sign"@, n.sign@),
        ("sign_type"@, n.sign_type@),
        ("trade_no"@, n.trade_no@),
        ("trade_status"@, n.trade_status@),
        ("type"@, n.payment_type@),
    ];
    head + param + tail
}

/// A key/value pair of owned strings.
fn pair(k: &str, v: &String) -> (p: (String, String))
    ensures
        p.0@ == k@,
        p.1@ == v@,
{
    (String::from_str(k), v.clone())
}

impl EpayNotifyRequest {
    /// The parameters that the notification's signature covers.
    pub fn signed_params(&self) -> (params: Vec<(String, String)>)
        ensures
            pairs_view(params@) == spec_notify_params(*self),
    {
        let mut params: Vec<(String, String)> = Vec::new();
        params.push(pair("money", &self.money));
        params.push(pair("name", &self.name));
        params.push(pair("out_trade_no", &self.out_trade_no));
        match &self.param {
            Some(p) => params.push(pair("param", p)),
            None => {},
        }
        params.push(pair("pid", &self.pid));
        params.push(pair("sign", &self.sign));
        params.push(pair("sign_type", &self.sign_type));
        params.push(pair("trade_no", &self.trade_no));
        params.push(pair("trade_status", &self.trade_status));
        params.push(pair("type", &self.payment_type));
        assert(pairs_view(params@) =~= spec_notify_params(*self));
        params
    }
}

/// Where the gateway delivers notifications for this shop.
pub open spec fn spec_epay_notify_url(public_base_url: Seq<char>) -> Seq<char> {
    spec_trim_end_slash(public_base_url) + "/api/payments/epay/notify"@
}

/// The parameters of a payment link before it is signed, in ascending key order.
pub open spec fn spec_payment_params(
    config: AppConfig,
    epay: EpayConfig,
    order_id: u128,
    epay_trade_no: Seq<char>,
    product_name: Seq<char>,
    price_cents: i64,
    payment_type: Seq<char>,
) -> Seq<(Seq<char>, Seq<char>)> {
    seq![
        ("money"@, spec_money_text(price_cents as int)),
        ("name"@, product_name),
        ("notify_url"@, spec_epay_notify_url(config.public_base_url@)),
        ("out_trade_no"@, epay_trade_no),
        ("param"@, spec_uuid_hyphenated(order_id)),
        ("pid"@, epay.pid@),
        ("return_url"@, config.web_return_url@),
        ("type"@, payment_type),
    ]
}

/// The signed parameters: `sign` and `sign_type` join the others in key order.
pub open spec fn spec_signed_payment_params(
    params: Seq<(Seq<char>, Seq<char>)>,
    key: Seq<char>,
) -> Seq<(Seq<char>, Seq<char>)> {
    params.take(7) + seq![("sign"@, spec_sign(params, key)), ("sign_type"@, "MD5"@)] + params.skip(
        7,
    )
}

/// The payment link: the submission address, `?` (or `&` when it already has a query)
/// and the signed parameters.
pub open spec fn spec_payment_url(
    config: AppConfig,
    order_id: u128,
    epay_trade_no: Seq<char>,
    product_name: Seq<char>,
    price_cents: i64,
    payment_type: Seq<char>,
) -> Option<Seq<char>> {
    match config.epay {
        None => None,
        Some(epay) => {
            let params = spec_payment_params(
                config,
                epay,
                order_id,
                epay_trade_no,
                product_name,
                price_cents,
                payment_type,
            );
            let submit = spec_submit_url(epay.gateway@);
            let separator = if submit.contains('?') {
                '&'
            } else {
                '?'
            };
            Some(
                submit + seq![separator] + spec_query(
                    spec_signed_payment_params(params, epay.key@),
                ),
            )
        },
    }
}

/// Builds the signed link that sends the buyer to the ePay gateway; `None` when ePay
/// is not configured.
pub fn build_payment_url(
    config: &AppConfig,
    order_id: u128,
    epay_trade_no: &str,
    product_name: &str,
    price_cents: i64,
    payment_type: &str,
) -> (res: Option<String>)
    ensures
        match res {
            Some(u) => spec_payment_url(
                *config,
                order_id,
                epay_trade_no@,
                product_name@,
                price_cents,
                payment_type@,
            ) == Some(u@),
            None => spec_payment_url(
                *config,
                order_id,
                epay_trade_no@,
                product_name@,
                price_cents,
                payment_type@,
            ) is None,
        },
{
    let epay = match &config.epay {
        Some(e) => e,
        None => return None,
    };
    let mut notify_url = String::from_str(trim_end_slash(config.public_base_url.as_str()));
    notify_url.append("/api/payments/epay/notify");
    let money = format_money(price_cents);
    let order_param = uuid_to_string(order_id);
    let mut params: Vec<(String, String)> = Vec::new();
    params.push((String::from_str("money"), money));
    params.push((String::from_str("name"), String::from_str(product_name)));
    params.push((String::from_str("notify_url"), notify_url));
    params.push((String::from_str("out_trade_no"), String::from_str(epay_trade_no)));
    params.push((String::from_str("param"), order_param));
    params.push((String::from_str("pid"), epay.pid.clone()));
    params.push((String::from_str("return_url"), config.web_return_url.clone()));
    params.push((String::from_str("type"), String::from_str(payment_type)));
    let ghost unsigned = spec_payment_params(
        *config,
        *epay,
        order_id,
        epay_trade_no@,
        product_name@,
        price_cents,
        payment_type@,
    );
    assert(pairs_view(params@) =~= unsigned);
    let sign = sign_params(&params, epay.key.as_str());
    let type_entry = params.pop().unwrap();
    params.push((String::from_str("sign"), sign));
    params.push((String::from_str("sign_type"), String::from_str(EpaySignType::Md5.as_ref())));
    params.push(type_entry);
    assert(pairs_view(params@) =~= spec_signed_payment_params(unsigned, epay.key@));
    let submit_url = build_submit_url(epay.gateway.as_str());
    let mut url = submit_url.clone();
    if contains_char(submit_url.as_str(), '?') {
        push_char(&mut url, '&');
    } else {
        push_char(&mut url, '?');
    }
    let query = encode_query(&params);
    url.append(query.as_str());
    Some(url)
}

/// With ePay configured, the payment link is the submission address followed by the
/// encoded signed parameters, and those parameters carry what the order was placed with:
/// the channel the buyer chose as `type` (and no other `type`), the attempt's trade number,
/// the price as money text, the order id, the merchant id and the product name, with the
/// MD5 signature over the unsigned parameters, which themselves carry the same `type`.
/// Without ePay there is no link.
pub proof fn lemma_payment_link_carries_the_order(
    config: AppConfig,
    order_id: u128,
    epay_trade_no: Seq<char>,
    product_name: Seq<char>,
    price_cents: i64,
    payment_type: Seq<char>,
)
    ensures
        spec_payment_url(config, order_id, epay_trade_no, product_name, price_cents, payment_type)
            is Some <==> config.epay is Some,
        config.epay matches Some(epay) ==> {
            let params = spec_payment_params(
                config,
                epay,
                order_id,
                epay_trade_no,
                product_name,
                price_cents,
                payment_type,
            );
            let signed = spec_signed_payment_params(params, epay.key@);
            let submit = spec_submit_url(epay.gateway@);
            &&& spec_payment_url(
                config,
                order_id,
                epay_trade_no,
                product_name,
                price_cents,
                payment_type,
            ) == Some(
                submit + seq![
                    if submit.contains('?') {
                        '&'
                    } else {
                        '?'
                    },
                ] + spec_query(signed),
            )
            &&& params.contains(("type"@, payment_type))
            &&& signed.contains(("type"@, payment_type))
            &&& forall|i: int| 0 <= i < signed.len() && #[trigger] signed[i].0 == "type"@
                ==> signed[i].1 == payment_type
            &&& signed.contains(("out_trade_no"@, epay_trade_no))
            &&& signed.contains(("money"@, spec_money_text(price_cents as int)))
            &&& signed.contains(("param"@, spec_uuid_hyphenated(order_id)))
            &&& signed.contains(("pid"@, epay.pid@))
            &&& signed.contains(("name"@, product_name))
            &&& signed.contains(("sign"@, spec_sign(params, epay.key@)))
            &&& signed.contains(("sign_type"@, "MD5"@))
        },
{
    if let Some(epay) = config.epay {
        let params = spec_payment_params(
            config,
            epay,
            order_id,
            epay_trade_no,
            product_name,
            price_cents,
            payment_type,
        );
        let signed = spec_signed_payment_params(params, epay.key@);
        reveal_strlit("type");
        reveal_strlit("money");
        reveal_strlit("name");
        reveal_strlit("notify_url");
        reveal_strlit("out_trade_no");
        reveal_strlit("param");
        reveal_strlit("pid");
        reveal_strlit("return_url");
        reveal_strlit("sign");
        reveal_strlit("sign_type");
        assert(signed =~= seq![
            params[0],
            params[1],
            params[2],
            params[3],
            params[4],
            params[5],
            params[6],
            ("sign"@, spec_sign(params, epay.key@)),
            ("sign_type"@, "MD5"@),
            params[7],
        ]);
        assert(params[7] == ("type"@, payment_type));
        assert(signed[9] == ("type"@, payment_type));
        assert(signed[3] == ("out_trade_no"@, epay_trade_no));
        assert(signed[0] == ("money"@, spec_money_text(price_cents as int)));
        assert(signed[4] == ("param"@, spec_uuid_hyphenated(order_id)));
        assert(signed[5] == ("pid"@, epay.pid@));
        assert(signed[1] == ("name"@, product_name));
        assert(signed[7] == ("sign"@, spec_sign(params, epay.key@)));
        assert(signed[8] == ("sign_type"@, "MD5"@));
        assert("money"@ != "type"@);
        assert("name"@[0] != "type"@[0]);
        assert("notify_url"@ != "type"@);
        assert("out_trade_no"@ != "type"@);
        assert("param"@ != "type"@);
        assert("pid"@ != "type"@);
        assert("return_url"@ != "type"@);
        assert("sign"@[0] != "type"@[0]);
        assert("sign_type"@ != "type"@);
    }
}

/// ASCII lower case of a text, for case-insensitive comparison.
pub open spec fn spec_lower(s: Seq<char>) -> Seq<char> {
    s.map_values(|c: char| spec_ascii_lower(c))
}

/// Checks of a notification before anything is done with it: ePay must be configured,
/// the signature type must be MD5 and the signature must match (both up to ASCII case),
/// and the merchant id must be this shop's. The error is the reason of the refusal.
pub open spec fn spec_validate_notify(epay: Option<EpayConfig>, n: EpayNotifyRequest) -> Result<
    (),
    Seq<char>,
> {
    match epay {
        None => Err("epay is not configured"@),
        Some(e) => if spec_lower(n.sign_type@) != spec_lower("MD5"@) {
            Err("invalid sign_type"@)
        } else if spec_lower(n.sign@) != spec_lower(spec_sign(spec_notify_params(n), e.key@)) {
            Err("invalid sign"@)
        } else if n.pid@ != e.pid@ {
            Err("invalid pid"@)
        } else {
            Ok(())
        },
    }
}

/// Checks a notification's configuration, signature and merchant id.
pub fn validate_notify(epay: &Option<EpayConfig>, notify: &EpayNotifyRequest) -> (res: Result<
    (),
    AppError,
>)
    ensures
        match spec_validate_notify(*epay, *notify) {
            Ok(()) => res is Ok,
            Err(m) => res matches Err(e) && e@ == AppErrorView::BadRequest(m),
        },
{
    let e = match epay {
        Some(e) => e,
        None => return Err(AppError::bad_request("epay is not configured")),
    };
    if !eq_ignore_ascii_case(notify.sign_type.as_str(), EpaySignType::Md5.as_ref()) {
        return Err(AppError::bad_request("invalid sign_type"));
    }
    let params = notify.signed_params();
    let expected_sign = sign_params(&params, e.key.as_str());
    if !eq_ignore_ascii_case(notify.sign.as_str(), expected_sign.as_str()) {
        return Err(AppError::bad_request("invalid sign"));
    }
    if !str_eq(notify.pid.as_str(), e.pid.as_str()) {
        return Err(AppError::bad_request("invalid pid"));
    }
    Ok(())
}

/// The order id that a notification's `param` names: none when it is absent or blank,
/// an error when it is not a UUID.
pub open spec fn spec_param_order_id(param: Option<String>) -> Result<Option<u128>, ()> {
    match param {
        Some(p) => if spec_trim(p@).len() > 0 {
            match spec_parse_uuid(spec_trim(p@)) {
                Some(id) => Ok(Some(id)),
                None => Err(()),
            }
        } else {
            Ok(None)
        },
        None => Ok(None),
    }
}

/// A notification gets as far as converting its amount: it names a merchant trade and
/// its `param` is absent, blank or a UUID.
pub open spec fn spec_reaches_amount(n: EpayNotifyRequest) -> bool {
    spec_trim(n.out_trade_no@).len() > 0 && spec_param_order_id(n.param) is Ok
}

/// The payment fact of a trusted, successful notification, or the reason why it cannot
/// be applied.
pub open spec fn spec_epay_confirmation(n: EpayNotifyRequest, paid_at: i64, request_body: Seq<char>) -> Result<
    ConfirmationView,
    Seq<char>,
> {
    if spec_trim(n.out_trade_no@).len() == 0 {
        Err("missing out_trade_no"@)
    } else {
        match spec_param_order_id(n.param) {
            Err(()) => Err("invalid param order id"@),
            Ok(expected_order_id) => match spec_money_to_cents(n.money@) {
                None => Err("invalid money"@),
                Some(cents) => Ok(
                    ConfirmationView {
                        provider: "epay"@,
                        provider_event_id: "notify:"@ + n.trade_no@,
                        event_type: "TRADE_SUCCESS"@,
                        merchant_trade_no: spec_trim(n.out_trade_no@),
                        provider_transaction_id: n.trade_no@,
                        expected_order_id,
                        amount_cents: cents as i64,
                        currency: "CNY"@,
                        paid_at,
                        request_body,
                    },
                ),
            },
        }
    }
}

/// Turns a trusted, successful notification into a payment fact. `paid_at` is the time
/// of receipt and `request_body` the notification as recorded.
pub fn epay_confirmation(notify: &EpayNotifyRequest, paid_at: i64, request_body: String) -> (res:
    Result<PaymentConfirmation, AppError>)
    requires
        spec_reaches_amount(*notify) ==> spec_money_fits(notify.money@),
    ensures
        match spec_epay_confirmation(*notify, paid_at, request_body@) {
            Ok(c) => res matches Ok(r) && r@ == c,
            Err(m) => res matches Err(e) && e@ == AppErrorView::BadRequest(m),
        },
{
    let merchant_trade_no = non_empty(notify.out_trade_no.as_str(), "missing out_trade_no")?;
    let expected_order_id: Option<u128> = match &notify.param {
        Some(p) => {
            let t = trim(p.as_str());
            if t.unicode_len() > 0 {
                match parse_uuid(t) {
                    Some(id) => Some(id),
                    None => return Err(AppError::bad_request("invalid param order id")),
                }
            } else {
                None
            }
        },
        None => None,
    };
    let paid_cents = match money_to_cents(notify.money.as_str()) {
        Some(c) => c,
        None => return Err(AppError::bad_request("invalid money")),
    };
    let mut provider_event_id = String::from_str("notify:");
    provider_event_id.append(notify.trade_no.as_str());
    let provider = String::from_str(PaymentProvider::Epay.as_ref());
    proof {
        reveal_strlit("epay");
    }
    Ok(
        PaymentConfirmation {
            provider,
            provider_event_id,
            event_type: String::from_str(EPAY_TRADE_SUCCESS),
            merchant_trade_no: String::from_str(merchant_trade_no),
            provider_transaction_id: notify.trade_no.clone(),
            expected_order_id,
            amount_cents: paid_cents,
            currency: String::from_str("CNY"),
            paid_at,
            request_body,
        },
    )
}

/// How the shop answers a notification.
#[derive(Debug)]
pub struct NotifyReply {
    /// Whether the notification counts as handled.
    pub success: bool,
    /// `success` to acknowledge it, `fail` to have the gateway deliver it again.
    pub body: String,
    /// Why it was not handled, for the call log.
    pub error_message: Option<String>,
}

/// View of a reply.
pub open spec fn reply_view(r: NotifyReply) -> (bool, Seq<char>, Option<Seq<char>>) {
    (
        r.success,
        r.body@,
        match r.error_message {
            Some(m) => Some(m@),
            None => None,
        },
    )
}

/// What to do with a notification: answer it at once, or first confirm the payment.
#[derive(Debug)]
pub enum NotifyPlan {
    Reply(NotifyReply),
    Confirm(PaymentConfirmation),
}

/// Model of a notification plan.
pub enum NotifyPlanView {
    Reply((bool, Seq<char>, Option<Seq<char>>)),
    Confirm(ConfirmationView),
}

/// View of a plan.
pub open spec fn plan_view(p: NotifyPlan) -> NotifyPlanView {
    match p {
        NotifyPlan::Reply(r) => NotifyPlanView::Reply(reply_view(r)),
        NotifyPlan::Confirm(c) => NotifyPlanView::Confirm(c@),
    }
}

/// A refusal, with its reason.
pub open spec fn spec_fail_reply(reason: Seq<char>) -> (bool, Seq<char>, Option<Seq<char>>) {
    (false, "fail"@, Some(reason))
}

/// A notification is refused when it fails validation; a trusted notification of a
/// trade that is not paid is acknowledged without further work; a trusted, paid one is
/// confirmed, unless it cannot be turned into a payment fact.
pub open spec fn spec_plan_notify(
    epay: Option<EpayConfig>,
    n: EpayNotifyRequest,
    paid_at: i64,
    request_body: Seq<char>,
) -> NotifyPlanView {
    match spec_validate_notify(epay, n) {
        Err(m) => NotifyPlanView::Reply(spec_fail_reply(m)),
        Ok(()) => if n.trade_status@ == "TRADE_SUCCESS"@ {
            match spec_epay_confirmation(n, paid_at, request_body) {
                Ok(c) => NotifyPlanView::Confirm(c),
                Err(m) => NotifyPlanView::Reply(
                    spec_fail_reply("business apply failed: "@ + m),
                ),
            }
        } else {
            NotifyPlanView::Reply((true, "success"@, None))
        },
    }
}

/// The amount of this notification will be converted to cents.
pub open spec fn spec_notify_converts_amount(epay: Option<EpayConfig>, n: EpayNotifyRequest) -> bool {
    spec_validate_notify(epay, n) is Ok && n.trade_status@ == "TRADE_SUCCESS"@
        && spec_reaches_amount(n)
}

/// Whether a notification gets as far as converting its amount.
fn reaches_amount(notify: &EpayNotifyRequest) -> (res: bool)
    ensures
        res == spec_reaches_amount(*notify),
{
    if trim(notify.out_trade_no.as_str()).unicode_len() == 0 {
        return false;
    }
    match &notify.param {
        Some(p) => {
            let t = trim(p.as_str());
            t.unicode_len() == 0 || parse_uuid(t).is_some()
        },
        None => true,
    }
}

/// Whether `plan_notify` may be called on a notification: its amount fits in cents
/// whenever the plan would convert it.
pub fn notify_amount_fits(epay: &Option<EpayConfig>, notify: &EpayNotifyRequest) -> (res: bool)
    ensures
        res == (spec_notify_converts_amount(*epay, *notify) ==> spec_money_fits(notify.money@)),
{
    if money_fits(notify.money.as_str()) {
        return true;
    }
    let trusted = validate_notify(epay, notify).is_ok();
    proof {
        reveal_strlit("TRADE_SUCCESS");
    }
    !(trusted && str_eq(notify.trade_status.as_str(), EPAY_TRADE_SUCCESS) && reaches_amount(notify))
}

/// Decides how to handle a notification.
pub fn plan_notify(
    epay: &Option<EpayConfig>,
    notify: &EpayNotifyRequest,
    paid_at: i64,
    request_body: String,
) -> (plan: NotifyPlan)
    requires
        spec_notify_converts_amount(*epay, *notify) ==> spec_money_fits(notify.money@),
    ensures
        plan_view(plan) == spec_plan_notify(*epay, *notify, paid_at, request_body@),
{
    proof {
        reveal_strlit("fail");
        reveal_strlit("success");
    }
    match validate_notify(epay, notify) {
        Err(e) => NotifyPlan::Reply(
            NotifyReply {
                success: false,
                body: String::from_str(EPAY_NOTIFY_FAIL),
                error_message: Some(e.to_string()),
            },
        ),
        Ok(()) => {
            if str_eq(notify.trade_status.as_str(), EPAY_TRADE_SUCCESS) {
                match epay_confirmation(notify, paid_at, request_body) {
                    Ok(c) => NotifyPlan::Confirm(c),
                    Err(e) => NotifyPlan::Reply(business_failure(&e)),
                }
            } else {
                NotifyPlan::Reply(
                    NotifyReply {
                        success: true,
                        body: String::from_str(EPAY_NOTIFY_SUCCESS),
                        error_message: None,
                    },
                )
            }
        },
    }
}

/// The refusal of a notification whose trusted payment could not be applied.
fn business_failure(e: &AppError) -> (r: NotifyReply)
    ensures
        reply_view(r) == spec_fail_reply("business apply failed: "@ + spec_error_text(e@)),
{
    let mut message = String::from_str("business apply failed: ");
    let text = e.to_string();
    message.append(text.as_str());
    NotifyReply { success: false, body: String::from_str(EPAY_NOTIFY_FAIL), error_message: Some(message) }
}

/// The answer once the payment of a trusted notification was confirmed, or failed to be:
/// a failure asks the gateway to retry.
pub fn reply_after_confirmation<T>(result: &Result<T, AppError>) -> (r: NotifyReply)
    ensures
        match result {
            Ok(_) => reply_view(r) == (true, "success"@, None::<Seq<char>>),
            Err(e) => reply_view(r) == spec_fail_reply(
                "business apply failed: "@ + spec_error_text(e@),
            ),
        },
{
    match result {
        Ok(_) => NotifyReply {
            success: true,
            body: String::from_str(EPAY_NOTIFY_SUCCESS),
            error_message: None,
        },
        Err(e) => business_failure(e),
    }
}

/// The answer to a notification that could not be read.
pub fn reply_to_unreadable_notify() -> (r: NotifyReply)
    ensures
        reply_view(r) == spec_fail_reply("invalid notify request"@),
{
    NotifyReply {
        success: false,
        body: String::from_str(EPAY_NOTIFY_FAIL),
        error_message: Some(String::from_str("invalid notify request")),
    }
}

/// The two-character text of a remainder below 100 reads back as that remainder.
proof fn lemma_pad2_parses(r: int)
    requires
        0 <= r < 100,
    ensures
        spec_pad2(r).len() == 2,
        spec_all_digits(spec_pad2(r)),
        spec_parse_i64(spec_pad2(r)) == Some(r),
        vstd::utf8::encode_utf8(spec_pad2(r)).len() == 2,
{
    let t = spec_pad2(r);
    lemma_digits_value(r as nat);
    if r < 10 {
        assert(spec_digits(r as nat) =~= seq![crate::decimal::spec_digit_char(r)]);
        assert(t =~= seq!['0', crate::decimal::spec_digit_char(r)]);
        assert(t.drop_last() =~= seq!['0']);
        assert(seq!['0'].drop_last() =~= Seq::<char>::empty());
        assert(crate::decimal::spec_digits_value(Seq::<char>::empty()) == 0);
        assert(crate::decimal::spec_digits_value(seq!['0']) == 0);
    } else {
        assert(spec_digits((r / 10) as nat) =~= seq![crate::decimal::spec_digit_char(r / 10)]);
        assert(t =~= seq![crate::decimal::spec_digit_char(r / 10), crate::decimal::spec_digit_char(r % 10)]);
    }
    assert(t.len() == 2);
    assert(spec_all_digits(t)) by {
        if r < 10 {
            assert(crate::decimal::spec_is_digit(t[0]));
            assert(crate::decimal::spec_is_digit(t[1]));
        }
    }
    assert(!(t[0] == '+' || t[0] == '-'));
    assert(vstd::utf8::is_ascii_chars(t)) by {
        assert forall|i: int| 0 <= i < t.len() implies '\0' <= #[trigger] t[i] <= '\u{7f}' by {
            assert(crate::decimal::spec_is_digit(t[i]));
        }
    }
    vstd::utf8::is_ascii_chars_encode_utf8(t);
}

/// Every character of the digits of a number is a digit.
proof fn lemma_digits_not_special(n: nat, i: int)
    requires
        0 <= i < spec_digits(n).len(),
    ensures
        crate::decimal::spec_is_digit(spec_digits(n)[i]),
{
    lemma_digits_value(n);
}

/// A non-negative amount formatted for ePay converts back to the same number of cents.
pub proof fn lemma_money_text_round_trip(c: int)
    requires
        0 <= c <= i64::MAX,
    ensures
        spec_money_fits(spec_money_text(c)),
        spec_money_to_cents(spec_money_text(c)) == Some(c),
{
    let q = c / 100;
    let r = c % 100;
    assert(spec_div100(c) == q);
    assert(spec_rem100(c) == r);
    let d = spec_digits(q as nat);
    let t = spec_money_text(c);
    lemma_digits_value(q as nat);
    lemma_pad2_parses(r);
    assert(spec_int_text(q) == d);
    assert(t == d + seq!['.'] + spec_pad2(r));
    let dl = d.len();
    // The text has no surrounding white space.
    assert(!crate::text::spec_is_whitespace(t[0])) by {
        lemma_digits_not_special(q as nat, 0);
    }
    assert(crate::text::spec_trim_start(t) == t);
    assert(t.last() == spec_pad2(r)[1]);
    assert(crate::decimal::spec_is_digit(spec_pad2(r)[1]));
    assert(crate::text::spec_trim_end(t) == t);
    assert(spec_trim(t) == t);
    // The first dot follows the whole part.
    t.index_of_first_ensures('.');
    assert(t[dl as int] == '.');
    assert(t.contains('.'));
    let idx = t.index_of_first('.').unwrap();
    assert(idx == dl) by {
        if idx < dl {
            lemma_digits_not_special(q as nat, idx);
            assert(t[idx] == d[idx]);
        } else if idx > dl {
            assert(t[dl as int] == '.');
        }
    }
    assert(t.take(dl as int) =~= d);
    assert(t.skip(dl as int + 1) =~= spec_pad2(r));
    lemma_parse_int_text(q);
    assert(spec_money_parts(t) == Some((q, r)));
    assert(q * 100 + r == c);
}

/// Two parameter lists with the same keys and the same values outside `sign` and
/// `sign_type` have the same signed payload.
pub proof fn lemma_payload_ignores_signature_fields(
    ps1: Seq<(Seq<char>, Seq<char>)>,
    ps2: Seq<(Seq<char>, Seq<char>)>,
)
    requires
        ps1.len() == ps2.len(),
        forall|i: int|
            0 <= i < ps1.len() ==> (#[trigger] ps1[i]).0 == ps2[i].0 && (ps1[i].0 != "sign"@
                && ps1[i].0 != "sign_type"@ ==> ps1[i].1 == ps2[i].1),
    ensures
        spec_signed_payload(ps1) == spec_signed_payload(ps2),
    decreases ps1.len(),
{
    if ps1.len() > 0 {
        let p1 = ps1.drop_last();
        let p2 = ps2.drop_last();
        assert forall|i: int| 0 <= i < p1.len() implies (#[trigger] p1[i]).0 == p2[i].0 && (p1[i].0
            != "sign"@ && p1[i].0 != "sign_type"@ ==> p1[i].1 == p2[i].1) by {
            assert(p1[i] == ps1[i]);
            assert(p2[i] == ps2[i]);
        }
        lemma_payload_ignores_signature_fields(p1, p2);
        assert(ps1.last() == ps1[ps1.len() - 1]);
    }
}

/// A notification's signature does not cover its own `sign` and `sign_type` fields:
/// two notifications that differ only there have the same expected signature.
pub proof fn lemma_notify_signature_ignores_sign_fields(
    n1: EpayNotifyRequest,
    n2: EpayNotifyRequest,
    key: Seq<char>,
)
    requires
        n1.pid@ == n2.pid@,
        n1.name@ == n2.name@,
        n1.money@ == n2.money@,
        n1.out_trade_no@ == n2.out_trade_no@,
        n1.trade_no@ == n2.trade_no@,
        n1.trade_status@ == n2.trade_status@,
        n1.payment_type@ == n2.payment_type@,
        n1.param is Some == n2.param is Some,
        n1.param is Some ==> n1.param->0@ == n2.param->0@,
    ensures
        spec_sign(spec_notify_params(n1), key) == spec_sign(spec_notify_params(n2), key),
{
    let ps1 = spec_notify_params(n1);
    let ps2 = spec_notify_params(n2);
    let off: int = if n1.param is Some { 1 } else { 0 };
    assert(ps1[3 + off].0 == "pid"@);
    assert(ps1[4 + off].0 == "sign"@);
    assert(ps1[5 + off].0 == "sign_type"@);
    assert forall|i: int|
        0 <= i < ps1.len() implies (#[trigger] ps1[i]).0 == ps2[i].0 && (ps1[i].0 != "sign"@
            && ps1[i].0 != "sign_type"@ ==> ps1[i].1 == ps2[i].1) by {
        if i == 4 + off || i == 5 + off {
        } else {
            assert(ps1[i].1 == ps2[i].1);
        }
    }
    lemma_payload_ignores_signature_fields(ps1, ps2);
}

/// A notification signed with the merchant key over its own parameters, with signature
/// type MD5 (in any case) and this merchant's id, passes validation.
pub proof fn lemma_validate_accepts_merchant_signature(e: EpayConfig, n: EpayNotifyRequest)
    requires
        spec_lower(n.sign_type@) == spec_lower("MD5"@),
        n.sign@ == spec_sign(spec_notify_params(n), e.key@),
        n.pid@ == e.pid@,
    ensures
        spec_validate_notify(Some(e), n) is Ok,
{
}

/// A notification that fails validation is never confirmed: it is answered `fail`, with
/// the reason.
pub proof fn lemma_untrusted_notify_never_confirms(
    epay: Option<EpayConfig>,
    n: EpayNotifyRequest,
    paid_at: i64,
    request_body: Seq<char>,
)
    requires
        spec_validate_notify(epay, n) is Err,
    ensures
        spec_plan_notify(epay, n, paid_at, request_body) == NotifyPlanView::Reply(
            spec_fail_reply(spec_validate_notify(epay, n)->Err_0),
        ),
{
}

/// A trusted notification of a trade that is not paid is acknowledged and confirms
/// nothing. A trusted notification of a paid trade that names its trade, whose `param` is
/// absent, blank or a UUID and whose money reads as cents is confirmed, and the payment
/// fact names the attempt by the trimmed `out_trade_no`, keeps the gateway's `trade_no` as
/// the provider transaction (and, prefixed, as the event id), carries the notified amount
/// in CNY, the order that `param` names and the time of receipt.
pub proof fn lemma_trusted_notify_plan(
    epay: Option<EpayConfig>,
    n: EpayNotifyRequest,
    paid_at: i64,
    request_body: Seq<char>,
)
    requires
        spec_validate_notify(epay, n) is Ok,
    ensures
        n.trade_status@ != "TRADE_SUCCESS"@ ==> spec_plan_notify(epay, n, paid_at, request_body)
            == NotifyPlanView::Reply((true, "success"@, None)),
        n.trade_status@ == "TRADE_SUCCESS"@ && spec_trim(n.out_trade_no@).len() > 0
            && spec_param_order_id(n.param) is Ok && spec_money_to_cents(n.money@) is Some
            ==> (spec_plan_notify(epay, n, paid_at, request_body) matches NotifyPlanView::Confirm(c)
            && {
            &&& c.merchant_trade_no == spec_trim(n.out_trade_no@)
            &&& c.provider_transaction_id == n.trade_no@
            &&& c.provider == "epay"@
            &&& c.provider_event_id == "notify:"@ + n.trade_no@
            &&& c.amount_cents == (spec_money_to_cents(n.money@)->0) as i64
            &&& c.currency == "CNY"@
            &&& Ok::<Option<u128>, ()>(c.expected_order_id) == spec_param_order_id(n.param)
            &&& c.paid_at == paid_at
            &&& c.request_body == request_body
        }),
{
}

} // verus!
