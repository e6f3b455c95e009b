//! Data and checks of the official WeChat Pay API v3 (Native payment).
use vstd::prelude::*;
use vstd::string::*;
use crate::codec::{
    base64_decode, base64_encode, format_rfc3339, micros_in_range, spec_base64_decode,
    spec_base64_encode, spec_rfc3339, spec_uuid_hyphenated, uuid_to_string,
};
use crate::config::WechatPayConfig;
use crate::crypto::{
    aes256gcm_decrypt, rsa_private_key_from_pkcs1_pem, rsa_private_key_from_pkcs8_pem,
    rsa_public_key_from_pem, rsa_sign_sha256_pkcs1, rsa_sign_sha256_pkcs8, rsa_verify_sha256, sha256,
    spec_aes256gcm_decrypt, spec_pkcs1_private_key_pem, spec_pkcs8_private_key_pem,
    spec_public_key_pem, spec_rsa_sign_sha256_pkcs1, spec_rsa_sign_sha256_pkcs8,
    spec_rsa_verify_sha256, spec_sha256,
};
use crate::decimal::{i64_text, spec_int_text};
use crate::text::{push_char, spec_trim, str_eq, trim};

verus! {

/// Amount of a Native prepay request, in cents of `currency`.
#[derive(Debug)]
pub struct WechatPayAmountRequest {
    pub total: i64,
    pub currency: String,
}

/// Body of a Native prepay request (`POST /v3/pay/transactions/native`).
#[derive(Debug)]
pub struct NativePrepayRequest {
    pub appid: String,
    pub mchid: String,
    pub description: String,
    pub out_trade_no: String,
    pub time_expire: String,
    pub attach: String,
    pub notify_url: String,
    pub amount: WechatPayAmountRequest,
}

/// Answer of a Native prepay request: the content of the payment QR code.
#[derive(Debug)]
pub struct NativePrepayResponse {
    pub code_url: String,
}

/// Envelope of a payment notification; its resource is encrypted.
#[derive(Debug)]
pub struct WechatPayNotification {
    pub id: String,
    pub event_type: String,
    pub resource: EncryptedResource,
}

/// Encrypted resource of a notification (AEAD_AES_256_GCM).
#[derive(Debug)]
pub struct EncryptedResource {
    pub algorithm: String,
    pub ciphertext: String,
    pub associated_data: Option<String>,
    pub nonce: String,
    pub original_type: String,
}

/// Amount of a transaction as reported by WeChat Pay.
#[derive(Debug)]
pub struct WechatPayTransactionAmount {
    pub total: i64,
    pub payer_total: Option<i64>,
    pub currency: String,
    pub payer_currency: Option<String>,
}

/// A successful transaction with every field that a confirmation needs.
#[derive(Debug)]
pub struct WechatPayTransaction {
    pub appid: String,
    pub mchid: String,
    pub out_trade_no: String,
    pub transaction_id: String,
    pub trade_type: String,
    pub trade_state: String,
    pub success_time: Option<String>,
    pub attach: Option<String>,
    pub amount: WechatPayTransactionAmount,
}

/// Answer of an order query. In states such as `NOTPAY` or `CLOSED` the success fields
/// are absent; [`WechatPayQueryTransaction::into_success`] narrows it to a transaction.
#[derive(Debug)]
pub struct WechatPayQueryTransaction {
    pub appid: String,
    pub mchid: String,
    pub out_trade_no: String,
    pub transaction_id: Option<String>,
    pub trade_type: Option<String>,
    pub trade_state: String,
    pub success_time: Option<String>,
    pub attach: Option<String>,
    pub amount: Option<WechatPayTransactionAmount>,
}

/// Errors of the WeChat Pay protocol layer.
#[derive(Debug)]
pub enum WechatPayError {
    KeyFile(String),
    InvalidKey(String),
    Http(String),
    Json(String),
    MissingSignatureHeader(String),
    UnexpectedPublicKeyId(String),
    InvalidSignatureEncoding,
    SignatureVerification,
    Crypto(String),
    /// An API error answer: the HTTP status as displayed (`404 Not Found`), the error
    /// code and message of the body.
    Api { status: String, code: String, message: String },
    InvalidResponse(String),
}

/// `prefix` followed by `text`.
pub open spec fn spec_cat(prefix: Seq<char>, text: Seq<char>) -> Seq<char> {
    prefix + text
}

/// The text that describes a WeChat Pay error.
pub open spec fn spec_wechatpay_error_text(e: WechatPayError) -> Seq<char> {
    match e {
        WechatPayError::KeyFile(m) => "failed to read WeChat Pay key file: "@ + m@,
        WechatPayError::InvalidKey(m) => "invalid WeChat Pay key: "@ + m@,
        WechatPayError::Http(m) => "WeChat Pay HTTP request failed: "@ + m@,
        WechatPayError::Json(m) => "WeChat Pay message serialization failed: "@ + m@,
        WechatPayError::MissingSignatureHeader(m) => "missing WeChat Pay signature header: "@ + m@,
        WechatPayError::UnexpectedPublicKeyId(m) => "unexpected WeChat Pay public key id: "@ + m@,
        WechatPayError::InvalidSignatureEncoding => "invalid WeChat Pay signature encoding"@,
        WechatPayError::SignatureVerification => "WeChat Pay signature verification failed"@,
        WechatPayError::Crypto(m) => "WeChat Pay cryptographic operation failed: "@ + m@,
        WechatPayError::Api { status, code, message } => "WeChat Pay API returned HTTP "@ + status@
            + ": "@ + code@ + " - "@ + message@,
        WechatPayError::InvalidResponse(m) => "invalid WeChat Pay response: "@ + m@,
    }
}

fn cat(prefix: &str, text: &str) -> (s: String)
    ensures
        s@ == prefix@ + text@,
{
    let mut s = String::from_str(prefix);
    s.append(text);
    s
}

impl WechatPayError {
    /// The text that describes this error.
    pub fn to_string(&self) -> (s: String)
        ensures
            s@ == spec_wechatpay_error_text(*self),
    {
        match self {
            WechatPayError::KeyFile(m) => cat("failed to read WeChat Pay key file: ", m.as_str()),
            WechatPayError::InvalidKey(m) => cat("invalid WeChat Pay key: ", m.as_str()),
            WechatPayError::Http(m) => cat("WeChat Pay HTTP request failed: ", m.as_str()),
            WechatPayError::Json(m) => cat("WeChat Pay message serialization failed: ", m.as_str()),
            WechatPayError::MissingSignatureHeader(m) => cat(
                "missing WeChat Pay signature header: ",
                m.as_str(),
            ),
            WechatPayError::UnexpectedPublicKeyId(m) => cat(
                "unexpected WeChat Pay public key id: ",
                m.as_str(),
            ),
            WechatPayError::InvalidSignatureEncoding => String::from_str(
                "invalid WeChat Pay signature encoding",
            ),
            WechatPayError::SignatureVerification => String::from_str(
                "WeChat Pay signature verification failed",
            ),
            WechatPayError::Crypto(m) => cat("WeChat Pay cryptographic operation failed: ", m.as_str()),
            WechatPayError::Api { status, code, message } => {
                let mut s = cat("WeChat Pay API returned HTTP ", status.as_str());
                s.append(": ");
                s.append(code.as_str());
                s.append(" - ");
                s.append(message.as_str());
                s
            },
            WechatPayError::InvalidResponse(m) => cat("invalid WeChat Pay response: ", m.as_str()),
        }
    }
}

impl WechatPayQueryTransaction {
    /// Turns a query answer into a successful transaction.
    ///
    /// Succeeds exactly when the trade state is `SUCCESS` and the transaction id, trade
    /// type and amount are present; the fields are then moved over unchanged. Otherwise
    /// the answer is invalid, and the error names the first thing missing.
    pub fn into_success(self) -> (res: Result<WechatPayTransaction, WechatPayError>)
        ensures
            res is Ok <==> (self.trade_state@ == "SUCCESS"@ && self.transaction_id is Some
                && self.trade_type is Some && self.amount is Some),
            res matches Ok(t) ==> {
                &&& t.appid == self.appid
                &&& t.mchid == self.mchid
                &&& t.out_trade_no == self.out_trade_no
                &&& Some(t.transaction_id) == self.transaction_id
                &&& Some(t.trade_type) == self.trade_type
                &&& t.trade_state == self.trade_state
                &&& t.success_time == self.success_time
                &&& t.attach == self.attach
                &&& Some(t.amount) == self.amount
            },
            res matches Err(e) ==> (e matches WechatPayError::InvalidResponse(m) && m@ == (
            if self.trade_state@ != "SUCCESS"@ {
                "query result is not successful: "@ + self.trade_state@
            } else if self.transaction_id is None {
                "successful query is missing transaction_id"@
            } else if self.trade_type is None {
                "successful query is missing trade_type"@
            } else {
                "successful query is missing amount"@
            })),
    {
        if !crate::text::str_eq(self.trade_state.as_str(), "SUCCESS") {
            let message = cat("query result is not successful: ", self.trade_state.as_str());
            return Err(WechatPayError::InvalidResponse(message));
        }
        let transaction_id = match self.transaction_id {
            Some(v) => v,
            None => {
                return Err(WechatPayError::InvalidResponse(
                    String::from_str("successful query is missing transaction_id"),
                ))
            },
        };
        let trade_type = match self.trade_type {
            Some(v) => v,
            None => {
                return Err(WechatPayError::InvalidResponse(
                    String::from_str("successful query is missing trade_type"),
                ))
            },
        };
        let amount = match self.amount {
            Some(v) => v,
            None => {
                return Err(WechatPayError::InvalidResponse(
                    String::from_str("successful query is missing amount"),
                ))
            },
        };
        Ok(WechatPayTransaction {
            appid: self.appid,
            mchid: self.mchid,
            out_trade_no: self.out_trade_no,
            transaction_id,
            trade_type,
            trade_state: self.trade_state,
            success_time: self.success_time,
            attach: self.attach,
            amount,
        })
    }
}

/// Base address of the WeChat Pay API v3.
pub const WECHATPAY_API_BASE_URL: &'static str = "https://api.mch.weixin.qq.com";

/// Header that names the platform public key a request expects the answer signed with.
pub const WECHATPAY_SERIAL_HEADER: &'static str = "Wechatpay-Serial";

/// The merchant's WeChat Pay credentials and keys. The HTTP client that carries the
/// requests is the application's.
pub struct WechatPayClient {
    pub app_id: String,
    pub mch_id: String,
    pub merchant_serial_no: String,
    /// The 32-byte APIv3 key that encrypts notifications.
    pub api_v3_key: Vec<u8>,
    pub public_key_id: String,
    /// The merchant private key, as the PEM text it was read from.
    pub private_key_pem: String,
    /// How the merchant private key text is encoded.
    pub private_key_format: PrivateKeyFormat,
    /// The platform public key, as the PEM text it was read from.
    pub public_key_pem: String,
    pub notify_url: String,
}

/// The encoding of a PEM private key.
#[derive(Debug, Clone, Copy, PartialEq, Eq, Structural)]
pub enum PrivateKeyFormat {
    Pkcs8,
    Pkcs1,
}

/// Whether a private key text reads in the given encoding.
pub open spec fn spec_private_key_reads(pem: Seq<char>, format: PrivateKeyFormat) -> bool {
    match format {
        PrivateKeyFormat::Pkcs8 => spec_pkcs8_private_key_pem(pem),
        PrivateKeyFormat::Pkcs1 => spec_pkcs1_private_key_pem(pem),
    }
}

/// The signature of a digest under a private key text in the given encoding.
pub open spec fn spec_rsa_sign(pem: Seq<char>, format: PrivateKeyFormat, digest: Seq<u8>) -> Option<Seq<u8>> {
    match format {
        PrivateKeyFormat::Pkcs8 => spec_rsa_sign_sha256_pkcs8(pem, digest),
        PrivateKeyFormat::Pkcs1 => spec_rsa_sign_sha256_pkcs1(pem, digest),
    }
}

impl WechatPayClient {
    /// The APIv3 key has the 32 bytes AES-256 needs, and both key texts read.
    pub open spec fn wf(&self) -> bool {
        &&& self.api_v3_key@.len() == 32
        &&& spec_private_key_reads(self.private_key_pem@, self.private_key_format)
        &&& spec_public_key_pem(self.public_key_pem@)
    }

    /// Builds the client from the configuration and the contents of its two key files.
    /// The merchant key is read as PKCS#8 and, failing that, as PKCS#1; the error of the
    /// second attempt is reported. The APIv3 key must be 32 bytes.
    pub fn from_config(
        config: &WechatPayConfig,
        private_key_pem: &str,
        public_key_pem: &str,
    ) -> (res: Result<WechatPayClient, WechatPayError>)
        ensures
            res matches Ok(c) ==> {
                &&& c.wf()
                &&& c.app_id@ == config.app_id@
                &&& c.mch_id@ == config.mch_id@
                &&& c.merchant_serial_no@ == config.merchant_serial_no@
                &&& c.api_v3_key@ == vstd::utf8::encode_utf8(config.api_v3_key@)
                &&& c.public_key_id@ == config.public_key_id@
                &&& c.notify_url@ == config.notify_url@
                &&& c.private_key_pem@ == private_key_pem@
                &&& c.public_key_pem@ == public_key_pem@
                &&& c.private_key_format == (if spec_pkcs8_private_key_pem(private_key_pem@) {
                    PrivateKeyFormat::Pkcs8
                } else {
                    PrivateKeyFormat::Pkcs1
                })
            },
            res matches Err(e) ==> e is InvalidKey,
            res is Ok <==> {
                &&& spec_pkcs8_private_key_pem(private_key_pem@) || spec_pkcs1_private_key_pem(
                    private_key_pem@,
                )
                &&& spec_public_key_pem(public_key_pem@)
                &&& vstd::utf8::encode_utf8(config.api_v3_key@).len() == 32
            },
    {
        let private_key_format = match rsa_private_key_from_pkcs8_pem(private_key_pem) {
            Ok(()) => PrivateKeyFormat::Pkcs8,
            Err(_) => match rsa_private_key_from_pkcs1_pem(private_key_pem) {
                Ok(()) => PrivateKeyFormat::Pkcs1,
                Err(e) => return Err(WechatPayError::InvalidKey(e)),
            },
        };
        match rsa_public_key_from_pem(public_key_pem) {
            Ok(()) => {},
            Err(e) => return Err(WechatPayError::InvalidKey(e)),
        }
        let key_bytes = config.api_v3_key.as_str().as_bytes();
        if key_bytes.len() != 32 {
            return Err(WechatPayError::InvalidKey(String::from_str("APIv3 key must be 32 bytes")));
        }
        let mut api_v3_key: Vec<u8> = Vec::new();
        let mut i: usize = 0;
        while i < key_bytes.len()
            invariant
                i <= key_bytes@.len(),
                api_v3_key@ == key_bytes@.take(i as int),
            decreases key_bytes.len() - i,
        {
            api_v3_key.push(key_bytes[i]);
            assert(api_v3_key@ =~= key_bytes@.take(i + 1));
            i = i + 1;
        }
        assert(key_bytes@.take(32) =~= key_bytes@);
        Ok(
            WechatPayClient {
                app_id: config.app_id.clone(),
                mch_id: config.mch_id.clone(),
                merchant_serial_no: config.merchant_serial_no.clone(),
                api_v3_key,
                public_key_id: config.public_key_id.clone(),
                private_key_pem: String::from_str(private_key_pem),
                private_key_format,
                public_key_pem: String::from_str(public_key_pem),
                notify_url: config.notify_url.clone(),
            },
        )
    }

    /// The official account's app id.
    pub fn app_id(&self) -> (s: &str)
        ensures
            s@ == self.app_id@,
    {
        self.app_id.as_str()
    }

    /// The merchant id.
    pub fn mch_id(&self) -> (s: &str)
        ensures
            s@ == self.mch_id@,
    {
        self.mch_id.as_str()
    }

    /// Where WeChat Pay delivers notifications.
    pub fn notify_url(&self) -> (s: &str)
        ensures
            s@ == self.notify_url@,
    {
        self.notify_url.as_str()
    }
}

/// The text a request signature covers: method, path with query, Unix timestamp in
/// seconds, nonce and body, each followed by a line feed.
pub open spec fn spec_canonical_request(
    method: Seq<char>,
    path: Seq<char>,
    timestamp: i64,
    nonce: Seq<char>,
    body: Seq<char>,
) -> Seq<char> {
    method + seq!['\n'] + path + seq!['\n'] + spec_int_text(timestamp as int) + seq!['\n'] + nonce
        + seq!['\n'] + body + seq!['\n']
}

/// Builds the text that a request signature covers.
pub fn canonical_request_message(method: &str, path: &str, timestamp: i64, nonce: &str, body: &str) -> (m:
    String)
    ensures
        m@ == spec_canonical_request(method@, path@, timestamp, nonce@, body@),
{
    let mut m = String::from_str(method);
    push_char(&mut m, '\n');
    m.append(path);
    push_char(&mut m, '\n');
    let ts = i64_text(timestamp);
    m.append(ts.as_str());
    push_char(&mut m, '\n');
    m.append(nonce);
    push_char(&mut m, '\n');
    m.append(body);
    push_char(&mut m, '\n');
    assert(m@ =~= spec_canonical_request(method@, path@, timestamp, nonce@, body@));
    m
}

/// The text an answer or notification signature covers: timestamp, nonce and body, each
/// followed by a line feed.
pub open spec fn spec_signed_message(timestamp: Seq<char>, nonce: Seq<char>, body: Seq<char>) -> Seq<char> {
    timestamp + seq!['\n'] + nonce + seq!['\n'] + body + seq!['\n']
}

fn signed_message(timestamp: &str, nonce: &str, body: &str) -> (m: String)
    ensures
        m@ == spec_signed_message(timestamp@, nonce@, body@),
{
    let mut m = String::from_str(timestamp);
    push_char(&mut m, '\n');
    m.append(nonce);
    push_char(&mut m, '\n');
    m.append(body);
    push_char(&mut m, '\n');
    assert(m@ =~= spec_signed_message(timestamp@, nonce@, body@));
    m
}

/// The `Authorization` header of a request signed with the merchant key.
pub open spec fn spec_authorization(
    mch_id: Seq<char>,
    nonce: Seq<char>,
    timestamp: i64,
    serial_no: Seq<char>,
    signature: Seq<char>,
) -> Seq<char> {
    "WECHATPAY2-SHA256-RSA2048 mchid=\""@ + mch_id + "\",nonce_str=\""@ + nonce
        + "\",timestamp=\""@ + spec_int_text(timestamp as int) + "\",serial_no=\""@ + serial_no
        + "\",signature=\""@ + signature + "\""@
}

/// Builds the `Authorization` header from the Base64 signature of the request.
pub fn authorization_header(
    mch_id: &str,
    nonce: &str,
    timestamp: i64,
    serial_no: &str,
    signature: &str,
) -> (h: String)
    ensures
        h@ == spec_authorization(mch_id@, nonce@, timestamp, serial_no@, signature@),
{
    let mut h = String::from_str("WECHATPAY2-SHA256-RSA2048 mchid=\"");
    h.append(mch_id);
    h.append("\",nonce_str=\"");
    h.append(nonce);
    h.append("\",timestamp=\"");
    let ts = i64_text(timestamp);
    h.append(ts.as_str());
    h.append("\",serial_no=\"");
    h.append(serial_no);
    h.append("\",signature=\"");
    h.append(signature);
    h.append("\"");
    h
}

/// Signs a request with the merchant key and returns its `Authorization` header: the
/// RSA signature of the SHA-256 digest of the canonical request, in Base64.
pub fn sign_request(
    client: &WechatPayClient,
    method: &str,
    path: &str,
    timestamp: i64,
    nonce: &str,
    body: &str,
) -> (res: Result<String, WechatPayError>)
    requires
        client.wf(),
    ensures
        ({
            let digest = spec_sha256(
                vstd::utf8::encode_utf8(spec_canonical_request(method@, path@, timestamp, nonce@, body@)),
            );
            match spec_rsa_sign(client.private_key_pem@, client.private_key_format, digest) {
                Some(signature) => res matches Ok(h) && h@ == spec_authorization(
                    client.mch_id@,
                    nonce@,
                    timestamp,
                    client.merchant_serial_no@,
                    spec_base64_encode(signature),
                ),
                None => res matches Err(e) && e is Crypto,
            }
        }),
{
    let canonical = canonical_request_message(method, path, timestamp, nonce, body);
    let digest = sha256(canonical.as_str().as_bytes());
    let signed = match client.private_key_format {
        PrivateKeyFormat::Pkcs8 => rsa_sign_sha256_pkcs8(client.private_key_pem.as_str(), digest.as_slice()),
        PrivateKeyFormat::Pkcs1 => rsa_sign_sha256_pkcs1(client.private_key_pem.as_str(), digest.as_slice()),
    };
    let signature = match signed {
        Ok(s) => s,
        Err(e) => return Err(WechatPayError::Crypto(e)),
    };
    let encoded = base64_encode(signature.as_slice());
    Ok(
        authorization_header(
            client.mch_id.as_str(),
            nonce,
            timestamp,
            client.merchant_serial_no.as_str(),
            encoded.as_str(),
        ),
    )
}

/// The signature headers of an answer or a notification, each absent when missing or
/// not text.
#[derive(Debug, Clone)]
pub struct SignatureHeaders {
    pub timestamp: Option<String>,
    pub nonce: Option<String>,
    pub signature: Option<String>,
    pub serial: Option<String>,
}

fn header_value<'a>(value: &'a Option<String>, name: &str) -> (res: Result<&'a str, WechatPayError>)
    ensures
        match value {
            Some(v) => res matches Ok(r) && r@ == v@,
            None => res matches Err(e) && e matches WechatPayError::MissingSignatureHeader(n) && n@
                == name@,
        },
{
    match value {
        Some(v) => Ok(v.as_str()),
        None => Err(WechatPayError::MissingSignatureHeader(String::from_str(name))),
    }
}

/// Whether the signature header decodes from Base64 and verifies, under the public key
/// text, over the SHA-256 digest of timestamp, nonce and body.
pub open spec fn spec_signature_verifies(public_key_pem: Seq<char>, headers: SignatureHeaders, body: Seq<char>) -> bool {
    match (headers.timestamp, headers.nonce, headers.signature) {
        (Some(ts), Some(nonce), Some(sig)) => match spec_base64_decode(sig@) {
            Ok(signature) => spec_rsa_verify_sha256(
                public_key_pem,
                spec_sha256(vstd::utf8::encode_utf8(spec_signed_message(ts@, nonce@, body))),
                signature,
            ),
            Err(_) => false,
        },
        _ => false,
    }
}

/// Whether an answer or a notification is authentic: all four signature headers are
/// present, the serial names the trusted platform key, and the signature verifies.
pub open spec fn spec_signed_message_valid(
    public_key_id: Seq<char>,
    public_key_pem: Seq<char>,
    headers: SignatureHeaders,
    body: Seq<char>,
) -> bool {
    match headers.serial {
        Some(serial) => serial@ == public_key_id && spec_signature_verifies(public_key_pem, headers, body),
        None => false,
    }
}

/// Verifies the signature of an answer or a notification over the raw, unparsed body.
/// The four headers must be present (the first missing one is named), the serial must
/// be the platform public key this shop trusts, and the signature must be Base64 and
/// verify with that key over the SHA-256 digest of timestamp, nonce and body.
pub fn verify_signed_message(client: &WechatPayClient, headers: &SignatureHeaders, body: &str) -> (res:
    Result<(), WechatPayError>)
    requires
        client.wf(),
    ensures
        headers.timestamp is None ==> (res matches Err(WechatPayError::MissingSignatureHeader(n))
            && n@ == "Wechatpay-Timestamp"@),
        headers.timestamp is Some && headers.nonce is None ==> (res matches Err(
            WechatPayError::MissingSignatureHeader(n),
        ) && n@ == "Wechatpay-Nonce"@),
        headers.timestamp is Some && headers.nonce is Some && headers.signature is None ==> (
        res matches Err(WechatPayError::MissingSignatureHeader(n)) && n@ == "Wechatpay-Signature"@),
        headers.timestamp is Some && headers.nonce is Some && headers.signature is Some
            && headers.serial is None ==> (res matches Err(WechatPayError::MissingSignatureHeader(n))
            && n@ == "Wechatpay-Serial"@),
        match (headers.timestamp, headers.nonce, headers.signature, headers.serial) {
            (Some(_), Some(_), Some(sig), Some(serial)) => if serial@ != client.public_key_id@ {
                res matches Err(WechatPayError::UnexpectedPublicKeyId(s)) && s@ == serial@
            } else if spec_base64_decode(sig@) is Err {
                res matches Err(WechatPayError::InvalidSignatureEncoding)
            } else if spec_signature_verifies(client.public_key_pem@, *headers, body@) {
                res is Ok
            } else {
                res matches Err(WechatPayError::SignatureVerification)
            },
            _ => true,
        },
        res is Ok <==> spec_signed_message_valid(client.public_key_id@, client.public_key_pem@, *headers, body@),
{
    let timestamp = header_value(&headers.timestamp, "Wechatpay-Timestamp")?;
    let nonce = header_value(&headers.nonce, "Wechatpay-Nonce")?;
    let signature = header_value(&headers.signature, "Wechatpay-Signature")?;
    let serial = header_value(&headers.serial, "Wechatpay-Serial")?;
    if !str_eq(serial, client.public_key_id.as_str()) {
        return Err(WechatPayError::UnexpectedPublicKeyId(String::from_str(serial)));
    }
    let message = signed_message(timestamp, nonce, body);
    let digest = sha256(message.as_str().as_bytes());
    let signature = match base64_decode(signature) {
        Ok(s) => s,
        Err(_) => return Err(WechatPayError::InvalidSignatureEncoding),
    };
    if rsa_verify_sha256(client.public_key_pem.as_str(), digest.as_slice(), signature.as_slice()) {
        Ok(())
    } else {
        Err(WechatPayError::SignatureVerification)
    }
}

/// The text of a failed AEAD decryption (`aead::Error`'s display).
pub const AEAD_ERROR_TEXT: &'static str = "aead::Error";

/// What decrypting a resource gives: the plaintext, or the text of the error.
pub open spec fn spec_decrypt_resource(key: Seq<u8>, resource: EncryptedResource) -> Result<
    Seq<u8>,
    Seq<char>,
> {
    let crypto = "WeChat Pay cryptographic operation failed: "@;
    if resource.algorithm@ != "AEAD_AES_256_GCM"@ {
        Err("invalid WeChat Pay response: "@ + ("unsupported resource algorithm: "@ + resource.algorithm@))
    } else if vstd::utf8::encode_utf8(resource.nonce@).len() != 12 {
        Err(crypto + "notification nonce must be 12 bytes"@)
    } else {
        let aad = match resource.associated_data {
            Some(a) => vstd::utf8::encode_utf8(a@),
            None => Seq::<u8>::empty(),
        };
        match spec_base64_decode(resource.ciphertext@) {
            Err(t) => Err(crypto + t),
            Ok(ct) => match spec_aes256gcm_decrypt(key, vstd::utf8::encode_utf8(resource.nonce@), ct, aad) {
                Some(p) => Ok(p),
                None => Err(crypto + AEAD_ERROR_TEXT@),
            },
        }
    }
}

/// Decrypts a notification's resource with the APIv3 key (AEAD_AES_256_GCM): the nonce is
/// the 12 bytes of its text, the ciphertext is Base64 and the associated data, when
/// absent, is empty. The plaintext is returned for the caller to read as JSON.
pub fn decrypt_notification(client: &WechatPayClient, resource: &EncryptedResource) -> (res: Result<
    Vec<u8>,
    WechatPayError,
>)
    requires
        client.wf(),
    ensures
        match res {
            Ok(p) => spec_decrypt_resource(client.api_v3_key@, *resource) == Ok::<Seq<u8>, Seq<char>>(
                p@,
            ),
            Err(e) => spec_decrypt_resource(client.api_v3_key@, *resource) == Err::<
                Seq<u8>,
                Seq<char>,
            >(spec_wechatpay_error_text(e)),
        },
        resource.algorithm@ != "AEAD_AES_256_GCM"@ ==> (res matches Err(
            WechatPayError::InvalidResponse(m),
        ) && m@ == "unsupported resource algorithm: "@ + resource.algorithm@),
        resource.algorithm@ == "AEAD_AES_256_GCM"@ && vstd::utf8::encode_utf8(resource.nonce@).len() != 12 ==> (
        res matches Err(WechatPayError::Crypto(m)) && m@ == "notification nonce must be 12 bytes"@),
        resource.algorithm@ == "AEAD_AES_256_GCM"@ && vstd::utf8::encode_utf8(resource.nonce@).len() == 12 ==> {
            let aad = match resource.associated_data {
                Some(a) => vstd::utf8::encode_utf8(a@),
                None => Seq::<u8>::empty(),
            };
            match spec_base64_decode(resource.ciphertext@) {
                Err(t) => res matches Err(WechatPayError::Crypto(m)) && m@ == t,
                Ok(ct) => match spec_aes256gcm_decrypt(
                    client.api_v3_key@,
                    vstd::utf8::encode_utf8(resource.nonce@),
                    ct,
                    aad,
                ) {
                    Some(p) => res matches Ok(r) && r@ == p,
                    None => res matches Err(WechatPayError::Crypto(m)) && m@ == AEAD_ERROR_TEXT@,
                },
            }
        },
{
    if !str_eq(resource.algorithm.as_str(), "AEAD_AES_256_GCM") {
        return Err(WechatPayError::InvalidResponse(
            cat("unsupported resource algorithm: ", resource.algorithm.as_str()),
        ));
    }
    let nonce = resource.nonce.as_str().as_bytes();
    if nonce.len() != 12 {
        return Err(WechatPayError::Crypto(String::from_str("notification nonce must be 12 bytes")));
    }
    let ciphertext = match base64_decode(resource.ciphertext.as_str()) {
        Ok(c) => c,
        Err(t) => return Err(WechatPayError::Crypto(t)),
    };
    let aad: &[u8] = match &resource.associated_data {
        Some(a) => a.as_str().as_bytes(),
        None => {
            proof {
                reveal_strlit("");
            }
            "".as_bytes()
        },
    };
    match aes256gcm_decrypt(client.api_v3_key.as_slice(), nonce, ciphertext.as_slice(), aad) {
        Some(p) => Ok(p),
        None => Err(WechatPayError::Crypto(String::from_str(AEAD_ERROR_TEXT))),
    }
}

/// Longest payment description WeChat Pay accepts, in characters.
pub const MAX_DESCRIPTION_CHARS: usize = 127;

/// The description sent with a Native prepayment: the product name, trimmed and cut to
/// `MAX_DESCRIPTION_CHARS` characters, so that an overlong name does not make the remote
/// order fail. It must not be empty.
pub open spec fn spec_prepay_description(name: Seq<char>) -> Seq<char> {
    let t = spec_trim(name);
    if t.len() > MAX_DESCRIPTION_CHARS {
        t.take(MAX_DESCRIPTION_CHARS as int)
    } else {
        t
    }
}

/// Builds the body of a Native prepayment (`POST /v3/pay/transactions/native`): the
/// order id travels in `attach`, the payment ends when the reservation does, and the
/// amount is in CNY cents.
pub fn native_prepay_request(
    client: &WechatPayClient,
    description: &str,
    merchant_trade_no: &str,
    order_id: u128,
    amount_cents: i64,
    expires_at: i64,
) -> (res: Result<NativePrepayRequest, WechatPayError>)
    requires
        micros_in_range(expires_at),
    ensures
        spec_prepay_description(description@).len() == 0 ==> (res matches Err(
            WechatPayError::InvalidResponse(m),
        ) && m@ == "payment description must not be empty"@),
        spec_prepay_description(description@).len() > 0 ==> (res matches Ok(r) && {
            &&& r.appid@ == client.app_id@
            &&& r.mchid@ == client.mch_id@
            &&& r.description@ == spec_prepay_description(description@)
            &&& r.out_trade_no@ == merchant_trade_no@
            &&& r.time_expire@ == spec_rfc3339(expires_at)
            &&& r.attach@ == spec_uuid_hyphenated(order_id)
            &&& r.notify_url@ == client.notify_url@
            &&& r.amount.total == amount_cents
            &&& r.amount.currency@ == "CNY"@
        }),
{
    let t = trim(description);
    let n = t.unicode_len();
    let cut = if n > MAX_DESCRIPTION_CHARS {
        t.substring_char(0, MAX_DESCRIPTION_CHARS)
    } else {
        t
    };
    assert(t@.subrange(0, MAX_DESCRIPTION_CHARS as int) =~= t@.take(MAX_DESCRIPTION_CHARS as int));
    if cut.unicode_len() == 0 {
        return Err(WechatPayError::InvalidResponse(
            String::from_str("payment description must not be empty"),
        ));
    }
    Ok(
        NativePrepayRequest {
            appid: client.app_id.clone(),
            mchid: client.mch_id.clone(),
            description: String::from_str(cut),
            out_trade_no: String::from_str(merchant_trade_no),
            time_expire: format_rfc3339(expires_at),
            attach: uuid_to_string(order_id),
            notify_url: client.notify_url.clone(),
            amount: WechatPayAmountRequest { total: amount_cents, currency: String::from_str("CNY") },
        },
    )
}

/// A prepayment answer must carry a QR code.
pub fn check_prepay_response(response: NativePrepayResponse) -> (res: Result<
    NativePrepayResponse,
    WechatPayError,
>)
    ensures
        spec_trim(response.code_url@).len() == 0 ==> (res matches Err(
            WechatPayError::InvalidResponse(m),
        ) && m@ == "Native prepay response contains an empty code_url"@),
        spec_trim(response.code_url@).len() > 0 ==> (res matches Ok(r) && r.code_url@
            == response.code_url@),
{
    if trim(response.code_url.as_str()).unicode_len() == 0 {
        return Err(WechatPayError::InvalidResponse(
            String::from_str("Native prepay response contains an empty code_url"),
        ));
    }
    Ok(response)
}

/// The path that queries an order by merchant trade number.
pub fn query_order_path(merchant_trade_no: &str, mch_id: &str) -> (p: String)
    ensures
        p@ == "/v3/pay/transactions/out-trade-no/"@ + merchant_trade_no@ + "?mchid="@ + mch_id@,
{
    let mut p = String::from_str("/v3/pay/transactions/out-trade-no/");
    p.append(merchant_trade_no);
    p.append("?mchid=");
    p.append(mch_id);
    p
}

/// The path that closes an order by merchant trade number.
pub fn close_order_path(merchant_trade_no: &str) -> (p: String)
    ensures
        p@ == "/v3/pay/transactions/out-trade-no/"@ + merchant_trade_no@ + "/close"@,
{
    let mut p = String::from_str("/v3/pay/transactions/out-trade-no/");
    p.append(merchant_trade_no);
    p.append("/close");
    p
}

/// The error of an API answer that is not a success, after its signature was verified:
/// the code and message of its body, or placeholders when the body has none.
pub fn api_error(status: String, code: Option<String>, message: Option<String>) -> (e: WechatPayError)
    ensures
        e matches WechatPayError::Api { status: s, code: c, message: m } && s@ == status@ && c@
            == (match code {
            Some(v) => v@,
            None => "UNKNOWN"@,
        }) && m@ == (match message {
            Some(v) => v@,
            None => "unknown WeChat Pay API error"@,
        }),
{
    WechatPayError::Api {
        status,
        code: match code {
            Some(c) => c,
            None => String::from_str("UNKNOWN"),
        },
        message: match message {
            Some(m) => m,
            None => String::from_str("unknown WeChat Pay API error"),
        },
    }
}

/// The JSON body of an API answer that is not a success; either field may be absent.
#[derive(Debug, Clone)]
pub struct WechatPayApiErrorBody {
    pub code: Option<String>,
    pub message: Option<String>,
}

/// The outcome of an API answer whose signature verified: a 2xx status is a success;
/// any other status is an API error with the code and message of the error body, or
/// placeholders when the body could not be read as one (`error_body` is `None`).
pub fn check_api_status(status: u16, status_text: String, error_body: Option<WechatPayApiErrorBody>) -> (res:
    Result<(), WechatPayError>)
    ensures
        200 <= status < 300 ==> res is Ok,
        !(200 <= status < 300) ==> (res matches Err(WechatPayError::Api { status: s, code: c, message: m })
            && s@ == status_text@ && c@ == (match error_body {
            Some(WechatPayApiErrorBody { code: Some(v), .. }) => v@,
            _ => "UNKNOWN"@,
        }) && m@ == (match error_body {
            Some(WechatPayApiErrorBody { message: Some(v), .. }) => v@,
            _ => "unknown WeChat Pay API error"@,
        })),
{
    if 200 <= status && status < 300 {
        return Ok(());
    }
    match error_body {
        Some(body) => Err(api_error(status_text, body.code, body.message)),
        None => Err(api_error(status_text, None, None)),
    }
}

} // verus!
