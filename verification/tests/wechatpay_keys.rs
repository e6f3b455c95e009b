use aes_gcm::aead::{Aead, KeyInit, Payload};
use base64::{Engine as _, engine::general_purpose::STANDARD};
use rsa::pkcs1::EncodeRsaPrivateKey;
use rsa::pkcs8::{EncodePrivateKey, EncodePublicKey, LineEnding};
use rsa::{BigUint, Pkcs1v15Sign, RsaPrivateKey, RsaPublicKey};
use sha2::{Digest, Sha256};

use qddxp::config::WechatPayConfig;
use qddxp::payments::wechatpay::{
    EncryptedResource, SignatureHeaders, WechatPayClient, WechatPayError, decrypt_notification,
    native_prepay_request, sign_request, verify_signed_message,
};

// A small RSA key made for these tests only (768 bits, e = 65537).
const N: &str = "1142728241163443447871885334592651084659374055270272820356293909371843701182780929836091010045447146717356652248667153558733928249611952091304115444070221571114358052875366783027194594700425190071120375667750403469101294863958673307";
const D: &str = "146622545736658619606553302387805407188316163858091217882662854325157295623022183484011921562966950833059982738896219291618600378049167383855238596554087304294827033943940615101296150090467919475231487780744295183237888195164610225";
const P: &str = "36792203255442494997697959092133794697272687731091643149829582943437694066194021514779927632469741168578810921636953";
const Q: &str = "31058978263129841620484946786670679232270650425353004837230303134997120641783699950938267571986121337225668151430419";

const API_V3_KEY: &str = "0123456789abcdef0123456789abcdef";

fn number(text: &str) -> BigUint {
    BigUint::parse_bytes(text.as_bytes(), 10).unwrap()
}

fn key() -> RsaPrivateKey {
    RsaPrivateKey::from_components(number(N), BigUint::from(65537u32), number(D), vec![number(P), number(Q)])
        .unwrap()
}

fn config() -> WechatPayConfig {
    WechatPayConfig {
        app_id: "wxapp".to_string(),
        mch_id: "1900000001".to_string(),
        merchant_serial_no: "MERCHANT_SERIAL".to_string(),
        merchant_private_key_file: "merchant.pem".to_string(),
        api_v3_key: API_V3_KEY.to_string(),
        public_key_id: "PUB_KEY_ID_1".to_string(),
        public_key_file: "platform.pem".to_string(),
        notify_url: "https://shop.example.com/api/payments/wechatpay/notify".to_string(),
    }
}

fn public_pem() -> String {
    RsaPublicKey::from(&key()).to_public_key_pem(LineEnding::LF).unwrap()
}

fn client() -> WechatPayClient {
    let private_pem = key().to_pkcs8_pem(LineEnding::LF).unwrap();
    WechatPayClient::from_config(&config(), &private_pem, &public_pem()).unwrap()
}

fn sign(message: &str) -> String {
    let digest = Sha256::digest(message.as_bytes());
    STANDARD.encode(key().sign(Pkcs1v15Sign::new::<Sha256>(), &digest).unwrap())
}

fn headers(timestamp: &str, nonce: &str, signature: &str, serial: &str) -> SignatureHeaders {
    SignatureHeaders {
        timestamp: Some(timestamp.to_string()),
        nonce: Some(nonce.to_string()),
        signature: Some(signature.to_string()),
        serial: Some(serial.to_string()),
    }
}

#[test]
fn merchant_keys_are_read_as_pkcs8_or_pkcs1() {
    let c = client();
    assert_eq!(c.app_id(), "wxapp");
    assert_eq!(c.api_v3_key, API_V3_KEY.as_bytes().to_vec());
    let pkcs1 = key().to_pkcs1_pem(LineEnding::LF).unwrap();
    assert!(WechatPayClient::from_config(&config(), &pkcs1, &public_pem()).is_ok());
    assert!(matches!(
        WechatPayClient::from_config(&config(), "not a key", &public_pem()),
        Err(WechatPayError::InvalidKey(_))
    ));
    let private_pem = key().to_pkcs8_pem(LineEnding::LF).unwrap();
    assert!(matches!(
        WechatPayClient::from_config(&config(), &private_pem, "not a key"),
        Err(WechatPayError::InvalidKey(_))
    ));
    let mut short = config();
    short.api_v3_key = "too-short".to_string();
    match WechatPayClient::from_config(&short, &private_pem, &public_pem()) {
        Err(WechatPayError::InvalidKey(m)) => assert_eq!(m, "APIv3 key must be 32 bytes"),
        _ => panic!("a short APIv3 key must be refused"),
    }
}

#[test]
fn requests_carry_a_signature_of_the_canonical_request() {
    let c = client();
    let header = sign_request(&c, "POST", "/v3/pay/transactions/native", 1_700_000_000, "nonce1", "{}").unwrap();
    let prefix = "WECHATPAY2-SHA256-RSA2048 mchid=\"1900000001\",nonce_str=\"nonce1\",timestamp=\"1700000000\",serial_no=\"MERCHANT_SERIAL\",signature=\"";
    assert!(header.starts_with(prefix));
    assert!(header.ends_with('"'));
    let encoded = &header[prefix.len()..header.len() - 1];
    let signature = STANDARD.decode(encoded).unwrap();
    let digest = Sha256::digest(b"POST\n/v3/pay/transactions/native\n1700000000\nnonce1\n{}\n");
    assert!(RsaPublicKey::from(&key()).verify(Pkcs1v15Sign::new::<Sha256>(), &digest, &signature).is_ok());
}

#[test]
fn answers_are_verified_over_the_raw_body() {
    let c = client();
    let body = "{\"code_url\":\"weixin://wxpay/bizpayurl?pr=abc\"}";
    let signature = sign(&format!("1700000000\nnonce2\n{body}\n"));
    assert!(verify_signed_message(&c, &headers("1700000000", "nonce2", &signature, "PUB_KEY_ID_1"), body).is_ok());
    assert!(matches!(
        verify_signed_message(&c, &headers("1700000000", "nonce2", &signature, "PUB_KEY_ID_1"), "{}"),
        Err(WechatPayError::SignatureVerification)
    ));
    assert!(matches!(
        verify_signed_message(&c, &headers("1700000000", "nonce2", "!!", "PUB_KEY_ID_1"), body),
        Err(WechatPayError::InvalidSignatureEncoding)
    ));
    match verify_signed_message(&c, &headers("1700000000", "nonce2", &signature, "OTHER"), body) {
        Err(WechatPayError::UnexpectedPublicKeyId(s)) => assert_eq!(s, "OTHER"),
        _ => panic!("an unknown platform key must be refused"),
    }
    let mut missing = headers("1700000000", "nonce2", &signature, "PUB_KEY_ID_1");
    missing.nonce = None;
    match verify_signed_message(&c, &missing, body) {
        Err(WechatPayError::MissingSignatureHeader(h)) => assert_eq!(h, "Wechatpay-Nonce"),
        _ => panic!("a missing header must be named"),
    }
}

fn resource(plaintext: &[u8], nonce: &str, aad: &str) -> EncryptedResource {
    let cipher = aes_gcm::Aes256Gcm::new_from_slice(API_V3_KEY.as_bytes()).unwrap();
    let ciphertext = cipher
        .encrypt(aes_gcm::Nonce::from_slice(nonce.as_bytes()), Payload { msg: plaintext, aad: aad.as_bytes() })
        .unwrap();
    EncryptedResource {
        algorithm: "AEAD_AES_256_GCM".to_string(),
        ciphertext: STANDARD.encode(ciphertext),
        associated_data: Some(aad.to_string()),
        nonce: nonce.to_string(),
        original_type: "transaction".to_string(),
    }
}

#[test]
fn notifications_are_decrypted_with_the_api_v3_key() {
    let c = client();
    let plaintext = b"{\"trade_state\":\"SUCCESS\"}";
    let r = resource(plaintext, "0123456789ab", "transaction");
    assert_eq!(decrypt_notification(&c, &r).unwrap(), plaintext.to_vec());

    let mut other_aad = resource(plaintext, "0123456789ab", "transaction");
    other_aad.associated_data = Some("certificate".to_string());
    match decrypt_notification(&c, &other_aad) {
        Err(WechatPayError::Crypto(m)) => assert_eq!(m, "aead::Error"),
        _ => panic!("tampered associated data must not authenticate"),
    }
    let mut no_aad = resource(plaintext, "0123456789ab", "");
    no_aad.associated_data = None;
    assert_eq!(decrypt_notification(&c, &no_aad).unwrap(), plaintext.to_vec());

    let mut short_nonce = resource(plaintext, "0123456789ab", "transaction");
    short_nonce.nonce = "short".to_string();
    match decrypt_notification(&c, &short_nonce) {
        Err(WechatPayError::Crypto(m)) => assert_eq!(m, "notification nonce must be 12 bytes"),
        _ => panic!("a short nonce must be refused"),
    }
    let mut other_algorithm = resource(plaintext, "0123456789ab", "transaction");
    other_algorithm.algorithm = "AES".to_string();
    match decrypt_notification(&c, &other_algorithm) {
        Err(WechatPayError::InvalidResponse(m)) => assert_eq!(m, "unsupported resource algorithm: AES"),
        _ => panic!("another algorithm must be refused"),
    }
}

#[test]
fn native_prepayments_carry_the_order_and_its_deadline() {
    let c = client();
    let order_id: u128 = 0x019c2ddf_78fb_7fe0_8ed8_22577c255c83;
    let long_name = format!("  {}  ", "商".repeat(130));
    let request = native_prepay_request(&c, &long_name, "trade-1", order_id, 1_099, 1_704_038_400_000_000).unwrap();
    assert_eq!(request.appid, "wxapp");
    assert_eq!(request.mchid, "1900000001");
    assert_eq!(request.description, "商".repeat(127));
    assert_eq!(request.out_trade_no, "trade-1");
    assert_eq!(request.time_expire, "2023-12-31T16:00:00+00:00");
    assert_eq!(request.attach, "019c2ddf-78fb-7fe0-8ed8-22577c255c83");
    assert_eq!(request.notify_url, "https://shop.example.com/api/payments/wechatpay/notify");
    assert_eq!(request.amount.total, 1_099);
    assert_eq!(request.amount.currency, "CNY");
    match native_prepay_request(&c, "   ", "trade-1", order_id, 1, 0) {
        Err(WechatPayError::InvalidResponse(m)) => assert_eq!(m, "payment description must not be empty"),
        _ => panic!("an empty description must be refused"),
    }
}
