use std::collections::BTreeMap;

use qddxp::config::{AppConfig, EpayConfig};
use qddxp::epay::{
    build_payment_url, build_submit_url, format_money, money_to_cents, sign_params,
    trim_end_slash,
};

fn test_config() -> AppConfig {
    AppConfig {
        listen_addr: "127.0.0.1:3000".to_string(),
        database_url: "postgres://example.invalid/test".to_string(),
        public_base_url: "https://shop.example.com/".to_string(),
        web_return_url: "https://shop.example.com/delivery".to_string(),
        web_dist_dir: "web/dist".to_string(),
        shop_name: "测试商店".to_string(),
        shop_logo_file: "deploy/assets/shop-logo.svg".to_string(),
        admin_key: "test-admin-key".to_string(),
        order_password_pepper: "test-password-pepper".to_string(),
        rate_limit_trusted_proxy_cidrs: Vec::new(),
        wechatpay_expire_minutes: 15,
        epay: Some(EpayConfig {
            gateway: "https://pay.example.com/".to_string(),
            pid: "merchant-id".to_string(),
            key: "merchant-secret".to_string(),
        }),
        wechatpay: None,
        telegram: None,
    }
}

#[test]
fn payment_url_contains_complete_parameters_and_valid_signature() {
    let config = test_config();
    // 019c2ddf-78fb-7fe0-8ed8-22577c255c83
    let order_id: u128 = 0x019c2ddf_78fb_7fe0_8ed8_22577c255c83;

    let payment_url = build_payment_url(&config, order_id, "trade-001", "测试商品", 1_099, "alipay")
        .expect("支付配置完整时应当生成支付地址");
    let (submit_url, query) = payment_url
        .split_once('?')
        .expect("支付地址应当包含查询参数");
    let params = query
        .split('&')
        .map(|pair| {
            let (key, value) = pair.split_once('=').expect("查询参数应当包含等号");
            let key = urlencoding::decode(key).expect("参数名应当可以解码").into_owned();
            let value = urlencoding::decode(value).expect("参数值应当可以解码").into_owned();
            (key, value)
        })
        .collect::<BTreeMap<_, _>>();
    let ordered: Vec<(String, String)> = params.clone().into_iter().collect();

    assert_eq!(submit_url, "https://pay.example.com/submit.php");
    assert_eq!(params.get("pid").map(String::as_str), Some("merchant-id"));
    assert_eq!(params.get("money").map(String::as_str), Some("10.99"));
    assert_eq!(params.get("name").map(String::as_str), Some("测试商品"));
    assert_eq!(
        params.get("notify_url").map(String::as_str),
        Some("https://shop.example.com/api/payments/epay/notify")
    );
    assert_eq!(params.get("param").map(String::as_str), Some("019c2ddf-78fb-7fe0-8ed8-22577c255c83"));
    assert_eq!(
        params.get("sign").map(String::as_str),
        Some(sign_params(&ordered, "merchant-secret").as_str())
    );
}

#[test]
fn payment_url_is_absent_without_epay_configuration() {
    let mut config = test_config();
    config.epay = None;
    assert!(build_payment_url(&config, 1, "trade-001", "name", 100, "alipay").is_none());
}

#[test]
fn payment_url_params_are_in_key_order_and_signature_matches_known_digest() {
    let config = test_config();
    let url = build_payment_url(&config, 0, "t1", "n", 5, "wxpay").unwrap();
    let query = url.split_once('?').unwrap().1;
    let keys: Vec<&str> = query.split('&').map(|p| p.split_once('=').unwrap().0).collect();
    assert_eq!(
        keys,
        vec!["money", "name", "notify_url", "out_trade_no", "param", "pid", "return_url", "sign", "sign_type", "type"]
    );
    assert!(query.contains("sign_type=MD5"));
    assert!(query.contains("param=00000000-0000-0000-0000-000000000000"));
    assert!(query.contains("money=0.05"));
}

#[test]
fn sign_params_skips_signature_fields_and_empty_values() {
    let params = vec![
        ("a".to_string(), "1".to_string()),
        ("b".to_string(), "".to_string()),
        ("sign".to_string(), "x".to_string()),
        ("sign_type".to_string(), "MD5".to_string()),
        ("z".to_string(), "2".to_string()),
    ];
    // md5("a=1&z=2key")
    let expected = format!("{:x}", md5::compute("a=1&z=2key"));
    assert_eq!(sign_params(&params, "key"), expected);
}

#[test]
fn format_money_writes_two_decimals() {
    assert_eq!(format_money(1_099), "10.99");
    assert_eq!(format_money(5), "0.05");
    assert_eq!(format_money(100), "1.00");
    assert_eq!(format_money(0), "0.00");
    assert_eq!(format_money(-150), "-1.-50");
    assert_eq!(format_money(-5), "0.-5");
}

#[test]
fn money_to_cents_reads_yuan_amounts() {
    assert_eq!(money_to_cents("10.99"), Some(1_099));
    assert_eq!(money_to_cents(" 1.5 "), Some(150));
    assert_eq!(money_to_cents("7"), Some(700));
    assert_eq!(money_to_cents("7."), Some(700));
    assert_eq!(money_to_cents("0.05"), Some(5));
    assert_eq!(money_to_cents(".5"), None);
    assert_eq!(money_to_cents("1.234"), None);
    assert_eq!(money_to_cents("abc"), None);
    assert_eq!(money_to_cents("1.x"), None);
    assert_eq!(money_to_cents("-1.50"), Some(-50));
}

#[test]
fn formatted_money_reads_back() {
    for cents in [0i64, 1, 9, 10, 99, 100, 101, 1_099, 123_456_789] {
        assert_eq!(money_to_cents(&format_money(cents)), Some(cents));
    }
}

#[test]
fn submit_url_is_normalised() {
    assert_eq!(build_submit_url(" https://pay.example.com// "), "https://pay.example.com/submit.php");
    assert_eq!(build_submit_url("https://pay.example.com/submit.php/"), "https://pay.example.com/submit.php");
    assert_eq!(trim_end_slash("https://a/b///"), "https://a/b");
    assert_eq!(trim_end_slash("///"), "");
}
