use qddxp::config::{
    AppConfig, ConfigError, EnvVars, is_svg, optional_nonempty_value, parse_trusted_proxy_cidrs,
    telegram_config_from_values,
};
use qddxp::net::{IpAddress, IpNetwork};

const SVG: &[u8] = br#"<svg xmlns="http://www.w3.org/2000/svg"></svg>"#;

#[test]
fn shop_logo_content_accepts_svg_without_relying_on_extension() {
    assert!(is_svg(
        br#"<?xml version="1.0"?><svg xmlns="http://www.w3.org/2000/svg"></svg>"#
    ));
    assert!(is_svg(br#"<svg viewBox="0 0 10 10"></svg>"#));
}

#[test]
fn shop_logo_content_rejects_non_svg_or_invalid_xml() {
    assert!(!is_svg(&[0x89, 0x50, 0x4E, 0x47]));
    assert!(!is_svg(b"<html></html>"));
    assert!(!is_svg(b"<svg>"));
}

#[test]
fn svg_in_another_namespace_is_rejected() {
    assert!(!is_svg(br#"<svg xmlns="http://example.com/other"></svg>"#));
}

#[test]
fn trusted_proxy_cidrs_are_trimmed_and_validated() {
    assert_eq!(
        parse_trusted_proxy_cidrs(Some("127.0.0.1/32, 10.0.0.0/8")).expect("合法 CIDR 应当可以解析"),
        vec![
            IpNetwork { addr: IpAddress::V4(0x7f00_0001), prefix_len: 32 },
            IpNetwork { addr: IpAddress::V4(0x0a00_0000), prefix_len: 8 }
        ]
    );
    assert!(parse_trusted_proxy_cidrs(Some("10.0.0.1")).is_err());
    assert!(parse_trusted_proxy_cidrs(Some("")).unwrap().is_empty());
}

#[test]
fn trusted_proxy_cidrs_report_the_first_invalid_item() {
    match parse_trusted_proxy_cidrs(Some("10.0.0.0/8, bad ,also-bad")) {
        Err(ConfigError::InvalidTrustedProxyCidr(item)) => assert_eq!(item, "bad"),
        other => panic!("unexpected {:?}", other.map(|v| v.len())),
    }
    assert!(parse_trusted_proxy_cidrs(None).unwrap().is_empty());
    assert_eq!(parse_trusted_proxy_cidrs(Some(" , ,")).unwrap().len(), 0);
}

#[test]
fn ip_networks_parse_to_integers() {
    assert_eq!(
        parse_trusted_proxy_cidrs(Some("10.0.0.0/8")).unwrap(),
        vec![IpNetwork { addr: IpAddress::V4(0x0a00_0000), prefix_len: 8 }]
    );
    assert_eq!(
        parse_trusted_proxy_cidrs(Some("::1/128")).unwrap(),
        vec![IpNetwork { addr: IpAddress::V6(1), prefix_len: 128 }]
    );
    assert_eq!(
        parse_trusted_proxy_cidrs(Some("10.0.0.1/24")).unwrap(),
        vec![IpNetwork { addr: IpAddress::V4(0x0a00_0001), prefix_len: 24 }]
    );
    assert!(parse_trusted_proxy_cidrs(Some("10.0.0.0/33")).is_err());
}

#[test]
fn optional_values_are_trimmed_and_blank_is_absent() {
    assert_eq!(optional_nonempty_value(Some("  x ".to_string())), Some("x".to_string()));
    assert_eq!(optional_nonempty_value(Some("   ".to_string())), None);
    assert_eq!(optional_nonempty_value(None), None);
}

#[test]
fn telegram_needs_both_values_or_neither() {
    assert!(matches!(telegram_config_from_values(None, None), Ok(None)));
    assert!(matches!(
        telegram_config_from_values(Some(" ".to_string()), Some("".to_string())),
        Ok(None)
    ));
    let t = telegram_config_from_values(Some(" token ".to_string()), Some("@chan".to_string()))
        .unwrap()
        .unwrap();
    assert_eq!(t.bot_token, "token");
    assert_eq!(t.chat_id, "@chan");
    assert!(matches!(
        telegram_config_from_values(Some("token".to_string()), None),
        Err(ConfigError::IncompleteTelegramConfig)
    ));
}

fn base_env() -> EnvVars {
    EnvVars {
        database_url: Some("postgres://db".to_string()),
        web_dist_dir: Some("web/dist".to_string()),
        shop_name: Some("  小店 ".to_string()),
        shop_logo_file: Some("logo.svg".to_string()),
        admin_key: Some("admin".to_string()),
        ..EnvVars::default()
    }
}

fn load(vars: &EnvVars) -> Result<AppConfig, ConfigError> {
    AppConfig::from_values(vars, None, Ok(SVG.to_vec()))
}

#[test]
fn configuration_defaults_apply() {
    let c = load(&base_env()).unwrap_or_else(|e| panic!("{}", e.to_string()));
    assert_eq!(c.listen_addr, "0.0.0.0:3000");
    assert_eq!(c.public_base_url, "http://localhost:3000");
    assert_eq!(c.web_return_url, "http://localhost:5173/orders");
    assert_eq!(c.shop_name, "小店");
    assert_eq!(c.order_password_pepper, "dev-insecure-change-me");
    assert_eq!(c.wechatpay_expire_minutes, 15);
    assert!(c.epay.is_none());
    assert!(c.wechatpay.is_none());
    assert!(c.telegram.is_none());
}

#[test]
fn configuration_errors_come_in_order() {
    let mut vars = base_env();
    vars.database_url = None;
    assert_eq!(
        load(&vars).err().unwrap().to_string(),
        "missing required environment variable: DATABASE_URL"
    );
    let vars = base_env();
    assert!(matches!(
        AppConfig::from_values(&vars, Some("bad addr".to_string()), Ok(SVG.to_vec())),
        Err(ConfigError::InvalidListenAddr(_))
    ));
    let mut vars = base_env();
    vars.shop_name = Some("   ".to_string());
    assert!(matches!(load(&vars), Err(ConfigError::InvalidShopName)));
    let vars = base_env();
    assert!(matches!(
        AppConfig::from_values(&vars, None, Ok(b"<html/>".to_vec())),
        Err(ConfigError::UnsupportedShopLogo(f)) if f == "logo.svg"
    ));
    assert!(matches!(
        AppConfig::from_values(&vars, None, Err("missing".to_string())),
        Err(ConfigError::UnreadableShopLogo { .. })
    ));
    let mut vars = base_env();
    vars.wxpay_expire_minutes = Some("121".to_string());
    assert!(matches!(load(&vars), Err(ConfigError::InvalidPositiveInteger(_))));
}

#[test]
fn epay_is_enabled_only_with_all_three_values() {
    let mut vars = base_env();
    vars.epay_gateway = Some("https://pay.example.com".to_string());
    vars.epay_pid = Some("1".to_string());
    assert!(load(&vars).unwrap().epay.is_none());
    vars.epay_key = Some(" k ".to_string());
    let e = load(&vars).unwrap().epay.unwrap();
    assert_eq!(e.key, "k");
}

#[test]
fn wechatpay_configuration_is_all_or_nothing() {
    let mut vars = base_env();
    vars.wxpay_app_id = Some("wx1".to_string());
    assert_eq!(
        load(&vars).err().unwrap().to_string(),
        "incomplete payment configuration: all WXPAY credential values must be configured together"
    );
    vars.wxpay_mch_id = Some("m".to_string());
    vars.wxpay_merchant_serial_no = Some("s".to_string());
    vars.wxpay_api_v3_key = Some("0123456789abcdef0123456789abcdef".to_string());
    vars.wxpay_public_key_id = Some("PUB".to_string());
    assert!(matches!(load(&vars), Err(ConfigError::WechatPayRequiresHttps)));
    vars.public_base_url = Some("https://shop.example.com//".to_string());
    assert!(matches!(load(&vars), Err(ConfigError::IncompletePaymentConfig(_))));
    vars.wxpay_merchant_private_key_file = Some("/keys/merchant.pem".to_string());
    vars.wxpay_public_key_file = Some("/keys/pub.pem".to_string());
    let w = load(&vars).unwrap().wechatpay.unwrap();
    assert_eq!(w.notify_url, "https://shop.example.com/api/payments/wechatpay/notify");
    vars.wxpay_api_v3_key = Some("short".to_string());
    assert_eq!(
        load(&vars).err().unwrap().to_string(),
        "incomplete payment configuration: WXPAY_API_V3_KEY must contain exactly 32 bytes"
    );
}
