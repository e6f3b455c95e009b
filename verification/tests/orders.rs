use qddxp::config::AppConfig;
use qddxp::domain::{PaymentChannel, PaymentProvider};
use qddxp::error::AppError;
use qddxp::orders::{
    CreateOrderRequest, ListOrdersByContactRequest, OrderDraft, PaymentAction,
    PaymentSelectionRequest, ProductInfoRow, PublishPaymentAttemptOutcome, authorize_order_query,
    check_query_password, count_of, epay_order_response, fail_attempt_if_created, get_storefront,
    list_payment_methods, plan_order_creation, product_list_items, public_product,
    released_content_item, validate_contact, validate_order_request, validate_orders_by_contact,
    wechatpay_order_response, wechatpay_prepay_failed_response, WECHATPAY_ENTRY_EXPIRED,
};
use qddxp::security::hash_order_password;

fn request(contact: &str, password: &str, provider: &str, channel: &str) -> CreateOrderRequest {
    CreateOrderRequest {
        product_info_id: 7,
        contact: contact.to_string(),
        order_password: password.to_string(),
        payment: PaymentSelectionRequest { provider: provider.to_string(), channel: channel.to_string() },
    }
}

fn message(e: AppError) -> String {
    e.to_string()
}

#[test]
fn contact_is_trimmed_and_bounded_in_characters() {
    assert_eq!(validate_contact("  qq 123 ").unwrap(), "qq 123");
    assert_eq!(message(validate_contact("   ").unwrap_err()), "contact is required");
    let fifty = "联".repeat(50);
    assert_eq!(validate_contact(&fifty).unwrap(), fifty);
    let fifty_one = "联".repeat(51);
    assert_eq!(
        message(validate_contact(&fifty_one).unwrap_err()),
        "contact must be at most 50 characters"
    );
}

#[test]
fn order_request_checks_in_order() {
    let ok = validate_order_request(&request(" me ", "secret", " epay ", "alipay"), true, false, "pepper", 15).unwrap();
    assert_eq!(ok.contact, "me");
    assert_eq!(ok.provider, PaymentProvider::Epay);
    assert_eq!(ok.channel, PaymentChannel::Alipay);
    assert_eq!(ok.reservation_minutes, 3);
    assert_eq!(ok.password_hash, hash_order_password("secret", "pepper").unwrap());
    let m = |r: CreateOrderRequest, e: bool, w: bool| message(validate_order_request(&r, e, w, "p", 15).unwrap_err());
    assert_eq!(m(request("me", "12345", "epay", "alipay"), true, true), "order_password must be at least 6 characters");
    // Characters are counted, not bytes.
    assert_eq!(m(request("me", "密码", "epay", "alipay"), true, true), "order_password must be at least 6 characters");
    assert!(validate_order_request(&request("me", "六位中文密码", "epay", "alipay"), true, true, "p", 15).is_ok());
    assert_eq!(m(request("me", "secret", "paypal", "alipay"), true, true), "unsupported payment provider");
    assert_eq!(m(request("me", "secret", "epay", "card"), true, true), "unsupported payment channel");
    assert_eq!(m(request("me", "secret", "epay", "native"), true, true), "unsupported payment provider/channel combination");
    assert_eq!(m(request("me", "secret", "wechatpay", "native"), true, false), "selected payment provider is not configured");
    let w = validate_order_request(&request("me", "secret", "wechatpay", "native"), false, true, "p", 42).unwrap();
    assert_eq!(w.reservation_minutes, 42);
}

fn draft() -> OrderDraft {
    validate_order_request(&request("me", "secret", "epay", "wxpay"), true, true, "p", 15).unwrap()
}

#[test]
fn order_creation_reserves_one_item() {
    let d = draft();
    let now = 1_000_000_000;
    let c = plan_order_creation(&d, 7, Some(("卡".to_string(), 990)), Some(55), 1, 0xabc, now).unwrap();
    assert_eq!(c.reserve_product_id, 55);
    assert_eq!(c.order.product_id, Some(55));
    assert_eq!(c.order.status, "pending");
    assert_eq!(c.order.expires_at, now + 3 * 60_000_000);
    assert_eq!(c.order.amount_cents, 990);
    assert_eq!(c.attempt.state, "created");
    assert_eq!(c.attempt.channel, "wxpay");
    assert_eq!(c.attempt.merchant_trade_no, "00000000000000000000000000000abc");
    assert_eq!(c.attempt.merchant_trade_no.len(), 32);
    assert!(matches!(plan_order_creation(&d, 7, None, Some(55), 1, 2, now), Err(AppError::NotFound(m)) if m == "product info not found"));
    assert!(matches!(plan_order_creation(&d, 7, Some(("x".to_string(), 1)), None, 1, 2, now), Err(AppError::Conflict(m)) if m == "product is out of stock"));
}

fn config_with_epay() -> AppConfig {
    AppConfig {
        listen_addr: "0.0.0.0:3000".to_string(),
        database_url: "postgres://db".to_string(),
        public_base_url: "https://shop.example.com".to_string(),
        web_return_url: "https://shop.example.com/orders".to_string(),
        web_dist_dir: "web".to_string(),
        shop_name: "店".to_string(),
        shop_logo_file: "logo.svg".to_string(),
        admin_key: "k".to_string(),
        order_password_pepper: "p".to_string(),
        rate_limit_trusted_proxy_cidrs: Vec::new(),
        wechatpay_expire_minutes: 15,
        epay: Some(qddxp::config::EpayConfig {
            gateway: "https://pay.example.com".to_string(),
            pid: "1".to_string(),
            key: "k".to_string(),
        }),
        wechatpay: None,
        telegram: None,
    }
}

#[test]
fn order_responses_follow_the_publication() {
    let d = draft();
    let c = plan_order_creation(&d, 7, Some(("卡".to_string(), 990)), Some(55), 1, 2, 0).unwrap();
    let config = config_with_epay();
    let r = epay_order_response(&config, &c, PublishPaymentAttemptOutcome::Ready);
    assert!(matches!(r.payment_action, Some(PaymentAction::Redirect { ref url }) if url.starts_with("https://pay.example.com/submit.php?")));
    assert_eq!(r.status, "pending");
    let r = epay_order_response(&config, &c, PublishPaymentAttemptOutcome::AlreadyDelivered);
    assert_eq!(r.status, "delivered");
    assert!(r.payment_action.is_none());
    let r = epay_order_response(&config, &c, PublishPaymentAttemptOutcome::Unavailable);
    assert!(r.payment_error.is_some());
    let (r, close) = wechatpay_order_response(&c, "weixin://pay".to_string(), PublishPaymentAttemptOutcome::Unavailable);
    assert!(close);
    assert_eq!(r.payment_error.as_deref(), Some(WECHATPAY_ENTRY_EXPIRED));
    let (r, close) = wechatpay_order_response(&c, "weixin://pay".to_string(), PublishPaymentAttemptOutcome::Ready);
    assert!(!close);
    assert!(matches!(r.payment_action, Some(PaymentAction::QrCode { ref content, expires_at }) if content == "weixin://pay" && expires_at == c.order.expires_at));
    assert!(wechatpay_prepay_failed_response(&c).payment_error.is_some());
    assert!(fail_attempt_if_created("created"));
    assert!(!fail_attempt_if_created("closed"));
}

#[test]
fn payment_methods_follow_the_configuration() {
    assert!(list_payment_methods(false, false).is_empty());
    let m = list_payment_methods(true, true);
    let labels: Vec<_> = m.iter().map(|x| (x.provider.as_str(), x.channel.as_str(), x.action_type.as_str())).collect();
    assert_eq!(labels, vec![("epay", "alipay", "redirect"), ("epay", "wxpay", "redirect"), ("wechatpay", "native", "qr_code")]);
    assert_eq!(list_payment_methods(false, true).len(), 1);
}

#[test]
fn contact_listing_checks_contact_then_page() {
    let r = ListOrdersByContactRequest { contact: " me ".to_string(), page: Some(2), page_size: Some(500) };
    assert_eq!(validate_orders_by_contact(&r).unwrap(), ("me".to_string(), 2, 100, 100));
    let r = ListOrdersByContactRequest { contact: "".to_string(), page: Some(0), page_size: None };
    assert_eq!(message(validate_orders_by_contact(&r).unwrap_err()), "contact is required");
    let r = ListOrdersByContactRequest { contact: "me".to_string(), page: Some(0), page_size: None };
    assert_eq!(message(validate_orders_by_contact(&r).unwrap_err()), "page must be greater than 0");
}

#[test]
fn order_query_needs_the_password_and_reveals_only_delivered_content() {
    assert!(check_query_password("").is_err());
    assert!(check_query_password("x").is_ok());
    let hash = hash_order_password("secret", "pepper").unwrap();
    assert!(authorize_order_query("secret", &hash, "pepper").is_ok());
    assert!(matches!(authorize_order_query("wrong!", &hash, "pepper"), Err(AppError::Unauthorized)));
    assert_eq!(released_content_item("delivered", Some(9)), Some(9));
    assert_eq!(released_content_item("pending", Some(9)), None);
}

#[test]
fn product_items_join_the_tallies() {
    let infos = vec![
        ProductInfoRow { id: 1, image_base64: None, name: "a".to_string(), details: "".to_string(), price_cents: 5 },
        ProductInfoRow { id: 2, image_base64: Some("img".to_string()), name: "b".to_string(), details: "d".to_string(), price_cents: 6 },
    ];
    let stock = vec![(2u128, 4i64)];
    let sold = vec![(1u128, 3i64), (2u128, 1i64)];
    let items = product_list_items(infos.clone(), &stock, &sold);
    assert_eq!((items[0].stock, items[0].sold_count), (0, 3));
    assert_eq!((items[1].stock, items[1].sold_count), (4, 1));
    assert_eq!(count_of(&stock, 9), 0);
    assert!(matches!(public_product(None, &stock, &sold), Err(AppError::NotFound(_))));
    assert_eq!(public_product(Some(infos[1].clone()), &stock, &sold).unwrap().stock, 4);
    let config = config_with_epay();
    assert_eq!(get_storefront(&config).logo_url, "/api/storefront/logo");
}
