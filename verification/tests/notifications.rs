use qddxp::notifications::{
    ChatRecipient, NotifiedOrder, TelegramNotifierError, TelegramRequestFailure, format_money,
    mask_contact, parse_recipient, payment_label, render_order_created, render_payment_confirmed,
    request_error,
};

#[test]
fn money_is_shown_with_currency_symbol() {
    assert_eq!(format_money(1099, "CNY"), "¥10.99");
    assert_eq!(format_money(-5, "CNY"), "-¥0.05");
    assert_eq!(format_money(100, "USD"), "USD1.00");
    assert_eq!(format_money(i64::MIN, "CNY"), "-¥92233720368547758.08");
}

#[test]
fn payment_methods_are_labelled() {
    assert_eq!(payment_label("epay", "alipay"), "支付宝（易支付）");
    assert_eq!(payment_label("epay", "wxpay"), "微信（易支付）");
    assert_eq!(payment_label("wechatpay", "native"), "微信支付（官方）");
    assert_eq!(payment_label("x", "y"), "x/y");
}

#[test]
fn contacts_are_masked_to_their_length() {
    assert_eq!(mask_contact(""), "");
    assert_eq!(mask_contact("abcd"), "****");
    assert_eq!(mask_contact("13800138000"), "13*******00");
    assert_eq!(mask_contact("微信号abc"), "微信**bc");
    for c in ["a", "abcde", "联系方式很长很长"] {
        assert_eq!(mask_contact(c).chars().count(), c.chars().count());
    }
}

#[test]
fn recipients_are_numbers_or_channel_names() {
    assert_eq!(parse_recipient("-1001234").unwrap(), ChatRecipient::Id(-1001234));
    assert_eq!(parse_recipient("@shop").unwrap(), ChatRecipient::ChannelUsername("@shop".to_string()));
    assert!(matches!(parse_recipient("@"), Err(TelegramNotifierError::InvalidChatId)));
    assert!(matches!(parse_recipient("shop"), Err(TelegramNotifierError::InvalidChatId)));
}

#[test]
fn request_errors_never_carry_network_details() {
    assert_eq!(request_error(TelegramRequestFailure::Network).to_string(), "Telegram network request failed");
    assert_eq!(request_error(TelegramRequestFailure::Io).to_string(), "Telegram request IO failed");
    assert_eq!(request_error(TelegramRequestFailure::RetryAfter(7)).to_string(), "Telegram rate limited the bot; retry after 7s");
    assert_eq!(request_error(TelegramRequestFailure::MigrateToChatId(-42)).to_string(), "Telegram chat migrated to -42");
    assert_eq!(request_error(TelegramRequestFailure::Api("bad".to_string())).to_string(), "Telegram API error: bad");
}

fn order() -> NotifiedOrder {
    NotifiedOrder {
        id: 0x019c2ddf78fb7fe08ed822577c255c83,
        product_name_snapshot: "会员卡".to_string(),
        amount_cents: 1099,
        currency: "CNY".to_string(),
        contact: "13800138000".to_string(),
        created_at: 0,
        expires_at: 180_000_000,
    }
}

#[test]
fn messages_name_the_order_and_mask_the_contact() {
    let text = render_order_created(&order(), "epay", "alipay");
    assert_eq!(
        text,
        "🛒 新订单\n\n订单：019c2ddf-78fb-7fe0-8ed8-22577c255c83\n商品：会员卡\n金额：¥10.99\n支付：支付宝（易支付）\n联系：13*******00\n状态：待付款\n下单时间：1970-01-01 00:00:00 UTC\n过期时间：1970-01-01 00:03:00 UTC"
    );
    let late = render_payment_confirmed(&order(), "epay", "wxpay", "T1", 60_000_000, false);
    assert!(late.starts_with("🚨 超时后到账\n\n"));
    assert!(late.ends_with("处理结果：已收款但未交付，请立即人工处理"));
    let ok = render_payment_confirmed(&order(), "wechatpay", "native", "T1", 60_000_000, true);
    assert!(ok.contains("交易号：T1\n支付时间：1970-01-01 00:01:00 UTC"));
}
