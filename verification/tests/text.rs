use qddxp::decimal::{i64_text, parse_i64};
use qddxp::error::{AppError, DbError};
use qddxp::pagination::{OffsetPagination, normalize_offset_page};
use qddxp::text::{eq_ignore_ascii_case, split_char, to_ascii_uppercase, trim};
use qddxp::admin::{AdminProductQuery, parse_admin_product_query};
use qddxp::domain::{PaymentChannel, PaymentProvider};
use qddxp::epay::encode_query;
use qddxp::notifications::{NotifiedOrder, render_order_created};
use qddxp::orders::{OrderDraft, plan_order_creation};
use qddxp::payments::wechatpay::{WechatPayTransaction, WechatPayTransactionAmount};
use qddxp::security::hash_order_password;
use qddxp::wechatpay_notify::parse_success_time;

#[test]
fn integers_format_and_parse_like_std() {
    for v in [0i64, 7, -7, 10, 1234567890, i64::MAX, i64::MIN] {
        assert_eq!(i64_text(v), v.to_string());
        assert_eq!(parse_i64(&v.to_string()), Some(v));
    }
    for s in ["", "+", "-", "1a", " 1", "9223372036854775808", "-9223372036854775809", "１"] {
        assert_eq!(parse_i64(s), s.parse::<i64>().ok(), "{s:?}");
    }
    assert_eq!(parse_i64("+12"), Some(12));
    assert_eq!(parse_i64("-0"), Some(0));
}

#[test]
fn text_helpers_match_std() {
    assert_eq!(trim("\u{3000} a b \n"), "a b");
    assert_eq!(split_char("a,,b,", ','), vec!["a", "", "b", ""]);
    assert_eq!(split_char("", ','), vec![""]);
    assert_eq!(to_ascii_uppercase("aZ9é"), "AZ9é");
    assert!(eq_ignore_ascii_case("Md5", "mD5"));
    assert!(!eq_ignore_ascii_case("md5", "md6"));
}

const ID_TEXT: &str = "019c2ddf-78fb-7fe0-8ed8-22577c255c83";
const ID: u128 = 0x019c2ddf_78fb_7fe0_8ed8_22577c255c83;

#[test]
fn uuids_are_read_and_written_like_the_uuid_crate() {
    let query = |id: &str| AdminProductQuery { product_info_id: Some(id.to_string()), ..Default::default() };
    assert_eq!(parse_admin_product_query(&query(ID_TEXT)).unwrap().product_info_id, Some(ID));
    assert_eq!(
        parse_admin_product_query(&query("019C2DDF78FB7FE08ED822577C255C83")).unwrap().product_info_id,
        Some(ID)
    );
    let refused = parse_admin_product_query(&query("nope")).unwrap_err();
    assert_eq!(refused.status_and_message(), (400, "product_info_id must be a uuid".to_string()));

    let order = NotifiedOrder {
        id: ID,
        product_name_snapshot: "卡".to_string(),
        amount_cents: 1,
        currency: "CNY".to_string(),
        contact: "c".to_string(),
        created_at: 0,
        expires_at: 1_704_038_400_000_000,
    };
    let text = render_order_created(&order, "epay", "alipay");
    assert!(text.contains(&format!("订单：{ID_TEXT}\n")));
    assert!(text.contains("下单时间：1970-01-01 00:00:00 UTC"));
    assert!(text.contains("过期时间：2023-12-31 16:00:00 UTC"));

    let draft = OrderDraft {
        contact: "c".to_string(),
        password_hash: "h".to_string(),
        provider: PaymentProvider::Epay,
        channel: PaymentChannel::Alipay,
        reservation_minutes: 3,
    };
    let creation = plan_order_creation(&draft, 1, Some(("n".to_string(), 5)), Some(2), 3, ID, 0).unwrap();
    assert_eq!(creation.attempt.merchant_trade_no, "019c2ddf78fb7fe08ed822577c255c83");
}

#[test]
fn digests_and_encodings_follow_their_crates() {
    // HMAC-SHA256 test vector, written as lower-case hexadecimal.
    assert_eq!(
        hash_order_password("The quick brown fox jumps over the lazy dog", "key").unwrap(),
        "f7bc83f430538424b13298e6aa6fb143ef4d59a14946175997479dbc2d1a3cd8"
    );
    assert_eq!(
        encode_query(&vec![("a b".to_string(), "&测".to_string()), ("k".to_string(), "v-_.~".to_string())]),
        "a%20b=%26%E6%B5%8B&k=v-_.~"
    );
    let mut transaction = WechatPayTransaction {
        appid: "wx".to_string(),
        mchid: "m".to_string(),
        out_trade_no: "t".to_string(),
        transaction_id: "tx".to_string(),
        trade_type: "NATIVE".to_string(),
        trade_state: "SUCCESS".to_string(),
        success_time: Some("2024-01-01T00:00:00+08:00".to_string()),
        attach: None,
        amount: WechatPayTransactionAmount { total: 1, payer_total: None, currency: "CNY".to_string(), payer_currency: None },
    };
    assert_eq!(parse_success_time(&transaction), Ok(1_704_038_400_000_000));
    transaction.success_time = Some("2024-01-01 00:00:00".to_string());
    assert_eq!(parse_success_time(&transaction), Err("微信支付成功时间格式无效".to_string()));
}

#[test]
fn errors_answer_without_internal_details() {
    assert_eq!(AppError::BadRequest("x".to_string()).status_and_message(), (400, "x".to_string()));
    assert_eq!(AppError::Unauthorized.status_and_message(), (401, "unauthorized".to_string()));
    assert_eq!(AppError::Conflict("c".to_string()).status_and_message(), (409, "c".to_string()));
    assert_eq!(AppError::Database(DbError::Other("secret".to_string())).status_and_message(), (500, "internal server error".to_string()));
    assert_eq!(AppError::Pool("p".to_string()).to_string(), "connection pool error");
}

#[test]
fn pages_are_normalised() {
    assert_eq!(normalize_offset_page(&OffsetPagination::default()).unwrap(), (1, 20, 0));
    assert_eq!(normalize_offset_page(&OffsetPagination { page: Some(3), page_size: Some(1000) }).unwrap(), (3, 100, 200));
    assert!(normalize_offset_page(&OffsetPagination { page: Some(0), page_size: None }).is_err());
    assert!(normalize_offset_page(&OffsetPagination { page: Some(1), page_size: Some(0) }).is_err());
}
