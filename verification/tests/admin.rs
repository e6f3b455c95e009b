use qddxp::admin::{
    AdminLoginRequest, AdminProductQuery, CreateProductInfoRequest, ProductInfoWriteFailure,
    UpdateProductStatusRequest, create_product_info_values, create_product_response,
    dedup_contents, login, mask_contents, mask_product_content, parse_admin_product_query,
    plan_product_status_update, plan_restock, product_contents, product_info_write_error,
    product_status_response, require_admin, validate_announcement, validate_order_remark,
    validate_product_info,
};
use qddxp::domain::ProductStatus;
use qddxp::error::AppError;

fn msg(e: AppError) -> String {
    e.to_string()
}

#[test]
fn login_accepts_only_the_configured_key() {
    let ok = login(&AdminLoginRequest { admin_key: "secret-key".to_string() }, "secret-key").unwrap();
    assert!(ok.authenticated);
    assert!(matches!(
        login(&AdminLoginRequest { admin_key: "secret-kex".to_string() }, "secret-key"),
        Err(AppError::Unauthorized)
    ));
    assert!(require_admin(true).is_ok());
    assert!(matches!(require_admin(false), Err(AppError::Unauthorized)));
}

#[test]
fn masking_shows_four_stars_and_the_last_four_characters() {
    assert_eq!(mask_product_content("abcdefghi"), "****fghi");
    assert_eq!(mask_product_content("abcd"), "****abcd");
    assert_eq!(mask_product_content("卡密卡密卡密"), "****卡密卡密");
    assert_eq!(mask_product_content(""), "****");
    let masked = mask_contents(vec![Some("abcdef".to_string()), None]);
    assert_eq!(masked, vec![Some("****cdef".to_string()), None]);
}

#[test]
fn announcement_and_remark_limits_count_characters() {
    assert_eq!(validate_announcement("  hi  ").unwrap(), "hi");
    assert!(validate_announcement(&"公".repeat(10_000)).is_ok());
    assert_eq!(msg(validate_announcement(&"公".repeat(10_001)).unwrap_err()), "公告内容不能超过 10000 个字符");
    assert_eq!(validate_order_remark(" a\nb ").unwrap(), "a\nb");
    assert_eq!(msg(validate_order_remark(&"x".repeat(1_001)).unwrap_err()), "备注不能超过 1000 个字符");
}

#[test]
fn product_info_checks() {
    assert_eq!(msg(validate_product_info("  ", 1).unwrap_err()), "name is required");
    assert_eq!(msg(validate_product_info("n", -1).unwrap_err()), "price_cents must be greater than or equal to 0");
    assert!(validate_product_info("n", 0).is_ok());
    let v = create_product_info_values(&CreateProductInfoRequest {
        image_base64: None,
        name: " 名 ".to_string(),
        details: Some(" d ".to_string()),
        price_cents: 1,
        active: None,
    })
    .unwrap();
    assert_eq!((v.name.as_str(), v.details.as_str(), v.active), ("名", "d", true));
}

#[test]
fn duplicate_product_names_are_conflicts() {
    let e = product_info_write_error(ProductInfoWriteFailure::UniqueViolation {
        constraint: Some("product_info_name_unique".to_string()),
    });
    assert!(matches!(e, AppError::Conflict(m) if m == "商品名称已存在"));
    let e = product_info_write_error(ProductInfoWriteFailure::NotFound);
    assert_eq!(e.status_and_message(), (404, "resource not found".to_string()));
    let e = product_info_write_error(ProductInfoWriteFailure::Other("x".to_string()));
    assert_eq!(e.status_and_message().0, 500);
}

#[test]
fn restock_contents_are_trimmed_checked_and_deduplicated() {
    let items = vec![" abcd ".to_string(), "".to_string(), "line1\nline2".to_string(), "abcd".to_string()];
    let contents = product_contents(&items).unwrap();
    assert_eq!(contents, vec!["abcd".to_string(), "line1\nline2".to_string(), "abcd".to_string()]);
    assert_eq!(dedup_contents(&contents), vec!["abcd".to_string(), "line1\nline2".to_string()]);
    assert_eq!(msg(product_contents(&vec!["  ".to_string()]).unwrap_err()), "contents is required");
    assert_eq!(msg(product_contents(&vec!["abcd".to_string(), "abc".to_string()]).unwrap_err()), "每条发货内容不得少于 4 位");
    let rows = plan_restock(true, 9, &vec!["abcd".to_string()], &vec![77]).unwrap();
    assert_eq!((rows[0].id, rows[0].status.as_str()), (77, "available"));
    assert!(matches!(plan_restock(false, 9, &vec![], &vec![]), Err(AppError::NotFound(_))));
    let r = create_product_response(3, 2);
    assert_eq!((r.submitted, r.stocked, r.duplicates), (3, 2, 1));
    assert_eq!(create_product_response(1, 2).duplicates, 0);
}

#[test]
fn status_changes_move_only_between_available_and_disabled() {
    let u = plan_product_status_update(&UpdateProductStatusRequest { product_ids: vec![1, 2, 1, 3, 2], status: " disabled ".to_string() }).unwrap();
    assert_eq!(u.product_ids, vec![1, 2, 3]);
    assert_eq!(u.source_status, ProductStatus::Available);
    assert_eq!(u.target_status, ProductStatus::Disabled);
    let r = product_status_response(&u, 2);
    assert_eq!((r.selected, r.updated, r.ignored, r.status.as_str()), (3, 2, 1, "disabled"));
    let bad = |ids: Vec<u128>, s: &str| msg(plan_product_status_update(&UpdateProductStatusRequest { product_ids: ids, status: s.to_string() }).unwrap_err());
    assert_eq!(bad(vec![1], "reserved"), "status must be available or disabled");
    assert_eq!(bad(vec![1], "nope"), "status must be available or disabled");
    assert_eq!(bad(vec![], "available"), "product_ids is required");
}

#[test]
fn inventory_filters_are_checked() {
    let q = AdminProductQuery { page: None, page_size: None, product_info_id: Some("  ".to_string()), status: Some(" reserved ".to_string()) };
    let f = parse_admin_product_query(&q).unwrap();
    assert_eq!((f.page, f.page_size, f.offset), (1, 20, 0));
    assert_eq!(f.product_info_id, None);
    assert_eq!(f.status, Some(ProductStatus::Reserved));
    let q = AdminProductQuery { product_info_id: Some("not-a-uuid".to_string()), ..AdminProductQuery::default() };
    assert_eq!(msg(parse_admin_product_query(&q).unwrap_err()), "product_info_id must be a uuid");
    let q = AdminProductQuery { status: Some("gone".to_string()), ..AdminProductQuery::default() };
    assert_eq!(msg(parse_admin_product_query(&q).unwrap_err()), "status must be available, reserved, delivered, or disabled");
    let q = AdminProductQuery { product_info_id: Some("019c2ddf-78fb-7fe0-8ed8-22577c255c83".to_string()), ..AdminProductQuery::default() };
    assert_eq!(parse_admin_product_query(&q).unwrap().product_info_id, Some(0x019c2ddf78fb7fe08ed822577c255c83));
}
