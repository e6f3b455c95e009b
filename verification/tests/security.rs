use qddxp::security::{hash_order_password, verify_admin_key, verify_order_password};

#[test]
fn admin_key_comparison() {
    assert!(verify_admin_key("k3y-value", "k3y-value"));
    assert!(!verify_admin_key("k3y-valuf", "k3y-value"));
    assert!(!verify_admin_key("", "k3y-value"));
}

#[test]
fn order_password_hash_is_hex_hmac_and_verifies() {
    let h = hash_order_password("secret", "pepper").unwrap();
    assert_eq!(h.len(), 64);
    assert!(h.chars().all(|c| c.is_ascii_hexdigit() && !c.is_ascii_uppercase()));
    assert!(verify_order_password("secret", &h, "pepper").unwrap());
    assert!(!verify_order_password("secret", &h, "other").unwrap());
    assert!(!verify_order_password("Secret", &h, "pepper").unwrap());
    // HMAC-SHA256(key = "key", message = "The quick brown fox jumps over the lazy dog")
    assert_eq!(
        hash_order_password("The quick brown fox jumps over the lazy dog", "key").unwrap(),
        "f7bc83f430538424b13298e6aa6fb143ef4d59a14946175997479dbc2d1a3cd8"
    );
}
