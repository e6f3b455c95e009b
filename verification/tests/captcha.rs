use qddxp::captcha::{CaptchaError, CaptchaService, check_answer};

#[test]
fn answers_are_trimmed_and_upper_cased() {
    assert!(check_answer(Some("AB3CD".to_string()), " ab3cd "));
    assert!(!check_answer(Some("AB3CD".to_string()), "ab3ce"));
    assert!(!check_answer(None, "AB3CD"));
    assert!(!check_answer(Some("AB3CD".to_string()), "        AB3CD        "));
}

#[test]
fn a_challenge_passes_at_most_once() {
    let mut service = CaptchaService::new();
    let c = service.issue(42, "XY7Z9".to_string(), "png".to_string());
    assert_eq!(c.expires_in_seconds, 300);
    assert!(!service.verify_once(42, "wrong"));
    assert!(!service.verify_once(42, "XY7Z9"));
    service.issue(43, "XY7Z9".to_string(), "png".to_string());
    assert!(service.verify_once(43, "xy7z9"));
    assert!(!service.verify_once(43, "xy7z9"));
    assert!(!service.verify_once(44, "xy7z9"));
    assert_eq!(CaptchaError::ImageGeneration.to_string(), "CAPTCHA image generation returned no PNG data");
}
