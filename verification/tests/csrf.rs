use authust::csrf::{
    check_cookie, check_csrf, generate_csrf, mask_csrf, mask_op, overflowing_sub_chars,
    unmask_csrf, validate_token, CsrfCookieError, CsrfLayer, CsrfRejection, HeaderValue,
    CSRF_SECRET_LENGTH, CSRF_TOKEN_LENGTH,
};

#[test]
fn test_mask() {
    let secret = generate_csrf();
    let masked = mask_csrf(&secret);
    assert_eq!(secret, unmask_csrf(&masked));
}

#[test]
fn test_secret_validate() {
    let secret = generate_csrf();
    assert!(validate_token(&secret, &secret), "Secret validation failed");
}

#[test]
fn test_token_validation() {
    let secret = generate_csrf();
    let masked = mask_csrf(&secret);
    assert!(validate_token(&masked, &secret), "Token validation failed");
}

#[test]
fn generated_secret_is_alphanumeric_of_fixed_length() {
    let secret = generate_csrf();
    assert_eq!(secret.chars().count(), CSRF_SECRET_LENGTH);
    assert!(secret.chars().all(|c| c.is_ascii_alphanumeric()));
    let masked = mask_csrf(&secret);
    assert_eq!(masked.len(), CSRF_TOKEN_LENGTH);
    assert!(masked.chars().all(|c| c.is_ascii_alphanumeric()));
}

#[test]
fn overflowing_sub_wraps_into_the_alphabet() {
    assert_eq!(overflowing_sub_chars(10, 3), 7);
    assert_eq!(overflowing_sub_chars(3, 3), 0);
    assert_eq!(overflowing_sub_chars(0, 1), 61);
    assert_eq!(overflowing_sub_chars(3, 10), 55);
    assert_eq!(overflowing_sub_chars(0, 61), 1);
}

#[test]
fn mask_op_shifts_by_alphabet_position() {
    // 'b' is position 1, 'c' position 2, 'z' 25, 'A' 26, '9' 61.
    assert_eq!(mask_op("b", "c", true), "d");
    assert_eq!(mask_op("b", "c", false), "b");
    assert_eq!(mask_op("b", "9", true), "a");
    assert_eq!(mask_op("b", "a", false), "9");
    assert_eq!(mask_op("a", "z", true), "z");
    assert_eq!(mask_op("b", "z", true), "A");
    // The result is as long as the shorter input.
    assert_eq!(mask_op("bb", "ccc", true), "dd");
    assert_eq!(mask_op("bbb", "c", true), "d");
    assert_eq!(mask_op("", "c", true), "");
}

#[test]
fn fixed_token_unmasks_to_its_secret() {
    let mask = "b".repeat(32);
    let secret = "c".repeat(32);
    let token = format!("{}{}", mask, "d".repeat(32));
    assert_eq!(unmask_csrf(&token), secret);
    assert!(validate_token(&token, &secret));
    assert!(!validate_token(&token, &"d".repeat(32)));
}

#[test]
fn short_token_is_compared_as_is() {
    assert!(validate_token("abc", "abc"));
    assert!(!validate_token("abc", "abd"));
    assert!(!validate_token("", "abd"));
}

#[test]
fn cookie_check_outcomes() {
    let secret = generate_csrf();
    let masked = mask_csrf(&secret);
    assert_eq!(
        check_cookie(None, &HeaderValue::Text(masked.clone())),
        Err(CsrfCookieError::MissingCookie)
    );
    assert_eq!(
        check_cookie(Some(&secret), &HeaderValue::Missing),
        Err(CsrfCookieError::InvalidHeader)
    );
    assert_eq!(
        check_cookie(Some(&secret), &HeaderValue::NotText),
        Err(CsrfCookieError::InvalidHeader)
    );
    assert_eq!(check_cookie(Some(&secret), &HeaderValue::Text(masked)), Ok(()));
    assert_eq!(
        check_cookie(Some(&secret), &HeaderValue::Text("wrong".to_string())),
        Err(CsrfCookieError::ValidationError)
    );
}

#[test]
fn layer_wildcard() {
    assert!(CsrfLayer::new(vec!["a.example".to_string(), "*".to_string()]).allows_any_host());
    assert!(!CsrfLayer::new(vec!["a.example".to_string()]).allows_any_host());
    assert!(!CsrfLayer::new(vec![]).allows_any_host());
}

fn text(s: &str) -> HeaderValue {
    HeaderValue::Text(s.to_string())
}

#[test]
fn safe_methods_only_check_the_cookie() {
    let d = check_csrf(
        true,
        &HeaderValue::Missing,
        &HeaderValue::NotText,
        false,
        false,
        &vec![],
        None,
        &HeaderValue::Missing,
    );
    assert_eq!(d.result, Ok(()));
    assert!(d.cookie_missing);
    let d = check_csrf(
        true,
        &HeaderValue::Missing,
        &HeaderValue::Missing,
        false,
        false,
        &vec![],
        Some("secret"),
        &text("other"),
    );
    assert_eq!(d.result, Err(CsrfRejection::CsrfError));
    assert!(!d.cookie_missing);
}

#[test]
fn unsafe_methods_need_a_host() {
    let none: Vec<String> = vec![];
    let d = check_csrf(false, &HeaderValue::Missing, &HeaderValue::Missing, false, false, &none, None, &HeaderValue::Missing);
    assert_eq!(d.result, Err(CsrfRejection::MissingHost));
    assert!(!d.cookie_missing);
    let d = check_csrf(false, &HeaderValue::NotText, &HeaderValue::Missing, false, false, &none, None, &HeaderValue::Missing);
    assert_eq!(d.result, Err(CsrfRejection::InvalidHost));
    let d = check_csrf(false, &text("a.example"), &HeaderValue::NotText, false, false, &none, None, &HeaderValue::Missing);
    assert_eq!(d.result, Err(CsrfRejection::InvalidOrigin));
}

#[test]
fn origin_must_be_own_or_allowed() {
    let none: Vec<String> = vec![];
    let secret = "s3cret";
    // Own origin over https.
    let d = check_csrf(false, &text("a.example"), &text("https://a.example"), true, false, &none, Some(secret), &text(secret));
    assert_eq!(d.result, Ok(()));
    // Same host but the scheme differs.
    let d = check_csrf(false, &text("a.example"), &text("https://a.example"), false, false, &none, Some(secret), &text(secret));
    assert_eq!(d.result, Err(CsrfRejection::CsrfError));
    // Wildcard lets any origin through.
    let d = check_csrf(false, &text("a.example"), &text("https://evil.example"), false, true, &none, Some(secret), &text(secret));
    assert_eq!(d.result, Ok(()));
    // The allowed list is matched against the request's own origin.
    let allowed = vec!["http://a.example".to_string()];
    let d = check_csrf(false, &text("a.example"), &text("https://evil.example"), false, false, &allowed, Some(secret), &text(secret));
    assert_eq!(d.result, Ok(()));
    // No origin header: only the cookie counts.
    let d = check_csrf(false, &text("a.example"), &HeaderValue::Missing, false, false, &none, None, &HeaderValue::Missing);
    assert_eq!(d.result, Ok(()));
    assert!(d.cookie_missing);
    let d = check_csrf(false, &text("a.example"), &HeaderValue::Missing, false, false, &none, Some(secret), &text("other"));
    assert_eq!(d.result, Err(CsrfRejection::CsrfError));
}

use authust::csrf::reaches_cookie_check;

#[test]
fn cookie_check_is_reached_only_past_the_origin_check() {
    let none: Vec<String> = vec![];
    assert!(reaches_cookie_check(true, &HeaderValue::Missing, &HeaderValue::NotText, false, false, &none));
    assert!(!reaches_cookie_check(false, &HeaderValue::Missing, &HeaderValue::Missing, false, false, &none));
    assert!(reaches_cookie_check(false, &text("h"), &HeaderValue::Missing, false, false, &none));
    assert!(!reaches_cookie_check(false, &text("h"), &HeaderValue::NotText, false, false, &none));
    assert!(reaches_cookie_check(false, &text("h"), &text("http://h"), false, false, &none));
    assert!(!reaches_cookie_check(false, &text("h"), &text("http://x"), false, false, &none));
    assert!(reaches_cookie_check(false, &text("h"), &text("http://x"), false, true, &none));
}

#[test]
fn a_bare_mask_unmasks_to_nothing() {
    assert_eq!(unmask_csrf(&"é".repeat(16)), "");
    assert_eq!(unmask_csrf(&"a".repeat(32)), "");
}
