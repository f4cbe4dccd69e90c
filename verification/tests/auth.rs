use nullith::auth::{is_auth_enabled, verify_api_key, AuthError, HeaderLookup};
use nullith::routes::admin::check_admin;
use nullith::routes::files::check_auth;

fn key(s: &str) -> Option<String> {
    Some(s.to_string())
}

#[test]
fn verify_accepts_matching_key() {
    assert_eq!(verify_api_key(&key("k1"), &HeaderLookup::Present("k1".to_string())), Ok(true));
}

#[test]
fn verify_refusals() {
    let h = HeaderLookup::Present("k1".to_string());
    assert_eq!(verify_api_key(&None, &h), Err(AuthError::NotConfigured));
    assert_eq!(verify_api_key(&key(""), &h), Err(AuthError::EmptyKey));
    assert_eq!(verify_api_key(&key("k2"), &h), Err(AuthError::InvalidKey));
    assert_eq!(verify_api_key(&key("k1"), &HeaderLookup::Absent), Err(AuthError::MissingKey));
    assert_eq!(verify_api_key(&key("k1"), &HeaderLookup::Unreadable), Err(AuthError::HeaderUnreadable));
    assert_eq!(verify_api_key(&key("k1"), &HeaderLookup::Present("K1".to_string())), Err(AuthError::InvalidKey));
    assert_eq!(verify_api_key(&key(""), &HeaderLookup::Present(String::new())), Err(AuthError::EmptyKey));
}

#[test]
fn verify_never_answers_false() {
    let secrets = vec![None, key(""), key("a"), key("b")];
    let headers = vec![
        HeaderLookup::Absent,
        HeaderLookup::Unreadable,
        HeaderLookup::Present(String::new()),
        HeaderLookup::Present("a".to_string()),
    ];
    for s in &secrets {
        for h in &headers {
            assert_ne!(verify_api_key(s, h), Ok(false));
        }
    }
}

#[test]
fn auth_enabled() {
    assert!(is_auth_enabled(&key("abc")));
    assert!(!is_auth_enabled(&key("")));
    assert!(!is_auth_enabled(&None));
}

#[test]
fn configured_key_passes_iff_enabled() {
    for s in ["", "x", "long-key"] {
        let secret = key(s);
        let passes = verify_api_key(&secret, &HeaderLookup::Present(s.to_string())) == Ok(true);
        assert_eq!(passes, is_auth_enabled(&secret));
    }
}

#[test]
fn route_checks() {
    let good = HeaderLookup::Present("k".to_string());
    assert_eq!(check_auth(&key("k"), &good), Ok(()));
    assert_eq!(check_admin(&key("k"), &good), Ok(()));
    assert_eq!(check_auth(&key("k"), &HeaderLookup::Absent), Err(AuthError::MissingKey));
    assert_eq!(check_admin(&None, &good), Err(AuthError::NotConfigured));
    assert_eq!(check_admin(&key("j"), &good), Err(AuthError::InvalidKey));
}

#[test]
fn auth_messages() {
    assert_eq!(AuthError::NotConfigured.message(), "API_KEY not configured");
    assert_eq!(AuthError::EmptyKey.message(), "API_KEY is empty");
    assert_eq!(AuthError::InvalidKey.message(), "Invalid API key");
    assert_eq!(AuthError::MissingKey.message(), "Missing API key");
    assert_eq!(AuthError::HeaderUnreadable.message(), "Error reading header");
    assert_eq!(AuthError::Unauthorized.message(), "Unauthorized");
}
