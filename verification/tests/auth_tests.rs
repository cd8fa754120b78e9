use media_server::auth::{authorize, constant_time_eq};
use media_server::error::AppError;

#[test]
fn constant_time_eq_is_equality() {
    assert!(constant_time_eq(b"", b""));
    assert!(constant_time_eq(b"secret", b"secret"));
    assert!(!constant_time_eq(b"secret", b"secreT"));
    assert!(!constant_time_eq(b"secret", b"secret2"));
    assert!(!constant_time_eq(b"a", b""));
}

#[test]
fn correct_bearer_token_is_accepted() {
    assert_eq!(authorize(Some("Bearer changeme"), "changeme"), Ok(()));
}

#[test]
fn wrong_or_missing_token_is_unauthorized() {
    for header in [None, Some(""), Some("Bearer"), Some("Bearer "), Some("bearer changeme"),
        Some("Bearer changeme "), Some("Bearer  changeme"), Some("Basic changeme"), Some("changeme"),
        Some("Bearer changemf")]
    {
        assert_eq!(authorize(header, "changeme"), Err(AppError::Unauthorized), "{header:?}");
    }
}

#[test]
fn empty_token_accepts_only_bare_prefix() {
    assert_eq!(authorize(Some("Bearer "), ""), Ok(()));
    assert_eq!(authorize(Some("Bearer x"), ""), Err(AppError::Unauthorized));
}
