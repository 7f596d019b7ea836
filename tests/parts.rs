use gatekeep::{extract_token, normalize_email, AuthError, UserType};

#[test]
fn normalize_lowers_ascii_only() {
    assert_eq!(normalize_email("Alice@Example.COM"), "alice@example.com");
    assert_eq!(normalize_email(""), "");
    assert_eq!(normalize_email("ÄBC@x.de"), "Äbc@x.de");
}

#[test]
fn cookie_takes_precedence_over_header() {
    assert_eq!(extract_token(Some("c"), Some("Bearer h")), Ok("c".to_string()));
    assert_eq!(extract_token(Some(""), None), Ok(String::new()));
}

#[test]
fn bearer_header_is_read() {
    assert_eq!(extract_token(None, Some("Bearer abc.def.ghi")), Ok("abc.def.ghi".to_string()));
    assert_eq!(extract_token(None, Some("Bearer ")), Ok(String::new()));
}

#[test]
fn missing_or_foreign_header_is_missing_token() {
    assert_eq!(extract_token(None, None), Err(AuthError::MissingToken));
    assert_eq!(extract_token(None, Some("Basic abc")), Err(AuthError::MissingToken));
    assert_eq!(extract_token(None, Some("Bearer")), Err(AuthError::MissingToken));
    assert_eq!(extract_token(None, Some("bearer abc")), Err(AuthError::MissingToken));
}

#[test]
fn status_codes() {
    assert_eq!(AuthError::InvalidCredentials.status_code(), 400);
    assert_eq!(AuthError::AlreadyExists.status_code(), 409);
    assert_eq!(AuthError::MissingToken.status_code(), 401);
    assert_eq!(AuthError::InvalidToken.status_code(), 401);
    assert_eq!(AuthError::StoreUnavailable.status_code(), 500);
    assert_eq!(AuthError::Internal.status_code(), 500);
    assert_eq!(AuthError::InvalidCredentials.message(), "Invalid email or password.");
}

#[test]
fn user_type_tags() {
    assert_eq!(UserType::STANDARD.as_str(), "standard");
    assert_eq!(UserType::ADMIN.as_str(), "admin");
    assert_eq!(UserType::from_tag("standard"), Some(UserType::STANDARD));
    assert_eq!(UserType::from_tag("admin"), Some(UserType::ADMIN));
    assert_eq!(UserType::from_tag("Admin"), None);
    assert_eq!(UserType::from_tag(""), None);
    assert_eq!(UserType::from_tag("standards"), None);
}

#[test]
fn error_messages() {
    assert_eq!(AuthError::AlreadyExists.message(), "Email address is already in use.");
    assert_eq!(AuthError::MissingToken.message(), "You are not logged in, please provide token.");
    assert_eq!(AuthError::InvalidToken.message(), "Invalid token.");
    assert_eq!(AuthError::StoreUnavailable.message(), "The user store is unavailable.");
    assert_eq!(AuthError::Internal.message(), "Internal server error.");
}
