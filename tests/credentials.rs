use credential_core::error::{AuthError, InputField};
use credential_core::ledger::TokenLedger;
use credential_core::password::{hash_password, hash_password_with_cost, verify_password};
use credential_core::response::{error, success};
use credential_core::store::AuthStore;

#[test]
fn hash_then_verify_accepts_only_the_same_password() {
    let h = hash_password_with_cost("correct horse", 4).unwrap();
    assert_ne!(h, "correct horse");
    assert_eq!(verify_password("correct horse", &h), Ok(true));
    assert_eq!(verify_password("battery staple", &h), Ok(false));
    let h2 = hash_password_with_cost("correct horse", 4).unwrap();
    assert_ne!(h, h2);
}

#[test]
fn hash_password_uses_the_default_cost() {
    let h = hash_password("password123").unwrap();
    assert!(h.starts_with("$2b$12$"));
}

#[test]
fn hashing_refuses_costs_out_of_range() {
    assert_eq!(hash_password_with_cost("password123", 3), Err(AuthError::HashingError));
    assert_eq!(hash_password_with_cost("password123", 32), Err(AuthError::HashingError));
    assert!(AuthStore::with_cost(3).is_none());
    assert!(AuthStore::with_cost(32).is_none());
    assert_eq!(AuthStore::with_cost(4).unwrap().hash_cost, 4);
}

#[test]
fn verify_password_on_malformed_hash_is_verification_error() {
    assert_eq!(verify_password("password123", "plainly-not-a-hash"), Err(AuthError::VerificationError));
}

#[test]
fn token_is_consumed_exactly_once() {
    let mut l = TokenLedger::new();
    assert!(l.issue(1, 9, "abc".to_string(), 100, 600));
    assert_eq!(l.consume(&"abc".to_string(), 150), Ok(9));
    assert_eq!(l.consume(&"abc".to_string(), 151), Err(AuthError::TokenAlreadyUsed));
    assert_eq!(l.tokens[0].used_at, Some(150));
}

#[test]
fn zero_ttl_token_is_expired() {
    let mut l = TokenLedger::new();
    assert!(l.issue(1, 9, "now".to_string(), 100, 0));
    assert_eq!(l.check(&"now".to_string(), 100), Err(AuthError::TokenExpired));
    assert_eq!(l.consume(&"now".to_string(), 100), Err(AuthError::TokenExpired));
    assert_eq!(l.consume(&"now".to_string(), 5000), Err(AuthError::TokenExpired));
    assert!(l.tokens[0].used_at.is_none());
}

#[test]
fn token_expiry_saturates() {
    let mut l = TokenLedger::new();
    assert!(l.issue(1, 9, "far".to_string(), i64::MAX - 10, 600));
    assert_eq!(l.tokens[0].expires_at, i64::MAX);
    assert!(!l.issue(2, 9, "far".to_string(), 0, 600));
    assert_eq!(l.tokens.len(), 1);
    assert_eq!(l.find(&"far".to_string()), Some(0));
    assert_eq!(l.find(&"near".to_string()), None);
}

#[test]
fn error_statuses_and_messages() {
    assert_eq!(AuthError::ValidationFailed(InputField::Email).status(), 400);
    assert_eq!(AuthError::EmailTaken.status(), 409);
    assert_eq!(AuthError::InvalidCredentials.status(), 401);
    assert_eq!(AuthError::TokenExpired.status(), 400);
    assert_eq!(AuthError::UserNotFound.status(), 404);
    assert_eq!(AuthError::StorageUnavailable.status(), 503);
    assert_eq!(AuthError::DispatchFailed.status(), 502);
    assert_eq!(AuthError::InternalError.status(), 500);
    assert_eq!(AuthError::PasswordMismatch.message(), "Passwords do not match");
    assert_eq!(AuthError::TokenAlreadyUsed.message(), "Token has already been used");
}

#[test]
fn response_envelopes() {
    let ok = success(201, Some(5u32));
    assert_eq!(ok.status, 201);
    assert_eq!(ok.message, None);
    assert_eq!(ok.data, Some(5));
    let err = error(409, "User with this email already exists".to_string());
    assert_eq!(err.status, 409);
    assert_eq!(err.message.as_deref(), Some("User with this email already exists"));
    assert_eq!(err.data, None);
}

#[test]
fn hashes_record_their_cost() {
    assert!(hash_password_with_cost("password123", 5).unwrap().starts_with("$2b$05$"));
    assert!(hash_password_with_cost("password123", 10).unwrap().starts_with("$2b$10$"));
}

#[test]
fn every_error_message() {
    let cases = [
        (AuthError::ValidationFailed(InputField::Name), "Validation error: name must hold 3 to 100 characters"),
        (AuthError::ValidationFailed(InputField::Email), "Validation error: email is not a valid address"),
        (AuthError::ValidationFailed(InputField::Password), "Validation error: password must hold 8 to 100 characters"),
        (AuthError::EmailTaken, "User with this email already exists"),
        (AuthError::InvalidCredentials, "Invalid credentials"),
        (AuthError::TokenNotFound, "Token not found"),
        (AuthError::TokenExpired, "Token has expired"),
        (AuthError::TokenAlreadyUsed, "Token has already been used"),
        (AuthError::PasswordMismatch, "Passwords do not match"),
        (AuthError::NotAuthenticated, "Not authenticated"),
        (AuthError::AlreadyAuthenticated, "Already authenticated"),
        (AuthError::UserNotFound, "User not found"),
        (AuthError::StorageUnavailable, "Storage unavailable"),
        (AuthError::DispatchFailed, "Failed to send the notification"),
        (AuthError::HashingError, "Password hashing error"),
        (AuthError::VerificationError, "Password verification error"),
        (AuthError::InternalError, "Internal error"),
    ];
    for (e, text) in cases {
        assert_eq!(e.message(), text);
    }
}
