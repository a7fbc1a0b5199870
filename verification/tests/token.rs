use auth_service::domain::Email;
use auth_service::services::token_service::TokenError;
use auth_service::services::token_service::TokenService;
use auth_service::services::token_service::TOKEN_TTL_SECONDS;

fn service() -> TokenService {
    TokenService::new("test-signing-key".to_string(), TOKEN_TTL_SECONDS)
}

#[test]
fn issued_token_verifies_before_expiry() {
    let ts = service();
    let email = Email::parse("u@example.com".to_string()).unwrap();
    let token = ts.issue(&email, 1_000).unwrap();

    let subject = ts.verify(&token, 1_000).unwrap();
    assert_eq!(subject, "u@example.com");

    // Still valid one second before the expiry instant.
    let subject = ts.verify(&token, 1_000 + TOKEN_TTL_SECONDS - 1).unwrap();
    assert_eq!(subject, "u@example.com");
}

#[test]
fn issued_token_expires() {
    let ts = service();
    let email = Email::parse("u@example.com".to_string()).unwrap();
    let token = ts.issue(&email, 1_000).unwrap();

    assert_eq!(
        ts.verify(&token, 1_000 + TOKEN_TTL_SECONDS),
        Err(TokenError::Expired)
    );
    assert_eq!(
        ts.verify(&token, 5_000_000),
        Err(TokenError::Expired)
    );
}

#[test]
fn garbage_is_malformed() {
    let ts = service();
    assert_eq!(ts.verify("", 0), Err(TokenError::Malformed));
    assert_eq!(ts.verify("invalid_token_12345", 0), Err(TokenError::Malformed));
    assert_eq!(ts.verify("a\nb", 0), Err(TokenError::Malformed));
    assert_eq!(ts.verify("a\nnot-digits\n123", 0), Err(TokenError::Malformed));
}

#[test]
fn tampered_token_fails_signature() {
    let ts = service();
    let email = Email::parse("u@example.com".to_string()).unwrap();
    let token = ts.issue(&email, 1_000).unwrap();

    // Swap the subject for another identity, keeping the rest.
    let tampered = token.replacen("u@example.com", "v@example.com", 1);
    assert_eq!(ts.verify(&tampered, 1_000), Err(TokenError::SignatureInvalid));
}

#[test]
fn token_from_another_key_fails_signature() {
    let ts = service();
    let other = TokenService::new("another-key".to_string(), TOKEN_TTL_SECONDS);
    let email = Email::parse("u@example.com".to_string()).unwrap();
    let token = other.issue(&email, 1_000).unwrap();

    assert_eq!(ts.verify(&token, 1_000), Err(TokenError::SignatureInvalid));
}

#[test]
fn issue_fails_only_on_expiry_overflow() {
    let ts = service();
    let email = Email::parse("u@example.com".to_string()).unwrap();
    assert!(ts.issue(&email, u64::MAX).is_none());
    assert!(ts.issue(&email, u64::MAX - TOKEN_TTL_SECONDS).is_some());
}
