use auth_service::domain::Email;
use auth_service::domain::LoginAttemptId;
use auth_service::domain::TwoFACode;
use auth_service::domain::TwoFACodeStoreError;
use auth_service::services::HashmapTwoFACodeStore;

fn sample_id() -> LoginAttemptId {
    LoginAttemptId::parse("123e4567-e89b-12d3-a456-426614174000".to_string()).unwrap()
}

fn sample_code() -> TwoFACode {
    TwoFACode::parse("123456".to_string()).unwrap()
}

#[test]
fn test_add_and_get_code() {
    let mut store = HashmapTwoFACodeStore::default();
    let email = Email::parse("test@example.com".to_string()).unwrap();
    let login_attempt_id = sample_id();
    let code = sample_code();

    store
        .add_code(email.clone(), login_attempt_id.clone(), code.clone())
        .unwrap();

    let (retrieved_id, retrieved_code) = store.get_code(&email).unwrap();
    assert_eq!(retrieved_id, login_attempt_id);
    assert_eq!(retrieved_code, code);
}

#[test]
fn test_get_code_not_found() {
    let store = HashmapTwoFACodeStore::default();
    let email = Email::parse("test@example.com".to_string()).unwrap();

    let result = store.get_code(&email);
    assert_eq!(result, Err(TwoFACodeStoreError::LoginAttemptIdNotFound));
}

#[test]
fn test_remove_code() {
    let mut store = HashmapTwoFACodeStore::default();
    let email = Email::parse("test@example.com".to_string()).unwrap();
    let login_attempt_id = sample_id();
    let code = sample_code();

    store.add_code(email.clone(), login_attempt_id, code).unwrap();

    store.remove_code(&email).unwrap();

    let result = store.get_code(&email);
    assert_eq!(result, Err(TwoFACodeStoreError::LoginAttemptIdNotFound));
}

#[test]
fn add_code_overwrites_previous_challenge() {
    let mut store = HashmapTwoFACodeStore::default();
    let email = Email::parse("test@example.com".to_string()).unwrap();
    let first_id = sample_id();
    let first_code = sample_code();
    let second_id =
        LoginAttemptId::parse("00000000-0000-0000-0000-000000000001".to_string()).unwrap();
    let second_code = TwoFACode::parse("654321".to_string()).unwrap();

    store
        .add_code(email.clone(), first_id.clone(), first_code.clone())
        .unwrap();
    store
        .add_code(email.clone(), second_id.clone(), second_code.clone())
        .unwrap();

    let (live_id, live_code) = store.get_code(&email).unwrap();
    assert_eq!(live_id, second_id);
    assert_eq!(live_code, second_code);
    assert_ne!(live_id, first_id);
}

#[test]
fn remove_code_is_idempotent() {
    let mut store = HashmapTwoFACodeStore::default();
    let email = Email::parse("test@example.com".to_string()).unwrap();

    assert!(store.remove_code(&email).is_ok());
    assert!(store.remove_code(&email).is_ok());
}
