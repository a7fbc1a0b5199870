use auth_service::domain::AuthAPIError;
use auth_service::domain::Email;
use auth_service::domain::LoginAttemptId;
use auth_service::domain::TwoFACode;
use auth_service::services::challenge_generator::ChallengeGenerator;
use auth_service::services::data_stores::redis_banned_token_store;
use auth_service::services::data_stores::redis_two_fa_code_store;
use auth_service::ErrorResponse;

#[test]
fn generator_draws_are_well_formed() {
    let mut generator = ChallengeGenerator::new(7, 11);
    let (id, code) = generator.next_challenge();
    assert!(LoginAttemptId::parse(id.as_ref().to_string()).is_ok());
    assert!(TwoFACode::parse(code.as_ref().to_string()).is_ok());
    assert_eq!(id.as_ref().len(), 36);
    assert_eq!(code.as_ref().len(), 6);
}

#[test]
fn generator_draws_differ() {
    let mut generator = ChallengeGenerator::new(7, 11);
    let (first_id, _) = generator.next_challenge();
    let (second_id, _) = generator.next_challenge();
    assert_ne!(first_id, second_id);
}

#[test]
fn banned_token_key_carries_prefix() {
    let key = redis_banned_token_store::get_key("abc");
    assert_eq!(key, "banned_token:abc");
}

#[test]
fn two_fa_key_carries_prefix() {
    let email = Email::parse("test@example.com".to_string()).unwrap();
    let key = redis_two_fa_code_store::get_key(&email);
    assert_eq!(key, "two_fa_code:test@example.com");
}

#[test]
fn two_fa_tuple_round_trips() {
    let id = LoginAttemptId::parse("123e4567-e89b-12d3-a456-426614174000".to_string()).unwrap();
    let code = TwoFACode::parse("654321".to_string()).unwrap();

    let framed = redis_two_fa_code_store::encode_two_fa_tuple(&id, &code);
    assert_eq!(framed, "[\"123e4567-e89b-12d3-a456-426614174000\",\"654321\"]");

    let (back_id, back_code) = redis_two_fa_code_store::decode_two_fa_tuple(&framed).unwrap();
    assert_eq!(back_id, id);
    assert_eq!(back_code, code);
}

#[test]
fn two_fa_tuple_decode_rejects_garbage() {
    assert!(redis_two_fa_code_store::decode_two_fa_tuple("").is_none());
    assert!(redis_two_fa_code_store::decode_two_fa_tuple("[\"x\",\"y\"]").is_none());
    assert!(redis_two_fa_code_store::decode_two_fa_tuple(
        "[\"123e4567-e89b-12d3-a456-42661417400Z\",\"654321\"]"
    )
    .is_none());
}

#[test]
fn error_statuses_and_messages_are_fixed() {
    let cases = vec![
        (AuthAPIError::UserAlreadyExists, 409, "User already exists"),
        (AuthAPIError::InvalidCredentials, 400, "Invalid credentials"),
        (AuthAPIError::IncorrectCredentials, 401, "Incorrect credentials"),
        (AuthAPIError::MissingToken, 400, "Missing auth token"),
        (AuthAPIError::InvalidToken, 401, "Invalid auth token"),
        (AuthAPIError::UnexpectedError, 500, "Unexpected error"),
    ];
    for (error, status, message) in cases {
        assert_eq!(error.status_code(), status);
        assert_eq!(error.error_message(), message);
    }
}

#[test]
fn error_response_carries_text() {
    let body = ErrorResponse {
        error: AuthAPIError::MissingToken.error_message().to_string(),
    };
    assert_eq!(body.error, "Missing auth token");
}
