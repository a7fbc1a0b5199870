use auth_service::app_state::AppState;
use auth_service::domain::Email;
use auth_service::routes::login;
use auth_service::routes::signup;
use auth_service::routes::verify_2fa;
use auth_service::routes::LoginRequest;
use auth_service::routes::LoginResponse;
use auth_service::routes::SignupRequest;
use auth_service::routes::Verify2FARequest;
use auth_service::services::challenge_generator::ChallengeGenerator;
use auth_service::services::data_stores::HashmapUserStore;
use auth_service::services::data_stores::HashsetBannedTokenStore;
use auth_service::services::token_service::TokenService;
use auth_service::services::token_service::TOKEN_TTL_SECONDS;
use auth_service::services::HashmapTwoFACodeStore;
use auth_service::services::MockEmailClient;

fn app_state() -> AppState {
    AppState::new(
        HashmapUserStore::default(),
        HashsetBannedTokenStore::default(),
        HashmapTwoFACodeStore::default(),
        TokenService::new("test-signing-key".to_string(), TOKEN_TTL_SECONDS),
        ChallengeGenerator::new(42, 1337),
    )
}

/// Signs the account up with two-factor on, logs in, and reads the
/// outstanding challenge back from the store.
fn open_challenge(state: &mut AppState, email: &str) -> (String, String) {
    signup(
        state,
        SignupRequest {
            email: email.to_string(),
            password: "password123".to_string(),
            requires_2fa: true,
        },
    )
    .unwrap();
    match login(
        state,
        &mut MockEmailClient::new(),
        LoginRequest {
            email: email.to_string(),
            password: "password123".to_string(),
        },
        1_000,
    ) {
        Ok(LoginResponse::TwoFactorAuth(_)) => {}
        _ => panic!("expected a pending two-factor challenge"),
    }
    let parsed = Email::parse(email.to_string()).unwrap();
    let (id, code) = state.two_fa_code_store.get_code(&parsed).unwrap();
    (id.as_ref().to_string(), code.as_ref().to_string())
}

#[test]
fn verify_2fa_should_return_400_if_invalid_input() {
    let mut state = app_state();
    let cases = vec![
        ("not-an-email", "123e4567-e89b-12d3-a456-426614174000", "123456"),
        ("test@example.com", "not-a-uuid", "123456"),
        ("test@example.com", "123e4567-e89b-12d3-a456-426614174000", "12345"),
        ("test@example.com", "123e4567-e89b-12d3-a456-426614174000", "abcdef"),
    ];
    for (email, login_attempt_id, two_fa_code) in cases {
        let r = verify_2fa(
            &mut state,
            Verify2FARequest {
                email: email.to_string(),
                login_attempt_id: login_attempt_id.to_string(),
                two_fa_code: two_fa_code.to_string(),
            },
            1_000,
        );
        match r {
            Err(e) => {
                assert_eq!(e.status_code(), 400);
                assert_eq!(e.error_message(), "Invalid credentials");
            }
            Ok(_) => panic!("expected invalid input to be rejected"),
        }
    }
}

#[test]
fn verify_2fa_should_return_401_if_incorrect_credentials() {
    let mut state = app_state();
    let (id, code) = open_challenge(&mut state, "test@example.com");

    let wrong_code = if code == "123456" { "123457" } else { "123456" };
    let wrong_id = if id == "123e4567-e89b-12d3-a456-426614174000" {
        "123e4567-e89b-12d3-a456-426614174001"
    } else {
        "123e4567-e89b-12d3-a456-426614174000"
    };
    let cases = vec![
        ("test@example.com", id.as_str(), wrong_code),
        ("test@example.com", wrong_id, code.as_str()),
        ("nonexistent@example.com", id.as_str(), code.as_str()),
    ];
    for (email, login_attempt_id, two_fa_code) in cases {
        let r = verify_2fa(
            &mut state,
            Verify2FARequest {
                email: email.to_string(),
                login_attempt_id: login_attempt_id.to_string(),
                two_fa_code: two_fa_code.to_string(),
            },
            1_000,
        );
        match r {
            Err(e) => {
                assert_eq!(e.status_code(), 401);
                assert_eq!(e.error_message(), "Incorrect credentials");
            }
            Ok(_) => panic!("expected incorrect credentials to be rejected"),
        }
    }
}

#[test]
fn should_return_401_if_old_code() {
    let mut state = app_state();
    let (old_id, old_code) = open_challenge(&mut state, "test@example.com");

    // A second login overwrites the challenge.
    match login(
        &mut state,
        &mut MockEmailClient::new(),
        LoginRequest {
            email: "test@example.com".to_string(),
            password: "password123".to_string(),
        },
        1_000,
    ) {
        Ok(LoginResponse::TwoFactorAuth(_)) => {}
        _ => panic!("expected a pending two-factor challenge"),
    }

    let r = verify_2fa(
        &mut state,
        Verify2FARequest {
            email: "test@example.com".to_string(),
            login_attempt_id: old_id,
            two_fa_code: old_code,
        },
        1_000,
    );
    match r {
        Err(e) => {
            assert_eq!(e.status_code(), 401);
            assert_eq!(e.error_message(), "Incorrect credentials");
        }
        Ok(_) => panic!("expected the stale challenge to be rejected"),
    }
}

#[test]
fn should_return_200_if_correct_code() {
    let mut state = app_state();
    let (id, code) = open_challenge(&mut state, "test@example.com");

    let r = verify_2fa(
        &mut state,
        Verify2FARequest {
            email: "test@example.com".to_string(),
            login_attempt_id: id,
            two_fa_code: code,
        },
        1_000,
    );
    let token = r.unwrap();
    assert!(!token.is_empty(), "No auth cookie found");
}

#[test]
fn should_return_401_if_same_code_twice() {
    let mut state = app_state();
    let (id, code) = open_challenge(&mut state, "test@example.com");

    let request = || Verify2FARequest {
        email: "test@example.com".to_string(),
        login_attempt_id: id.clone(),
        two_fa_code: code.clone(),
    };
    assert!(verify_2fa(&mut state, request(), 1_000).is_ok());

    let r = verify_2fa(&mut state, request(), 1_000);
    match r {
        Err(e) => {
            assert_eq!(e.status_code(), 401);
            assert_eq!(e.error_message(), "Incorrect credentials");
        }
        Ok(_) => panic!("expected the consumed challenge to be rejected"),
    }
}
