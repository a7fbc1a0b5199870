use auth_service::app_state::AppState;
use auth_service::domain::AuthAPIError;
use auth_service::routes::login;
use auth_service::routes::logout;
use auth_service::routes::signup;
use auth_service::routes::verify_2fa;
use auth_service::routes::verify_token;
use auth_service::routes::LoginRequest;
use auth_service::routes::LoginResponse;
use auth_service::routes::SignupRequest;
use auth_service::routes::Verify2FARequest;
use auth_service::routes::VerifyTokenRequest;
use auth_service::services::challenge_generator::ChallengeGenerator;
use auth_service::services::data_stores::HashmapUserStore;
use auth_service::services::data_stores::HashsetBannedTokenStore;
use auth_service::services::token_service::TokenService;
use auth_service::services::token_service::TOKEN_TTL_SECONDS;
use auth_service::services::HashmapTwoFACodeStore;
use auth_service::services::MockEmailClient;

fn app_state() -> AppState {
    AppState::new(
        HashmapUserStore::default(),
        HashsetBannedTokenStore::default(),
        HashmapTwoFACodeStore::default(),
        TokenService::new("test-signing-key".to_string(), TOKEN_TTL_SECONDS),
        ChallengeGenerator::new(42, 1337),
    )
}

#[test]
fn end_to_end_regular_session() {
    let mut state = app_state();
    let mut client = MockEmailClient::new();

    let r = signup(
        &mut state,
        SignupRequest {
            email: "u@example.com".to_string(),
            password: "password123".to_string(),
            requires_2fa: false,
        },
    );
    assert!(r.is_ok());

    let token = match login(
        &mut state,
        &mut client,
        LoginRequest {
            email: "u@example.com".to_string(),
            password: "password123".to_string(),
        },
        1_000,
    ) {
        Ok(LoginResponse::RegularAuth(token)) => token,
        _ => panic!("expected a session token"),
    };

    assert!(verify_token(&state, VerifyTokenRequest { token: token.clone() }, 1_000).is_ok());

    assert!(logout(&mut state, Some(&token), 1_000).is_ok());

    let r = verify_token(&state, VerifyTokenRequest { token }, 1_000);
    match r {
        Err(e) => assert_eq!(e.status_code(), 401),
        Ok(_) => panic!("expected the revoked token to be rejected"),
    }
}

#[test]
fn end_to_end_two_factor_session() {
    let mut state = app_state();
    let mut client = MockEmailClient::new();

    let r = signup(
        &mut state,
        SignupRequest {
            email: "u@example.com".to_string(),
            password: "password123".to_string(),
            requires_2fa: true,
        },
    );
    assert!(r.is_ok());

    let attempt_id = match login(
        &mut state,
        &mut client,
        LoginRequest {
            email: "u@example.com".to_string(),
            password: "password123".to_string(),
        },
        1_000,
    ) {
        Ok(LoginResponse::TwoFactorAuth(resp)) => {
            assert_eq!(resp.message, "2FA required");
            resp.login_attempt_id
        }
        _ => panic!("expected a pending two-factor challenge"),
    };

    let email = auth_service::domain::Email::parse("u@example.com".to_string()).unwrap();
    let (stored_id, stored_code) = state.two_fa_code_store.get_code(&email).unwrap();
    assert_eq!(stored_id.as_ref(), attempt_id);

    let code = stored_code.as_ref().to_string();
    let token = verify_2fa(
        &mut state,
        Verify2FARequest {
            email: "u@example.com".to_string(),
            login_attempt_id: attempt_id.clone(),
            two_fa_code: code.clone(),
        },
        1_000,
    )
    .unwrap();
    assert!(verify_token(&state, VerifyTokenRequest { token }, 1_000).is_ok());

    // The same pair can never verify twice.
    let r = verify_2fa(
        &mut state,
        Verify2FARequest {
            email: "u@example.com".to_string(),
            login_attempt_id: attempt_id,
            two_fa_code: code,
        },
        1_000,
    );
    match r {
        Err(e) => assert_eq!(e.status_code(), 401),
        Ok(_) => panic!("expected the consumed challenge to be rejected"),
    }
}

#[test]
fn logout_with_no_prior_token_is_missing_never_invalid() {
    let mut state = app_state();
    let r = logout(&mut state, None, 1_000);
    match r {
        Err(e) => {
            assert!(matches!(e, AuthAPIError::MissingToken));
            assert_eq!(e.status_code(), 400);
        }
        Ok(_) => panic!("expected a missing-token failure"),
    }
}
