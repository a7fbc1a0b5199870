use auth_service::app_state::AppState;
use auth_service::domain::AuthAPIError;
use auth_service::routes::signup;
use auth_service::routes::SignupRequest;
use auth_service::services::challenge_generator::ChallengeGenerator;
use auth_service::services::data_stores::HashmapUserStore;
use auth_service::services::data_stores::HashsetBannedTokenStore;
use auth_service::services::token_service::TokenService;
use auth_service::services::token_service::TOKEN_TTL_SECONDS;
use auth_service::services::HashmapTwoFACodeStore;

fn app_state() -> AppState {
    AppState::new(
        HashmapUserStore::default(),
        HashsetBannedTokenStore::default(),
        HashmapTwoFACodeStore::default(),
        TokenService::new("test-signing-key".to_string(), TOKEN_TTL_SECONDS),
        ChallengeGenerator::new(42, 1337),
    )
}

#[test]
fn signup_signup_returns_200_for_valid_post_request() {
    let mut state = app_state();
    let r = signup(
        &mut state,
        SignupRequest {
            email: "rust@example.com".to_string(),
            password: "password123".to_string(),
            requires_2fa: true,
        },
    );
    assert!(r.is_ok());
}

#[test]
fn should_return_201_if_valid_input() {
    let mut state = app_state();
    let r = signup(
        &mut state,
        SignupRequest {
            email: "rust@example.com".to_string(),
            password: "password123".to_string(),
            requires_2fa: true,
        },
    );
    assert_eq!(r.unwrap().message, "User created successfully!");
}

#[test]
fn duplicate_signup_yields_conflict() {
    let mut state = app_state();
    let request = || SignupRequest {
        email: "rust@example.com".to_string(),
        password: "password123".to_string(),
        requires_2fa: false,
    };
    assert!(signup(&mut state, request()).is_ok());

    let r = signup(&mut state, request());
    match r {
        Err(e) => {
            assert!(matches!(e, AuthAPIError::UserAlreadyExists));
            assert_eq!(e.status_code(), 409);
            assert_eq!(e.error_message(), "User already exists");
        }
        Ok(_) => panic!("expected a duplicate-identity conflict"),
    }
}

#[test]
fn signup_rejects_bad_email_and_short_password() {
    let mut state = app_state();

    let r = signup(
        &mut state,
        SignupRequest {
            email: "nope".to_string(),
            password: "password123".to_string(),
            requires_2fa: false,
        },
    );
    assert!(matches!(r, Err(AuthAPIError::InvalidCredentials)));

    let r = signup(
        &mut state,
        SignupRequest {
            email: "rust@example.com".to_string(),
            password: "seven77".to_string(),
            requires_2fa: false,
        },
    );
    assert!(matches!(r, Err(AuthAPIError::InvalidCredentials)));
}
