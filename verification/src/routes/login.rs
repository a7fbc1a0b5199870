use vstd::prelude::*;
use vstd::string::StrSliceExecFns;
use vstd::string::StringExecFns;
use crate::app_state::AppState;
use crate::domain::email_accepted;
use crate::domain::AuthAPIError;
use crate::domain::Email;
use crate::domain::EmailClient;
use crate::domain::Password;
use crate::domain::UserStoreError;
use crate::services::challenge_generator::code_chars;
use crate::services::challenge_generator::id_chars;
use crate::services::challenge_generator::lcg;
use crate::services::token_service::token_chars;

verus! {

/// What a caller hands to login.
pub struct LoginRequest {
    pub email: String,
    pub password: String,
}

/// The two success shapes of login: a session token right away, or a
/// pending two-factor challenge to complete first.
pub enum LoginResponse {
    RegularAuth(String),
    TwoFactorAuth(TwoFactorAuthResponse),
}

/// What a caller pending two-factor completion receives: the attempt
/// identifier to echo back together with the code.
pub struct TwoFactorAuthResponse {
    pub message: String,
    pub login_attempt_id: String,
}

/// Authenticates the caller. Format failures surface as
/// `InvalidCredentials` before any store is read; an unknown identity
/// and a wrong secret both surface as the one `IncorrectCredentials`,
/// so callers cannot tell accounts apart. With two-factor off a token
/// is issued at once; with it on, a fresh challenge overwrites any
/// outstanding one and the notifier carries the code: success means
/// exactly one message, holding the stored code, joined the notifier's
/// outbox, and whether the notifier delivers is the channel's to
/// decide, so the unexpected-error outcome stays open in the contract.
/// A failed delivery surfaces as `UnexpectedError` with the challenge
/// left in place, usable until the next login overwrites it.
pub fn login<E: EmailClient>(
    state: &mut AppState,
    email_client: &mut E,
    request: LoginRequest,
    now: u64,
) -> (r: Result<LoginResponse, AuthAPIError>)
    ensures
        ({
            let e = request.email@;
            let p = request.password@;
            let users = old(state).user_store@;
            if !email_accepted(e) || p.len() < 8 {
                r == Err::<LoginResponse, AuthAPIError>(AuthAPIError::InvalidCredentials)
                    && *final(state) == *old(state) && *final(email_client) == *old(email_client)
            } else if !users.contains_key(e) || users[e].password != p {
                r == Err::<LoginResponse, AuthAPIError>(AuthAPIError::IncorrectCredentials)
                    && *final(state) == *old(state) && *final(email_client) == *old(email_client)
            } else if !users[e].requires_2fa {
                &&& *final(state) == *old(state)
                &&& *final(email_client) == *old(email_client)
                &&& if now + old(state).token_service.spec_ttl() <= u64::MAX {
                    r matches Ok(LoginResponse::RegularAuth(t)) && t@ == token_chars(
                        old(state).token_service.spec_key(),
                        e,
                        (now + old(state).token_service.spec_ttl()) as u64,
                    )
                } else {
                    r == Err::<LoginResponse, AuthAPIError>(AuthAPIError::UnexpectedError)
                }
            } else {
                let s1 = lcg(old(state).challenge_generator.spec_id_state());
                let s2 = lcg(s1);
                let c1 = lcg(old(state).challenge_generator.spec_code_state());
                &&& final(state).two_fa_code_store@ == old(state).two_fa_code_store@.insert(
                    e,
                    (id_chars(s1, s2), code_chars(c1)),
                )
                &&& final(state).challenge_generator.spec_id_state() == s2
                &&& final(state).challenge_generator.spec_code_state() == c1
                &&& final(state).user_store == old(state).user_store
                &&& final(state).banned_token_store == old(state).banned_token_store
                &&& final(state).token_service == old(state).token_service
                &&& match r {
                    Ok(resp) => resp matches LoginResponse::TwoFactorAuth(t) && t.message@
                        == "2FA required"@ && t.login_attempt_id@ == id_chars(s1, s2) && final(email_client).outbox() == old(email_client).outbox().push(
                        (e, "2FA Code"@, code_chars(c1)),
                    ),
                    Err(err) => err == AuthAPIError::UnexpectedError && final(email_client).outbox() == old(email_client).outbox(),
                }
            }
        }),
{
    let email = match Email::parse(request.email) {
        Ok(e) => e,
        Err(_) => {
            return Err(AuthAPIError::InvalidCredentials);
        },
    };
    let password = match Password::parse(request.password) {
        Ok(p) => p,
        Err(_) => {
            return Err(AuthAPIError::InvalidCredentials);
        },
    };
    if let Err(e) = state.user_store.validate_user(&email, &password) {
        return match e {
            UserStoreError::UserNotFound => Err(AuthAPIError::IncorrectCredentials),
            UserStoreError::InvalidCredentials => Err(AuthAPIError::IncorrectCredentials),
            _ => Err(AuthAPIError::UnexpectedError),
        };
    }
    let user = match state.user_store.get_user(&email) {
        Ok(u) => u,
        Err(_) => {
            return Err(AuthAPIError::IncorrectCredentials);
        },
    };
    if user.requires_2fa {
        handle_2fa(state, &user.email, email_client)
    } else {
        handle_no_2fa(state, &user.email, now)
    }
}

/// Opens a two-factor challenge: draws a fresh (attempt identifier,
/// code) pair, stores it — overwriting any prior challenge for the
/// identity — and hands the code to the notifier. The challenge write
/// is not rolled back when delivery fails.
fn handle_2fa<E: EmailClient>(state: &mut AppState, email: &Email, email_client: &mut E) -> (r:
    Result<LoginResponse, AuthAPIError>)
    ensures
        ({
            let s1 = lcg(old(state).challenge_generator.spec_id_state());
            let s2 = lcg(s1);
            let c1 = lcg(old(state).challenge_generator.spec_code_state());
            &&& final(state).two_fa_code_store@ == old(state).two_fa_code_store@.insert(
                email@,
                (id_chars(s1, s2), code_chars(c1)),
            )
            &&& final(state).challenge_generator.spec_id_state() == s2
            &&& final(state).challenge_generator.spec_code_state() == c1
            &&& final(state).user_store == old(state).user_store
            &&& final(state).banned_token_store == old(state).banned_token_store
            &&& final(state).token_service == old(state).token_service
            &&& match r {
                Ok(resp) => resp matches LoginResponse::TwoFactorAuth(t) && t.message@
                    == "2FA required"@ && t.login_attempt_id@ == id_chars(s1, s2) && final(email_client).outbox()
                    == old(email_client).outbox().push(
                    (email@, "2FA Code"@, code_chars(c1)),
                ),
                Err(err) => err == AuthAPIError::UnexpectedError && final(email_client).outbox()
                    == old(email_client).outbox(),
            }
        }),
{
    let (login_attempt_id, two_fa_code) = state.challenge_generator.next_challenge();
    let id_text = login_attempt_id.as_ref().to_owned();
    let code_text = two_fa_code.as_ref().to_owned();
    if let Err(_) = state.two_fa_code_store.add_code(
        email.clone(),
        login_attempt_id,
        two_fa_code,
    ) {
        return Err(AuthAPIError::UnexpectedError);
    }
    if let Err(_) = email_client.send_email(email, "2FA Code", code_text.as_str()) {
        return Err(AuthAPIError::UnexpectedError);
    }
    Ok(
        LoginResponse::TwoFactorAuth(
            TwoFactorAuthResponse {
                message: ("2FA required").to_owned(),
                login_attempt_id: id_text,
            },
        ),
    )
}

/// Issues the session token right away; the state is untouched.
fn handle_no_2fa(state: &AppState, email: &Email, now: u64) -> (r: Result<
    LoginResponse,
    AuthAPIError,
>)
    ensures
        if now + state.token_service.spec_ttl() <= u64::MAX {
            r matches Ok(LoginResponse::RegularAuth(t)) && t@ == token_chars(
                state.token_service.spec_key(),
                email@,
                (now + state.token_service.spec_ttl()) as u64,
            )
        } else {
            r == Err::<LoginResponse, AuthAPIError>(AuthAPIError::UnexpectedError)
        },
{
    match state.token_service.issue(email, now) {
        Some(t) => Ok(LoginResponse::RegularAuth(t)),
        None => Err(AuthAPIError::UnexpectedError),
    }
}

} // verus!
