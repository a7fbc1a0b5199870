use vstd::prelude::*;
use vstd::string::StrSliceExecFns;
use crate::app_state::AppState;
use crate::domain::attempt_id_valid;
use crate::domain::email_accepted;
use crate::domain::two_fa_code_valid;
use crate::domain::AuthAPIError;
use crate::domain::Email;
use crate::domain::LoginAttemptId;
use crate::domain::TwoFACode;
use crate::domain::TwoFACodeStoreError;
use crate::services::token_service::token_chars;

verus! {

/// What a caller hands to two-factor verification.
pub struct Verify2FARequest {
    pub email: String,
    pub login_attempt_id: String,
    pub two_fa_code: String,
}

/// Completes a pending two-factor login. Format failures surface as
/// `InvalidCredentials`; a missing challenge and a wrong pair both
/// surface as the one `IncorrectCredentials`. On a match the challenge
/// is consumed — removed before the token is issued — so the same
/// (attempt identifier, code) pair can never verify twice.
pub fn verify_2fa(state: &mut AppState, request: Verify2FARequest, now: u64) -> (r: Result<
    String,
    AuthAPIError,
>)
    ensures
        ({
            let e = request.email@;
            let id = request.login_attempt_id@;
            let c = request.two_fa_code@;
            let challenges = old(state).two_fa_code_store@;
            if !email_accepted(e) || !attempt_id_valid(id) || !two_fa_code_valid(c) {
                r == Err::<String, AuthAPIError>(AuthAPIError::InvalidCredentials) && *final(state)
                    == *old(state)
            } else if !challenges.contains_key(e) || challenges[e] != (id, c) {
                r == Err::<String, AuthAPIError>(AuthAPIError::IncorrectCredentials)
                    && *final(state) == *old(state)
            } else {
                &&& final(state).two_fa_code_store@ == challenges.remove(e)
                &&& final(state).user_store == old(state).user_store
                &&& final(state).banned_token_store == old(state).banned_token_store
                &&& final(state).token_service == old(state).token_service
                &&& final(state).challenge_generator == old(state).challenge_generator
                &&& if now + old(state).token_service.spec_ttl() <= u64::MAX {
                    r matches Ok(t) && t@ == token_chars(
                        old(state).token_service.spec_key(),
                        e,
                        (now + old(state).token_service.spec_ttl()) as u64,
                    )
                } else {
                    r == Err::<String, AuthAPIError>(AuthAPIError::UnexpectedError)
                }
            }
        }),
{
    let email = match Email::parse(request.email) {
        Ok(e) => e,
        Err(_) => {
            return Err(AuthAPIError::InvalidCredentials);
        },
    };
    let login_attempt_id = match LoginAttemptId::parse(request.login_attempt_id) {
        Ok(id) => id,
        Err(_) => {
            return Err(AuthAPIError::InvalidCredentials);
        },
    };
    let two_fa_code = match TwoFACode::parse(request.two_fa_code) {
        Ok(c) => c,
        Err(_) => {
            return Err(AuthAPIError::InvalidCredentials);
        },
    };
    let code_tuple = match state.two_fa_code_store.get_code(&email) {
        Ok(t) => t,
        Err(e) => {
            return match e {
                TwoFACodeStoreError::LoginAttemptIdNotFound => Err(
                    AuthAPIError::IncorrectCredentials,
                ),
                _ => Err(AuthAPIError::UnexpectedError),
            };
        },
    };
    if !(code_tuple.0.eq(&login_attempt_id) && code_tuple.1.eq(&two_fa_code)) {
        return Err(AuthAPIError::IncorrectCredentials);
    }
    if let Err(_) = state.two_fa_code_store.remove_code(&email) {
        return Err(AuthAPIError::UnexpectedError);
    }
    match state.token_service.issue(&email, now) {
        Some(t) => Ok(t),
        None => Err(AuthAPIError::UnexpectedError),
    }
}

} // verus!
