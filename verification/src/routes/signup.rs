use vstd::prelude::*;
use vstd::string::StringExecFns;
use crate::app_state::AppState;
use crate::domain::email_accepted;
use crate::domain::AuthAPIError;
use crate::domain::Email;
use crate::domain::Password;
use crate::domain::User;
use crate::domain::UserStoreError;
use crate::domain::UserV;

verus! {

/// What a caller hands to signup.
pub struct SignupRequest {
    pub email: String,
    pub password: String,
    pub requires_2fa: bool,
}

/// What a successful signup returns.
pub struct SignupResponse {
    pub message: String,
}

/// Creates the account: `InvalidCredentials` when identity or secret
/// fail their format rules (before any store is touched),
/// `UserAlreadyExists` when the identity is taken, success otherwise.
pub fn signup(state: &mut AppState, request: SignupRequest) -> (r: Result<
    SignupResponse,
    AuthAPIError,
>)
    ensures
        ({
            let e = request.email@;
            let p = request.password@;
            if !email_accepted(e) || p.len() < 8 {
                r == Err::<SignupResponse, AuthAPIError>(AuthAPIError::InvalidCredentials)
                    && *final(state) == *old(state)
            } else if old(state).user_store@.contains_key(e) {
                r == Err::<SignupResponse, AuthAPIError>(AuthAPIError::UserAlreadyExists)
                    && *final(state) == *old(state)
            } else {
                &&& r matches Ok(resp) && resp.message@ == "User created successfully!"@
                &&& final(state).user_store@ == old(state).user_store@.insert(
                    e,
                    UserV { email: e, password: p, requires_2fa: request.requires_2fa },
                )
                &&& final(state).banned_token_store == old(state).banned_token_store
                &&& final(state).two_fa_code_store == old(state).two_fa_code_store
                &&& final(state).token_service == old(state).token_service
                &&& final(state).challenge_generator == old(state).challenge_generator
            }
        }),
{
    let email = match Email::parse(request.email) {
        Ok(e) => e,
        Err(_) => {
            return Err(AuthAPIError::InvalidCredentials);
        },
    };
    let password = match Password::parse(request.password) {
        Ok(p) => p,
        Err(_) => {
            return Err(AuthAPIError::InvalidCredentials);
        },
    };
    let user = User::new(email, password, request.requires_2fa);
    if let Err(e) = state.user_store.add_user(user) {
        return match e {
            UserStoreError::UserAlreadyExists => Err(AuthAPIError::UserAlreadyExists),
            _ => Err(AuthAPIError::UnexpectedError),
        };
    }
    Ok(SignupResponse { message: ("User created successfully!").to_owned() })
}

} // verus!
