use vstd::prelude::*;
use vstd::string::StrSliceExecFns;
use crate::app_state::AppState;
use crate::domain::AuthAPIError;
use crate::routes::verify_token::token_accepted;

verus! {

/// Revokes the presented session token. A missing token is its own
/// failure, distinct from an invalid one: a second logout after the
/// client dropped its token reports `MissingToken`, never
/// `InvalidToken`. On success the token joins the revocation store and
/// every later combined check refuses it.
pub fn logout(state: &mut AppState, token: Option<&str>, now: u64) -> (r: Result<
    (),
    AuthAPIError,
>)
    ensures
        ({
            match token {
                None => r == Err::<(), AuthAPIError>(AuthAPIError::MissingToken) && *final(state)
                    == *old(state),
                Some(t) => {
                    if token_accepted(*old(state), t@, now) {
                        &&& r == Ok::<(), AuthAPIError>(())
                        &&& final(state).banned_token_store@ == old(
                            state,
                        ).banned_token_store@.insert(t@)
                        &&& final(state).user_store == old(state).user_store
                        &&& final(state).two_fa_code_store == old(state).two_fa_code_store
                        &&& final(state).token_service == old(state).token_service
                        &&& final(state).challenge_generator == old(state).challenge_generator
                    } else {
                        r == Err::<(), AuthAPIError>(AuthAPIError::InvalidToken) && *final(state)
                            == *old(state)
                    }
                },
            }
        }),
{
    let t = match token {
        Some(t) => t,
        None => {
            return Err(AuthAPIError::MissingToken);
        },
    };
    if let Err(_) = state.token_service.verify(t, now) {
        return Err(AuthAPIError::InvalidToken);
    }
    match state.banned_token_store.contains_token(t) {
        Ok(false) => {},
        _ => {
            return Err(AuthAPIError::InvalidToken);
        },
    }
    match state.banned_token_store.add_token(t.to_owned()) {
        Ok(_) => Ok(()),
        Err(_) => Err(AuthAPIError::UnexpectedError),
    }
}

} // verus!
