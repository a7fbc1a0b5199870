use vstd::prelude::*;
use crate::app_state::AppState;
use crate::domain::AuthAPIError;
use crate::services::token_service::token_verify_spec;

verus! {

/// What a caller hands to token verification.
pub struct VerifyTokenRequest {
    pub token: String,
}

/// Whether the combined check accepts a token: its signature and
/// expiry hold, and it has not been revoked. A token's cryptographic
/// validity is necessary but not sufficient.
pub open spec fn token_accepted(state: AppState, tok: Seq<char>, now: u64) -> bool {
    &&& token_verify_spec(state.token_service.spec_key(), tok, now) is Ok
    &&& !state.banned_token_store@.contains(tok)
}

/// Accepts exactly the tokens the combined check accepts: the
/// cryptographic check runs first (cheap and local), the revocation
/// lookup second.
pub fn verify_token(state: &AppState, request: VerifyTokenRequest, now: u64) -> (r: Result<
    (),
    AuthAPIError,
>)
    ensures
        r == if token_accepted(*state, request.token@, now) {
            Ok::<(), AuthAPIError>(())
        } else {
            Err::<(), AuthAPIError>(AuthAPIError::InvalidToken)
        },
{
    if let Err(_) = state.token_service.verify(request.token.as_str(), now) {
        return Err(AuthAPIError::InvalidToken);
    }
    match state.banned_token_store.contains_token(request.token.as_str()) {
        Ok(false) => Ok(()),
        _ => Err(AuthAPIError::InvalidToken),
    }
}

/// A revoked token fails the combined check even while its signature
/// and expiry are good: presence in the revocation set alone refuses
/// it.
pub proof fn lemma_revoked_token_rejected(state: AppState, tok: Seq<char>, now: u64)
    requires
        state.banned_token_store@.contains(tok),
    ensures
        !token_accepted(state, tok, now),
{
}

} // verus!
