use vstd::prelude::*;
use crate::services::challenge_generator::ChallengeGenerator;
use crate::services::data_stores::HashmapUserStore;
use crate::services::data_stores::HashsetBannedTokenStore;
use crate::services::token_service::TokenService;
use crate::services::HashmapTwoFACodeStore;

verus! {

/// Everything a request handler needs: the three stores, the token
/// service and the challenge generator, threaded in at construction
/// rather than reached through ambient state.
pub struct AppState {
    pub user_store: HashmapUserStore,
    pub banned_token_store: HashsetBannedTokenStore,
    pub two_fa_code_store: HashmapTwoFACodeStore,
    pub token_service: TokenService,
    pub challenge_generator: ChallengeGenerator,
}

impl AppState {
    pub fn new(
        user_store: HashmapUserStore,
        banned_token_store: HashsetBannedTokenStore,
        two_fa_code_store: HashmapTwoFACodeStore,
        token_service: TokenService,
        challenge_generator: ChallengeGenerator,
    ) -> (r: AppState)
        ensures
            r.user_store == user_store,
            r.banned_token_store == banned_token_store,
            r.two_fa_code_store == two_fa_code_store,
            r.token_service == token_service,
            r.challenge_generator == challenge_generator,
    {
        AppState { user_store, banned_token_store, two_fa_code_store, token_service, challenge_generator }
    }
}

} // verus!
