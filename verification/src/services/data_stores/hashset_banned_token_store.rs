use vstd::prelude::*;
use crate::domain::BannedTokenStoreError;
use crate::services::store_model::lemma_absent_to_set;
use crate::services::store_model::lemma_index_to_set;
use crate::services::store_model::lemma_push_to_set;

verus! {

/// In-memory revocation store: the set of tokens that must be rejected
/// even while cryptographically valid. Entries never expire, so this
/// variant suits only short-lived test processes; the durable variant
/// bounds each entry by the token's remaining lifetime.
pub struct HashsetBannedTokenStore {
    tokens: Vec<String>,
}

impl View for HashsetBannedTokenStore {
    type V = Set<Seq<char>>;

    closed spec fn view(&self) -> Set<Seq<char>> {
        self.tokens@.map_values(|t: String| t@).to_set()
    }
}

impl Default for HashsetBannedTokenStore {
    fn default() -> (r: HashsetBannedTokenStore)
        ensures
            r@ == Set::<Seq<char>>::empty(),
    {
        let r = HashsetBannedTokenStore { tokens: Vec::new() };
        proof {
            assert(r@ =~= Set::<Seq<char>>::empty());
        }
        r
    }
}

impl HashsetBannedTokenStore {
    /// Marks a token revoked. Idempotent: revoking an already revoked
    /// token leaves the store as it is.
    pub fn add_token(&mut self, token: String) -> (r: Result<(), BannedTokenStoreError>)
        ensures
            r is Ok,
            final(self)@ == old(self)@.insert(token@),
    {
        let mut i: usize = 0;
        let n = self.tokens.len();
        while i < n
            invariant
                n == self.tokens@.len(),
                i <= n,
                forall|j: int| 0 <= j < i ==> (#[trigger] self.tokens@[j])@ != token@,
            decreases n - i,
        {
            if self.tokens[i].eq(&token) {
                proof {
                    let s = self.tokens@.map_values(|t: String| t@);
                    assert(s[i as int] == token@);
                    lemma_index_to_set(s, i as int);
                    assert(self@.insert(token@) =~= self@);
                }
                return Ok(());
            }
            i += 1;
        }
        self.tokens.push(token);
        proof {
            let s = old(self).tokens@.map_values(|t: String| t@);
            assert(self.tokens@.map_values(|t: String| t@) =~= s.push(token@));
            lemma_push_to_set(s, token@);
        }
        Ok(())
    }

    /// Whether a token has been revoked.
    pub fn contains_token(&self, token: &str) -> (r: Result<bool, BannedTokenStoreError>)
        ensures
            r is Ok,
            r matches Ok(b) ==> b == self@.contains(token@),
    {
        let t = token.to_owned();
        let mut i: usize = 0;
        let n = self.tokens.len();
        while i < n
            invariant
                n == self.tokens@.len(),
                t@ == token@,
                i <= n,
                forall|j: int| 0 <= j < i ==> (#[trigger] self.tokens@[j])@ != token@,
            decreases n - i,
        {
            if self.tokens[i].eq(&t) {
                proof {
                    let s = self.tokens@.map_values(|x: String| x@);
                    assert(s[i as int] == token@);
                    lemma_index_to_set(s, i as int);
                }
                return Ok(true);
            }
            i += 1;
        }
        proof {
            let s = self.tokens@.map_values(|x: String| x@);
            assert(forall|j: int| 0 <= j < s.len() ==> #[trigger] s[j] != token@);
            lemma_absent_to_set(s, token@);
        }
        Ok(false)
    }
}

/// A revoked token is in the set the revocation check consults: by
/// the two contracts, `contains_token` answers true right after
/// `add_token`.
pub proof fn lemma_revoked_token_present(s: Set<Seq<char>>, t: Seq<char>)
    ensures
        s.insert(t).contains(t),
{
}

} // verus!
