use vstd::prelude::*;
use crate::domain::Email;
use crate::domain::LoginAttemptId;
use crate::domain::TwoFACode;
use crate::domain::TwoFACodeStoreError;
use crate::services::store_model::kv_map;
use crate::services::store_model::kv_unique;
use crate::services::store_model::lemma_kv_map_absent;
use crate::services::store_model::lemma_kv_map_index;
use crate::services::store_model::lemma_kv_map_push;
use crate::services::store_model::lemma_kv_map_remove;
use crate::services::store_model::lemma_kv_remove_frees_key;

verus! {

/// In-memory challenge store: at most one outstanding two-factor
/// challenge per identity. Viewed as a map from the identity's
/// characters to the live (attempt identifier, code) pair.
pub struct HashmapTwoFACodeStore {
    codes: Vec<(Email, (LoginAttemptId, TwoFACode))>,
}

/// The association list a challenge vector stands for.
pub closed spec fn challenge_entries(s: Seq<(Email, (LoginAttemptId, TwoFACode))>) -> Seq<
    (Seq<char>, (Seq<char>, Seq<char>)),
> {
    s.map_values(|p: (Email, (LoginAttemptId, TwoFACode))| (p.0@, (p.1.0@, p.1.1@)))
}

impl HashmapTwoFACodeStore {
    /// The association list the vector stands for.
    pub closed spec fn entries(&self) -> Seq<(Seq<char>, (Seq<char>, Seq<char>))> {
        challenge_entries(self.codes@)
    }

    #[verifier::type_invariant]
    pub closed spec fn wf(&self) -> bool {
        kv_unique(self.entries())
    }
}

impl View for HashmapTwoFACodeStore {
    type V = Map<Seq<char>, (Seq<char>, Seq<char>)>;

    closed spec fn view(&self) -> Map<Seq<char>, (Seq<char>, Seq<char>)> {
        kv_map(self.entries())
    }
}

impl Default for HashmapTwoFACodeStore {
    fn default() -> (r: HashmapTwoFACodeStore)
        ensures
            r@ == Map::<Seq<char>, (Seq<char>, Seq<char>)>::empty(),
    {
        let r = HashmapTwoFACodeStore { codes: Vec::new() };
        proof {
            assert(r.entries() =~= Seq::<(Seq<char>, (Seq<char>, Seq<char>))>::empty());
        }
        r
    }
}

impl HashmapTwoFACodeStore {
    /// Stores the challenge for the identity, replacing any challenge
    /// already outstanding: only the latest login attempt stays valid.
    pub fn add_code(
        &mut self,
        email: Email,
        login_attempt_id: LoginAttemptId,
        code: TwoFACode,
    ) -> (r: Result<(), TwoFACodeStoreError>)
        ensures
            r is Ok,
            final(self)@ == old(self)@.insert(email@, (login_attempt_id@, code@)),
    {
        proof {
            use_type_invariant(&*self);
        }
        let ghost old_entries = self.entries();
        let ghost pair = (email@, (login_attempt_id@, code@));
        // Move the vector out before reshaping it: the type invariant
        // keeps a direct `&mut` borrow of the field out of non-aborting
        // calls.
        let mut codes: Vec<(Email, (LoginAttemptId, TwoFACode))> = Vec::new();
        core::mem::swap(&mut self.codes, &mut codes);
        proof {
            assert(self.entries() =~= Seq::<(Seq<char>, (Seq<char>, Seq<char>))>::empty());
        }
        let mut i: usize = 0;
        let n = codes.len();
        let mut found: Option<usize> = None;
        while i < n
            invariant
                n == codes@.len(),
                i <= n,
                challenge_entries(codes@) == old_entries,
                match found {
                    Some(k) => k < i && old_entries[k as int].0 == email@,
                    None => forall|j: int|
                        0 <= j < i ==> (#[trigger] old_entries[j]).0 != email@,
                },
            decreases n - i,
        {
            if found.is_none() && codes[i].0.eq(&email) {
                proof {
                    assert(old_entries[i as int].0 == email@);
                }
                found = Some(i);
            }
            i += 1;
        }
        match found {
            Some(k) => {
                codes.remove(k);
                proof {
                    assert(challenge_entries(codes@) =~= old_entries.remove(k as int));
                    lemma_kv_map_remove(old_entries, k as int);
                    lemma_kv_remove_frees_key(old_entries, k as int);
                }
            },
            None => {
                proof {
                    lemma_kv_map_absent(old_entries, email@);
                }
            },
        }
        let ghost removed = challenge_entries(codes@);
        proof {
            assert(kv_unique(removed) && forall|j: int|
                0 <= j < removed.len() ==> (#[trigger] removed[j]).0 != email@);
            lemma_kv_map_push(removed, pair.0, pair.1);
        }
        codes.push((email, (login_attempt_id, code)));
        proof {
            let new_entries = challenge_entries(codes@);
            assert(new_entries =~= removed.push(pair));
            assert(forall|j: int|
                0 <= j < removed.len() ==> #[trigger] new_entries[j] == removed[j]);
            assert(new_entries[removed.len() as int] == pair);
            assert(kv_unique(new_entries));
        }
        core::mem::swap(&mut self.codes, &mut codes);
        proof {
            assert(self.entries() =~= removed.push(pair));
            assert(final(self)@ =~= old(self)@.insert(email@, (login_attempt_id@, code@)));
        }
        Ok(())
    }

    /// Forgets the identity's challenge; doing so for an identity
    /// without one changes nothing.
    pub fn remove_code(&mut self, email: &Email) -> (r: Result<(), TwoFACodeStoreError>)
        ensures
            r is Ok,
            final(self)@ == old(self)@.remove(email@),
    {
        proof {
            use_type_invariant(&*self);
        }
        let ghost old_entries = self.entries();
        let mut codes: Vec<(Email, (LoginAttemptId, TwoFACode))> = Vec::new();
        core::mem::swap(&mut self.codes, &mut codes);
        proof {
            assert(self.entries() =~= Seq::<(Seq<char>, (Seq<char>, Seq<char>))>::empty());
        }
        let mut i: usize = 0;
        let n = codes.len();
        let mut found: Option<usize> = None;
        while i < n
            invariant
                n == codes@.len(),
                i <= n,
                challenge_entries(codes@) == old_entries,
                match found {
                    Some(k) => k < i && old_entries[k as int].0 == email@,
                    None => forall|j: int|
                        0 <= j < i ==> (#[trigger] old_entries[j]).0 != email@,
                },
            decreases n - i,
        {
            if found.is_none() && codes[i].0.eq(email) {
                proof {
                    assert(old_entries[i as int].0 == email@);
                }
                found = Some(i);
            }
            i += 1;
        }
        match found {
            Some(k) => {
                codes.remove(k);
                proof {
                    assert(challenge_entries(codes@) =~= old_entries.remove(k as int));
                    lemma_kv_map_remove(old_entries, k as int);
                    lemma_kv_remove_frees_key(old_entries, k as int);
                }
            },
            None => {
                proof {
                    lemma_kv_map_absent(old_entries, email@);
                    assert(old(self)@.remove(email@) =~= old(self)@);
                }
            },
        }
        core::mem::swap(&mut self.codes, &mut codes);
        proof {
            assert(final(self)@ =~= old(self)@.remove(email@));
        }
        Ok(())
    }

    /// Returns the identity's live challenge, if one is outstanding.
    pub fn get_code(&self, email: &Email) -> (r: Result<
        (LoginAttemptId, TwoFACode),
        TwoFACodeStoreError,
    >)
        ensures
            match r {
                Ok(p) => self@.contains_key(email@) && self@[email@] == (p.0@, p.1@),
                Err(e) => e == TwoFACodeStoreError::LoginAttemptIdNotFound
                    && !self@.contains_key(email@),
            },
    {
        proof {
            use_type_invariant(self);
        }
        let mut i: usize = 0;
        let n = self.codes.len();
        while i < n
            invariant
                n == self.codes@.len(),
                i <= n,
                kv_unique(self.entries()),
                forall|j: int| 0 <= j < i ==> (#[trigger] self.entries()[j]).0 != email@,
            decreases n - i,
        {
            if self.codes[i].0.eq(email) {
                proof {
                    assert(self.entries()[i as int].0 == email@);
                    lemma_kv_map_index(self.entries(), i as int);
                }
                let p = &self.codes[i];
                return Ok((p.1.0.clone(), p.1.1.clone()));
            }
            proof {
                assert(self.entries()[i as int].0 == self.codes@[i as int].0@);
            }
            i += 1;
        }
        proof {
            lemma_kv_map_absent(self.entries(), email@);
        }
        Err(TwoFACodeStoreError::LoginAttemptIdNotFound)
    }
}

/// A later challenge shadows an earlier one for the same identity:
/// after two stores only the second pair is live, so a verification
/// presenting the first pair no longer matches.
pub proof fn lemma_latest_challenge_wins(
    m: Map<Seq<char>, (Seq<char>, Seq<char>)>,
    e: Seq<char>,
    c1: (Seq<char>, Seq<char>),
    c2: (Seq<char>, Seq<char>),
)
    requires
        c1 != c2,
    ensures
        m.insert(e, c1).insert(e, c2).contains_key(e),
        m.insert(e, c1).insert(e, c2)[e] == c2,
        m.insert(e, c1).insert(e, c2)[e] != c1,
{
}

/// A consumed challenge is gone: after removal nothing is outstanding
/// for the identity, so by `verify_2fa`'s contract the same pair can
/// never verify a second time.
pub proof fn lemma_consumed_challenge_gone(m: Map<Seq<char>, (Seq<char>, Seq<char>)>, e: Seq<char>)
    ensures
        !m.remove(e).contains_key(e),
{
}

} // verus!
