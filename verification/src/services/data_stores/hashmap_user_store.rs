use vstd::prelude::*;
use crate::domain::Email;
use crate::domain::Password;
use crate::domain::User;
use crate::domain::UserStoreError;
use crate::domain::UserV;
use crate::services::store_model::kv_map;
use crate::services::store_model::kv_unique;
use crate::services::store_model::lemma_kv_map_absent;
use crate::services::store_model::lemma_kv_map_index;
use crate::services::store_model::lemma_kv_map_push;

verus! {

/// In-memory credential store: one account per identity. Viewed as a
/// map from the identity's characters to the account it owns.
pub struct HashmapUserStore {
    users: Vec<User>,
}

impl HashmapUserStore {
    /// The association list the vector stands for.
    pub closed spec fn entries(&self) -> Seq<(Seq<char>, UserV)> {
        self.users@.map_values(|u: User| (u@.email, u@))
    }

    #[verifier::type_invariant]
    pub closed spec fn wf(&self) -> bool {
        kv_unique(self.entries())
    }
}

impl View for HashmapUserStore {
    type V = Map<Seq<char>, UserV>;

    closed spec fn view(&self) -> Map<Seq<char>, UserV> {
        kv_map(self.entries())
    }
}

impl Default for HashmapUserStore {
    fn default() -> (r: HashmapUserStore)
        ensures
            r@ == Map::<Seq<char>, UserV>::empty(),
    {
        let r = HashmapUserStore { users: Vec::new() };
        proof {
            assert(r.entries() =~= Seq::<(Seq<char>, UserV)>::empty());
        }
        r
    }
}

impl HashmapUserStore {
    /// Creates the account unless its identity is already taken; never
    /// updates an existing account.
    pub fn add_user(&mut self, user: User) -> (r: Result<(), UserStoreError>)
        ensures
            match r {
                Ok(_) => !old(self)@.contains_key(user@.email) && final(self)@ == old(
                    self,
                )@.insert(user@.email, user@),
                Err(e) => e == UserStoreError::UserAlreadyExists && old(self)@.contains_key(
                    user@.email,
                ) && *final(self) == *old(self),
            },
    {
        proof {
            use_type_invariant(&*self);
        }
        let mut i: usize = 0;
        let n = self.users.len();
        while i < n
            invariant
                n == self.users@.len(),
                i <= n,
                kv_unique(self.entries()),
                forall|j: int| 0 <= j < i ==> (#[trigger] self.users@[j])@.email != user@.email,
            decreases n - i,
        {
            if self.users[i].email.eq(&user.email) {
                proof {
                    lemma_kv_map_index(self.entries(), i as int);
                    assert(self.entries()[i as int].0 == user@.email);
                }
                return Err(UserStoreError::UserAlreadyExists);
            }
            i += 1;
        }
        proof {
            assert(forall|j: int|
                0 <= j < self.entries().len() ==> (#[trigger] self.entries()[j]).0 != user@.email);
            lemma_kv_map_absent(self.entries(), user@.email);
            lemma_kv_map_push(self.entries(), user@.email, user@);
        }
        let ghost old_entries = self.entries();
        // Move the vector out before pushing: the type invariant keeps a
        // direct `&mut` borrow of the field out of non-aborting calls.
        let mut users: Vec<User> = Vec::new();
        core::mem::swap(&mut self.users, &mut users);
        proof {
            assert(self.entries() =~= Seq::<(Seq<char>, UserV)>::empty());
        }
        users.push(user);
        proof {
            let new_entries = users@.map_values(|u: User| (u@.email, u@));
            assert(new_entries =~= old_entries.push((user@.email, user@)));
            assert(forall|j: int|
                0 <= j < old_entries.len() ==> #[trigger] new_entries[j] == old_entries[j]);
            assert(new_entries[old_entries.len() as int] == (user@.email, user@));
            assert(kv_unique(new_entries));
        }
        core::mem::swap(&mut self.users, &mut users);
        proof {
            assert(self.entries() =~= old_entries.push((user@.email, user@)));
        }
        Ok(())
    }

    /// Looks the account up by its identity.
    pub fn get_user(&self, email: &Email) -> (r: Result<User, UserStoreError>)
        ensures
            match r {
                Ok(u) => self@.contains_key(email@) && u@ == self@[email@] && u@.email == email@,
                Err(e) => e == UserStoreError::UserNotFound && !self@.contains_key(email@),
            },
    {
        proof {
            use_type_invariant(self);
        }
        let mut i: usize = 0;
        let n = self.users.len();
        while i < n
            invariant
                n == self.users@.len(),
                i <= n,
                kv_unique(self.entries()),
                forall|j: int| 0 <= j < i ==> (#[trigger] self.users@[j])@.email != email@,
            decreases n - i,
        {
            if self.users[i].email.eq(email) {
                proof {
                    lemma_kv_map_index(self.entries(), i as int);
                }
                return Ok(self.users[i].clone());
            }
            i += 1;
        }
        proof {
            assert(forall|j: int|
                0 <= j < self.entries().len() ==> (#[trigger] self.entries()[j]).0 != email@);
            lemma_kv_map_absent(self.entries(), email@);
        }
        Err(UserStoreError::UserNotFound)
    }

    /// Checks the secret against the account, telling a missing account
    /// apart from a wrong secret; callers that face the outside world
    /// must collapse the two.
    pub fn validate_user(&self, email: &Email, password: &Password) -> (r: Result<
        (),
        UserStoreError,
    >)
        ensures
            match r {
                Ok(_) => self@.contains_key(email@) && self@[email@].password == password@,
                Err(e) => (e == UserStoreError::UserNotFound && !self@.contains_key(email@)) || (e
                    == UserStoreError::InvalidCredentials && self@.contains_key(email@)
                    && self@[email@].password != password@),
            },
    {
        match self.get_user(email) {
            Ok(user) => {
                if user.password.eq(password) {
                    Ok(())
                } else {
                    Err(UserStoreError::InvalidCredentials)
                }
            },
            Err(_) => Err(UserStoreError::UserNotFound),
        }
    }
}

/// A created account makes its identity present, so by `add_user`'s
/// contract a second add of the same identity can only return
/// `UserAlreadyExists`, and `validate_user` on it can only answer by
/// the stored secret.
pub proof fn lemma_added_identity_present(m: Map<Seq<char>, UserV>, u: UserV)
    ensures
        m.insert(u.email, u).contains_key(u.email),
        m.insert(u.email, u)[u.email] == u,
{
}

} // verus!
