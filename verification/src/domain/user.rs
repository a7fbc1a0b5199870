use vstd::prelude::*;
use crate::domain::email::Email;
use crate::domain::password::Password;

verus! {

/// Mathematical image of an account: both strings as character
/// sequences, plus the two-factor preference.
pub struct UserV {
    pub email: Seq<char>,
    pub password: Seq<char>,
    pub requires_2fa: bool,
}

/// An account: identity, password material and the two-factor flag.
/// One per identity; created on signup, never updated or deleted.
#[derive(Debug)]
pub struct User {
    pub email: Email,
    pub password: Password,
    pub requires_2fa: bool,
}

impl View for User {
    type V = UserV;

    open spec fn view(&self) -> UserV {
        UserV { email: self.email@, password: self.password@, requires_2fa: self.requires_2fa }
    }
}

impl User {
    pub fn new(email: Email, password: Password, requires_2fa: bool) -> (r: User)
        ensures
            r@ == (UserV { email: email@, password: password@, requires_2fa }),
    {
        User { email, password, requires_2fa }
    }
}

impl Clone for User {
    fn clone(&self) -> (r: User)
        ensures
            r@ == self@,
    {
        User {
            email: self.email.clone(),
            password: self.password.clone(),
            requires_2fa: self.requires_2fa,
        }
    }
}

impl PartialEq for User {
    fn eq(&self, other: &User) -> (r: bool) {
        self.email.eq(&other.email) && self.password.eq(&other.password)
            && self.requires_2fa == other.requires_2fa
    }
}

impl vstd::std_specs::cmp::PartialEqSpecImpl for User {
    open spec fn obeys_eq_spec() -> bool {
        true
    }

    open spec fn eq_spec(&self, other: &User) -> bool {
        self@ == other@
    }
}

impl Eq for User {

}

} // verus!
