use vstd::prelude::*;
use vstd::string::StrSliceExecFns;

verus! {

/// Reason a candidate password was rejected.
#[derive(Clone, Copy, Debug, PartialEq, Eq, Structural)]
pub enum PasswordError {
    TooShort,
}

/// A password accepted by the service. Every value of this type is at
/// least eight characters long; `parse` is the only way to build one.
#[derive(Debug)]
pub struct Password {
    inner: String,
}

impl Clone for Password {
    fn clone(&self) -> (r: Password)
        ensures
            r@ == self@,
    {
        proof {
            use_type_invariant(self);
        }
        Password { inner: self.inner.clone() }
    }
}

impl View for Password {
    type V = Seq<char>;

    closed spec fn view(&self) -> Seq<char> {
        self.inner@
    }
}

impl Password {
    /// Minimum number of characters a password must have.
    #[verifier::type_invariant]
    pub closed spec fn wf(&self) -> bool {
        self.inner@.len() >= 8
    }

    /// Accepts exactly the strings of at least eight characters.
    pub fn parse(s: String) -> (r: Result<Password, PasswordError>)
        ensures
            match r {
                Ok(p) => s@.len() >= 8 && p@ == s@,
                Err(_) => s@.len() < 8,
            },
    {
        if s.as_str().unicode_len() >= 8 {
            Ok(Password { inner: s })
        } else {
            Err(PasswordError::TooShort)
        }
    }

    /// The password text itself.
    pub fn as_ref(&self) -> (r: &str)
        ensures
            r@ == self@,
    {
        self.inner.as_str()
    }
}

impl PartialEq for Password {
    fn eq(&self, other: &Password) -> (r: bool) {
        self.inner.eq(&other.inner)
    }
}

impl vstd::std_specs::cmp::PartialEqSpecImpl for Password {
    open spec fn obeys_eq_spec() -> bool {
        true
    }

    open spec fn eq_spec(&self, other: &Password) -> bool {
        self@ == other@
    }
}

impl Eq for Password {

}

} // verus!
