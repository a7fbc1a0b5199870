use vstd::prelude::*;
use vstd::string::StrSliceExecFns;

verus! {

/// Errors of the credential store.
#[derive(Clone, Copy, Debug, PartialEq, Eq, Structural)]
pub enum UserStoreError {
    UserAlreadyExists,
    UserNotFound,
    InvalidCredentials,
    UnexpectedError,
}

/// Errors of the revocation store.
#[derive(Clone, Copy, Debug, PartialEq, Eq, Structural)]
pub enum BannedTokenStoreError {
    UnexpectedError,
}

/// Errors of the challenge store.
#[derive(Clone, Copy, Debug, PartialEq, Eq, Structural)]
pub enum TwoFACodeStoreError {
    LoginAttemptIdNotFound,
    UnexpectedError,
}

/// A hexadecimal digit, either case.
pub open spec fn is_hex_digit(c: char) -> bool {
    (48 <= c as u32 && c as u32 <= 57)  // '0' ..= '9'
    || (97 <= c as u32 && c as u32 <= 102)  // 'a' ..= 'f'
    || (65 <= c as u32 && c as u32 <= 70)  // 'A' ..= 'F'
}

/// A decimal digit.
pub open spec fn is_dec_digit(c: char) -> bool {
    48 <= c as u32 && c as u32 <= 57  // '0' ..= '9'
}

/// What each position of an attempt identifier must hold: dashes at the
/// four fixed places, hexadecimal digits everywhere else.
pub open spec fn attempt_id_char_ok(s: Seq<char>, i: int) -> bool {
    if i == 8 || i == 13 || i == 18 || i == 23 {
        s[i] == '-'
    } else {
        is_hex_digit(s[i])
    }
}

/// A well-formed attempt identifier: the textual form of a 128-bit
/// identifier, five hexadecimal groups of 8, 4, 4, 4 and 12 digits
/// separated by dashes.
pub open spec fn attempt_id_valid(s: Seq<char>) -> bool {
    s.len() == 36 && forall|i: int| 0 <= i < 36 ==> #[trigger] attempt_id_char_ok(s, i)
}

/// A well-formed one-time code: exactly six decimal digits.
pub open spec fn two_fa_code_valid(s: Seq<char>) -> bool {
    s.len() == 6 && forall|i: int| 0 <= i < 6 ==> is_dec_digit(#[trigger] s[i])
}

fn is_hex_digit_exec(c: char) -> (r: bool)
    ensures
        r == is_hex_digit(c),
{
    let n = c as u32;
    (48 <= n && n <= 57) || (97 <= n && n <= 102) || (65 <= n && n <= 70)
}

fn is_dec_digit_exec(c: char) -> (r: bool)
    ensures
        r == is_dec_digit(c),
{
    let n = c as u32;
    48 <= n && n <= 57
}

/// The identifier of one login attempt awaiting its second factor;
/// random in production, globally unique.
#[derive(Debug)]
pub struct LoginAttemptId {
    inner: String,
}

impl View for LoginAttemptId {
    type V = Seq<char>;

    closed spec fn view(&self) -> Seq<char> {
        self.inner@
    }
}

impl LoginAttemptId {
    #[verifier::type_invariant]
    pub closed spec fn wf(&self) -> bool {
        attempt_id_valid(self.inner@)
    }

    /// Accepts exactly the well-formed attempt identifiers.
    pub fn parse(s: String) -> (r: Result<LoginAttemptId, String>)
        ensures
            match r {
                Ok(id) => attempt_id_valid(s@) && id@ == s@,
                Err(_) => !attempt_id_valid(s@),
            },
    {
        if s.as_str().unicode_len() != 36 {
            return Err(("Invalid login attempt id").to_owned());
        }
        let mut i: usize = 0;
        while i < 36
            invariant
                s@.len() == 36,
                i <= 36,
                forall|j: int| 0 <= j < i ==> #[trigger] attempt_id_char_ok(s@, j),
            decreases 36 - i,
        {
            let c = s.as_str().get_char(i);
            let ok = if i == 8 || i == 13 || i == 18 || i == 23 {
                c == '-'
            } else {
                is_hex_digit_exec(c)
            };
            if !ok {
                proof {
                    assert(!attempt_id_char_ok(s@, i as int));
                }
                return Err(("Invalid login attempt id").to_owned());
            }
            i += 1;
        }
        Ok(LoginAttemptId { inner: s })
    }

    /// The identifier text itself.
    pub fn as_ref(&self) -> (r: &str)
        ensures
            r@ == self@,
    {
        self.inner.as_str()
    }

    /// Every live value is well formed.
    pub proof fn lemma_valid(&self)
        requires
            self.wf(),
        ensures
            attempt_id_valid(self@),
    {
    }
}

impl Clone for LoginAttemptId {
    fn clone(&self) -> (r: LoginAttemptId)
        ensures
            r@ == self@,
    {
        proof {
            use_type_invariant(self);
        }
        LoginAttemptId { inner: self.inner.clone() }
    }
}

impl PartialEq for LoginAttemptId {
    fn eq(&self, other: &LoginAttemptId) -> (r: bool) {
        self.inner.eq(&other.inner)
    }
}

impl vstd::std_specs::cmp::PartialEqSpecImpl for LoginAttemptId {
    open spec fn obeys_eq_spec() -> bool {
        true
    }

    open spec fn eq_spec(&self, other: &LoginAttemptId) -> bool {
        self@ == other@
    }
}

impl Eq for LoginAttemptId {

}

/// The one-time code the account holder must echo back: six decimal
/// digits, random in production.
#[derive(Debug)]
pub struct TwoFACode {
    inner: String,
}

impl View for TwoFACode {
    type V = Seq<char>;

    closed spec fn view(&self) -> Seq<char> {
        self.inner@
    }
}

impl TwoFACode {
    #[verifier::type_invariant]
    pub closed spec fn wf(&self) -> bool {
        two_fa_code_valid(self.inner@)
    }

    /// Accepts exactly the six-digit decimal codes.
    pub fn parse(s: String) -> (r: Result<TwoFACode, String>)
        ensures
            match r {
                Ok(c) => two_fa_code_valid(s@) && c@ == s@,
                Err(_) => !two_fa_code_valid(s@),
            },
    {
        if s.as_str().unicode_len() != 6 {
            return Err(("Invalid 2FA code").to_owned());
        }
        let mut i: usize = 0;
        while i < 6
            invariant
                s@.len() == 6,
                i <= 6,
                forall|j: int| 0 <= j < i ==> is_dec_digit(#[trigger] s@[j]),
            decreases 6 - i,
        {
            let c = s.as_str().get_char(i);
            if !is_dec_digit_exec(c) {
                return Err(("Invalid 2FA code").to_owned());
            }
            i += 1;
        }
        Ok(TwoFACode { inner: s })
    }

    /// The code text itself.
    pub fn as_ref(&self) -> (r: &str)
        ensures
            r@ == self@,
    {
        self.inner.as_str()
    }

    /// Every live value is well formed.
    pub proof fn lemma_valid(&self)
        requires
            self.wf(),
        ensures
            two_fa_code_valid(self@),
    {
    }
}

impl Clone for TwoFACode {
    fn clone(&self) -> (r: TwoFACode)
        ensures
            r@ == self@,
    {
        proof {
            use_type_invariant(self);
        }
        TwoFACode { inner: self.inner.clone() }
    }
}

impl PartialEq for TwoFACode {
    fn eq(&self, other: &TwoFACode) -> (r: bool) {
        self.inner.eq(&other.inner)
    }
}

impl vstd::std_specs::cmp::PartialEqSpecImpl for TwoFACode {
    open spec fn obeys_eq_spec() -> bool {
        true
    }

    open spec fn eq_spec(&self, other: &TwoFACode) -> bool {
        self@ == other@
    }
}

impl Eq for TwoFACode {

}

} // verus!
