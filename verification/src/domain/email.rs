use vstd::prelude::*;
use vstd::string::StrSliceExecFns;

verus! {

/// Number of `@` characters in a string.
pub open spec fn at_sign_count(s: Seq<char>) -> int {
    s.filter(|c: char| c == '@').len() as int
}

/// No line feed anywhere: the character the token format reserves as
/// its separator.
pub open spec fn newline_free(s: Seq<char>) -> bool {
    forall|i: int| 0 <= i < s.len() ==> (#[trigger] s[i]) != '\n'
}

/// How every accepted address splits: a non-empty local part, exactly
/// one `@`, a non-empty domain part.
pub open spec fn email_split_ok(s: Seq<char>) -> bool {
    &&& s.len() >= 3
    &&& at_sign_count(s) == 1
    &&& s[0] != '@'
    &&& s[s.len() - 1] != '@'
}

/// The characters the local part of an address may hold: ASCII letters
/// and digits and the listed specials — no space, no `@`, no control
/// characters.
pub open spec fn email_local_char_ok(c: char) -> bool {
    let n = c as u32;
    ||| (48 <= n && n <= 57)  // '0' ..= '9'
    ||| (65 <= n && n <= 90)  // 'A' ..= 'Z'
    ||| (97 <= n && n <= 122)  // 'a' ..= 'z'
    ||| n == 33  // '!'
    ||| (35 <= n && n <= 39)  // '#' '$' '%' '&' '\''
    ||| (42 <= n && n <= 43)  // '*' '+'
    ||| (45 <= n && n <= 47)  // '-' '.' '/'
    ||| n == 61  // '='
    ||| n == 63  // '?'
    ||| (94 <= n && n <= 96)  // '^' '_' '`'
    ||| (123 <= n && n <= 126)  // '{' '|' '}' '~'
}

/// Everything ahead of an `@` is drawn from the local part's class.
pub open spec fn email_local_ok(s: Seq<char>) -> bool {
    forall|i: int, j: int|
        #![trigger s[i], s[j]]
        0 <= i < j < s.len() && s[j] == '@' ==> email_local_char_ok(s[i])
}

/// Shape every value of `Email` has: the split above, the local part's
/// character discipline, and no line feeds anywhere. The last clause is
/// enforced by `Email::parse` itself, not taken from the e-mail check.
pub open spec fn email_shape_ok(s: Seq<char>) -> bool {
    &&& email_split_ok(s)
    &&& email_local_ok(s)
    &&& newline_free(s)
}

/// Whether the e-mail check accepts the string.
pub uninterp spec fn email_valid(s: Seq<char>) -> bool;

/// What `Email::parse` accepts: the e-mail check's verdict, tightened
/// to line-feed-free strings.
pub open spec fn email_accepted(s: Seq<char>) -> bool {
    email_valid(s) && newline_free(s)
}

/// Relies on validator's `ValidateEmail` check for `&str` (the HTML5
/// e-mail rule). It rejects the empty string and strings without `@`.
/// When it accepts, the part before the last `@` was matched in full
/// (anchored at both ends) against the local class above, which holds
/// neither `@` nor a space nor control characters — so the `@` is
/// unique and the local part non-empty — and the part after the `@` is
/// non-empty. Nothing more is claimed of the domain part: its
/// address-literal fallback is anchored only at the end, so the check
/// can accept a domain with stray characters, a line feed among them,
/// ahead of a trailing bracketed IP. `Email::parse` re-checks for line
/// feeds itself.
#[verifier::external_body]
fn check_email(s: &str) -> (r: bool)
    ensures
        r == email_valid(s@),
        r ==> email_split_ok(s@),
        r ==> email_local_ok(s@),
{
    validator::ValidateEmail::validate_email(&s)
}

/// Reason a candidate e-mail address was rejected.
#[derive(Clone, Copy, Debug, PartialEq, Eq, Structural)]
pub enum EmailError {
    Invalid,
}

/// A validated e-mail address, the identity every store is keyed by.
/// `parse` is the only way to build one, so every value satisfies
/// `email_valid` and `email_shape_ok`.
#[derive(Debug, Hash)]
pub struct Email {
    inner: String,
}

impl View for Email {
    type V = Seq<char>;

    closed spec fn view(&self) -> Seq<char> {
        self.inner@
    }
}

impl Email {
    #[verifier::type_invariant]
    pub closed spec fn wf(&self) -> bool {
        email_valid(self.inner@) && email_shape_ok(self.inner@)
    }

    /// Accepts exactly the strings the e-mail check accepts that are
    /// free of line feeds; the check tolerates a line feed ahead of an
    /// address-literal domain, and the token format reserves that
    /// character, so this function scans for it itself.
    pub fn parse(s: String) -> (r: Result<Email, EmailError>)
        ensures
            match r {
                Ok(e) => email_accepted(s@) && email_shape_ok(s@) && e@ == s@,
                Err(_) => !email_accepted(s@),
            },
    {
        if !check_email(s.as_str()) {
            return Err(EmailError::Invalid);
        }
        let n = s.as_str().unicode_len();
        let mut i: usize = 0;
        while i < n
            invariant
                n == s@.len(),
                i <= n,
                forall|j: int| 0 <= j < i ==> (#[trigger] s@[j]) != '\n',
            decreases n - i,
        {
            if s.as_str().get_char(i) == '\n' {
                return Err(EmailError::Invalid);
            }
            i += 1;
        }
        Ok(Email { inner: s })
    }

    /// The address text itself.
    pub fn as_ref(&self) -> (r: &str)
        ensures
            r@ == self@,
    {
        self.inner.as_str()
    }

    /// Every address that got past `parse` has the documented shape;
    /// `use_type_invariant` supplies `wf` for any live value.
    pub proof fn lemma_shape(&self)
        requires
            self.wf(),
        ensures
            email_shape_ok(self@),
    {
    }
}

impl Clone for Email {
    fn clone(&self) -> (r: Email)
        ensures
            r@ == self@,
    {
        proof {
            use_type_invariant(self);
        }
        Email { inner: self.inner.clone() }
    }
}

impl PartialEq for Email {
    fn eq(&self, other: &Email) -> (r: bool) {
        self.inner.eq(&other.inner)
    }
}

impl vstd::std_specs::cmp::PartialEqSpecImpl for Email {
    open spec fn obeys_eq_spec() -> bool {
        true
    }

    open spec fn eq_spec(&self, other: &Email) -> bool {
        self@ == other@
    }
}

impl Eq for Email {

}

} // verus!
