use vstd::prelude::*;
use vstd::string::StrSliceExecFns;
use vstd::string::StringExecFns;
use crate::domain::email_shape_ok;
use crate::domain::is_dec_digit;
use crate::domain::Email;

verus! {

/// How long an issued token stays valid.
pub const TOKEN_TTL_SECONDS: u64 = 600;

/// Why a presented token was rejected.
#[derive(Clone, Copy, Debug, PartialEq, Eq, Structural)]
pub enum TokenError {
    Malformed,
    SignatureInvalid,
    Expired,
}

/// The character of one decimal digit.
pub open spec fn digit_char(d: int) -> char {
    if d == 0 {
        '0'
    } else if d == 1 {
        '1'
    } else if d == 2 {
        '2'
    } else if d == 3 {
        '3'
    } else if d == 4 {
        '4'
    } else if d == 5 {
        '5'
    } else if d == 6 {
        '6'
    } else if d == 7 {
        '7'
    } else if d == 8 {
        '8'
    } else {
        '9'
    }
}

/// The decimal digits of a number, most significant first.
pub open spec fn dec_digits(n: int) -> Seq<char>
    decreases n,
{
    if n < 10 {
        seq![digit_char(n)]
    } else {
        dec_digits(n / 10).push(digit_char(n % 10))
    }
}

/// The number a digit string denotes.
pub open spec fn digits_val(s: Seq<char>) -> int
    decreases s.len(),
{
    if s.len() == 0 {
        0
    } else {
        digits_val(s.drop_last()) * 10 + (s.last() as u32 - 48)
    }
}

/// A string that denotes a number a `u64` can hold: non-empty, decimal
/// digits throughout, value within range.
pub open spec fn digits_ok(s: Seq<char>) -> bool {
    &&& s.len() > 0
    &&& forall|i: int| 0 <= i < s.len() ==> is_dec_digit(#[trigger] s[i])
    &&& digits_val(s) <= u64::MAX
}

/// One step of the keyed checksum: multiply by a large odd constant and
/// absorb the character, both modulo two to the sixty-fourth. This is
/// a keyed checksum, not a cryptographic code: the format and the
/// contracts are the point here, and a deployment wanting
/// unforgeability against a mathematically equipped forger would swap
/// the tag function while keeping both.
#[verifier::opaque]
pub open spec fn mac_step(h: u64, c: char) -> u64 {
    vstd::wrapping::u64_specs::wrapping_add(
        vstd::wrapping::u64_specs::wrapping_mul(h, 0x100000001b3u64),
        c as u64,
    )
}

/// The checksum absorbed over a character sequence.
pub open spec fn mac_chars(h: u64, s: Seq<char>) -> u64
    decreases s.len(),
{
    if s.len() == 0 {
        h
    } else {
        mac_chars(mac_step(h, s[0]), s.subrange(1, s.len() as int))
    }
}

/// The tag over the signing key, the subject, and the expiry's digit
/// string, with separators between the three.
pub open spec fn mac_over(key: Seq<char>, sub: Seq<char>, exp_digits: Seq<char>) -> u64 {
    mac_chars(
        mac_step(mac_chars(mac_step(mac_chars(0xcbf29ce484222325u64, key), '\n'), sub), '\n'),
        exp_digits,
    )
}

/// The tag a freshly issued token carries: the expiry rendered in its
/// canonical digits.
pub open spec fn mac64(key: Seq<char>, sub: Seq<char>, exp: u64) -> u64 {
    mac_over(key, sub, dec_digits(exp as int))
}

/// The text of an issued token: subject, expiry and tag, separated by
/// line feeds.
pub open spec fn token_chars(key: Seq<char>, sub: Seq<char>, exp: u64) -> Seq<char> {
    sub + seq!['\n'] + dec_digits(exp as int) + seq!['\n'] + dec_digits(
        mac64(key, sub, exp) as int,
    )
}

/// Position of the first line feed at or after `from`; the length when
/// there is none.
pub open spec fn find_nl(s: Seq<char>, from: int) -> int
    decreases s.len() - from,
{
    if from < 0 || from >= s.len() {
        s.len() as int
    } else if s[from] == '\n' {
        from
    } else {
        find_nl(s, from + 1)
    }
}

/// What verification says of a presented token: the subject when the
/// token parses, carries the right tag and has not expired; otherwise
/// which of the three checks failed first.
pub open spec fn token_verify_spec(key: Seq<char>, tok: Seq<char>, now: u64) -> Result<
    Seq<char>,
    TokenError,
> {
    let i1 = find_nl(tok, 0);
    let i2 = find_nl(tok, i1 + 1);
    if i1 == tok.len() || i2 == tok.len() {
        Err(TokenError::Malformed)
    } else {
        let sub = tok.subrange(0, i1);
        let exp_s = tok.subrange(i1 + 1, i2);
        let tag_s = tok.subrange(i2 + 1, tok.len() as int);
        if !(digits_ok(exp_s) && digits_ok(tag_s)) {
            Err(TokenError::Malformed)
        } else if digits_val(tag_s) != mac_over(key, sub, exp_s) {
            Err(TokenError::SignatureInvalid)
        } else if digits_val(exp_s) <= now {
            Err(TokenError::Expired)
        } else {
            Ok(sub)
        }
    }
}

/// The digits of a number are decimal digits, never a line feed, and
/// denote the number itself.
pub proof fn lemma_dec_digits_ok(n: int)
    requires
        0 <= n,
    ensures
        dec_digits(n).len() >= 1,
        forall|i: int| 0 <= i < dec_digits(n).len() ==> is_dec_digit(#[trigger] dec_digits(n)[i]),
        digits_val(dec_digits(n)) == n,
    decreases n,
{
    if n < 10 {
        let s = dec_digits(n);
        assert(s =~= seq![digit_char(n)]);
        assert(is_dec_digit(digit_char(n)));
        assert forall|i: int| 0 <= i < s.len() implies is_dec_digit(#[trigger] s[i]) by {
            assert(s[i] == digit_char(n));
        }
        assert(s.drop_last() =~= Seq::<char>::empty());
        assert(digits_val(s.drop_last()) == 0);
        assert(s.last() == digit_char(n));
        assert(digit_char(n) as u32 - 48 == n);
        assert(digits_val(s) == n);
    } else {
        lemma_dec_digits_ok(n / 10);
        let s = dec_digits(n);
        let t = dec_digits(n / 10);
        assert(s =~= t.push(digit_char(n % 10)));
        assert(s.drop_last() =~= t);
        assert(s.last() == digit_char(n % 10));
        assert(is_dec_digit(digit_char(n % 10)));
        assert forall|i: int| 0 <= i < s.len() implies is_dec_digit(#[trigger] s[i]) by {
            if i < t.len() {
                assert(s[i] == t[i]);
            } else {
                assert(s[i] == digit_char(n % 10));
            }
        }
        assert(digit_char(n % 10) as u32 - 48 == n % 10);
        assert(digits_val(s) == (n / 10) * 10 + n % 10);
        assert(digits_val(s) == n);
    }
}

/// A longer all-digit string denotes at least as large a number.
pub proof fn lemma_digits_val_monotone(s: Seq<char>, j: int)
    requires
        0 <= j <= s.len(),
        forall|i: int| 0 <= i < s.len() ==> is_dec_digit(#[trigger] s[i]),
    ensures
        0 <= digits_val(s.take(j)),
        digits_val(s.take(j)) <= digits_val(s),
    decreases s.len() - j,
{
    if j == s.len() {
        assert(s.take(j) =~= s);
        lemma_digits_val_nonneg(s);
    } else {
        lemma_digits_val_monotone(s, j + 1);
        let t = s.take(j + 1);
        assert(t.drop_last() =~= s.take(j));
        assert(t.last() == s[j]);
        lemma_digits_val_nonneg(s.take(j));
        assert(digits_val(t) == digits_val(s.take(j)) * 10 + (s[j] as u32 - 48));
        assert(s[j] as u32 >= 48);
    }
}

/// A digit string denotes a number, never a negative value.
pub proof fn lemma_digits_val_nonneg(s: Seq<char>)
    requires
        forall|i: int| 0 <= i < s.len() ==> is_dec_digit(#[trigger] s[i]),
    ensures
        0 <= digits_val(s),
    decreases s.len(),
{
    if s.len() > 0 {
        assert(forall|i: int|
            0 <= i < s.drop_last().len() ==> is_dec_digit(#[trigger] s.drop_last()[i]));
        lemma_digits_val_nonneg(s.drop_last());
        assert(s.last() as u32 >= 48);
    }
}

/// Absorbing one more character applies one more step.
#[verifier::rlimit(30)]
pub proof fn lemma_mac_chars_push(h: u64, s: Seq<char>, c: char)
    ensures
        mac_chars(h, s.push(c)) == mac_step(mac_chars(h, s), c),
    decreases s.len(),
{
    let sp = s.push(c);
    assert(sp.len() == s.len() + 1);
    assert(mac_chars(h, sp) == mac_chars(mac_step(h, sp[0]), sp.subrange(1, sp.len() as int)));
    if s.len() == 0 {
        assert(sp[0] == c);
        assert(sp.subrange(1, 1) =~= Seq::<char>::empty());
        assert(mac_chars(mac_step(h, c), Seq::<char>::empty()) == mac_step(h, c));
        assert(mac_chars(h, s) == h);
    } else {
        let tail = s.subrange(1, s.len() as int);
        assert(sp[0] == s[0]);
        assert(sp.subrange(1, sp.len() as int) =~= tail.push(c));
        assert(mac_chars(h, sp) == mac_chars(mac_step(h, s[0]), tail.push(c)));
        lemma_mac_chars_push(mac_step(h, s[0]), tail, c);
        assert(mac_chars(h, s) == mac_chars(mac_step(h, s[0]), tail));
    }
}

/// Where the first line feed of a region stands.
pub proof fn lemma_find_nl_at(s: Seq<char>, from: int, i: int)
    requires
        0 <= from <= i <= s.len(),
        forall|j: int| from <= j < i ==> s[j] != '\n',
        i == s.len() || s[i] == '\n',
    ensures
        find_nl(s, from) == i,
    decreases i - from,
{
    if from < i {
        lemma_find_nl_at(s, from + 1, i);
    }
}

/// The one-character string of one decimal digit.
pub(crate) fn digit_str(d: u64) -> (r: &'static str)
    requires
        d < 10,
    ensures
        r@ =~= seq![digit_char(d as int)],
{
    proof {
        reveal_strlit("0");
        reveal_strlit("1");
        reveal_strlit("2");
        reveal_strlit("3");
        reveal_strlit("4");
        reveal_strlit("5");
        reveal_strlit("6");
        reveal_strlit("7");
        reveal_strlit("8");
        reveal_strlit("9");
    }
    match d {
        0 => "0",
        1 => "1",
        2 => "2",
        3 => "3",
        4 => "4",
        5 => "5",
        6 => "6",
        7 => "7",
        8 => "8",
        _ => "9",
    }
}

/// Appends the decimal digits of a number, most significant first.
fn push_decimal(n: u64, out: &mut String)
    ensures
        final(out)@ == old(out)@ + dec_digits(n as int),
    decreases n,
{
    if n >= 10 {
        push_decimal(n / 10, out);
        let ghost mid = out@;
        out.append(digit_str(n % 10));
        proof {
            assert(out@ =~= old(out)@ + dec_digits(n as int / 10).push(
                digit_char(n as int % 10),
            ));
        }
    } else {
        out.append(digit_str(n));
        proof {
            assert(out@ =~= old(out)@ + seq![digit_char(n as int)]);
        }
    }
}

/// One checksum step on the running state.
fn mac_push(h: u64, c: char) -> (r: u64)
    ensures
        r == mac_step(h, c),
{
    proof {
        reveal(mac_step);
    }
    h.wrapping_mul(0x100000001b3u64).wrapping_add(c as u64)
}

/// Absorbs a whole string into the running checksum state.
fn mac_update(h0: u64, s: &str) -> (r: u64)
    ensures
        r == mac_chars(h0, s@),
{
    let n = s.unicode_len();
    let mut h = h0;
    let mut i: usize = 0;
    proof {
        assert(s@.take(0) =~= Seq::<char>::empty());
    }
    while i < n
        invariant
            n == s@.len(),
            i <= n,
            h == mac_chars(h0, s@.take(i as int)),
        decreases n - i,
    {
        let c = s.get_char(i);
        h = mac_push(h, c);
        proof {
            assert(s@.take(i as int + 1) =~= s@.take(i as int).push(s@[i as int]));
            lemma_mac_chars_push(h0, s@.take(i as int), s@[i as int]);
        }
        i += 1;
    }
    proof {
        assert(s@.take(n as int) =~= s@);
    }
    h
}

/// Reads a number from its decimal digits; refuses anything that is
/// not a digit string whose value a `u64` can hold.
fn parse_u64(s: &str) -> (r: Option<u64>)
    ensures
        match r {
            Some(v) => digits_ok(s@) && v == digits_val(s@),
            None => !digits_ok(s@),
        },
{
    let n = s.unicode_len();
    if n == 0 {
        return None;
    }
    let mut acc: u64 = 0;
    let mut i: usize = 0;
    proof {
        assert(s@.take(0) =~= Seq::<char>::empty());
    }
    while i < n
        invariant
            n == s@.len(),
            n > 0,
            i <= n,
            acc == digits_val(s@.take(i as int)),
            forall|j: int| 0 <= j < i ==> is_dec_digit(#[trigger] s@[j]),
        decreases n - i,
    {
        let c = s.get_char(i);
        let v = c as u32;
        if !(48 <= v && v <= 57) {
            return None;
        }
        let d = (v - 48) as u64;
        proof {
            assert(s@.take(i as int + 1) =~= s@.take(i as int).push(s@[i as int]));
            assert(s@.take(i as int + 1).drop_last() =~= s@.take(i as int));
        }
        if acc > (u64::MAX - d) / 10 {
            proof {
                assert(digits_val(s@.take(i as int + 1)) == acc * 10 + d);
                assert(acc * 10 + d > u64::MAX) by {
                    assert(acc >= (u64::MAX - d) / 10 + 1);
                    assert(acc * 10 >= ((u64::MAX - d) / 10 + 1) * 10);
                }
                if forall|j: int| 0 <= j < s@.len() ==> is_dec_digit(#[trigger] s@[j]) {
                    lemma_digits_val_monotone(s@, i as int + 1);
                }
            }
            return None;
        }
        proof {
            assert(acc * 10 + d <= u64::MAX) by {
                assert(acc <= (u64::MAX - d) / 10);
                assert(acc * 10 <= ((u64::MAX - d) / 10) * 10);
            }
        }
        acc = acc * 10 + d;
        i += 1;
    }
    proof {
        assert(s@.take(n as int) =~= s@);
    }
    Some(acc)
}

/// Position of the first line feed at or after `from`; the length when
/// there is none.
fn find_newline(s: &str, from: usize) -> (r: usize)
    requires
        from <= s@.len(),
    ensures
        from <= r <= s@.len(),
        r == find_nl(s@, from as int),
        r < s@.len() ==> s@[r as int] == '\n',
        forall|j: int| from <= j < r ==> s@[j] != '\n',
    decreases s@.len() - from,
{
    let n = s.unicode_len();
    let mut i: usize = from;
    while i < n
        invariant
            n == s@.len(),
            from <= i <= n,
            forall|j: int| from <= j < i ==> s@[j] != '\n',
        decreases n - i,
    {
        if s.get_char(i) == '\n' {
            proof {
                lemma_find_nl_at(s@, from as int, i as int);
            }
            return i;
        }
        i += 1;
    }
    proof {
        lemma_find_nl_at(s@, from as int, n as int);
    }
    n
}

/// Issues and verifies the signed session tokens. The key is the only
/// secret; the lifetime is threaded in at construction.
pub struct TokenService {
    key: String,
    ttl_seconds: u64,
}

impl TokenService {
    /// The signing key's characters.
    pub closed spec fn spec_key(&self) -> Seq<char> {
        self.key@
    }

    /// How long an issued token stays valid.
    pub closed spec fn spec_ttl(&self) -> u64 {
        self.ttl_seconds
    }

    pub fn new(key: String, ttl_seconds: u64) -> (r: TokenService)
        ensures
            r.spec_key() == key@,
            r.spec_ttl() == ttl_seconds,
    {
        TokenService { key, ttl_seconds }
    }

    /// Signs a token for the subject, valid from `now` for the
    /// configured lifetime. Fails only when the expiry would not fit,
    /// which a sane clock and lifetime never produce.
    pub fn issue(&self, email: &Email, now: u64) -> (r: Option<String>)
        ensures
            match r {
                Some(t) => now + self.spec_ttl() <= u64::MAX && t@ == token_chars(
                    self.spec_key(),
                    email@,
                    (now + self.spec_ttl()) as u64,
                ),
                None => now + self.spec_ttl() > u64::MAX,
            },
    {
        let exp = match now.checked_add(self.ttl_seconds) {
            Some(e) => e,
            None => {
                return None;
            },
        };
        proof {
            reveal_strlit("\n");
        }
        let mut exp_digits = String::new();
        push_decimal(exp, &mut exp_digits);
        let mut h = mac_update(0xcbf29ce484222325u64, self.key.as_str());
        h = mac_push(h, '\n');
        h = mac_update(h, email.as_ref());
        h = mac_push(h, '\n');
        let tag = mac_update(h, exp_digits.as_str());
        proof {
            assert(exp_digits@ == dec_digits(exp as int));
            assert(tag == mac64(self.spec_key(), email@, exp));
        }
        let mut out = String::new();
        out.append(email.as_ref());
        out.append("\n");
        out.append(exp_digits.as_str());
        out.append("\n");
        push_decimal(tag, &mut out);
        proof {
            assert(("\n")@ =~= seq!['\n']);
            assert(out@ =~= token_chars(self.spec_key(), email@, exp));
        }
        Some(out)
    }

    /// Checks shape, tag and expiry, in that order, and hands back the
    /// subject the token was issued for. Revocation is not this
    /// function's business: callers needing it must also consult the
    /// revocation store.
    pub fn verify(&self, token: &str, now: u64) -> (r: Result<String, TokenError>)
        ensures
            match r {
                Ok(s) => token_verify_spec(self.spec_key(), token@, now) == Ok::<
                    Seq<char>,
                    TokenError,
                >(s@),
                Err(e) => token_verify_spec(self.spec_key(), token@, now) == Err::<
                    Seq<char>,
                    TokenError,
                >(e),
            },
    {
        let len = token.unicode_len();
        let i1 = find_newline(token, 0);
        if i1 == len {
            return Err(TokenError::Malformed);
        }
        let i2 = find_newline(token, i1 + 1);
        if i2 == len {
            return Err(TokenError::Malformed);
        }
        let sub = token.substring_char(0, i1);
        let exp_s = token.substring_char(i1 + 1, i2);
        let tag_s = token.substring_char(i2 + 1, len);
        let exp = match parse_u64(exp_s) {
            Some(v) => v,
            None => {
                return Err(TokenError::Malformed);
            },
        };
        let tag = match parse_u64(tag_s) {
            Some(v) => v,
            None => {
                return Err(TokenError::Malformed);
            },
        };
        let mut h = mac_update(0xcbf29ce484222325u64, self.key.as_str());
        h = mac_push(h, '\n');
        h = mac_update(h, sub);
        h = mac_push(h, '\n');
        h = mac_update(h, exp_s);
        if tag != h {
            return Err(TokenError::SignatureInvalid);
        }
        if exp <= now {
            return Err(TokenError::Expired);
        }
        Ok(sub.to_owned())
    }
}

/// A token issued for a subject verifies back to that subject at any
/// instant before its expiry: issuing and verifying round-trip.
pub proof fn lemma_issue_verify_round_trip(key: Seq<char>, sub: Seq<char>, exp: u64, now: u64)
    requires
        sub.len() > 0,
        forall|i: int| 0 <= i < sub.len() ==> #[trigger] sub[i] != '\n',
        now < exp,
    ensures
        token_verify_spec(key, token_chars(key, sub, exp), now) == Ok::<Seq<char>, TokenError>(
            sub,
        ),
{
    let tag = mac64(key, sub, exp);
    let ds_exp = dec_digits(exp as int);
    let ds_tag = dec_digits(tag as int);
    lemma_dec_digits_ok(exp as int);
    lemma_dec_digits_ok(tag as int);
    let tok = token_chars(key, sub, exp);
    let i1 = sub.len() as int;
    let i2 = i1 + 1 + ds_exp.len();
    assert(tok.len() == sub.len() + 1 + ds_exp.len() + 1 + ds_tag.len());
    assert(forall|j: int| 0 <= j < i1 ==> tok[j] == #[trigger] sub[j]);
    assert(tok[i1] == '\n');
    assert(forall|j: int| i1 + 1 <= j < i2 ==> tok[j] == ds_exp[j - (i1 + 1)]);
    assert(tok[i2] == '\n');
    assert(forall|j: int| i2 + 1 <= j < tok.len() ==> tok[j] == ds_tag[j - (i2 + 1)]);
    assert(forall|j: int| 0 <= j < i1 ==> tok[j] != '\n');
    lemma_find_nl_at(tok, 0, i1);
    assert(forall|j: int| i1 + 1 <= j < i2 ==> tok[j] != '\n') by {
        assert(forall|j: int|
            i1 + 1 <= j < i2 ==> is_dec_digit(#[trigger] ds_exp[j - (i1 + 1)]));
    }
    lemma_find_nl_at(tok, i1 + 1, i2);
    assert(tok.subrange(0, i1) =~= sub);
    assert(tok.subrange(i1 + 1, i2) =~= ds_exp);
    assert(tok.subrange(i2 + 1, tok.len() as int) =~= ds_tag);
    assert(digits_ok(ds_exp));
    assert(digits_ok(ds_tag));
    assert(digits_val(ds_tag) == mac_over(key, sub, ds_exp));
    assert(digits_val(ds_exp) == exp && exp > now);
}

/// The round trip specialized to subjects with the shape every parsed
/// e-mail address has: non-empty and free of line feeds.
pub proof fn lemma_issue_verify_for_email(key: Seq<char>, sub: Seq<char>, exp: u64, now: u64)
    requires
        email_shape_ok(sub),
        now < exp,
    ensures
        token_verify_spec(key, token_chars(key, sub, exp), now) == Ok::<Seq<char>, TokenError>(
            sub,
        ),
{
    lemma_issue_verify_round_trip(key, sub, exp, now);
}

} // verus!