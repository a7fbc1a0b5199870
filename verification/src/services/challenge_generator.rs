use vstd::prelude::*;
use vstd::string::StrSliceExecFns;
use vstd::string::StringExecFns;
use crate::domain::attempt_id_char_ok;
use crate::domain::attempt_id_valid;
use crate::domain::is_dec_digit;
use crate::domain::is_hex_digit;
use crate::domain::two_fa_code_valid;
use crate::domain::LoginAttemptId;
use crate::domain::TwoFACode;
use crate::services::token_service::digit_char;

verus! {

/// One step of the linear congruential generator the challenge values
/// are drawn from.
#[verifier::opaque]
pub open spec fn lcg(s: u64) -> u64 {
    vstd::wrapping::u64_specs::wrapping_add(
        vstd::wrapping::u64_specs::wrapping_mul(s, 6364136223846793005u64),
        1442695040888963407u64,
    )
}

/// The character of one hexadecimal digit, lower case.
pub open spec fn hex_char(d: int) -> char {
    if d == 0 {
        '0'
    } else if d == 1 {
        '1'
    } else if d == 2 {
        '2'
    } else if d == 3 {
        '3'
    } else if d == 4 {
        '4'
    } else if d == 5 {
        '5'
    } else if d == 6 {
        '6'
    } else if d == 7 {
        '7'
    } else if d == 8 {
        '8'
    } else if d == 9 {
        '9'
    } else if d == 10 {
        'a'
    } else if d == 11 {
        'b'
    } else if d == 12 {
        'c'
    } else if d == 13 {
        'd'
    } else if d == 14 {
        'e'
    } else {
        'f'
    }
}

/// Exactly `k` hexadecimal digits of a number, most significant first.
pub open spec fn hex_digits(n: int, k: int) -> Seq<char>
    decreases k,
{
    if k <= 0 {
        Seq::empty()
    } else {
        hex_digits(n / 16, k - 1).push(hex_char(n % 16))
    }
}

/// Exactly `k` decimal digits of a number, most significant first,
/// zero-padded on the left.
pub open spec fn fixed_digits(n: int, k: int) -> Seq<char>
    decreases k,
{
    if k <= 0 {
        Seq::empty()
    } else {
        fixed_digits(n / 10, k - 1).push(digit_char(n % 10))
    }
}

/// The attempt identifier two generator draws spell out: five dashed
/// hexadecimal groups over thirty-two digits.
pub open spec fn id_chars(a: u64, b: u64) -> Seq<char> {
    let h = hex_digits(a as int, 16) + hex_digits(b as int, 16);
    h.subrange(0, 8) + seq!['-'] + h.subrange(8, 12) + seq!['-'] + h.subrange(12, 16)
        + seq!['-'] + h.subrange(16, 20) + seq!['-'] + h.subrange(20, 32)
}

/// The six-digit code one generator draw spells out.
pub open spec fn code_chars(s: u64) -> Seq<char> {
    fixed_digits((s % 1000000) as int, 6)
}

/// Hexadecimal renderings have the requested width and hold
/// hexadecimal digits only.
pub proof fn lemma_hex_digits_ok(n: int, k: int)
    requires
        0 <= n,
        0 <= k,
    ensures
        hex_digits(n, k).len() == k,
        forall|i: int| 0 <= i < k ==> is_hex_digit(#[trigger] hex_digits(n, k)[i]),
    decreases k,
{
    if k > 0 {
        lemma_hex_digits_ok(n / 16, k - 1);
        let s = hex_digits(n, k);
        let t = hex_digits(n / 16, k - 1);
        assert(s =~= t.push(hex_char(n % 16)));
        assert(is_hex_digit(hex_char(n % 16)));
        assert forall|i: int| 0 <= i < k implies is_hex_digit(#[trigger] s[i]) by {
            if i < k - 1 {
                assert(s[i] == t[i]);
            } else {
                assert(s[i] == hex_char(n % 16));
            }
        }
    }
}

/// Fixed-width decimal renderings have the requested width and hold
/// decimal digits only.
pub proof fn lemma_fixed_digits_ok(n: int, k: int)
    requires
        0 <= n,
        0 <= k,
    ensures
        fixed_digits(n, k).len() == k,
        forall|i: int| 0 <= i < k ==> is_dec_digit(#[trigger] fixed_digits(n, k)[i]),
    decreases k,
{
    if k > 0 {
        lemma_fixed_digits_ok(n / 10, k - 1);
        let s = fixed_digits(n, k);
        let t = fixed_digits(n / 10, k - 1);
        assert(s =~= t.push(digit_char(n % 10)));
        assert(is_dec_digit(digit_char(n % 10)));
        assert forall|i: int| 0 <= i < k implies is_dec_digit(#[trigger] s[i]) by {
            if i < k - 1 {
                assert(s[i] == t[i]);
            } else {
                assert(s[i] == digit_char(n % 10));
            }
        }
    }
}

/// The generated identifier is a well-formed attempt identifier.
pub proof fn lemma_id_chars_valid(a: u64, b: u64)
    ensures
        attempt_id_valid(id_chars(a, b)),
{
    lemma_hex_digits_ok(a as int, 16);
    lemma_hex_digits_ok(b as int, 16);
    let h = hex_digits(a as int, 16) + hex_digits(b as int, 16);
    assert(h.len() == 32);
    assert forall|i: int| 0 <= i < 32 implies is_hex_digit(#[trigger] h[i]) by {
        if i < 16 {
            assert(h[i] == hex_digits(a as int, 16)[i]);
        } else {
            assert(h[i] == hex_digits(b as int, 16)[i - 16]);
        }
    }
    let s = id_chars(a, b);
    assert(s.len() == 36);
    assert forall|i: int| 0 <= i < 36 implies #[trigger] attempt_id_char_ok(s, i) by {
        if i < 8 {
            assert(s[i] == h[i]);
        } else if i == 8 {
            assert(s[i] == '-');
        } else if i < 13 {
            assert(s[i] == h[i - 1]);
        } else if i == 13 {
            assert(s[i] == '-');
        } else if i < 18 {
            assert(s[i] == h[i - 2]);
        } else if i == 18 {
            assert(s[i] == '-');
        } else if i < 23 {
            assert(s[i] == h[i - 3]);
        } else if i == 23 {
            assert(s[i] == '-');
        } else {
            assert(s[i] == h[i - 4]);
        }
    }
}

/// The generated code is a well-formed one-time code.
pub proof fn lemma_code_chars_valid(s: u64)
    ensures
        two_fa_code_valid(code_chars(s)),
{
    lemma_fixed_digits_ok((s % 1000000) as int, 6);
}

/// The one-character string of one hexadecimal digit.
fn hex_str(d: u64) -> (r: &'static str)
    requires
        d < 16,
    ensures
        r@ =~= seq![hex_char(d as int)],
{
    proof {
        reveal_strlit("0");
        reveal_strlit("1");
        reveal_strlit("2");
        reveal_strlit("3");
        reveal_strlit("4");
        reveal_strlit("5");
        reveal_strlit("6");
        reveal_strlit("7");
        reveal_strlit("8");
        reveal_strlit("9");
        reveal_strlit("a");
        reveal_strlit("b");
        reveal_strlit("c");
        reveal_strlit("d");
        reveal_strlit("e");
        reveal_strlit("f");
    }
    match d {
        0 => "0",
        1 => "1",
        2 => "2",
        3 => "3",
        4 => "4",
        5 => "5",
        6 => "6",
        7 => "7",
        8 => "8",
        9 => "9",
        10 => "a",
        11 => "b",
        12 => "c",
        13 => "d",
        14 => "e",
        _ => "f",
    }
}

/// Appends exactly `k` hexadecimal digits of a number.
fn push_hex(n: u64, k: u64, out: &mut String)
    ensures
        final(out)@ == old(out)@ + hex_digits(n as int, k as int),
    decreases k,
{
    if k == 0 {
        proof {
            assert(old(out)@ + hex_digits(n as int, 0) =~= old(out)@);
        }
    } else {
        push_hex(n / 16, k - 1, out);
        out.append(hex_str(n % 16));
        proof {
            assert(out@ =~= old(out)@ + hex_digits(n as int / 16, k as int - 1).push(
                hex_char(n as int % 16),
            ));
        }
    }
}

/// Appends exactly `k` decimal digits of a number, zero-padded.
fn push_fixed_decimal(n: u64, k: u64, out: &mut String)
    ensures
        final(out)@ == old(out)@ + fixed_digits(n as int, k as int),
    decreases k,
{
    if k == 0 {
        proof {
            assert(old(out)@ + fixed_digits(n as int, 0) =~= old(out)@);
        }
    } else {
        push_fixed_decimal(n / 10, k - 1, out);
        out.append(crate::services::token_service::digit_str(n % 10));
        proof {
            assert(out@ =~= old(out)@ + fixed_digits(n as int / 10, k as int - 1).push(
                digit_char(n as int % 10),
            ));
        }
    }
}

/// Draws the attempt identifier and one-time code of a fresh
/// challenge. Deterministic from its two seeds, which production code
/// sets from independent unpredictable sources. The identifier and the
/// code come from separate streams on purpose: the identifier is
/// handed to the caller, so it must disclose nothing about the code
/// that only the notifier may carry; with one stream the identifier
/// would spell out the very state the code is drawn from. The
/// workflows never depend on the drawn values, only on their shape.
pub struct ChallengeGenerator {
    id_state: u64,
    code_state: u64,
}

/// One LCG step on a given state.
fn lcg_step(x: u64) -> (r: u64)
    ensures
        r == lcg(x),
{
    proof {
        reveal(lcg);
    }
    x.wrapping_mul(6364136223846793005u64).wrapping_add(1442695040888963407u64)
}

impl ChallengeGenerator {
    /// The identifier stream's current state.
    pub closed spec fn spec_id_state(&self) -> u64 {
        self.id_state
    }

    /// The code stream's current state.
    pub closed spec fn spec_code_state(&self) -> u64 {
        self.code_state
    }

    pub fn new(id_seed: u64, code_seed: u64) -> (r: ChallengeGenerator)
        ensures
            r.spec_id_state() == id_seed,
            r.spec_code_state() == code_seed,
    {
        ChallengeGenerator { id_state: id_seed, code_state: code_seed }
    }

    /// Draws the next challenge: two identifier-stream steps feed the
    /// identifier halves, one code-stream step feeds the code.
    pub fn next_challenge(&mut self) -> (r: (LoginAttemptId, TwoFACode))
        ensures
            ({
                let s1 = lcg(old(self).spec_id_state());
                let s2 = lcg(s1);
                let c1 = lcg(old(self).spec_code_state());
                &&& r.0@ == id_chars(s1, s2)
                &&& r.1@ == code_chars(c1)
                &&& final(self).spec_id_state() == s2
                &&& final(self).spec_code_state() == c1
            }),
    {
        let a = lcg_step(self.id_state);
        let b = lcg_step(a);
        self.id_state = b;
        let c = lcg_step(self.code_state);
        self.code_state = c;
        let mut hx = String::new();
        push_hex(a, 16, &mut hx);
        push_hex(b, 16, &mut hx);
        proof {
            lemma_hex_digits_ok(a as int, 16);
            lemma_hex_digits_ok(b as int, 16);
            assert(hx@ =~= hex_digits(a as int, 16) + hex_digits(b as int, 16));
            assert(hx@.len() == 32);
        }
        let mut id = String::new();
        proof {
            reveal_strlit("-");
        }
        id.append(hx.as_str().substring_char(0, 8));
        id.append("-");
        id.append(hx.as_str().substring_char(8, 12));
        id.append("-");
        id.append(hx.as_str().substring_char(12, 16));
        id.append("-");
        id.append(hx.as_str().substring_char(16, 20));
        id.append("-");
        id.append(hx.as_str().substring_char(20, 32));
        proof {
            assert(("-")@ =~= seq!['-']);
            assert(id@ =~= id_chars(a, b));
            lemma_id_chars_valid(a, b);
        }
        let mut code = String::new();
        push_fixed_decimal(c % 1000000, 6, &mut code);
        proof {
            assert((c % 1000000) % 1000000 == c % 1000000);
            assert(code@ =~= code_chars(c));
            lemma_code_chars_valid(c);
        }
        let attempt_id = match LoginAttemptId::parse(id) {
            Ok(v) => v,
            Err(_) => unreached(),
        };
        let two_fa_code = match TwoFACode::parse(code) {
            Ok(v) => v,
            Err(_) => unreached(),
        };
        (attempt_id, two_fa_code)
    }
}

} // verus!
