use vstd::prelude::*;
use vstd::string::StrSliceExecFns;
use vstd::string::StringExecFns;
use crate::domain::attempt_id_valid;
use crate::domain::two_fa_code_valid;
use crate::domain::Email;
use crate::domain::LoginAttemptId;
use crate::domain::TwoFACode;

verus! {

/// The key under which a durable, expiring backend holds an identity's
/// challenge: a fixed prefix keeps challenge entries apart from every
/// other kind of key.
pub fn get_key(email: &Email) -> (r: String)
    ensures
        r@ == "two_fa_code:"@ + email@,
{
    let mut key = ("two_fa_code:").to_owned();
    key.append(email.as_ref());
    key
}

/// The framed text a stored challenge travels as: a two-element array
/// of the attempt identifier and the code, each quoted.
pub open spec fn two_fa_tuple_chars(id: Seq<char>, code: Seq<char>) -> Seq<char> {
    seq!['[', '"'] + id + seq!['"', ',', '"'] + code + seq!['"', ']']
}

/// The unique reading of a framed challenge, if it has one: both
/// lengths are fixed, so every frame position is too.
pub open spec fn two_fa_tuple_parse(s: Seq<char>) -> Option<(Seq<char>, Seq<char>)> {
    if s.len() == 49 && s[0] == '[' && s[1] == '"' && s[38] == '"' && s[39] == ',' && s[40]
        == '"' && s[47] == '"' && s[48] == ']' {
        let id = s.subrange(2, 38);
        let code = s.subrange(41, 47);
        if attempt_id_valid(id) && two_fa_code_valid(code) {
            Some((id, code))
        } else {
            None
        }
    } else {
        None
    }
}

/// Frames a challenge for the durable backend.
pub fn encode_two_fa_tuple(id: &LoginAttemptId, code: &TwoFACode) -> (r: String)
    ensures
        r@ == two_fa_tuple_chars(id@, code@),
{
    proof {
        reveal_strlit("[\"");
        reveal_strlit("\",\"");
        reveal_strlit("\"]");
    }
    let mut out = ("[\"").to_owned();
    out.append(id.as_ref());
    out.append("\",\"");
    out.append(code.as_ref());
    out.append("\"]");
    proof {
        assert(("[\"")@ =~= seq!['[', '"']);
        assert(("\",\"")@ =~= seq!['"', ',', '"']);
        assert(("\"]")@ =~= seq!['"', ']']);
        assert(out@ =~= two_fa_tuple_chars(id@, code@));
    }
    out
}

/// Reads a framed challenge back; refuses anything that is not the
/// frame of a well-formed pair.
pub fn decode_two_fa_tuple(s: &str) -> (r: Option<(LoginAttemptId, TwoFACode)>)
    ensures
        match r {
            Some(p) => two_fa_tuple_parse(s@) == Some((p.0@, p.1@)),
            None => two_fa_tuple_parse(s@) is None,
        },
{
    if s.unicode_len() != 49 {
        return None;
    }
    if !(s.get_char(0) == '[' && s.get_char(1) == '"' && s.get_char(38) == '"' && s.get_char(39)
        == ',' && s.get_char(40) == '"' && s.get_char(47) == '"' && s.get_char(48) == ']') {
        return None;
    }
    let id_text = s.substring_char(2, 38).to_owned();
    let code_text = s.substring_char(41, 47).to_owned();
    let id = match LoginAttemptId::parse(id_text) {
        Ok(v) => v,
        Err(_) => {
            return None;
        },
    };
    let code = match TwoFACode::parse(code_text) {
        Ok(v) => v,
        Err(_) => {
            return None;
        },
    };
    Some((id, code))
}

/// Framing then reading gives the pair back: the frame loses nothing.
pub proof fn lemma_two_fa_tuple_round_trip(id: Seq<char>, code: Seq<char>)
    requires
        attempt_id_valid(id),
        two_fa_code_valid(code),
    ensures
        two_fa_tuple_parse(two_fa_tuple_chars(id, code)) == Some((id, code)),
{
    let s = two_fa_tuple_chars(id, code);
    assert(s.len() == 49);
    assert(s[0] == '[');
    assert(s[1] == '"');
    assert(s[38] == '"');
    assert(s[39] == ',');
    assert(s[40] == '"');
    assert(s[47] == '"');
    assert(s[48] == ']');
    assert(s.subrange(2, 38) =~= id);
    assert(s.subrange(41, 47) =~= code);
}

} // verus!
