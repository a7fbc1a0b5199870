use vstd::prelude::*;
use vstd::string::StrSliceExecFns;
use vstd::string::StringExecFns;

verus! {

/// The key under which a durable, expiring backend shadows a revoked
/// token: a fixed prefix keeps revocation entries apart from every
/// other kind of key.
pub fn get_key(token: &str) -> (r: String)
    ensures
        r@ == "banned_token:"@ + token@,
{
    let mut key = ("banned_token:").to_owned();
    key.append(token);
    key
}

} // verus!
