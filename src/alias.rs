use rand::Rng;
use vstd::prelude::*;

verus! {

/// The length of the aliases that the service hands out.
pub const ALIAS_LEN: usize = 6;

/// A character of the alias alphabet `[A-Za-z0-9]`.
pub open spec fn is_alias_char(c: char) -> bool {
    ('A' <= c && c <= 'Z') || ('a' <= c && c <= 'z') || ('0' <= c && c <= '9')
}

/// `s` is an alias of exactly `len` characters of the alias alphabet.
pub open spec fn is_alias_of_len(s: Seq<char>, len: nat) -> bool {
    &&& s.len() == len
    &&& forall|i: int| 0 <= i < s.len() ==> is_alias_char(#[trigger] s[i])
}

/// Relies on rand's `Alphanumeric` distribution sampled from the thread-local
/// generator: it yields a byte of `A-Z`, `a-z` or `0-9`.
#[verifier::external_body]
fn random_alphanumeric() -> (c: char)
    ensures
        is_alias_char(c),
{
    rand::thread_rng().sample(rand::distributions::Alphanumeric) as char
}

/// Relies on `String::push`: appends one character.
#[verifier::external_body]
fn push_char(s: &mut String, c: char)
    ensures
        final(s)@ == old(s)@.push(c),
{
    s.push(c)
}

/// A fresh random alias of `len` characters drawn from `[A-Za-z0-9]`.
pub fn random_alias(len: usize) -> (r: String)
    ensures
        is_alias_of_len(r@, len as nat),
{
    let mut s = String::new();
    let mut i: usize = 0;
    while i < len
        invariant
            i <= len,
            is_alias_of_len(s@, i as nat),
        decreases len - i,
    {
        let c = random_alphanumeric();
        push_char(&mut s, c);
        i = i + 1;
    }
    s
}

/// A fresh random alias of the service's configured length.
pub fn rand_string() -> (r: String)
    ensures
        is_alias_of_len(r@, ALIAS_LEN as nat),
{
    random_alias(ALIAS_LEN)
}

} // verus!
