//! Short random identifiers.
use vstd::prelude::*;
use rand::Rng;

verus! {

/// Number of characters in a generated identifier.
pub const ID_LEN: usize = 6;

/// An ASCII letter or digit.
pub open spec fn is_alphanumeric(c: char) -> bool {
    ('a' <= c && c <= 'z') || ('A' <= c && c <= 'Z') || ('0' <= c && c <= '9')
}

/// Six ASCII letters or digits.
pub open spec fn is_identifier(s: Seq<char>) -> bool {
    s.len() == ID_LEN && forall|i: int| 0 <= i < s.len() ==> is_alphanumeric(#[trigger] s[i])
}

/// Relies on rand's `Alphanumeric` distribution, sampled from `thread_rng`:
/// a byte drawn from `A-Z`, `a-z` and `0-9`.
#[verifier::external_body]
fn random_alphanumeric() -> (r: char)
    ensures
        is_alphanumeric(r),
{
    rand::thread_rng().sample(rand::distributions::Alphanumeric) as char
}

/// Relies on `String::push`: appends one character.
#[verifier::external_body]
fn push_char(s: &mut String, c: char)
    ensures
        final(s)@ == old(s)@.push(c),
{
    s.push(c)
}

/// A fresh random identifier of six letters or digits.
pub fn generate_id() -> (r: String)
    ensures
        is_identifier(r@),
{
    let mut s = String::new();
    let mut i: usize = 0;
    while i < ID_LEN
        invariant
            i <= ID_LEN,
            s@.len() == i,
            forall|j: int| 0 <= j < s@.len() ==> is_alphanumeric(#[trigger] s@[j]),
        decreases ID_LEN - i,
    {
        let c = random_alphanumeric();
        push_char(&mut s, c);
        i = i + 1;
    }
    s
}

} // verus!
