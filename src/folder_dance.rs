//! Fresh names for the directories that checkpoints are copied into.
use crate::text::string_from_chars;
use rand::Rng;
use vstd::prelude::*;

verus! {

/// How many characters a random name has.
pub const RANDOM_NAME_LEN: usize = 16;

/// `c` is an ASCII letter or digit.
pub open spec fn is_alphanumeric(c: char) -> bool {
    ||| 'A' as u32 <= c as u32 <= 'Z' as u32
    ||| 'a' as u32 <= c as u32 <= 'z' as u32
    ||| '0' as u32 <= c as u32 <= '9' as u32
}

/// Relies on rand's `Alphanumeric` distribution, sampled from `OsRng`: a
/// byte of `A-Z`, `a-z` or `0-9`.
#[verifier::external_body]
fn random_alphanumeric() -> (r: u8)
    ensures
        is_alphanumeric(r as char),
{
    rand::rngs::OsRng.sample(rand::distributions::Alphanumeric)
}

/// A random string of sixteen ASCII letters and digits.
pub fn generate_random_string() -> (r: String)
    ensures
        r@.len() == RANDOM_NAME_LEN,
        forall|i: int| 0 <= i < r@.len() ==> is_alphanumeric(#[trigger] r@[i]),
{
    let mut chars: Vec<char> = Vec::new();
    while chars.len() < RANDOM_NAME_LEN
        invariant
            chars.len() <= RANDOM_NAME_LEN,
            forall|i: int| 0 <= i < chars@.len() ==> is_alphanumeric(#[trigger] chars@[i]),
        decreases RANDOM_NAME_LEN - chars.len(),
    {
        let b = random_alphanumeric();
        chars.push(b as char);
    }
    string_from_chars(&chars)
}

} // verus!
