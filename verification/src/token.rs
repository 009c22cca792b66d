//! Bearer-token generation.
//!
//! The supervisor shares a random token with the backend through its
//! environment; the shell later presents the same token on its calls to the
//! backend.  A token is always 32 ASCII letters or digits.

use vstd::prelude::*;

verus! {

/// Number of characters in a bearer token.
pub const TOKEN_LEN: usize = 32;

/// An ASCII letter or digit: the alphabet tokens are drawn from.
pub open spec fn is_token_char(c: char) -> bool {
    (48 <= c as u32 && c as u32 <= 57)  // '0'..='9'
    || (65 <= c as u32 && c as u32 <= 90)  // 'A'..='Z'
    || (97 <= c as u32 && c as u32 <= 122)  // 'a'..='z'
}

/// A well-formed bearer token: exactly `TOKEN_LEN` alphanumeric characters.
pub open spec fn valid_token(s: Seq<char>) -> bool {
    &&& s.len() == TOKEN_LEN
    &&& forall|i: int| 0 <= i < s.len() ==> is_token_char(s[i])
}

/// Relies on rand's `Alphanumeric` distribution: every sampled byte is an
/// ASCII letter or digit (a-z, A-Z, 0-9), so taking 32 samples and turning
/// each into a `char` yields 32 alphanumeric characters.
#[verifier::external_body]
fn sample_alphanumeric_chars() -> (r: String)
    ensures
        valid_token(r@),
{
    rand::Rng::sample_iter(rand::thread_rng(), &rand::distributions::Alphanumeric)
        .take(TOKEN_LEN)
        .map(char::from)
        .collect()
}

/// Produces a fresh bearer token: 32 characters drawn from the alphanumeric
/// alphabet.  Each call draws anew from the process's thread-local generator.
pub fn generate_token() -> (t: String)
    ensures
        valid_token(t@),
{
    sample_alphanumeric_chars()
}

} // verus!
