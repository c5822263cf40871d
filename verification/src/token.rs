//! Single-use confirmation tokens: 25 case-sensitive alphanumeric
//! characters drawn from a non-predictable source of randomness.

use vstd::prelude::*;

verus! {

use vstd::string::StrSliceExecFns;
use vstd::string::StringExecFns;

/// Number of characters in every confirmation token.
pub const TOKEN_LEN: usize = 25;

/// A character of the token alphabet: `A`-`Z`, `a`-`z` or `0`-`9`.
pub open spec fn is_token_char(c: char) -> bool {
    ||| 'A' <= c <= 'Z'
    ||| 'a' <= c <= 'z'
    ||| '0' <= c <= '9'
}

/// A well-formed confirmation token: exactly `TOKEN_LEN` characters, each
/// from the token alphabet.
pub open spec fn valid_token(s: Seq<char>) -> bool {
    &&& s.len() == TOKEN_LEN
    &&& forall|i: int| 0 <= i < s.len() ==> is_token_char(#[trigger] s[i])
}

/// Relies on `rand`: sampling the `Alphanumeric` distribution with the
/// thread-local generator yields one byte uniformly drawn from
/// `A`-`Z`, `a`-`z`, `0`-`9`. The draw is random, so nothing beyond the
/// alphabet membership is promised.
#[verifier::external_body]
fn sample_alphanumeric() -> (r: String)
    ensures
        r@.len() == 1,
        is_token_char(r@[0]),
{
    String::from(char::from(rand::Rng::sample(
        &mut rand::thread_rng(),
        rand::distributions::Alphanumeric,
    )))
}

/// Generate a random subscription token: `TOKEN_LEN` characters, each from
/// the case-sensitive alphanumeric alphabet. Which characters come out is
/// up to the random source; their number and alphabet are not.
pub fn generate_subscription_token() -> (r: String)
    ensures
        valid_token(r@),
{
    let mut token = String::new();
    let mut i: usize = 0;
    while i < TOKEN_LEN
        invariant
            i <= TOKEN_LEN,
            token@.len() == i,
            forall|j: int| 0 <= j < i ==> is_token_char(#[trigger] token@[j]),
        decreases TOKEN_LEN - i,
    {
        let c = sample_alphanumeric();
        token.append(c.as_str());
        i += 1;
    }
    token
}

/// Checks that `s` has the shape of a confirmation token.
pub fn is_well_formed_token(s: &str) -> (r: bool)
    ensures
        r == valid_token(s@),
{
    let len = s.unicode_len();
    if len != TOKEN_LEN {
        return false;
    }
    let mut i: usize = 0;
    while i < len
        invariant
            len == s@.len(),
            i <= len,
            forall|j: int| 0 <= j < i ==> is_token_char(#[trigger] s@[j]),
        decreases len - i,
    {
        let c = s.get_char(i);
        let ok = ('A' <= c && c <= 'Z') || ('a' <= c && c <= 'z') || ('0' <= c && c <= '9');
        if !ok {
            return false;
        }
        i += 1;
    }
    true
}

} // verus!
