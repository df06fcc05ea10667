//! The short random token under which a record is published.

use vstd::prelude::*;
use vstd::string::*;

verus! {

/// The number of characters of a token.
pub const TOKEN_LENGTH: usize = 10;

/// The characters a token is drawn from: the digits and the lower-case
/// letters.
pub const TOKEN_CHARSET: &'static str = "0123456789abcdefghijklmnopqrstuvwxyz";

/// Whether `c` is a digit or a lower-case letter.
pub open spec fn is_token_char(c: char) -> bool {
    ('0' <= c && c <= '9') || ('a' <= c && c <= 'z')
}

/// Whether `s` has the shape of a token: ten characters, each a digit or a
/// lower-case letter.
pub open spec fn is_token(s: Seq<char>) -> bool {
    &&& s.len() == TOKEN_LENGTH
    &&& forall|i: int| 0 <= i < s.len() ==> is_token_char(#[trigger] s[i])
}

/// Draws `length` characters at random from `charset` with
/// `random_string::generate`. Trusted: the result has `length` characters and
/// each of them occurs in `charset`; which ones is left open. The empty
/// charset, on which `generate` panics, and lengths whose bytes would not fit
/// a `String` are excluded.
#[verifier::external_body]
fn draw(length: usize, charset: &str) -> (res: String)
    requires
        charset@.len() > 0,
        4 * length <= isize::MAX,
    ensures
        res@.len() == length,
        forall|i: int| 0 <= i < res@.len() ==> charset@.contains(#[trigger] res@[i]),
{
    random_string::generate(length, charset)
}

/// Every character of the charset is a digit or a lower-case letter.
proof fn lemma_charset(c: char)
    requires
        TOKEN_CHARSET@.contains(c),
    ensures
        is_token_char(c),
{
    reveal_strlit("0123456789abcdefghijklmnopqrstuvwxyz");
    let i = choose|i: int| 0 <= i < TOKEN_CHARSET@.len() && TOKEN_CHARSET@[i] == c;
    assert(TOKEN_CHARSET@.len() == 36);
    assert(is_token_char(TOKEN_CHARSET@[i]));
}

/// A fresh random token: ten characters, each a digit or a lower-case letter.
pub fn generate_random_path() -> (res: String)
    ensures
        is_token(res@),
{
    proof {
        reveal_strlit("0123456789abcdefghijklmnopqrstuvwxyz");
    }
    let token = draw(TOKEN_LENGTH, TOKEN_CHARSET);
    proof {
        assert forall|i: int| 0 <= i < token@.len() implies is_token_char(#[trigger] token@[i]) by {
            lemma_charset(token@[i]);
        }
    }
    token
}

/// Whether `token` has the shape of a token.
pub fn is_valid_token(token: &str) -> (res: bool)
    ensures
        res == is_token(token@),
{
    let n = token.unicode_len();
    if n != TOKEN_LENGTH {
        return false;
    }
    let mut i: usize = 0;
    while i < n
        invariant
            i <= n,
            n == token@.len(),
            forall|k: int| 0 <= k < i ==> is_token_char(#[trigger] token@[k]),
        decreases n - i,
    {
        let c = token.get_char(i);
        if !(('0' <= c && c <= '9') || ('a' <= c && c <= 'z')) {
            return false;
        }
        i += 1;
    }
    true
}

} // verus!
