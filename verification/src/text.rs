//! Texts as sequences of characters.

use vstd::prelude::*;
use vstd::string::*;

verus! {

/// The characters of an optional text.
pub open spec fn opt_text(o: Option<String>) -> Option<Seq<char>> {
    match o {
        Some(s) => Some(s@),
        None => None,
    }
}

/// The first `n` characters of `s`, or all of `s` where it has no more
/// than `n`.
pub open spec fn leading(s: Seq<char>, n: nat) -> Seq<char> {
    if s.len() <= n {
        s
    } else {
        s.take(n as int)
    }
}

/// Number of digits of a full commit hash.
pub const HASH_DIGITS: usize = 40;

/// Whether a character is a digit of lowercase hexadecimal.
pub open spec fn is_hex_digit(c: char) -> bool {
    ('0' <= c && c <= '9') || ('a' <= c && c <= 'f')
}

/// Whether a text is a full commit hash: forty digits of lowercase
/// hexadecimal.
pub open spec fn is_full_hash(text: Seq<char>) -> bool {
    text.len() == HASH_DIGITS && forall|i: int|
        0 <= i < text.len() ==> is_hex_digit(#[trigger] text[i])
}

/// Fewest digits that an abbreviated id has.
pub const ABBREVIATION_MIN: usize = 4;

/// Whether `short` abbreviates `full`: it starts `full` and has no fewer
/// digits than an abbreviation may have.
pub open spec fn abbreviates(short: Seq<char>, full: Seq<char>) -> bool {
    short.len() >= ABBREVIATION_MIN && short.is_prefix_of(full)
}

/// Copies the first `n` characters of `s`, or all of `s` where it has no
/// more than `n`.
pub fn first_chars(s: &str, n: usize) -> (r: String)
    ensures
        r@ == leading(s@, n as nat),
{
    let len: usize = s.unicode_len();
    if len <= n {
        s.to_owned()
    } else {
        s.substring_char(0, n).to_owned()
    }
}

} // verus!
