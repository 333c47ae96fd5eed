//! Opaque session tokens: random 128-bit identifiers rendered as hyphenated
//! lower-case hexadecimal text.

use vstd::prelude::*;
use vstd::string::*;

verus! {

/// Length of a token in characters: 32 hexadecimal digits and 4 hyphens.
pub const TOKEN_LENGTH: usize = 36;

/// A lower-case hexadecimal digit.
pub open spec fn is_lower_hex(c: char) -> bool {
    ('0' <= c && c <= '9') || ('a' <= c && c <= 'f')
}

/// The positions of a token that hold a hyphen.
pub open spec fn is_hyphen_position(i: int) -> bool {
    i == 8 || i == 13 || i == 18 || i == 23
}

/// What a token holds at position `i`: a hyphen or a hexadecimal digit.
pub open spec fn fits_position(i: int, c: char) -> bool {
    if is_hyphen_position(i) {
        c == '-'
    } else {
        is_lower_hex(c)
    }
}

/// The shape of every token: five groups of 8, 4, 4, 4 and 12 lower-case
/// hexadecimal digits, joined by hyphens. The first digit of the third group
/// is the version, 4; the first digit of the fourth group carries the
/// variant in its two high bits, `10`.
pub open spec fn is_token(text: Seq<char>) -> bool {
    &&& text.len() == TOKEN_LENGTH
    &&& forall|i: int| 0 <= i < TOKEN_LENGTH ==> fits_position(i, #[trigger] text[i])
    &&& text[14] == '4'
    &&& (text[19] == '8' || text[19] == '9' || text[19] == 'a' || text[19] == 'b')
}

/// Draws a random version 4 UUID with `uuid::Uuid::new_v4` and renders it
/// with `Uuid::hyphenated` and its `Display`. The contract claims only the
/// shape of the text, which holds whatever bits were drawn: `new_v4` fixes the
/// version and variant bits, and the hyphenated form writes 32 lower-case
/// digits in groups of 8-4-4-4-12. Nothing is claimed about which token comes
/// out, nor that two calls differ. The outside call aborts the process when
/// the operating system cannot supply random bytes.
#[verifier::external_body]
fn random_uuid_text() -> (text: String)
    ensures
        is_token(text@),
{
    uuid::Uuid::new_v4().hyphenated().to_string()
}

/// Whether a character is a lower-case hexadecimal digit.
fn check_lower_hex(c: char) -> (ok: bool)
    ensures
        ok == is_lower_hex(c),
{
    ('0' <= c && c <= '9') || ('a' <= c && c <= 'f')
}

/// Source of session tokens and instance identities.
pub struct TokenIssuer;

impl TokenIssuer {
    /// A fresh token. Tokens are drawn at random and carry no meaning beyond
    /// being distinct with overwhelming probability.
    pub fn issue() -> (token: String)
        ensures
            is_token(token@),
    {
        random_uuid_text()
    }

    /// Whether `text` has the shape of a token.
    pub fn is_well_formed(text: &str) -> (ok: bool)
        ensures
            ok == is_token(text@),
    {
        if text.unicode_len() != TOKEN_LENGTH {
            return false;
        }
        let mut i: usize = 0;
        while i < TOKEN_LENGTH
            invariant
                i <= TOKEN_LENGTH,
                text@.len() == TOKEN_LENGTH,
                forall|j: int| 0 <= j < i ==> fits_position(j, #[trigger] text@[j]),
            decreases TOKEN_LENGTH - i,
        {
            let c = text.get_char(i);
            let hyphen_here = i == 8 || i == 13 || i == 18 || i == 23;
            if hyphen_here {
                if c != '-' {
                    return false;
                }
            } else if !check_lower_hex(c) {
                return false;
            }
            i += 1;
        }
        let version = text.get_char(14);
        let variant = text.get_char(19);
        version == '4' && (variant == '8' || variant == '9' || variant == 'a' || variant == 'b')
    }
}

} // verus!
