//! Random identifiers for commands and agents.
use vstd::prelude::*;

verus! {

/// Whether `c` is one of the digits that a lower-case hexadecimal text uses.
pub open spec fn is_lower_hex_digit(c: char) -> bool {
    ('0' <= c && c <= '9') || ('a' <= c && c <= 'f')
}

/// Whether `s` has the shape of a hyphenated version-4 UUID in lower case:
/// 36 characters, hyphens at positions 8, 13, 18 and 23, the version digit
/// `4` at position 14, and lower-case hexadecimal digits everywhere else.
pub open spec fn is_uuid_v4_text(s: Seq<char>) -> bool {
    &&& s.len() == 36
    &&& s[8] == '-' && s[13] == '-' && s[18] == '-' && s[23] == '-'
    &&& s[14] == '4'
    &&& forall|i: int|
        0 <= i < 36 && i != 8 && i != 13 && i != 18 && i != 23 ==> is_lower_hex_digit(#[trigger] s[i])
}

/// A random identifier: `uuid::Uuid::new_v4().to_string()`.
///
/// The contract claims only the textual shape that the `uuid` crate's
/// hyphenated lower-case formatting gives every version-4 value; which value
/// comes out is random and is left unsaid.
#[verifier::external_body]
pub(crate) fn new_uuid_text() -> (s: String)
    ensures
        is_uuid_v4_text(s@),
{
    uuid::Uuid::new_v4().to_string()
}

} // verus!
