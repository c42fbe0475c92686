//! Fresh identifiers for messages and nonces.

use vstd::prelude::*;

verus! {

/// Whether `c` is a digit of lower-case hexadecimal.
pub open spec fn is_lower_hex(c: char) -> bool {
    ('0' <= c && c <= '9') || ('a' <= c && c <= 'f')
}

/// Whether `s` is a random UUID as text: thirty-two digits of lower-case
/// hexadecimal in groups of eight, four, four, four and twelve with a hyphen
/// between them, the third group beginning with the version 4 and the fourth
/// with the variant, which is 8, 9, a or b.
pub open spec fn is_uuid_v4(s: Seq<char>) -> bool {
    &&& s.len() == 36
    &&& forall|i: int|
        0 <= i < 36 ==> if i == 8 || i == 13 || i == 18 || i == 23 {
            s[i] == '-'
        } else {
            is_lower_hex(#[trigger] s[i])
        }
    &&& s[14] == '4'
    &&& (s[19] == '8' || s[19] == '9' || s[19] == 'a' || s[19] == 'b')
}

/// Calls `uuid::Uuid::new_v4` and renders the result as text. The id is drawn
/// at random; the contract claims what holds of every draw: the crate sets
/// version and variant, and renders a UUID hyphenated in lower case. Not
/// proved.
#[verifier::external_body]
fn random_uuid() -> (id: String)
    ensures
        is_uuid_v4(id@),
{
    uuid::Uuid::new_v4().to_string()
}

/// A fresh random identifier: a version 4 UUID as text. Which one it is is
/// left to chance, so callers are verified for every value of it.
pub fn fresh_id() -> (id: String)
    ensures
        is_uuid_v4(id@),
{
    random_uuid()
}

} // verus!
