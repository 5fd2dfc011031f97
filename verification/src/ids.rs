//! Identifiers of profiles.

use crate::text::chars_of;
use vstd::prelude::*;

verus! {

/// A digit of lower-case hexadecimal notation.
pub open spec fn is_lower_hex(c: char) -> bool {
    ('0' <= c && c <= '9') || ('a' <= c && c <= 'f')
}

/// The hyphenated lower-case form of a version 4 identifier: 36 characters,
/// hyphens after the groups of 8, 4, 4 and 4 digits, `4` as the first digit
/// of the third group and one of `8`, `9`, `a`, `b` as the first digit of the
/// fourth.
pub open spec fn is_random_id(id: Seq<char>) -> bool {
    &&& id.len() == 36
    &&& forall|i: int|
        0 <= i < 36 ==> if i == 8 || i == 13 || i == 18 || i == 23 {
            id[i] == '-'
        } else {
            is_lower_hex(#[trigger] id[i])
        }
    &&& id[14] == '4'
    &&& (id[19] == '8' || id[19] == '9' || id[19] == 'a' || id[19] == 'b')
}

/// The form of an identifier that was made for a profile: a random
/// identifier, with nothing but `0` behind it.
pub open spec fn is_made_id(id: Seq<char>) -> bool {
    &&& id.len() >= 36
    &&& is_random_id(id.take(36))
    &&& forall|k: int| 36 <= k < id.len() ==> id[k] == '0'
}

/// Whether a character is a digit of lower-case hexadecimal notation.
pub fn is_lower_hex_char(c: char) -> (hex: bool)
    ensures
        hex == is_lower_hex(c),
{
    ('0' <= c && c <= '9') || ('a' <= c && c <= 'f')
}

/// Whether a text has the form of a random identifier.
pub fn is_random_id_text(id: &str) -> (ok: bool)
    ensures
        ok == is_random_id(id@),
{
    let chars = chars_of(id);
    if chars.len() != 36 {
        return false;
    }
    let mut i: usize = 0;
    while i < 36
        invariant
            i <= 36,
            chars@ == id@,
            chars@.len() == 36,
            forall|k: int|
                0 <= k < i ==> if k == 8 || k == 13 || k == 18 || k == 23 {
                    id@[k] == '-'
                } else {
                    is_lower_hex(#[trigger] id@[k])
                },
        decreases 36 - i,
    {
        let c = chars[i];
        if i == 8 || i == 13 || i == 18 || i == 23 {
            if c != '-' {
                return false;
            }
        } else if !is_lower_hex_char(c) {
            return false;
        }
        i += 1;
    }
    chars[14] == '4' && (chars[19] == '8' || chars[19] == '9' || chars[19] == 'a' || chars[19]
        == 'b')
}

/// `uuid::Uuid::new_v4`, written out by the identifier's `Display`: a
/// version 4 identifier drawn at random, in hyphenated lower-case form.
/// Nothing is claimed about which identifier comes out.
#[verifier::external_body]
pub(crate) fn random_id() -> (id: String)
    ensures
        is_random_id(id@),
{
    uuid::Uuid::new_v4().to_string()
}

} // verus!
