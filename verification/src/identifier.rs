//! Identifiers that the gateway makes up for records whose request names none.

use vstd::prelude::*;

verus! {

/// A digit of lower-case hexadecimal.
pub open spec fn is_lower_hex(c: char) -> bool {
    ('0' <= c && c <= '9') || ('a' <= c && c <= 'f')
}

/// A hyphen stands at this place of a UUID in its usual text form.
pub open spec fn is_hyphen_position(i: int) -> bool {
    i == 8 || i == 13 || i == 18 || i == 23
}

/// The text of a random (version 4) UUID: 36 characters, hyphens after the
/// 8th, 12th, 16th and 20th hexadecimal digit, lower-case digits elsewhere,
/// the version digit `4` and a variant digit from `8` to `b`.
pub open spec fn is_random_uuid_text(s: Seq<char>) -> bool {
    &&& s.len() == 36
    &&& forall|i: int|
        0 <= i < 36 ==> if is_hyphen_position(i) {
            #[trigger] s[i] == '-'
        } else {
            is_lower_hex(s[i])
        }
    &&& s[14] == '4'
    &&& (s[19] == '8' || s[19] == '9' || s[19] == 'a' || s[19] == 'b')
}

/// A fresh random identifier: `uuid::Uuid::new_v4`, written out with
/// `to_string`.
///
/// Trusted: `new_v4` draws 128 random bits and overwrites the version with 4
/// and the two variant bits with `10`; `to_string` writes a UUID hyphenated,
/// in lower case. Which identifier comes back is left open, and so is
/// whether two calls differ. `new_v4` panics where the operating system
/// gives no random bytes.
#[verifier::external_body]
pub(crate) fn random_identifier() -> (id: String)
    ensures
        is_random_uuid_text(id@),
{
    uuid::Uuid::new_v4().to_string()
}

} // verus!
