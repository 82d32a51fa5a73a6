//! Fresh identifiers for groups and messages.

use guid_create::GUID;
use vstd::prelude::*;

verus! {

/// `c` is a digit or an upper-case letter from `A` to `F`.
pub open spec fn is_upper_hex_digit(c: char) -> bool {
    (48 <= c as int && c as int <= 57) || (65 <= c as int && c as int <= 70)
}

/// `s` is a GUID written as `XXXXXXXX-XXXX-XXXX-XXXX-XXXXXXXXXXXX`
/// with upper-case hexadecimal digits.
pub open spec fn is_guid_text(s: Seq<char>) -> bool {
    &&& s.len() == 36
    &&& forall|i: int|
        0 <= i < 36 ==> if i == 8 || i == 13 || i == 18 || i == 23 {
            #[trigger] s[i] == '-'
        } else {
            is_upper_hex_digit(s[i])
        }
}

/// Draws a random GUID with `guid_create::GUID::rand` and writes it out with
/// that type's `Display`, which writes its sixteen bytes as
/// `{:08X}-{:04X}-{:04X}-{:04X}-{:08X}{:04X}`; which GUID is drawn is left
/// to chance and is not stated.
#[verifier::external_body]
pub(crate) fn fresh_guid() -> (id: String)
    ensures
        is_guid_text(id@),
{
    GUID::rand().to_string()
}

} // verus!
