//! Fresh identifiers for messages the client creates itself.

use vstd::prelude::*;

verus! {

/// A lower-case hexadecimal digit.
pub open spec fn is_lower_hex(c: char) -> bool {
    ('0' <= c && c <= '9') || ('a' <= c && c <= 'f')
}

/// The text of a random UUID: 36 characters, hyphens at positions 8, 13, 18
/// and 23, lower-case hexadecimal digits elsewhere, and the version digit `4`
/// at position 14.
pub open spec fn is_uuid_v4_text(s: Seq<char>) -> bool {
    &&& s.len() == 36
    &&& forall|i: int|
        0 <= i < 36 ==> if i == 8 || i == 13 || i == 18 || i == 23 {
            s[i] == '-'
        } else {
            is_lower_hex(#[trigger] s[i])
        }
    &&& s[14] == '4'
}

/// `uuid::Uuid::new_v4()` written with `to_string()`. The value is random; the
/// crate's `Display` writes the hyphenated lower-case form, and `new_v4` sets
/// the version digit to 4. Which digits come out is not stated. The call
/// panics if the operating system gives no random bytes.
#[verifier::external_body]
pub(crate) fn new_uuid_text() -> (r: String)
    ensures
        is_uuid_v4_text(r@),
{
    uuid::Uuid::new_v4().to_string()
}

/// A fresh id for a message the client stores itself, such as a decrypted
/// direct message: the text of a random UUID.
pub fn fresh_message_id() -> (r: String)
    ensures
        is_uuid_v4_text(r@),
{
    new_uuid_text()
}

} // verus!
