use vstd::prelude::*;

verus! {

/// A lowercase hexadecimal digit.
pub open spec fn is_lower_hex_digit(c: char) -> bool {
    (('0' as u32) <= (c as u32) && (c as u32) <= ('9' as u32)) || (('a' as u32) <= (c as u32) && (
    c as u32) <= ('f' as u32))
}

/// The canonical hyphenated form of a version-4 UUID: 36 characters, the
/// hyphens at positions 8, 13, 18 and 23, lowercase hexadecimal digits
/// everywhere else, the version nibble `4` at position 14 and an RFC 4122
/// variant nibble at position 19.
pub open spec fn is_uuid_v4_hyphenated(s: Seq<char>) -> bool {
    &&& s.len() == 36
    &&& forall|i: int|
        0 <= i < 36 ==> (if i == 8 || i == 13 || i == 18 || i == 23 {
            s[i] == '-'
        } else {
            is_lower_hex_digit(s[i])
        })
    &&& s[14] == '4'
    &&& (s[19] == '8' || s[19] == '9' || s[19] == 'a' || s[19] == 'b')
}

/// Relies on `uuid::Uuid::new_v4` and the `Display` form of `Uuid`: the
/// value masks in the version and variant bits and always prints as the
/// 36-character lowercase hyphenated string, so the shape is fixed for
/// every outcome while the value itself is random and nothing more is
/// promised of it.  The call does not return if the operating system's
/// random source itself fails, an environmental condition akin to running
/// out of memory.
#[verifier::external_body]
pub(crate) fn fresh_token() -> (r: String)
    ensures
        is_uuid_v4_hyphenated(r@),
{
    uuid::Uuid::new_v4().to_string()
}

} // verus!
