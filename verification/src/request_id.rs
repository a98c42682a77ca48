//! Fresh identifiers for policy requests.
use vstd::prelude::*;

verus! {

/// A lowercase hexadecimal digit.
pub open spec fn is_lower_hex(c: char) -> bool {
    let n = c as u32;
    (48 <= n <= 57) || (97 <= n <= 102)
}

/// The hyphenated lowercase text of a random (version 4, RFC 4122 variant)
/// UUID: 36 characters, hyphens at positions 8, 13, 18 and 23, lowercase hex
/// digits elsewhere, the version digit `4` at position 14 and one of
/// `8`, `9`, `a`, `b` at position 19.
pub open spec fn is_v4_uuid_text(s: Seq<char>) -> bool {
    &&& s.len() == 36
    &&& forall|i: int|
        0 <= i < 36 ==> if i == 8 || i == 13 || i == 18 || i == 23 {
            #[trigger] s[i] == '-'
        } else {
            is_lower_hex(s[i])
        }
    &&& s[14] == '4'
    &&& (s[19] == '8' || s[19] == '9' || s[19] == 'a' || s[19] == 'b')
}

/// Calls `uuid::Uuid::new_v4` and formats the result with its `Display`
/// impl, which writes the hyphenated lowercase form. The value is random:
/// the contract states only its shape, which holds of every outcome
/// (`new_v4` masks in version 4 and the RFC 4122 variant). Left unsaid:
/// `new_v4` panics where the operating system gives no random bytes.
#[verifier::external_body]
pub(crate) fn fresh_request_id() -> (id: String)
    ensures
        is_v4_uuid_text(id@),
{
    uuid::Uuid::new_v4().to_string()
}

} // verus!
