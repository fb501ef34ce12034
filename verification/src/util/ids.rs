use vstd::prelude::*;

verus! {

/// A lowercase hexadecimal digit.
pub open spec fn is_lower_hex(c: char) -> bool {
    (48 <= (c as u32) <= 57) || (97 <= (c as u32) <= 102)
}

/// The hyphenated lowercase text of a UUID: 36 characters, `-` at 8, 13, 18 and 23,
/// hexadecimal digits elsewhere.
pub open spec fn is_uuid_text(s: Seq<char>) -> bool {
    &&& s.len() == 36
    &&& forall|i: int|
        0 <= i < 36 ==> if i == 8 || i == 13 || i == 18 || i == 23 {
            #[trigger] s[i] == '-'
        } else {
            is_lower_hex(s[i])
        }
}

/// uuid's `Uuid::new_v4().to_string()`: a fresh random UUID. The value is random;
/// what holds of every outcome is its text form, which the crate writes hyphenated
/// in lowercase.
#[verifier::external_body]
pub(crate) fn new_uuid_text() -> (id: String)
    ensures
        is_uuid_text(id@),
{
    uuid::Uuid::new_v4().to_string()
}

} // verus!
