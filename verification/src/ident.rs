//! Message ids.

use vstd::prelude::*;

verus! {

/// A digit of lower-case hexadecimal.
pub open spec fn is_lower_hex(c: char) -> bool {
    ('0' <= c && c <= '9') || ('a' <= c && c <= 'f')
}

/// The text of a version 4 UUID: 36 characters in the groups 8-4-4-4-12,
/// lower-case hexadecimal between the hyphens, with the version digit `4`
/// leading the third group and one of `8`, `9`, `a`, `b` leading the fourth.
pub open spec fn is_uuid_v4_text(text: Seq<char>) -> bool {
    &&& text.len() == 36
    &&& forall|i: int|
        0 <= i < 36 ==> if i == 8 || i == 13 || i == 18 || i == 23 {
            #[trigger] text[i] == '-'
        } else {
            is_lower_hex(text[i])
        }
    &&& text[14] == '4'
    &&& (text[19] == '8' || text[19] == '9' || text[19] == 'a' || text[19] == 'b')
}

/// A new random message id.
///
/// Trusted: calls `uuid::Uuid::new_v4` and renders the result with the
/// `ToString` that `uuid` gives it, which writes the hyphenated lower-case
/// form. The contract claims that shape, and the version and variant digits
/// that `new_v4` masks in; of the other digits it claims nothing, since they
/// are random.
#[verifier::external_body]
pub(crate) fn fresh_message_id() -> (id: String)
    ensures
        is_uuid_v4_text(id@),
{
    uuid::Uuid::new_v4().to_string()
}

} // verus!
