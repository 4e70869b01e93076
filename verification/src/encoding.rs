//! Text encodings of bytes.

use vstd::prelude::*;

verus! {

/// The base64url text of `bytes`: URL-safe alphabet, no padding.
pub uninterp spec fn base64url_text(bytes: Seq<u8>) -> Seq<char>;

/// Encodes `bytes` as base64url text.
///
/// Trusted: calls `base64_url::encode`, which encodes with the URL-safe
/// alphabet and without padding. The contract claims only that the text is a
/// function of the bytes.
#[verifier::external_body]
pub(crate) fn base64url_encode(bytes: &[u8]) -> (text: String)
    ensures
        text@ == base64url_text(bytes@),
{
    base64_url::encode(bytes)
}

} // verus!
