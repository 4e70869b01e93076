//! Recipient keys, and how a `did:key` is brought to the form the store knows.
//!
//! A recipient key may come in as `did:key:` followed by a fingerprint: the
//! multibase text of a multicodec number and the key's bytes. The store knows
//! keys as the base58 text of their bytes alone.

use vstd::prelude::*;
use vstd::string::StringExecFns;
use crate::text::starts_with;
use crate::text::strip_prefix;

verus! {

/// The bytes that the multibase text `text` stands for, if it is one.
pub uninterp spec fn multibase_bytes(text: Seq<char>) -> Option<Seq<u8>>;

/// The number that leads `bytes` as an unsigned varint of at most 64 bits,
/// and the bytes that follow it, if `bytes` starts with one.
pub uninterp spec fn leading_varint(bytes: Seq<u8>) -> Option<(u64, Seq<u8>)>;

/// The base58 text of `bytes`, in the Bitcoin alphabet.
pub uninterp spec fn base58_text(bytes: Seq<u8>) -> Seq<char>;

/// Decodes multibase text.
///
/// Trusted: calls `multibase::decode`, which reads the base from the first
/// character and decodes the rest in it, and drops the base from the result.
/// The contract claims only that the outcome is a function of the text.
#[verifier::external_body]
fn multibase_decode(text: &str) -> (bytes: Option<Vec<u8>>)
    ensures
        multibase_bytes(text@) == match bytes {
            Some(decoded) => Some(decoded@),
            None => None,
        },
{
    match multibase::decode(text) {
        Ok((_, bytes)) => Some(bytes),
        Err(_) => None,
    }
}

/// Splits a leading unsigned varint from what follows it.
///
/// Trusted: calls `unsigned_varint::decode::u64`, which returns the number
/// and the rest of the slice. The contract claims only that the outcome is a
/// function of the bytes.
#[verifier::external_body]
fn split_varint(bytes: &[u8]) -> (parts: Option<(u64, Vec<u8>)>)
    ensures
        leading_varint(bytes@) == match parts {
            Some((number, rest)) => Some((number, rest@)),
            None => None,
        },
{
    match unsigned_varint::decode::u64(bytes) {
        Ok((number, rest)) => Some((number, rest.to_vec())),
        Err(_) => None,
    }
}

/// Encodes bytes as base58 text.
///
/// Trusted: calls `bs58::encode` with its default alphabet, the Bitcoin one,
/// and takes the text with `into_string`. The contract claims only that the
/// text is a function of the bytes.
#[verifier::external_body]
fn base58_encode(bytes: &[u8]) -> (text: String)
    ensures
        text@ == base58_text(bytes@),
{
    bs58::encode(bytes).into_string()
}

/// The multicodec numbers of the public keys that a fingerprint may carry:
/// BLS12-381 G1, G2 and G1G2, X25519, Ed25519, P-256, P-384 and P-521.
pub open spec fn is_key_codec(codec: u64) -> bool {
    (0xea <= codec && codec <= 0xee) || (0x1200 <= codec && codec <= 0x1202)
}

/// Tells whether `codec` is the multicodec number of a public key.
pub fn key_codec_known(codec: u64) -> (known: bool)
    ensures
        known == is_key_codec(codec),
{
    (0xea <= codec && codec <= 0xee) || (0x1200 <= codec && codec <= 0x1202)
}

/// The key's bytes in what a fingerprint decodes to: what follows the
/// multicodec number, where that number is one of a public key.
pub open spec fn key_bytes_in(decoded: Seq<u8>) -> Option<Seq<u8>> {
    match leading_varint(decoded) {
        Some((codec, key)) => if is_key_codec(codec) {
            Some(key)
        } else {
            None
        },
        None => None,
    }
}

/// The base58 key that `fingerprint` stands for, if it is the fingerprint of
/// a public key.
pub open spec fn key_of_fingerprint(fingerprint: Seq<char>) -> Option<Seq<char>> {
    match multibase_bytes(fingerprint) {
        Some(decoded) => match key_bytes_in(decoded) {
            Some(key) => Some(base58_text(key)),
            None => None,
        },
        None => None,
    }
}

/// The form of `recipient_key` that the store knows: the base58 key where it
/// is a `did:key` that decodes, and the text itself otherwise.
pub open spec fn normalized_key(recipient_key: Seq<char>) -> Seq<char> {
    if starts_with(recipient_key, "did:key:"@) {
        match key_of_fingerprint(recipient_key.skip("did:key:"@.len() as int)) {
            Some(key) => key,
            None => recipient_key,
        }
    } else {
        recipient_key
    }
}

/// The key's bytes, given the multicodec number that led them: the bytes
/// where the number is one of a public key, nothing where it is another or
/// where no number was found.
pub fn key_after_codec(parts: Option<(u64, Vec<u8>)>) -> (key: Option<Vec<u8>>)
    ensures
        key == match parts {
            Some((codec, bytes)) => if is_key_codec(codec) {
                Some(bytes)
            } else {
                None
            },
            None => None,
        },
{
    match parts {
        Some((codec, bytes)) => {
            if key_codec_known(codec) {
                Some(bytes)
            } else {
                None
            }
        },
        None => None,
    }
}

/// Picks out the key's bytes from what a fingerprint decoded to.
pub fn key_bytes(decoded: &[u8]) -> (key: Option<Vec<u8>>)
    ensures
        key_bytes_in(decoded@) == match key {
            Some(bytes) => Some(bytes@),
            None => None,
        },
{
    key_after_codec(split_varint(decoded))
}

/// The base58 key of a fingerprint, or `None` where the text is not the
/// fingerprint of a public key.
pub fn key_from_fingerprint(fingerprint: &str) -> (key: Option<String>)
    ensures
        key.deep_view() == key_of_fingerprint(fingerprint@),
{
    match multibase_decode(fingerprint) {
        Some(decoded) => {
            match key_bytes(decoded.as_slice()) {
                Some(key) => Some(base58_encode(key.as_slice())),
                None => None,
            }
        },
        None => None,
    }
}

/// The decoded key where there is one, and the key as it came otherwise.
pub fn decoded_or_given(recipient_key: &str, decoded: Option<String>) -> (key: String)
    ensures
        key@ == match decoded {
            Some(base58) => base58@,
            None => recipient_key@,
        },
{
    match decoded {
        Some(base58) => base58,
        None => String::from_str(recipient_key),
    }
}

/// Brings a recipient key to the form the store knows. A `did:key` that does
/// not decode is handed back as it came.
pub fn normalize_recipient_key(recipient_key: &str) -> (key: String)
    ensures
        key@ == normalized_key(recipient_key@),
{
    match strip_prefix(recipient_key, "did:key:") {
        Some(fingerprint) => decoded_or_given(recipient_key, key_from_fingerprint(fingerprint)),
        None => String::from_str(recipient_key),
    }
}

} // verus!
