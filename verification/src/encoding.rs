//! Text encoding of binary values for storage: the ciphertext and the
//! nonce are kept as standard base64 text columns.

use vstd::prelude::*;

use crate::errors::StoreError;
use base64::Engine;

verus! {

/// The standard base64 text of a byte sequence; it depends on the bytes
/// alone.
pub uninterp spec fn b64_of(bytes: Seq<u8>) -> Seq<char>;

/// What standard base64 decoding recovers from a text: the bytes when
/// the text is well-formed base64, nothing otherwise; it depends on the
/// text alone.
pub uninterp spec fn b64_decoded(text: Seq<char>) -> Option<Seq<u8>>;

/// Relies on base64's standard engine `encode`: the text depends on the
/// bytes alone and decodes back to exactly those bytes.
#[verifier::external_body]
pub(crate) fn b64_encode(bytes: &Vec<u8>) -> (r: String)
    ensures
        r@ == b64_of(bytes@),
        b64_decoded(r@) == Some(bytes@),
{
    base64::engine::general_purpose::STANDARD.encode(bytes.as_slice())
}

/// Relies on base64's standard engine `decode`: the outcome depends on
/// the text alone, and is the bytes exactly when the text is well-formed
/// base64. A malformed text can only come from altered or corrupted
/// storage, so the failure is reported as `DecryptionFailure`.
#[verifier::external_body]
pub(crate) fn b64_decode(text: &str) -> (r: Result<Vec<u8>, StoreError>)
    ensures
        r matches Ok(b) ==> b64_decoded(text@) == Some(b@),
        r matches Err(e) ==> e == StoreError::DecryptionFailure && b64_decoded(text@) is None,
{
    match base64::engine::general_purpose::STANDARD.decode(text) {
        Ok(bytes) => Ok(bytes),
        Err(_) => Err(StoreError::DecryptionFailure),
    }
}

} // verus!
