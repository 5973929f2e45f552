//! Base64 codecs: standard alphabet with padding (inline part bytes) and
//! URL-safe alphabet without padding (JWS segments), both from the base64 crate.

use vstd::prelude::*;

use base64::Engine;

verus! {

/// The base64 crate's decoding error.
#[verifier::external_type_specification]
#[verifier::external_body]
pub struct ExDecodeError(base64::DecodeError);

/// The bytes that standard padded base64 text decodes to, `None` when the text is not valid.
pub uninterp spec fn base64_standard_decoded(text: Seq<char>) -> Option<Seq<u8>>;

/// The standard padded base64 text of some bytes.
pub uninterp spec fn base64_standard_encoded(bytes: Seq<u8>) -> Seq<char>;

/// What decoding URL-safe unpadded base64 text gives: the bytes, or the
/// display text of the decoding error when the text is not valid.
pub uninterp spec fn base64_url_decoding(text: Seq<char>) -> Result<Seq<u8>, Seq<char>>;

/// The bytes that URL-safe unpadded base64 text decodes to, `None` when the text is not valid.
pub open spec fn base64_url_decoded(text: Seq<char>) -> Option<Seq<u8>> {
    match base64_url_decoding(text) {
        Ok(bytes) => Some(bytes),
        Err(_) => None,
    }
}

/// The URL-safe unpadded base64 text of some bytes.
pub uninterp spec fn base64_url_encoded(bytes: Seq<u8>) -> Seq<char>;

/// Decodes standard padded base64 (`general_purpose::STANDARD.decode`).
/// Claimed: the outcome is `base64_standard_decoded` of the input text.
#[verifier::external_body]
pub(crate) fn standard_decode(text: &str) -> (r: Result<Vec<u8>, base64::DecodeError>)
    ensures
        match r {
            Ok(bytes) => base64_standard_decoded(text@) == Some(bytes@),
            Err(_) => base64_standard_decoded(text@) is None,
        },
{
    base64::engine::general_purpose::STANDARD.decode(text)
}

/// Encodes bytes as standard padded base64 (`general_purpose::STANDARD.encode`).
/// Claimed: the text is `base64_standard_encoded(bytes@)`, it is ASCII, and
/// decoding it gives the bytes back (the engine's encode/decode round trip).
#[verifier::external_body]
pub(crate) fn standard_encode(bytes: &[u8]) -> (r: String)
    ensures
        r@ == base64_standard_encoded(bytes@),
        base64_standard_decoded(r@) == Some(bytes@),
{
    base64::engine::general_purpose::STANDARD.encode(bytes)
}

/// Decodes URL-safe unpadded base64 (`general_purpose::URL_SAFE_NO_PAD.decode`),
/// a decoding error given as its display text.
/// Claimed: the outcome is `base64_url_decoding` of the input text.
#[verifier::external_body]
pub(crate) fn url_decode(text: &str) -> (r: Result<Vec<u8>, String>)
    ensures
        match r {
            Ok(bytes) => base64_url_decoding(text@) == Ok::<Seq<u8>, Seq<char>>(bytes@),
            Err(message) => base64_url_decoding(text@) == Err::<Seq<u8>, Seq<char>>(message@),
        },
{
    match base64::engine::general_purpose::URL_SAFE_NO_PAD.decode(text) {
        Ok(bytes) => Ok(bytes),
        Err(error) => Err(format!("{error}")),
    }
}

/// Encodes bytes as URL-safe unpadded base64 (`general_purpose::URL_SAFE_NO_PAD.encode`).
/// Claimed: the text is `base64_url_encoded(bytes@)`.
#[verifier::external_body]
pub(crate) fn url_encode(bytes: &[u8]) -> (r: String)
    ensures
        r@ == base64_url_encoded(bytes@),
{
    base64::engine::general_purpose::URL_SAFE_NO_PAD.encode(bytes)
}

} // verus!
