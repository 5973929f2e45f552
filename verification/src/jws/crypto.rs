//! The cryptographic checks behind JWS verification, from the p256, rsa and
//! sha2 crates. Keys are held as their encoded bytes; each check decodes them.

use vstd::prelude::*;

use p256::ecdsa::signature::Verifier as _;

verus! {

/// Whether bytes are a SEC1-encoded point of P-256 that is a valid public key.
pub uninterp spec fn es256_point_valid(point: Seq<u8>) -> bool;

/// Reading bytes as a fixed-size (r || s) ECDSA P-256 signature: success, or
/// the display text of the error.
pub uninterp spec fn es256_signature_reading(sig: Seq<u8>) -> Result<(), Seq<char>>;

/// Whether bytes are a well-formed fixed-size (r || s) ECDSA P-256 signature.
pub open spec fn es256_signature_well_formed(sig: Seq<u8>) -> bool {
    es256_signature_reading(sig) is Ok
}

/// Whether an ECDSA P-256 / SHA-256 signature over a message verifies under a
/// SEC1-encoded public key.
pub uninterp spec fn es256_accepts(point: Seq<u8>, message: Seq<u8>, sig: Seq<u8>) -> bool;

/// Whether big-endian modulus and exponent bytes form an RSA public key the
/// rsa crate accepts.
pub uninterp spec fn rsa_components_valid(n: Seq<u8>, e: Seq<u8>) -> bool;

/// Whether an RSASSA-PKCS1-v1_5 / SHA-256 signature over a message verifies
/// under the RSA public key with the given modulus and exponent.
pub uninterp spec fn rs256_accepts(n: Seq<u8>, e: Seq<u8>, message: Seq<u8>, sig: Seq<u8>) -> bool;

/// `p256::ecdsa::VerifyingKey::from_sec1_bytes` succeeds on the bytes.
/// Claimed: the answer is `es256_point_valid(point@)`.
#[verifier::external_body]
pub(crate) fn check_es256_point(point: &[u8]) -> (r: bool)
    ensures
        r == es256_point_valid(point@),
{
    p256::ecdsa::VerifyingKey::from_sec1_bytes(point).is_ok()
}

/// Reads the bytes with `p256::ecdsa::Signature::from_slice` (64 bytes, both
/// scalars in range), an error given as its display text. Claimed: the
/// outcome is `es256_signature_reading(sig@)`, and signatures read are 64 bytes long.
#[verifier::external_body]
pub(crate) fn check_es256_signature_encoding(sig: &[u8]) -> (r: Result<(), String>)
    ensures
        match r {
            Ok(()) => es256_signature_reading(sig@) == Ok::<(), Seq<char>>(()),
            Err(message) => es256_signature_reading(sig@) == Err::<(), Seq<char>>(message@),
        },
        r is Ok ==> sig@.len() == 64,
{
    match p256::ecdsa::Signature::from_slice(sig) {
        Ok(_) => Ok(()),
        Err(error) => Err(format!("{error}")),
    }
}

/// ECDSA P-256 verification (`VerifyingKey::verify`) of `sig` over `message`,
/// the key and signature decoded from their bytes first.
/// Claimed: the answer is `es256_accepts(point@, message@, sig@)`.
#[verifier::external_body]
pub(crate) fn verify_es256(point: &[u8], message: &[u8], sig: &[u8]) -> (r: bool)
    ensures
        r == es256_accepts(point@, message@, sig@),
{
    match (p256::ecdsa::VerifyingKey::from_sec1_bytes(point), p256::ecdsa::Signature::from_slice(sig)) {
        (Ok(key), Ok(signature)) => key.verify(message, &signature).is_ok(),
        _ => false,
    }
}

/// `rsa::RsaPublicKey::new` accepts the big-endian modulus and exponent.
/// Claimed: the answer is `rsa_components_valid(n@, e@)`.
#[verifier::external_body]
pub(crate) fn check_rsa_components(n: &[u8], e: &[u8]) -> (r: bool)
    ensures
        r == rsa_components_valid(n@, e@),
{
    rsa::RsaPublicKey::new(rsa::BigUint::from_bytes_be(n), rsa::BigUint::from_bytes_be(e)).is_ok()
}

/// RSASSA-PKCS1-v1_5 / SHA-256 verification (`pkcs1v15::VerifyingKey::verify`)
/// of `sig` over `message`, the key built from its components first.
/// Claimed: the answer is `rs256_accepts(n@, e@, message@, sig@)`.
#[verifier::external_body]
pub(crate) fn verify_rs256(n: &[u8], e: &[u8], message: &[u8], sig: &[u8]) -> (r: bool)
    ensures
        r == rs256_accepts(n@, e@, message@, sig@),
{
    match (rsa::RsaPublicKey::new(rsa::BigUint::from_bytes_be(n), rsa::BigUint::from_bytes_be(e)),
        rsa::pkcs1v15::Signature::try_from(sig)) {
        (Ok(key), Ok(signature)) =>
            rsa::pkcs1v15::VerifyingKey::<sha2::Sha256>::new(key).verify(message, &signature).is_ok(),
        _ => false,
    }
}

} // verus!
