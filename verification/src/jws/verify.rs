//! Verification of one detached-payload JWS (RFC 7515 §7.2): the signing input
//! is `protected || "." || BASE64URL(payload)`, the payload supplied apart.

use vstd::prelude::*;

use super::algorithm::JwsAlgorithm;
use super::crypto::{
    check_es256_signature_encoding, es256_accepts, es256_signature_reading, es256_signature_well_formed,
    rs256_accepts, verify_es256, verify_rs256,
};
use super::error::{VerificationError, VerificationFailure};
use super::key::{KeyMaterial, VerificationKey, VerificationKeyInner};
use crate::codec::{base64_url_decoded, base64_url_decoding, base64_url_encoded, url_decode, url_encode};
use crate::json::{json_parse, json_parsing, json_text_member, parse_json, text_member};
use crate::text::join;

verus! {

/// The algorithm a base64url protected header declares in its `alg` member,
/// or why the header is rejected.
pub open spec fn header_algorithm(protected: Seq<char>) -> Result<JwsAlgorithm, VerificationFailure> {
    match base64_url_decoded(protected) {
        None => Err(VerificationFailure::InvalidProtectedHeader),
        Some(bytes) => match json_parse(bytes) {
            None => Err(VerificationFailure::InvalidProtectedHeader),
            Some(header) => match json_text_member(header, "alg"@) {
                None => Err(VerificationFailure::MissingAlgorithm),
                Some(name) => match JwsAlgorithm::spec_from_name(name) {
                    Some(alg) => Ok(alg),
                    None => Err(VerificationFailure::UnsupportedAlgorithm),
                },
            },
        },
    }
}

/// The algorithm that key material verifies.
pub open spec fn material_algorithm(key: KeyMaterial) -> JwsAlgorithm {
    match key {
        KeyMaterial::Es256(_) => JwsAlgorithm::Es256,
        KeyMaterial::Rs256(_, _) => JwsAlgorithm::Rs256,
    }
}

/// The JWS signing input: the UTF-8 bytes of `protected.BASE64URL(payload)`.
pub open spec fn signing_input(protected: Seq<char>, payload: Seq<u8>) -> Seq<u8> {
    vstd::utf8::encode_utf8(protected + "."@ + base64_url_encoded(payload))
}

/// The outcome of verifying a detached JWS with one key: the header's
/// algorithm when the signature verifies, otherwise the first check that fails
/// (header, algorithm against key, signature encoding, signature).
pub open spec fn detached_outcome(
    protected: Seq<char>,
    signature: Seq<char>,
    payload: Seq<u8>,
    key: KeyMaterial,
) -> Result<JwsAlgorithm, VerificationFailure> {
    match header_algorithm(protected) {
        Err(f) => Err(f),
        Ok(alg) => if alg != material_algorithm(key) {
            Err(VerificationFailure::AlgorithmKeyMismatch)
        } else {
            match base64_url_decoded(signature) {
                None => Err(VerificationFailure::InvalidSignature),
                Some(sig) => {
                    let message = signing_input(protected, payload);
                    match key {
                        KeyMaterial::Es256(point) => if !es256_signature_well_formed(sig) {
                            Err(VerificationFailure::InvalidSignature)
                        } else if es256_accepts(point, message, sig) {
                            Ok(alg)
                        } else {
                            Err(VerificationFailure::SignatureInvalid)
                        },
                        KeyMaterial::Rs256(n, e) => if rs256_accepts(n, e, message, sig) {
                            Ok(alg)
                        } else {
                            Err(VerificationFailure::SignatureInvalid)
                        },
                    }
                },
            }
        },
    }
}

/// The display text of the error that verifying a detached JWS with one key
/// gives, when `detached_outcome` is an error: which step failed and, where
/// an outside decoder refused its input, that decoder's own message.
pub open spec fn detached_error_text(
    protected: Seq<char>,
    signature: Seq<char>,
    payload: Seq<u8>,
    key: KeyMaterial,
) -> Seq<char> {
    match base64_url_decoding(protected) {
        Err(m) => "invalid JWS protected header: "@ + ("base64url decode failed: "@ + m),
        Ok(bytes) => match json_parsing(bytes) {
            Err(m) => "invalid JWS protected header: "@ + ("JSON parse failed: "@ + m),
            Ok(header) => match json_text_member(header, "alg"@) {
                None => "JWS protected header has no alg field"@,
                Some(name) => match JwsAlgorithm::spec_from_name(name) {
                    None => "unsupported JWS algorithm: "@ + name,
                    Some(alg) => if alg != material_algorithm(key) {
                        "JWS header declares "@ + alg.name() + " but the key is for "@ + material_algorithm(key).name()
                    } else {
                        match base64_url_decoding(signature) {
                            Err(m) => "invalid JWS signature encoding: "@ + ("base64url decode failed: "@ + m),
                            Ok(sig) => match (key, es256_signature_reading(sig)) {
                                (KeyMaterial::Es256(_), Err(m)) => "invalid JWS signature encoding: "@
                                    + ("invalid ECDSA signature encoding: "@ + m),
                                _ => "JWS signature verification failed"@,
                            },
                        }
                    },
                },
            },
        },
    }
}

/// Checks that the header's algorithm is the one the key is for; otherwise
/// `AlgorithmKeyMismatch` naming both.
fn check_algorithm_key_match(algorithm: JwsAlgorithm, inner: &VerificationKeyInner) -> (r: Result<(), VerificationError>)
    ensures
        algorithm == inner.spec_algorithm() <==> r is Ok,
        r is Err ==> r == Err::<(), VerificationError>(VerificationError::AlgorithmKeyMismatch {
            header_alg: algorithm,
            key_alg: if inner.spec_algorithm() == JwsAlgorithm::Es256 { "ES256" } else { "RS256" },
        }),
{
    match (algorithm, inner) {
        (JwsAlgorithm::Es256, VerificationKeyInner::Es256(_)) => Ok(()),
        (JwsAlgorithm::Rs256, VerificationKeyInner::Rs256 { .. }) => Ok(()),
        (JwsAlgorithm::Es256, VerificationKeyInner::Rs256 { .. }) => Err(
            VerificationError::AlgorithmKeyMismatch { header_alg: algorithm, key_alg: "RS256" },
        ),
        (JwsAlgorithm::Rs256, VerificationKeyInner::Es256(_)) => Err(
            VerificationError::AlgorithmKeyMismatch { header_alg: algorithm, key_alg: "ES256" },
        ),
    }
}

/// Verifies one detached-payload JWS: decodes and parses the protected header,
/// reads its `alg`, checks it against the key, rebuilds the signing input from
/// the header text as given and the payload, and verifies the signature.
/// Returns the header's algorithm on success.
pub fn verify_detached_jws(
    protected_b64: &str,
    signature_b64: &str,
    payload: &[u8],
    key: &VerificationKey,
) -> (r: Result<JwsAlgorithm, VerificationError>)
    ensures
        match detached_outcome(protected_b64@, signature_b64@, payload@, key.inner.material()) {
            Ok(alg) => r == Ok::<JwsAlgorithm, VerificationError>(alg),
            Err(f) => r matches Err(e) && e.failure() == f
                && e.spec_text() == detached_error_text(protected_b64@, signature_b64@, payload@, key.inner.material()),
        },
        header_algorithm(protected_b64@) is Ok && header_algorithm(protected_b64@)->Ok_0 != key.spec_algorithm()
            ==> r == Err::<JwsAlgorithm, VerificationError>(VerificationError::AlgorithmKeyMismatch {
                header_alg: header_algorithm(protected_b64@)->Ok_0,
                key_alg: if key.spec_algorithm() == JwsAlgorithm::Es256 { "ES256" } else { "RS256" },
            }),
{
    let header_bytes = match url_decode(protected_b64) {
        Ok(bytes) => bytes,
        Err(detail) => {
            return Err(VerificationError::InvalidProtectedHeader(join("base64url decode failed: ", detail.as_str())));
        },
    };
    let header = match parse_json(header_bytes.as_slice()) {
        Ok(value) => value,
        Err(detail) => {
            return Err(VerificationError::InvalidProtectedHeader(join("JSON parse failed: ", detail.as_str())));
        },
    };
    let algorithm_name = match text_member(&header, "alg") {
        Some(name) => name,
        None => return Err(VerificationError::MissingAlgorithm),
    };
    let algorithm = match JwsAlgorithm::parse_name(algorithm_name.as_str()) {
        Ok(alg) => alg,
        Err(error) => return Err(error),
    };
    match check_algorithm_key_match(algorithm, &key.inner) {
        Ok(()) => {},
        Err(error) => return Err(error),
    }
    let encoded_payload = url_encode(payload);
    let mut signing_text = join(protected_b64, ".");
    signing_text.append(encoded_payload.as_str());
    let message = signing_text.as_str().as_bytes();
    proof {
        assert(signing_text@ == protected_b64@ + "."@ + base64_url_encoded(payload@));
        assert(message@ == signing_input(protected_b64@, payload@));
    }
    let signature_bytes = match url_decode(signature_b64) {
        Ok(bytes) => bytes,
        Err(detail) => {
            return Err(VerificationError::InvalidSignature(join("base64url decode failed: ", detail.as_str())));
        },
    };
    match &key.inner {
        VerificationKeyInner::Es256(point) => {
            match check_es256_signature_encoding(signature_bytes.as_slice()) {
                Ok(()) => {},
                Err(detail) => {
                    return Err(VerificationError::InvalidSignature(join("invalid ECDSA signature encoding: ", detail.as_str())));
                },
            }
            if !verify_es256(point.as_slice(), message, signature_bytes.as_slice()) {
                return Err(VerificationError::SignatureInvalid);
            }
        },
        VerificationKeyInner::Rs256 { n, e } => {
            if !verify_rs256(n.as_slice(), e.as_slice(), message, signature_bytes.as_slice()) {
                return Err(VerificationError::SignatureInvalid);
            }
        },
    }
    Ok(algorithm)
}

} // verus!
