//! Why a JWS signature, key or key set is rejected.

use vstd::prelude::*;

use super::algorithm::JwsAlgorithm;

verus! {

/// A failure during key parsing or signature verification.
#[derive(Debug, Clone, PartialEq, Eq)]
pub enum VerificationError {
    /// The protected header is not base64url or not JSON.
    InvalidProtectedHeader(String),
    /// The protected header has no `alg` string.
    MissingAlgorithm,
    /// The algorithm (or key type, or curve) is not supported.
    UnsupportedAlgorithm(String),
    /// The signature bytes are not base64url or not a well-formed signature.
    InvalidSignature(String),
    /// The signature does not verify.
    SignatureInvalid,
    /// The header's algorithm does not match the key's type.
    AlgorithmKeyMismatch {
        /// The algorithm the header declares.
        header_alg: JwsAlgorithm,
        /// The algorithm the key is for.
        key_alg: &'static str,
    },
    /// A JWK or JWKS document is malformed.
    InvalidJwk(String),
    /// The card carries no signatures.
    NoSignatures,
    /// The canonical payload could not be produced.
    Serialization(String),
}

/// The kind of a verification failure, without its details.
#[derive(Debug, Clone, Copy, PartialEq, Eq, Structural)]
pub enum VerificationFailure {
    /// See `VerificationError::InvalidProtectedHeader`.
    InvalidProtectedHeader,
    /// See `VerificationError::MissingAlgorithm`.
    MissingAlgorithm,
    /// See `VerificationError::UnsupportedAlgorithm`.
    UnsupportedAlgorithm,
    /// See `VerificationError::InvalidSignature`.
    InvalidSignature,
    /// See `VerificationError::SignatureInvalid`.
    SignatureInvalid,
    /// See `VerificationError::AlgorithmKeyMismatch`.
    AlgorithmKeyMismatch,
    /// See `VerificationError::InvalidJwk`.
    InvalidJwk,
    /// See `VerificationError::NoSignatures`.
    NoSignatures,
    /// See `VerificationError::Serialization`.
    Serialization,
}

impl VerificationError {
    /// The kind of this failure.
    pub open spec fn failure(&self) -> VerificationFailure {
        match self {
            VerificationError::InvalidProtectedHeader(_) => VerificationFailure::InvalidProtectedHeader,
            VerificationError::MissingAlgorithm => VerificationFailure::MissingAlgorithm,
            VerificationError::UnsupportedAlgorithm(_) => VerificationFailure::UnsupportedAlgorithm,
            VerificationError::InvalidSignature(_) => VerificationFailure::InvalidSignature,
            VerificationError::SignatureInvalid => VerificationFailure::SignatureInvalid,
            VerificationError::AlgorithmKeyMismatch { .. } => VerificationFailure::AlgorithmKeyMismatch,
            VerificationError::InvalidJwk(_) => VerificationFailure::InvalidJwk,
            VerificationError::NoSignatures => VerificationFailure::NoSignatures,
            VerificationError::Serialization(_) => VerificationFailure::Serialization,
        }
    }

    /// The kind of this failure.
    pub fn kind(&self) -> (r: VerificationFailure)
        ensures
            r == self.failure(),
    {
        match self {
            VerificationError::InvalidProtectedHeader(_) => VerificationFailure::InvalidProtectedHeader,
            VerificationError::MissingAlgorithm => VerificationFailure::MissingAlgorithm,
            VerificationError::UnsupportedAlgorithm(_) => VerificationFailure::UnsupportedAlgorithm,
            VerificationError::InvalidSignature(_) => VerificationFailure::InvalidSignature,
            VerificationError::SignatureInvalid => VerificationFailure::SignatureInvalid,
            VerificationError::AlgorithmKeyMismatch { .. } => VerificationFailure::AlgorithmKeyMismatch,
            VerificationError::InvalidJwk(_) => VerificationFailure::InvalidJwk,
            VerificationError::NoSignatures => VerificationFailure::NoSignatures,
            VerificationError::Serialization(_) => VerificationFailure::Serialization,
        }
    }

    /// The display text of this failure.
    pub open spec fn spec_text(&self) -> Seq<char> {
        match self {
            VerificationError::InvalidProtectedHeader(m) => "invalid JWS protected header: "@ + m@,
            VerificationError::MissingAlgorithm => "JWS protected header has no alg field"@,
            VerificationError::UnsupportedAlgorithm(a) => "unsupported JWS algorithm: "@ + a@,
            VerificationError::InvalidSignature(m) => "invalid JWS signature encoding: "@ + m@,
            VerificationError::SignatureInvalid => "JWS signature verification failed"@,
            VerificationError::AlgorithmKeyMismatch { header_alg, key_alg } =>
                "JWS header declares "@ + header_alg.name() + " but the key is for "@ + key_alg@,
            VerificationError::InvalidJwk(m) => "invalid JWK: "@ + m@,
            VerificationError::NoSignatures => "agent card has no signatures"@,
            VerificationError::Serialization(m) => "failed to build the canonical payload: "@ + m@,
        }
    }

    /// The display text of this failure; never empty.
    pub fn to_string(&self) -> (r: String)
        ensures
            r@ == self.spec_text(),
            r@.len() > 0,
    {
        proof {
            reveal_strlit("invalid JWS protected header: ");
            reveal_strlit("JWS protected header has no alg field");
            reveal_strlit("unsupported JWS algorithm: ");
            reveal_strlit("invalid JWS signature encoding: ");
            reveal_strlit("JWS signature verification failed");
            reveal_strlit("JWS header declares ");
            reveal_strlit("invalid JWK: ");
            reveal_strlit("agent card has no signatures");
            reveal_strlit("failed to build the canonical payload: ");
        }
        match self {
            VerificationError::InvalidProtectedHeader(m) => crate::text::join("invalid JWS protected header: ", m.as_str()),
            VerificationError::MissingAlgorithm => "JWS protected header has no alg field".to_owned(),
            VerificationError::UnsupportedAlgorithm(a) => crate::text::join("unsupported JWS algorithm: ", a.as_str()),
            VerificationError::InvalidSignature(m) => crate::text::join("invalid JWS signature encoding: ", m.as_str()),
            VerificationError::SignatureInvalid => "JWS signature verification failed".to_owned(),
            VerificationError::AlgorithmKeyMismatch { header_alg, key_alg } => {
                let mut out = "JWS header declares ".to_owned();
                out.append(header_alg.as_str());
                out.append(" but the key is for ");
                out.append(key_alg);
                out
            },
            VerificationError::InvalidJwk(m) => crate::text::join("invalid JWK: ", m.as_str()),
            VerificationError::NoSignatures => "agent card has no signatures".to_owned(),
            VerificationError::Serialization(m) => crate::text::join("failed to build the canonical payload: ", m.as_str()),
        }
    }
}

} // verus!
