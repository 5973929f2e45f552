//! Verification of the JWS signatures (RFC 7515, detached payload) that an
//! agent card may carry. Supported algorithms: ES256 and RS256.

pub mod algorithm;
pub mod card_signatures;
pub mod crypto;
pub mod error;
pub mod key;
pub mod verify;

pub use algorithm::JwsAlgorithm;
pub use error::{VerificationError, VerificationFailure};
pub use key::{parse_jwks, VerificationKey, VerificationKeyInner};
pub use verify::verify_detached_jws;
