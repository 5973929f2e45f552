//! JWS algorithm identifiers: the `alg` values this library can verify.

use vstd::prelude::*;

use super::error::VerificationError;
use crate::text::text_eq;

verus! {

/// The signature algorithm declared in a JWS protected header.
#[derive(Debug, Clone, Copy, PartialEq, Eq, Structural)]
pub enum JwsAlgorithm {
    /// ECDSA using P-256 and SHA-256.
    Es256,
    /// RSASSA-PKCS1-v1_5 using SHA-256.
    Rs256,
}

impl JwsAlgorithm {
    /// The RFC 7518 name of the algorithm.
    pub open spec fn name(&self) -> Seq<char> {
        match self {
            JwsAlgorithm::Es256 => "ES256"@,
            JwsAlgorithm::Rs256 => "RS256"@,
        }
    }

    /// The algorithm a name denotes, if it is a supported one.
    pub open spec fn spec_from_name(name: Seq<char>) -> Option<JwsAlgorithm> {
        if name == "ES256"@ {
            Some(JwsAlgorithm::Es256)
        } else if name == "RS256"@ {
            Some(JwsAlgorithm::Rs256)
        } else {
            None
        }
    }

    /// The RFC 7518 name of the algorithm.
    pub fn as_str(&self) -> (r: &'static str)
        ensures
            r@ == self.name(),
    {
        match self {
            JwsAlgorithm::Es256 => "ES256",
            JwsAlgorithm::Rs256 => "RS256",
        }
    }

    /// The display text, the RFC 7518 name.
    pub fn to_string(&self) -> (r: String)
        ensures
            r@ == self.name(),
    {
        self.as_str().to_owned()
    }

    /// Reads an algorithm name; any other name is `UnsupportedAlgorithm` carrying it.
    pub fn parse_name(value: &str) -> (r: Result<JwsAlgorithm, VerificationError>)
        ensures
            JwsAlgorithm::spec_from_name(value@) is Some ==> r == Ok::<JwsAlgorithm, VerificationError>(
                JwsAlgorithm::spec_from_name(value@)->0),
            JwsAlgorithm::spec_from_name(value@) is None ==> (r matches Err(VerificationError::UnsupportedAlgorithm(s))
                && s@ == value@),
    {
        if text_eq(value, "ES256") {
            Ok(JwsAlgorithm::Es256)
        } else if text_eq(value, "RS256") {
            Ok(JwsAlgorithm::Rs256)
        } else {
            Err(VerificationError::UnsupportedAlgorithm(value.to_owned()))
        }
    }
}

impl std::str::FromStr for JwsAlgorithm {
    type Err = VerificationError;

    fn from_str(value: &str) -> (r: Result<JwsAlgorithm, VerificationError>)
        ensures
            JwsAlgorithm::spec_from_name(value@) is Some ==> r == Ok::<JwsAlgorithm, VerificationError>(
                JwsAlgorithm::spec_from_name(value@)->0),
            JwsAlgorithm::spec_from_name(value@) is None ==> (r matches Err(VerificationError::UnsupportedAlgorithm(s))
                && s@ == value@),
    {
        JwsAlgorithm::parse_name(value)
    }
}

/// Name round trip: reading back the name of an algorithm gives that algorithm,
/// and the two names differ.
pub proof fn lemma_algorithm_name_round_trip(a: JwsAlgorithm)
    ensures
        JwsAlgorithm::spec_from_name(a.name()) == Some(a),
{
    reveal_strlit("ES256");
    reveal_strlit("RS256");
    assert("ES256"@[0] != "RS256"@[0]);
}

} // verus!
