//! Verification keys: ES256 (P-256) and RS256 (RSA, at least 2048 bits) public
//! keys, built from raw components or from JWK / JWKS documents.

use vstd::prelude::*;

use super::algorithm::JwsAlgorithm;
use super::crypto::{check_es256_point, check_rsa_components, es256_point_valid, rsa_components_valid};
use super::error::{VerificationError, VerificationFailure};
use crate::codec::{base64_url_decoded, url_decode};
use crate::json::{array_member, json_array_member, json_text_member, text_member};
use crate::text::{debug_opt_text, push_debug_opt, text_eq};

verus! {

/// The key material of a verification key, held as bytes.
#[derive(Debug, Clone, PartialEq, Eq)]
pub enum VerificationKeyInner {
    /// A P-256 public key as a SEC1-encoded point.
    Es256(Vec<u8>),
    /// An RSA public key as big-endian modulus and exponent.
    Rs256 {
        /// The modulus.
        n: Vec<u8>,
        /// The public exponent.
        e: Vec<u8>,
    },
}

/// A public key for verifying JWS signatures, with its optional key id.
#[derive(Clone, PartialEq, Eq)]
pub struct VerificationKey {
    /// The key id (`kid`) that signatures may name.
    pub kid: Option<String>,
    /// The key material.
    pub inner: VerificationKeyInner,
}

/// Key material as plain byte sequences.
pub enum KeyMaterial {
    /// A SEC1-encoded P-256 point.
    Es256(Seq<u8>),
    /// RSA modulus and exponent.
    Rs256(Seq<u8>, Seq<u8>),
}

impl VerificationKeyInner {
    /// The algorithm this material verifies.
    pub open spec fn spec_algorithm(&self) -> JwsAlgorithm {
        match self {
            VerificationKeyInner::Es256(_) => JwsAlgorithm::Es256,
            VerificationKeyInner::Rs256 { .. } => JwsAlgorithm::Rs256,
        }
    }

    /// The material as byte sequences.
    pub open spec fn material(&self) -> KeyMaterial {
        match self {
            VerificationKeyInner::Es256(p) => KeyMaterial::Es256(p@),
            VerificationKeyInner::Rs256 { n, e } => KeyMaterial::Rs256(n@, e@),
        }
    }
}

/// The number of leading zero bytes of a big-endian integer.
pub open spec fn leading_zero_bytes(n: Seq<u8>) -> nat
    decreases n.len(),
{
    if n.len() > 0 && n[0] == 0 {
        1 + leading_zero_bytes(n.drop_first())
    } else {
        0
    }
}

/// Whether a big-endian modulus has at least 2048 significant bits.
pub open spec fn modulus_at_least_2048_bits(n: Seq<u8>) -> bool {
    let z = leading_zero_bytes(n);
    let significant = n.len() - z;
    significant > 256 || (significant == 256 && n[z as int] >= 0x80)
}

/// Whether RSA components are acceptable: a modulus of at least 2048 bits
/// that the rsa crate accepts together with the exponent.
pub open spec fn rsa_material_ok(n: Seq<u8>, e: Seq<u8>) -> bool {
    modulus_at_least_2048_bits(n) && rsa_components_valid(n, e)
}

fn count_leading_zero_bytes(n: &[u8]) -> (r: usize)
    ensures
        r == leading_zero_bytes(n@),
        r <= n@.len(),
{
    let mut i: usize = 0;
    assert(n@.subrange(0, n@.len() as int) =~= n@);
    while i < n.len() && n[i] == 0
        invariant
            i <= n@.len(),
            leading_zero_bytes(n@) == i + leading_zero_bytes(n@.subrange(i as int, n@.len() as int)),
        decreases n@.len() - i,
    {
        proof {
            let rest = n@.subrange(i as int, n@.len() as int);
            assert(rest.drop_first() =~= n@.subrange(i + 1, n@.len() as int));
        }
        i = i + 1;
    }
    proof {
        let rest = n@.subrange(i as int, n@.len() as int);
        assert(rest.len() == 0 || rest[0] != 0);
    }
    i
}

/// The material a JWK denotes together with its key id, or why it is rejected.
///
/// "kty" must be "EC" or "RSA" (missing: `InvalidJwk`; other: `UnsupportedAlgorithm`).
/// For "EC", "crv" must be "P-256" (missing: `InvalidJwk`; other: `UnsupportedAlgorithm`)
/// and "x", "y" base64url texts whose point `04 || x || y` is a valid key.
/// For "RSA", "n" and "e" are base64url texts of an acceptable key.
/// Any other missing or undecodable member, or rejected material, is `InvalidJwk`.
pub open spec fn jwk_key(jwk: serde_json::Value) -> Result<(KeyMaterial, Option<Seq<char>>), VerificationFailure> {
    let kid = json_text_member(jwk, "kid"@);
    match json_text_member(jwk, "kty"@) {
        None => Err(VerificationFailure::InvalidJwk),
        Some(kty) => if kty == "EC"@ {
            match json_text_member(jwk, "crv"@) {
                None => Err(VerificationFailure::InvalidJwk),
                Some(crv) => if crv != "P-256"@ {
                    Err(VerificationFailure::UnsupportedAlgorithm)
                } else {
                    match (json_text_member(jwk, "x"@), json_text_member(jwk, "y"@)) {
                        (Some(x), Some(y)) => match (base64_url_decoded(x), base64_url_decoded(y)) {
                            (Some(xb), Some(yb)) => {
                                let point = seq![4u8] + xb + yb;
                                if es256_point_valid(point) {
                                    Ok((KeyMaterial::Es256(point), kid))
                                } else {
                                    Err(VerificationFailure::InvalidJwk)
                                }
                            },
                            _ => Err(VerificationFailure::InvalidJwk),
                        },
                        _ => Err(VerificationFailure::InvalidJwk),
                    }
                },
            }
        } else if kty == "RSA"@ {
            match (json_text_member(jwk, "n"@), json_text_member(jwk, "e"@)) {
                (Some(n), Some(e)) => match (base64_url_decoded(n), base64_url_decoded(e)) {
                    (Some(nb), Some(eb)) => if rsa_material_ok(nb, eb) {
                        Ok((KeyMaterial::Rs256(nb, eb), kid))
                    } else {
                        Err(VerificationFailure::InvalidJwk)
                    },
                    _ => Err(VerificationFailure::InvalidJwk),
                },
                _ => Err(VerificationFailure::InvalidJwk),
            }
        } else {
            Err(VerificationFailure::UnsupportedAlgorithm)
        },
    }
}

/// The display text of the error `jwk_key` reports for a JWK: the step that
/// failed and, for an unsupported key type or curve, its name.
pub open spec fn jwk_error_text(jwk: serde_json::Value) -> Seq<char> {
    match json_text_member(jwk, "kty"@) {
        None => "invalid JWK: "@ + "missing kty"@,
        Some(kty) => if kty == "EC"@ {
            match json_text_member(jwk, "crv"@) {
                None => "invalid JWK: "@ + "missing crv"@,
                Some(crv) => if crv != "P-256"@ {
                    "unsupported JWS algorithm: "@ + crv
                } else {
                    match (json_text_member(jwk, "x"@), json_text_member(jwk, "y"@)) {
                        (Some(x), Some(y)) => match (base64_url_decoded(x), base64_url_decoded(y)) {
                            (Some(_), Some(_)) => "invalid JWK: "@ + "invalid P-256 public key point"@,
                            _ => "invalid JWK: "@ + "EC coordinate is not base64url"@,
                        },
                        _ => "invalid JWK: "@ + "missing EC coordinate"@,
                    }
                },
            }
        } else if kty == "RSA"@ {
            match (json_text_member(jwk, "n"@), json_text_member(jwk, "e"@)) {
                (Some(n), Some(e)) => match (base64_url_decoded(n), base64_url_decoded(e)) {
                    (Some(nb), Some(_)) => if !modulus_at_least_2048_bits(nb) {
                        "invalid JWK: "@ + "RSA modulus must be at least 2048 bits"@
                    } else {
                        "invalid JWK: "@ + "RSA public key components are not valid"@
                    },
                    _ => "invalid JWK: "@ + "RSA component is not base64url"@,
                },
                _ => "invalid JWK: "@ + "missing RSA component"@,
            }
        } else {
            "unsupported JWS algorithm: "@ + kty
        },
    }
}

/// The keys a JWKS document's "keys" array yields, in order: keys of
/// unsupported types are skipped; the first other rejection is the outcome.
pub open spec fn jwks_keys(elems: Seq<serde_json::Value>) -> Result<Seq<(KeyMaterial, Option<Seq<char>>)>, VerificationFailure>
    decreases elems.len(),
{
    if elems.len() == 0 {
        Ok(Seq::empty())
    } else {
        match jwks_keys(elems.drop_last()) {
            Err(f) => Err(f),
            Ok(keys) => match jwk_key(elems.last()) {
                Ok(k) => Ok(keys.push(k)),
                Err(f) => if f == VerificationFailure::UnsupportedAlgorithm {
                    Ok(keys)
                } else {
                    Err(f)
                },
            },
        }
    }
}

/// What reading a key set keeps: it succeeds exactly when every element is a
/// key or of an unsupported type; every element that is a key (with or
/// without a key id) yields that key, none is invented; and when every
/// element is a key, the result holds them all, one per element, in order.
pub proof fn lemma_jwks_keeps_every_key(elems: Seq<serde_json::Value>)
    ensures
        jwks_keys(elems) is Ok <==> forall|i: int| 0 <= i < elems.len() ==> (#[trigger] jwk_key(elems[i]) is Ok
            || jwk_key(elems[i]) == Err::<(KeyMaterial, Option<Seq<char>>), VerificationFailure>(
            VerificationFailure::UnsupportedAlgorithm,
        )),
        jwks_keys(elems) matches Ok(keys) ==> (forall|i: int| 0 <= i < elems.len() && #[trigger] jwk_key(elems[i]) is Ok
            ==> keys.contains(jwk_key(elems[i])->Ok_0)),
        jwks_keys(elems) matches Ok(keys) ==> (forall|j: int| 0 <= j < keys.len() ==> exists|i: int|
            0 <= i < elems.len() && #[trigger] jwk_key(elems[i]) == Ok::<(KeyMaterial, Option<Seq<char>>), VerificationFailure>(
            #[trigger] keys[j],
        )),
        (forall|i: int| 0 <= i < elems.len() ==> #[trigger] jwk_key(elems[i]) is Ok) ==> (jwks_keys(elems) matches Ok(keys)
            && keys.len() == elems.len() && forall|i: int| 0 <= i < elems.len() ==> keys[i] == #[trigger] jwk_key(
            elems[i],
        )->Ok_0),
    decreases elems.len(),
{
    if elems.len() > 0 {
        let init = elems.drop_last();
        let n = elems.len() - 1;
        lemma_jwks_keeps_every_key(init);
        assert forall|i: int| 0 <= i < n implies init[i] == elems[i] by {}
        assert(elems.last() == elems[n]);
        if jwks_keys(init) is Ok {
            let keys = jwks_keys(init)->Ok_0;
            match jwk_key(elems[n]) {
                Ok(k) => {
                    let out = keys.push(k);
                    assert forall|i: int| 0 <= i < elems.len() && #[trigger] jwk_key(elems[i]) is Ok implies out.contains(
                        jwk_key(elems[i])->Ok_0,
                    ) by {
                        if i < n {
                            assert(jwk_key(init[i]) is Ok);
                            let j = choose|j: int| 0 <= j < keys.len() && keys[j] == jwk_key(init[i])->Ok_0;
                            assert(out[j] == keys[j]);
                        } else {
                            assert(out[keys.len() as int] == k);
                        }
                    }
                    assert forall|j: int| 0 <= j < out.len() implies exists|i: int|
                        0 <= i < elems.len() && #[trigger] jwk_key(elems[i]) == Ok::<(KeyMaterial, Option<Seq<char>>), VerificationFailure>(
                        #[trigger] out[j],
                    ) by {
                        if j < keys.len() {
                            assert(out[j] == keys[j]);
                            let i = choose|i: int| 0 <= i < init.len() && #[trigger] jwk_key(init[i]) == Ok::<(KeyMaterial, Option<Seq<char>>), VerificationFailure>(
                                keys[j],
                            );
                            assert(jwk_key(elems[i]) == Ok::<(KeyMaterial, Option<Seq<char>>), VerificationFailure>(out[j]));
                        } else {
                            assert(jwk_key(elems[n]) == Ok::<(KeyMaterial, Option<Seq<char>>), VerificationFailure>(out[j]));
                        }
                    }
                    if forall|i: int| 0 <= i < elems.len() ==> #[trigger] jwk_key(elems[i]) is Ok {
                        assert forall|i: int| 0 <= i < init.len() implies #[trigger] jwk_key(init[i]) is Ok by {
                            assert(jwk_key(elems[i]) is Ok);
                        }
                        assert forall|i: int| 0 <= i < elems.len() implies out[i] == #[trigger] jwk_key(elems[i])->Ok_0 by {
                            if i < n {
                                assert(jwk_key(init[i]) is Ok);
                            }
                        }
                    }
                    assert forall|i: int| 0 <= i < elems.len() implies (#[trigger] jwk_key(elems[i]) is Ok
                        || jwk_key(elems[i]) == Err::<(KeyMaterial, Option<Seq<char>>), VerificationFailure>(
                        VerificationFailure::UnsupportedAlgorithm,
                    )) by {
                        if i < n {
                            assert(jwk_key(init[i]) is Ok || jwk_key(init[i]) == Err::<(KeyMaterial, Option<Seq<char>>), VerificationFailure>(
                                VerificationFailure::UnsupportedAlgorithm,
                            ));
                        }
                    }
                },
                Err(f) => {
                    if f == VerificationFailure::UnsupportedAlgorithm {
                        assert forall|i: int| 0 <= i < elems.len() && #[trigger] jwk_key(elems[i]) is Ok implies keys.contains(
                            jwk_key(elems[i])->Ok_0,
                        ) by {
                            assert(i < n);
                            assert(jwk_key(init[i]) is Ok);
                        }
                        assert forall|j: int| 0 <= j < keys.len() implies exists|i: int|
                            0 <= i < elems.len() && #[trigger] jwk_key(elems[i]) == Ok::<(KeyMaterial, Option<Seq<char>>), VerificationFailure>(
                            #[trigger] keys[j],
                        ) by {
                            let i = choose|i: int| 0 <= i < init.len() && #[trigger] jwk_key(init[i]) == Ok::<(KeyMaterial, Option<Seq<char>>), VerificationFailure>(
                                keys[j],
                            );
                            assert(jwk_key(elems[i]) == Ok::<(KeyMaterial, Option<Seq<char>>), VerificationFailure>(keys[j]));
                        }
                        assert forall|i: int| 0 <= i < elems.len() implies (#[trigger] jwk_key(elems[i]) is Ok
                            || jwk_key(elems[i]) == Err::<(KeyMaterial, Option<Seq<char>>), VerificationFailure>(
                            VerificationFailure::UnsupportedAlgorithm,
                        )) by {
                            if i < n {
                                assert(jwk_key(init[i]) is Ok || jwk_key(init[i]) == Err::<(KeyMaterial, Option<Seq<char>>), VerificationFailure>(
                                    VerificationFailure::UnsupportedAlgorithm,
                                ));
                            }
                        }
                    } else {
                        assert(!(jwk_key(elems[n]) is Ok || jwk_key(elems[n]) == Err::<(KeyMaterial, Option<Seq<char>>), VerificationFailure>(
                            VerificationFailure::UnsupportedAlgorithm,
                        )));
                    }
                },
            }
        } else {
            let w = choose|i: int| 0 <= i < init.len() && !(#[trigger] jwk_key(init[i]) is Ok
                || jwk_key(init[i]) == Err::<(KeyMaterial, Option<Seq<char>>), VerificationFailure>(
                VerificationFailure::UnsupportedAlgorithm,
            ));
            assert(jwk_key(elems[w]) == jwk_key(init[w]));
        }
    }
}

/// The display text of the error `jwks_keys` reports: that of the first
/// element rejected for a reason other than an unsupported type.
pub open spec fn jwks_error_text(elems: Seq<serde_json::Value>) -> Seq<char>
    decreases elems.len(),
{
    if elems.len() == 0 {
        Seq::empty()
    } else if jwks_keys(elems.drop_last()) is Err {
        jwks_error_text(elems.drop_last())
    } else {
        jwk_error_text(elems.last())
    }
}

impl VerificationKey {
    /// The algorithm this key verifies.
    pub open spec fn spec_algorithm(&self) -> JwsAlgorithm {
        self.inner.spec_algorithm()
    }

    /// The key's material and id as plain values.
    pub open spec fn spec_key(&self) -> (KeyMaterial, Option<Seq<char>>) {
        (self.inner.material(), match self.kid { Some(k) => Some(k@), None => None })
    }

    /// The algorithm this key verifies.
    pub fn algorithm(&self) -> (r: JwsAlgorithm)
        ensures
            r == self.spec_algorithm(),
    {
        match &self.inner {
            VerificationKeyInner::Es256(_) => JwsAlgorithm::Es256,
            VerificationKeyInner::Rs256 { .. } => JwsAlgorithm::Rs256,
        }
    }

    /// The RFC 7518 name of the key's algorithm.
    pub fn algorithm_name(&self) -> (r: &'static str)
        ensures
            r@ == self.spec_algorithm().name(),
    {
        self.algorithm().as_str()
    }

    /// An ES256 key from a SEC1-encoded P-256 point; rejected with `InvalidJwk`
    /// when the point is not a valid public key.
    pub fn es256_from_encoded_point(point: &[u8]) -> (r: Result<VerificationKey, VerificationError>)
        ensures
            r is Ok <==> es256_point_valid(point@),
            r matches Ok(k) ==> k.spec_key() == (KeyMaterial::Es256(point@), None::<Seq<char>>),
            r matches Err(e) ==> e.failure() == VerificationFailure::InvalidJwk,
            r is Err ==> (r matches Err(VerificationError::InvalidJwk(m)) && m@ == "invalid P-256 public key point"@),
    {
        if check_es256_point(point) {
            Ok(VerificationKey { kid: None, inner: VerificationKeyInner::Es256(vstd::slice::slice_to_vec(point)) })
        } else {
            Err(VerificationError::InvalidJwk("invalid P-256 public key point".to_owned()))
        }
    }

    /// An RS256 key from big-endian modulus and exponent. A modulus below 2048
    /// bits is rejected with `InvalidJwk` naming the floor, as are components
    /// the rsa crate does not accept.
    pub fn rs256_from_components(n: &[u8], e: &[u8]) -> (r: Result<VerificationKey, VerificationError>)
        ensures
            r is Ok <==> rsa_material_ok(n@, e@),
            r matches Ok(k) ==> k.spec_key() == (KeyMaterial::Rs256(n@, e@), None::<Seq<char>>),
            r matches Err(e) ==> e.failure() == VerificationFailure::InvalidJwk,
            !modulus_at_least_2048_bits(n@) ==> (r matches Err(VerificationError::InvalidJwk(m))
                && m@ == "RSA modulus must be at least 2048 bits"@),
            modulus_at_least_2048_bits(n@) && r is Err ==> (r matches Err(VerificationError::InvalidJwk(m))
                && m@ == "RSA public key components are not valid"@),
    {
        let zeros = count_leading_zero_bytes(n);
        let significant = n.len() - zeros;
        if significant < 256 || (significant == 256 && n[zeros] < 0x80) {
            return Err(VerificationError::InvalidJwk("RSA modulus must be at least 2048 bits".to_owned()));
        }
        if check_rsa_components(n, e) {
            Ok(VerificationKey {
                kid: None,
                inner: VerificationKeyInner::Rs256 { n: vstd::slice::slice_to_vec(n), e: vstd::slice::slice_to_vec(e) },
            })
        } else {
            Err(VerificationError::InvalidJwk("RSA public key components are not valid".to_owned()))
        }
    }

    /// A key from a JWK document (see `jwk_key` for what is accepted).
    pub fn from_jwk(jwk: &serde_json::Value) -> (r: Result<VerificationKey, VerificationError>)
        ensures
            match jwk_key(*jwk) {
                Ok(k) => r matches Ok(key) && key.spec_key() == k,
                Err(f) => r matches Err(e) && e.failure() == f && e.spec_text() == jwk_error_text(*jwk),
            },
    {
        let kid = text_member(jwk, "kid");
        let ghost kid_view: Option<Seq<char>> = match &kid { Some(k) => Some(k@), None => None };
        assert(kid_view == json_text_member(*jwk, "kid"@));
        let kty = match text_member(jwk, "kty") {
            Some(t) => t,
            None => return Err(VerificationError::InvalidJwk("missing kty".to_owned())),
        };
        if text_eq(kty.as_str(), "EC") {
            let crv = match text_member(jwk, "crv") {
                Some(c) => c,
                None => return Err(VerificationError::InvalidJwk("missing crv".to_owned())),
            };
            if !text_eq(crv.as_str(), "P-256") {
                return Err(VerificationError::UnsupportedAlgorithm(crv));
            }
            let x = text_member(jwk, "x");
            let y = text_member(jwk, "y");
            let (x, y) = match (x, y) {
                (Some(x), Some(y)) => (x, y),
                _ => return Err(VerificationError::InvalidJwk("missing EC coordinate".to_owned())),
            };
            let (xb, yb) = match (url_decode(x.as_str()), url_decode(y.as_str())) {
                (Ok(xb), Ok(yb)) => (xb, yb),
                _ => return Err(VerificationError::InvalidJwk("EC coordinate is not base64url".to_owned())),
            };
            let mut point: Vec<u8> = vec![4u8];
            let mut xs = xb;
            let mut ys = yb;
            point.append(&mut xs);
            point.append(&mut ys);
            assert(point@ =~= seq![4u8] + xb@ + yb@);
            let key = VerificationKey::es256_from_encoded_point(point.as_slice());
            match key {
                Ok(k) => {
                    let out = VerificationKey { kid, inner: k.inner };
                    assert(out.spec_key() == (KeyMaterial::Es256(seq![4u8] + xb@ + yb@), kid_view));
                    Ok(out)
                },
                Err(err) => Err(err),
            }
        } else if text_eq(kty.as_str(), "RSA") {
            let n = text_member(jwk, "n");
            let e = text_member(jwk, "e");
            let (n, e) = match (n, e) {
                (Some(n), Some(e)) => (n, e),
                _ => return Err(VerificationError::InvalidJwk("missing RSA component".to_owned())),
            };
            let (nb, eb) = match (url_decode(n.as_str()), url_decode(e.as_str())) {
                (Ok(nb), Ok(eb)) => (nb, eb),
                _ => return Err(VerificationError::InvalidJwk("RSA component is not base64url".to_owned())),
            };
            let key = VerificationKey::rs256_from_components(nb.as_slice(), eb.as_slice());
            match key {
                Ok(k) => {
                    let out = VerificationKey { kid, inner: k.inner };
                    assert(out.spec_key() == (KeyMaterial::Rs256(nb@, eb@), kid_view));
                    Ok(out)
                },
                Err(err) => Err(err),
            }
        } else {
            Err(VerificationError::UnsupportedAlgorithm(kty))
        }
    }

    /// The debug text: the key id and the algorithm, never the key material.
    pub open spec fn spec_debug_text(&self) -> Seq<char> {
        "VerificationKey { kid: "@ + debug_opt_text(self.kid) + ", algorithm: "@
            + self.spec_algorithm().name() + " }"@
    }

    /// The debug text: the key id and the algorithm, never the key material.
    pub fn debug_string(&self) -> (r: String)
        ensures
            r@ == self.spec_debug_text(),
    {
        let mut out = "VerificationKey { kid: ".to_owned();
        push_debug_opt(&mut out, &self.kid);
        out.append(", algorithm: ");
        out.append(self.algorithm_name());
        out.append(" }");
        out
    }
}

/// Key material never reaches the debug text: keys with the same id and
/// algorithm read the same whatever their material is.
pub proof fn lemma_debug_text_hides_material(a: VerificationKey, b: VerificationKey)
    requires
        a.kid == b.kid,
        a.spec_algorithm() == b.spec_algorithm(),
    ensures
        a.spec_debug_text() == b.spec_debug_text(),
{
}

/// The keys of a JWKS document: its "keys" array read element by element.
/// A document without a "keys" array is `InvalidJwk`; elements of unsupported
/// key types are skipped; any other rejected element rejects the document.
pub fn parse_jwks(jwks: &serde_json::Value) -> (r: Result<Vec<VerificationKey>, VerificationError>)
    ensures
        json_array_member(*jwks, "keys"@) is None ==> (r matches Err(VerificationError::InvalidJwk(m))
            && m@ == "JWKS document has no keys array"@),
        json_array_member(*jwks, "keys"@) matches Some(elems) ==> match jwks_keys(elems) {
            Ok(keys) => r matches Ok(out) && out@.len() == keys.len()
                && forall|i: int| 0 <= i < keys.len() ==> #[trigger] out@[i].spec_key() == keys[i],
            Err(f) => r matches Err(e) && e.failure() == f && e.spec_text() == jwks_error_text(elems),
        },
        json_array_member(*jwks, "keys"@) matches Some(elems) ==> ((forall|i: int| 0 <= i < elems.len()
            ==> #[trigger] jwk_key(elems[i]) is Ok) ==> (r matches Ok(out) && out@.len() == elems.len()
            && forall|i: int| 0 <= i < elems.len() ==> #[trigger] out@[i].spec_key() == jwk_key(elems[i])->Ok_0)),
        json_array_member(*jwks, "keys"@) matches Some(elems) ==> (r matches Ok(out) ==> forall|i: int|
            0 <= i < elems.len() && #[trigger] jwk_key(elems[i]) is Ok ==> exists|j: int|
                0 <= j < out@.len() && out@[j].spec_key() == jwk_key(elems[i])->Ok_0),
{
    let elems = match array_member(jwks, "keys") {
        Some(v) => v,
        None => return Err(VerificationError::InvalidJwk("JWKS document has no keys array".to_owned())),
    };
    let ghost all = elems@;
    let mut out: Vec<VerificationKey> = Vec::new();
    let mut i: usize = 0;
    while i < elems.len()
        invariant
            i <= elems@.len(),
            elems@ == all,
            json_array_member(*jwks, "keys"@) == Some(all),
            jwks_keys(all.take(i as int)) matches Ok(keys) && out@.len() == keys.len()
                && forall|j: int| 0 <= j < keys.len() ==> #[trigger] out@[j].spec_key() == keys[j],
        decreases elems@.len() - i,
    {
        proof {
            assert(all.take(i + 1).drop_last() =~= all.take(i as int));
            assert(all.take(i + 1).last() == all[i as int]);
        }
        match VerificationKey::from_jwk(&elems[i]) {
            Ok(key) => {
                out.push(key);
            },
            Err(err) => {
                if err.kind() != VerificationFailure::UnsupportedAlgorithm {
                    proof {
                        let f = err.failure();
                        assert(jwk_key(all[i as int]) == Err::<(KeyMaterial, Option<Seq<char>>), VerificationFailure>(f));
                        assert(jwks_keys(all.take(i + 1)) == Err::<Seq<(KeyMaterial, Option<Seq<char>>)>, VerificationFailure>(f));
                        assert(jwks_error_text(all.take(i + 1)) == jwk_error_text(all[i as int]));
                        lemma_jwks_error_persists(all, i + 1, all.len() as int);
                        assert(all.take(all.len() as int) =~= all);
                        lemma_jwks_keeps_every_key(all);
                    }
                    return Err(err);
                }
            },
        }
        i = i + 1;
    }
    proof {
        assert(all.take(all.len() as int) =~= all);
        lemma_jwks_keeps_every_key(all);
        let keys = jwks_keys(all)->Ok_0;
        assert forall|i: int| 0 <= i < all.len() && #[trigger] jwk_key(all[i]) is Ok implies exists|j: int|
            0 <= j < out@.len() && out@[j].spec_key() == jwk_key(all[i])->Ok_0 by {
            assert(keys.contains(jwk_key(all[i])->Ok_0));
            let j = choose|j: int| 0 <= j < keys.len() && keys[j] == jwk_key(all[i])->Ok_0;
            assert(out@[j].spec_key() == keys[j]);
        }
    }
    Ok(out)
}

/// Once the outcome over a prefix is an error, the outcome over any longer
/// prefix is that same error.
proof fn lemma_jwks_error_persists(all: Seq<serde_json::Value>, i: int, k: int)
    requires
        0 <= i <= k <= all.len(),
        jwks_keys(all.take(i)) is Err,
    ensures
        jwks_keys(all.take(k)) == jwks_keys(all.take(i)),
        jwks_error_text(all.take(k)) == jwks_error_text(all.take(i)),
    decreases k - i,
{
    if k > i {
        lemma_jwks_error_persists(all, i, k - 1);
        assert(all.take(k).drop_last() =~= all.take(k - 1));
    }
}

} // verus!
