//! Verification of every signature an agent card carries, over the card's
//! canonical payload (the card as JSON without its signatures, object keys
//! sorted at every level).

use vstd::prelude::*;

use super::error::{VerificationError, VerificationFailure};
use super::key::VerificationKey;
use super::verify::{detached_error_text, detached_outcome, verify_detached_jws};
use crate::agent_card::{AgentCard, AgentCardSignature};
use crate::codec::{base64_url_decoded, url_decode};
use crate::json::{json_map_text_member, json_parse, json_text_member, map_text_member, parse_json, text_member};
use crate::text::text_eq;

verus! {

/// The `kid` member of a base64url JSON protected header, when it has one.
pub open spec fn protected_kid(protected: Seq<char>) -> Option<Seq<char>> {
    match base64_url_decoded(protected) {
        None => None,
        Some(bytes) => match json_parse(bytes) {
            None => None,
            Some(header) => json_text_member(header, "kid"@),
        },
    }
}

/// The key id a signature names: the unprotected header's `kid` first, then
/// the protected header's.
pub open spec fn signature_kid(sig: AgentCardSignature) -> Option<Seq<char>> {
    let unprotected = match sig.header {
        Some(h) => json_map_text_member(h, "kid"@),
        None => None,
    };
    match unprotected {
        Some(kid) => Some(kid),
        None => protected_kid(sig.protected@),
    }
}

/// Whether a key carries the key id `kid`.
pub open spec fn has_kid(key: VerificationKey, kid: Seq<char>) -> bool {
    key.kid matches Some(k) && k@ == kid
}

/// The position of the first key carrying the key id `kid`.
pub open spec fn first_with_kid(keys: Seq<VerificationKey>, kid: Seq<char>) -> Option<int>
    decreases keys.len(),
{
    if keys.len() == 0 {
        None
    } else {
        match first_with_kid(keys.drop_last(), kid) {
            Some(i) => Some(i),
            None => if has_kid(keys.last(), kid) {
                Some(keys.len() - 1)
            } else {
                None
            },
        }
    }
}

/// Where trying keys one after another stands: a key verified, or none did yet,
/// with the last failure from a key of the header's algorithm and whether a key
/// of another algorithm was met.
pub enum KeyScan {
    /// A key verified the signature.
    Verified,
    /// No key verified it so far.
    Failed {
        /// The failure of the last key of the header's algorithm tried.
        compatible: Option<VerificationFailure>,
        /// The display text of that failure.
        compatible_text: Seq<char>,
        /// Whether a key of another algorithm was tried.
        mismatch_seen: bool,
        /// The display text of the failure of the first such key.
        mismatch_text: Seq<char>,
    },
}

/// Trying the keys in order until one verifies the signature.
pub open spec fn any_key_scan(
    protected: Seq<char>,
    signature: Seq<char>,
    payload: Seq<u8>,
    keys: Seq<VerificationKey>,
) -> KeyScan
    decreases keys.len(),
{
    if keys.len() == 0 {
        KeyScan::Failed { compatible: None, compatible_text: Seq::empty(), mismatch_seen: false, mismatch_text: Seq::empty() }
    } else {
        let key = keys.last().inner.material();
        match any_key_scan(protected, signature, payload, keys.drop_last()) {
            KeyScan::Verified => KeyScan::Verified,
            KeyScan::Failed { compatible, compatible_text, mismatch_seen, mismatch_text } => match detached_outcome(
                protected,
                signature,
                payload,
                key,
            ) {
                Ok(_) => KeyScan::Verified,
                Err(f) => if f == VerificationFailure::AlgorithmKeyMismatch {
                    KeyScan::Failed {
                        compatible,
                        compatible_text,
                        mismatch_seen: true,
                        mismatch_text: if mismatch_seen {
                            mismatch_text
                        } else {
                            detached_error_text(protected, signature, payload, key)
                        },
                    }
                } else {
                    KeyScan::Failed {
                        compatible: Some(f),
                        compatible_text: detached_error_text(protected, signature, payload, key),
                        mismatch_seen,
                        mismatch_text,
                    }
                },
            },
        }
    }
}

/// The outcome of trying every key: success when one verifies; otherwise the
/// failure from a key of the header's algorithm, else `AlgorithmKeyMismatch`
/// when only keys of other algorithms were tried, else (no keys) `SignatureInvalid`.
pub open spec fn any_key_outcome(
    protected: Seq<char>,
    signature: Seq<char>,
    payload: Seq<u8>,
    keys: Seq<VerificationKey>,
) -> Result<(), VerificationFailure> {
    match any_key_scan(protected, signature, payload, keys) {
        KeyScan::Verified => Ok(()),
        KeyScan::Failed { compatible, mismatch_seen, .. } => Err(
            match compatible {
                Some(f) => f,
                None => if mismatch_seen {
                    VerificationFailure::AlgorithmKeyMismatch
                } else {
                    VerificationFailure::SignatureInvalid
                },
            },
        ),
    }
}

/// The outcome for one signature: with the first key whose id the signature
/// names, when there is one; otherwise with any key.
pub open spec fn signature_outcome(
    sig: AgentCardSignature,
    payload: Seq<u8>,
    keys: Seq<VerificationKey>,
) -> Result<(), VerificationFailure> {
    let matched = match signature_kid(sig) {
        Some(kid) => first_with_kid(keys, kid),
        None => None,
    };
    match matched {
        Some(i) => match detached_outcome(sig.protected@, sig.signature@, payload, keys[i].inner.material()) {
            Ok(_) => Ok(()),
            Err(f) => Err(f),
        },
        None => any_key_outcome(sig.protected@, sig.signature@, payload, keys),
    }
}

/// The outcome for all signatures in order: the first failure, or success.
pub open spec fn signatures_outcome(
    sigs: Seq<AgentCardSignature>,
    payload: Seq<u8>,
    keys: Seq<VerificationKey>,
) -> Result<(), VerificationFailure>
    decreases sigs.len(),
{
    if sigs.len() == 0 {
        Ok(())
    } else {
        match signatures_outcome(sigs.drop_last(), payload, keys) {
            Err(f) => Err(f),
            Ok(()) => signature_outcome(sigs.last(), payload, keys),
        }
    }
}

/// The display text of the failure `any_key_outcome` reports: that of the
/// last key of the header's algorithm, else that of the first key of another
/// algorithm, else (no keys) the text of `SignatureInvalid`.
pub open spec fn any_key_error_text(
    protected: Seq<char>,
    signature: Seq<char>,
    payload: Seq<u8>,
    keys: Seq<VerificationKey>,
) -> Seq<char> {
    match any_key_scan(protected, signature, payload, keys) {
        KeyScan::Failed { compatible: Some(_), compatible_text, .. } => compatible_text,
        KeyScan::Failed { compatible: None, mismatch_seen: true, mismatch_text, .. } => mismatch_text,
        _ => "JWS signature verification failed"@,
    }
}

/// The display text of the failure `signature_outcome` reports.
pub open spec fn signature_error_text(
    sig: AgentCardSignature,
    payload: Seq<u8>,
    keys: Seq<VerificationKey>,
) -> Seq<char> {
    let matched = match signature_kid(sig) {
        Some(kid) => first_with_kid(keys, kid),
        None => None,
    };
    match matched {
        Some(i) => detached_error_text(sig.protected@, sig.signature@, payload, keys[i].inner.material()),
        None => any_key_error_text(sig.protected@, sig.signature@, payload, keys),
    }
}

/// The display text of the failure `signatures_outcome` reports: that of the
/// first signature that fails.
pub open spec fn signatures_error_text(
    sigs: Seq<AgentCardSignature>,
    payload: Seq<u8>,
    keys: Seq<VerificationKey>,
) -> Seq<char>
    decreases sigs.len(),
{
    if sigs.len() == 0 {
        Seq::empty()
    } else if signatures_outcome(sigs.drop_last(), payload, keys) is Err {
        signatures_error_text(sigs.drop_last(), payload, keys)
    } else {
        signature_error_text(sigs.last(), payload, keys)
    }
}

/// The key id a signature names: the unprotected header's `kid` member, else
/// the `kid` member of the decoded protected header.
fn extract_kid_from_signature(signature: &AgentCardSignature) -> (r: Option<String>)
    ensures
        r is Some <==> signature_kid(*signature) is Some,
        r is Some ==> r->0@ == signature_kid(*signature)->0,
{
    if let Some(header) = &signature.header {
        if let Some(kid) = map_text_member(header, "kid") {
            return Some(kid);
        }
    }
    let decoded = match url_decode(signature.protected.as_str()) {
        Ok(bytes) => bytes,
        Err(_) => return None,
    };
    let json = match parse_json(decoded.as_slice()) {
        Ok(value) => value,
        Err(_) => return None,
    };
    text_member(&json, "kid")
}

/// The position of the first key carrying the key id `kid`.
fn find_key_with_kid(keys: &[VerificationKey], kid: &str) -> (r: Option<usize>)
    ensures
        match first_with_kid(keys@, kid@) {
            Some(i) => r == Some(i as usize),
            None => r is None,
        },
        r matches Some(i) ==> i < keys@.len(),
{
    let mut i: usize = 0;
    while i < keys.len()
        invariant
            i <= keys@.len(),
            first_with_kid(keys@.take(i as int), kid@) is None,
        decreases keys@.len() - i,
    {
        proof {
            assert(keys@.take(i + 1).drop_last() =~= keys@.take(i as int));
            assert(keys@.take(i + 1).last() == keys@[i as int]);
        }
        let found = match &keys[i].kid {
            Some(k) => text_eq(k.as_str(), kid),
            None => false,
        };
        if found {
            proof {
                lemma_first_with_kid_persists(keys@, kid@, i + 1, keys@.len() as int);
                assert(keys@.take(keys@.len() as int) =~= keys@);
            }
            return Some(i);
        }
        i = i + 1;
    }
    proof {
        assert(keys@.take(keys@.len() as int) =~= keys@);
    }
    None
}

/// The first key carrying a key id is one of the keys, and carries it.
proof fn lemma_first_with_kid_found(keys: Seq<VerificationKey>, kid: Seq<char>)
    ensures
        first_with_kid(keys, kid) matches Some(i) ==> 0 <= i < keys.len() && has_kid(keys[i], kid),
    decreases keys.len(),
{
    if keys.len() > 0 {
        lemma_first_with_kid_found(keys.drop_last(), kid);
    }
}

/// Once a prefix of the keys holds the key id, every longer prefix finds the same key.
proof fn lemma_first_with_kid_persists(keys: Seq<VerificationKey>, kid: Seq<char>, i: int, k: int)
    requires
        0 <= i <= k <= keys.len(),
        first_with_kid(keys.take(i), kid) is Some,
    ensures
        first_with_kid(keys.take(k), kid) == first_with_kid(keys.take(i), kid),
    decreases k - i,
{
    if k > i {
        lemma_first_with_kid_persists(keys, kid, i, k - 1);
        assert(keys.take(k).drop_last() =~= keys.take(k - 1));
    }
}

/// Once a key verified, trying more keys keeps the outcome.
proof fn lemma_verified_persists(
    protected: Seq<char>,
    signature: Seq<char>,
    payload: Seq<u8>,
    keys: Seq<VerificationKey>,
    i: int,
    k: int,
)
    requires
        0 <= i <= k <= keys.len(),
        any_key_scan(protected, signature, payload, keys.take(i)) is Verified,
    ensures
        any_key_scan(protected, signature, payload, keys.take(k)) is Verified,
    decreases k - i,
{
    if k > i {
        lemma_verified_persists(protected, signature, payload, keys, i, k - 1);
        assert(keys.take(k).drop_last() =~= keys.take(k - 1));
    }
}

/// Tries every key in order and accepts the first that verifies the signature.
/// When none does, the failure from a key of the header's algorithm is the
/// most telling one; `AlgorithmKeyMismatch` only when no key had that
/// algorithm; `SignatureInvalid` when there are no keys.
fn verify_with_any_key(
    signature: &AgentCardSignature,
    payload: &[u8],
    keys: &[VerificationKey],
) -> (r: Result<(), VerificationError>)
    ensures
        match any_key_outcome(signature.protected@, signature.signature@, payload@, keys@) {
            Ok(()) => r is Ok,
            Err(f) => r matches Err(e) && e.failure() == f
                && e.spec_text() == any_key_error_text(signature.protected@, signature.signature@, payload@, keys@),
        },
{
    let ghost protected = signature.protected@;
    let ghost sig_text = signature.signature@;
    let mut compatible_error: Option<VerificationError> = None;
    let mut mismatch_error: Option<VerificationError> = None;
    let mut i: usize = 0;
    while i < keys.len()
        invariant
            i <= keys@.len(),
            protected == signature.protected@,
            sig_text == signature.signature@,
            any_key_scan(protected, sig_text, payload@, keys@.take(i as int)) matches KeyScan::Failed {
                compatible,
                compatible_text,
                mismatch_seen,
                mismatch_text,
            } && (compatible is None <==> compatible_error is None) && (compatible matches Some(f)
                ==> compatible_error matches Some(e) && e.failure() == f && e.spec_text() == compatible_text)
                && (mismatch_seen <==> mismatch_error is Some) && (mismatch_error matches Some(e) ==> e.failure()
                == VerificationFailure::AlgorithmKeyMismatch && e.spec_text() == mismatch_text),
        decreases keys@.len() - i,
    {
        proof {
            assert(keys@.take(i + 1).drop_last() =~= keys@.take(i as int));
            assert(keys@.take(i + 1).last() == keys@[i as int]);
        }
        match verify_detached_jws(signature.protected.as_str(), signature.signature.as_str(), payload, &keys[i]) {
            Ok(_) => {
                proof {
                    lemma_verified_persists(protected, sig_text, payload@, keys@, i + 1, keys@.len() as int);
                    assert(keys@.take(keys@.len() as int) =~= keys@);
                }
                return Ok(());
            },
            Err(error) => {
                if error.kind() == VerificationFailure::AlgorithmKeyMismatch {
                    if mismatch_error.is_none() {
                        mismatch_error = Some(error);
                    }
                } else {
                    compatible_error = Some(error);
                }
            },
        }
        i = i + 1;
    }
    proof {
        assert(keys@.take(keys@.len() as int) =~= keys@);
    }
    match compatible_error {
        Some(error) => Err(error),
        None => match mismatch_error {
            Some(error) => Err(error),
            None => Err(VerificationError::SignatureInvalid),
        },
    }
}

/// Verifies one signature: with the first key whose id it names, else with any key.
fn verify_one_signature(
    signature: &AgentCardSignature,
    payload: &[u8],
    keys: &[VerificationKey],
) -> (r: Result<(), VerificationError>)
    ensures
        match signature_outcome(*signature, payload@, keys@) {
            Ok(()) => r is Ok,
            Err(f) => r matches Err(e) && e.failure() == f && e.spec_text() == signature_error_text(
                *signature,
                payload@,
                keys@,
            ),
        },
{
    let kid = extract_kid_from_signature(signature);
    let matched = match &kid {
        Some(kid_value) => find_key_with_kid(keys, kid_value.as_str()),
        None => None,
    };
    proof {
        let expected = match signature_kid(*signature) {
            Some(k) => first_with_kid(keys@, k),
            None => None,
        };
        if let Some(k) = signature_kid(*signature) {
            lemma_first_with_kid_found(keys@, k);
        }
        assert(match expected {
            Some(i) => matched == Some(i as usize),
            None => matched is None,
        });
    }
    match matched {
        Some(index) => match verify_detached_jws(
            signature.protected.as_str(),
            signature.signature.as_str(),
            payload,
            &keys[index],
        ) {
            Ok(_) => Ok(()),
            Err(error) => Err(error),
        },
        None => verify_with_any_key(signature, payload, keys),
    }
}

impl AgentCard {
    /// Verifies every signature on the card over its canonical payload,
    /// stopping at the first failure. A card without signatures is
    /// `NoSignatures`; a payload that could not be produced (its error text
    /// given) is `Serialization` with that text.
    pub fn verify_signatures(
        &self,
        payload: Result<Vec<u8>, String>,
        keys: &[VerificationKey],
    ) -> (r: Result<(), VerificationError>)
        ensures
            self.signatures@.len() == 0 ==> r == Err::<(), VerificationError>(VerificationError::NoSignatures),
            self.signatures@.len() > 0 ==> match payload {
                Err(text) => r == Err::<(), VerificationError>(VerificationError::Serialization(text)),
                Ok(bytes) => match signatures_outcome(self.signatures@, bytes@, keys@) {
                    Ok(()) => r is Ok,
                    Err(f) => r matches Err(e) && e.failure() == f
                        && e.spec_text() == signatures_error_text(self.signatures@, bytes@, keys@),
                },
            },
    {
        if self.signatures.len() == 0 {
            return Err(VerificationError::NoSignatures);
        }
        let bytes = match payload {
            Ok(bytes) => bytes,
            Err(text) => return Err(VerificationError::Serialization(text)),
        };
        let ghost sigs = self.signatures@;
        let mut i: usize = 0;
        while i < self.signatures.len()
            invariant
                i <= sigs.len(),
                sigs == self.signatures@,
                payload matches Ok(b) && b@ == bytes@,
                signatures_outcome(sigs.take(i as int), bytes@, keys@) is Ok,
            decreases sigs.len() - i,
        {
            proof {
                assert(sigs.take(i + 1).drop_last() =~= sigs.take(i as int));
                assert(sigs.take(i + 1).last() == sigs[i as int]);
            }
            match verify_one_signature(&self.signatures[i], bytes.as_slice(), keys) {
                Ok(()) => {},
                Err(error) => {
                    proof {
                        lemma_signature_failure_persists(sigs, bytes@, keys@, i + 1, sigs.len() as int);
                        assert(sigs.take(sigs.len() as int) =~= sigs);
                    }
                    return Err(error);
                },
            }
            i = i + 1;
        }
        proof {
            assert(sigs.take(sigs.len() as int) =~= sigs);
        }
        Ok(())
    }
}

/// Once a signature fails, checking more signatures keeps that failure.
proof fn lemma_signature_failure_persists(
    sigs: Seq<AgentCardSignature>,
    payload: Seq<u8>,
    keys: Seq<VerificationKey>,
    i: int,
    k: int,
)
    requires
        0 <= i <= k <= sigs.len(),
        signatures_outcome(sigs.take(i), payload, keys) is Err,
    ensures
        signatures_outcome(sigs.take(k), payload, keys) == signatures_outcome(sigs.take(i), payload, keys),
        signatures_error_text(sigs.take(k), payload, keys) == signatures_error_text(sigs.take(i), payload, keys),
    decreases k - i,
{
    if k > i {
        lemma_signature_failure_persists(sigs, payload, keys, i, k - 1);
        assert(sigs.take(k).drop_last() =~= sigs.take(k - 1));
    }
}

/// The outcome of verifying a signature with one key.
pub open spec fn key_outcome(
    protected: Seq<char>,
    signature: Seq<char>,
    payload: Seq<u8>,
    key: VerificationKey,
) -> Result<super::algorithm::JwsAlgorithm, VerificationFailure> {
    detached_outcome(protected, signature, payload, key.inner.material())
}

proof fn lemma_scan_facts(protected: Seq<char>, signature: Seq<char>, payload: Seq<u8>, keys: Seq<VerificationKey>)
    ensures
        any_key_scan(protected, signature, payload, keys) is Verified <==> exists|i: int|
            0 <= i < keys.len() && #[trigger] key_outcome(protected, signature, payload, keys[i]) is Ok,
        any_key_scan(protected, signature, payload, keys) matches KeyScan::Failed { compatible, mismatch_seen, .. }
            ==> (compatible is None <==> forall|i: int| 0 <= i < keys.len() ==> #[trigger] key_outcome(
            protected,
            signature,
            payload,
            keys[i],
        ) == Err::<super::algorithm::JwsAlgorithm, VerificationFailure>(VerificationFailure::AlgorithmKeyMismatch))
            && (compatible matches Some(f) ==> f != VerificationFailure::AlgorithmKeyMismatch) && (mismatch_seen
            <==> exists|i: int| 0 <= i < keys.len() && #[trigger] key_outcome(protected, signature, payload, keys[i])
            == Err::<super::algorithm::JwsAlgorithm, VerificationFailure>(VerificationFailure::AlgorithmKeyMismatch)),
    decreases keys.len(),
{
    if keys.len() > 0 {
        let init = keys.drop_last();
        let n = keys.len() - 1;
        lemma_scan_facts(protected, signature, payload, init);
        assert forall|i: int| 0 <= i < n implies keys[i] == init[i] by {}
        assert(keys[n] == keys.last());
        let last = key_outcome(protected, signature, payload, keys[n]);
        if any_key_scan(protected, signature, payload, init) is Verified {
            let w = choose|i: int| 0 <= i < init.len() && #[trigger] key_outcome(protected, signature, payload, init[i]) is Ok;
            assert(key_outcome(protected, signature, payload, keys[w]) is Ok);
        } else if last is Ok {
        } else {
            assert forall|i: int| 0 <= i < keys.len() implies !(#[trigger] key_outcome(protected, signature, payload, keys[i]) is Ok) by {
                if i < n {
                    assert(key_outcome(protected, signature, payload, init[i]) is Err);
                }
            }
            if let KeyScan::Failed { compatible, mismatch_seen, .. } = any_key_scan(protected, signature, payload, init) {
                if last == Err::<super::algorithm::JwsAlgorithm, VerificationFailure>(VerificationFailure::AlgorithmKeyMismatch) {
                    if compatible is None {
                        assert forall|i: int| 0 <= i < keys.len() implies #[trigger] key_outcome(protected, signature, payload, keys[i])
                            == Err::<super::algorithm::JwsAlgorithm, VerificationFailure>(VerificationFailure::AlgorithmKeyMismatch) by {
                            if i < n {
                                assert(key_outcome(protected, signature, payload, init[i]) == Err::<super::algorithm::JwsAlgorithm, VerificationFailure>(VerificationFailure::AlgorithmKeyMismatch));
                            }
                        }
                    } else {
                        let w = choose|i: int| 0 <= i < init.len() && !(#[trigger] key_outcome(protected, signature, payload, init[i])
                            == Err::<super::algorithm::JwsAlgorithm, VerificationFailure>(VerificationFailure::AlgorithmKeyMismatch));
                        assert(key_outcome(protected, signature, payload, keys[w]) == key_outcome(protected, signature, payload, init[w]));
                    }
                } else {
                    if mismatch_seen {
                        let w = choose|i: int| 0 <= i < init.len() && #[trigger] key_outcome(protected, signature, payload, init[i])
                            == Err::<super::algorithm::JwsAlgorithm, VerificationFailure>(VerificationFailure::AlgorithmKeyMismatch);
                        assert(key_outcome(protected, signature, payload, keys[w]) == key_outcome(protected, signature, payload, init[w]));
                    } else {
                        assert forall|i: int| 0 <= i < keys.len() implies #[trigger] key_outcome(protected, signature, payload, keys[i])
                            != Err::<super::algorithm::JwsAlgorithm, VerificationFailure>(VerificationFailure::AlgorithmKeyMismatch) by {
                            if i < n {
                                assert(key_outcome(protected, signature, payload, init[i]) != Err::<super::algorithm::JwsAlgorithm, VerificationFailure>(VerificationFailure::AlgorithmKeyMismatch));
                            }
                        }
                    }
                }
            }
        }
    }
}

/// Trying every key accepts a signature exactly when some key verifies it.
pub proof fn lemma_any_key_accepts_iff_a_key_verifies(
    protected: Seq<char>,
    signature: Seq<char>,
    payload: Seq<u8>,
    keys: Seq<VerificationKey>,
)
    ensures
        any_key_outcome(protected, signature, payload, keys) is Ok <==> exists|i: int|
            0 <= i < keys.len() && #[trigger] key_outcome(protected, signature, payload, keys[i]) is Ok,
{
    lemma_scan_facts(protected, signature, payload, keys);
}

/// When no key verifies a signature, the failure reported is the most telling
/// one: `AlgorithmKeyMismatch` exactly when there are keys and every one is for
/// another algorithm than the header's; `SignatureInvalid` when there are no keys.
pub proof fn lemma_any_key_failure_priority(
    protected: Seq<char>,
    signature: Seq<char>,
    payload: Seq<u8>,
    keys: Seq<VerificationKey>,
)
    requires
        any_key_outcome(protected, signature, payload, keys) is Err,
    ensures
        keys.len() == 0 ==> any_key_outcome(protected, signature, payload, keys) == Err::<(), VerificationFailure>(
            VerificationFailure::SignatureInvalid,
        ),
        any_key_outcome(protected, signature, payload, keys) == Err::<(), VerificationFailure>(
            VerificationFailure::AlgorithmKeyMismatch,
        ) <==> (keys.len() > 0 && forall|i: int| 0 <= i < keys.len() ==> #[trigger] key_outcome(
            protected,
            signature,
            payload,
            keys[i],
        ) == Err::<super::algorithm::JwsAlgorithm, VerificationFailure>(VerificationFailure::AlgorithmKeyMismatch)),
{
    lemma_scan_facts(protected, signature, payload, keys);
}

/// A card's signatures are accepted exactly when each one is; otherwise the
/// failure is that of the first signature that is not.
pub proof fn lemma_every_signature_must_verify(
    sigs: Seq<AgentCardSignature>,
    payload: Seq<u8>,
    keys: Seq<VerificationKey>,
)
    ensures
        signatures_outcome(sigs, payload, keys) is Ok <==> forall|i: int| 0 <= i < sigs.len()
            ==> #[trigger] signature_outcome(sigs[i], payload, keys) is Ok,
        signatures_outcome(sigs, payload, keys) matches Err(f) ==> exists|i: int| 0 <= i < sigs.len()
            && #[trigger] signature_outcome(sigs[i], payload, keys) == Err::<(), VerificationFailure>(f)
            && forall|j: int| 0 <= j < i ==> #[trigger] signature_outcome(sigs[j], payload, keys) is Ok,
    decreases sigs.len(),
{
    if sigs.len() > 0 {
        let init = sigs.drop_last();
        let n = sigs.len() - 1;
        lemma_every_signature_must_verify(init, payload, keys);
        assert forall|i: int| 0 <= i < n implies sigs[i] == init[i] by {}
        assert(sigs[n] == sigs.last());
        match signatures_outcome(init, payload, keys) {
            Err(f) => {
                let w = choose|i: int| 0 <= i < init.len()
                    && #[trigger] signature_outcome(init[i], payload, keys) == Err::<(), VerificationFailure>(f)
                    && forall|j: int| 0 <= j < i ==> #[trigger] signature_outcome(init[j], payload, keys) is Ok;
                assert(signature_outcome(sigs[w], payload, keys) == Err::<(), VerificationFailure>(f));
                assert forall|j: int| 0 <= j < w implies #[trigger] signature_outcome(sigs[j], payload, keys) is Ok by {
                    assert(signature_outcome(init[j], payload, keys) is Ok);
                }
            },
            Ok(()) => {
                assert forall|j: int| 0 <= j < n implies #[trigger] signature_outcome(sigs[j], payload, keys) is Ok by {
                    assert(signature_outcome(init[j], payload, keys) is Ok);
                }
            },
        }
    }
}

} // verus!
