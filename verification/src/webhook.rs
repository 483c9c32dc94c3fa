//! Webhook signature verification.
//!
//! A [`WebhookVerifier`] holds a shared secret and proves or disproves that a
//! byte payload was signed by a holder of the same secret: signing computes
//! the HMAC-SHA256 tag of the payload and renders it as lower-case
//! hexadecimal; verification decodes the presented signature and compares it
//! against the recomputed tag in constant time, never short-circuiting on the
//! first mismatched byte. A missing header, an undecodable header and a
//! mismatched tag are classified so that the latter two are indistinguishable
//! to the caller.

use vstd::prelude::*;

use hmac::{KeyInit, Mac};

use crate::error::SignatureError;
use crate::hex::{hex_decode, hex_encode, spec_hex_decode, spec_hex_encode};

verus! {

/// The HMAC-SHA256 authentication tag of a payload under a key. The tag is a
/// pure function of the two byte strings; its value is not restated here, the
/// name stands for what the hmac crate computes.
pub uninterp spec fn hmac_sha256_tag(key: Seq<u8>, payload: Seq<u8>) -> Seq<u8>;

/// Relies on the hmac crate's `Hmac<Sha256>`: the tag depends on the key and
/// payload bytes alone and is 32 bytes long; `Hmac::new_from_slice` accepts
/// keys of every length, so the `expect` cannot fire.
#[verifier::external_body]
fn compute_tag(secret: &[u8], payload: &[u8]) -> (r: Vec<u8>)
    ensures
        r@ == hmac_sha256_tag(secret@, payload@),
        r@.len() == 32,
{
    let mut mac = <hmac::Hmac<sha2::Sha256> as KeyInit>::new_from_slice(secret).expect(
        "HMAC accepts keys of any length",
    );
    mac.update(payload);
    mac.finalize().into_bytes().to_vec()
}

/// Byte-string equality computed in constant time: every byte of both
/// strings is inspected and the differences accumulated, so the time taken
/// does not depend on where, or whether, the strings differ. Only the
/// lengths, which a caller can observe anyway, short-circuit.
#[verifier::loop_isolation(false)]
fn ct_eq(a: &[u8], b: &[u8]) -> (r: bool)
    ensures
        r == (a@ == b@),
{
    let n = a.len();
    if n != b.len() {
        return false;
    }
    let mut diff: u8 = 0;
    let mut i: usize = 0;
    while i < n
        invariant
            0 <= i <= n,
            n == a@.len(),
            n == b@.len(),
            (diff == 0) <==> (forall|k: int| 0 <= k < i ==> a@[k] == b@[k]),
        decreases n - i,
    {
        let ai = *vstd::slice::slice_index_get(a, i);
        let bi = *vstd::slice::slice_index_get(b, i);
        let step = ai ^ bi;
        let ghost d0 = diff;
        diff = diff | step;
        proof {
            assert((ai ^ bi) == 0 <==> ai == bi) by (bit_vector);
            assert((d0 | step) == 0 <==> d0 == 0 && step == 0) by (bit_vector);
        }
        i = i + 1;
    }
    if diff == 0 {
        proof {
            assert(a@ =~= b@);
        }
        true
    } else {
        false
    }
}

/// What verification returns, for every combination of secret, payload and
/// presented signature: an absent header is reported as missing; a header
/// that does not decode as hexadecimal and a decoded tag that differs from
/// the expected one fail with the same error value.
pub open spec fn spec_verify(
    secret: Seq<u8>,
    payload: Seq<u8>,
    signature: Option<Seq<char>>,
) -> Result<(), SignatureError> {
    match signature {
        Option::None => Err(SignatureError::Missing),
        Option::Some(s) => match spec_hex_decode(s) {
            Option::None => Err(SignatureError::VerificationFailed),
            Option::Some(bytes) => if bytes == hmac_sha256_tag(secret, payload) {
                Ok(())
            } else {
                Err(SignatureError::VerificationFailed)
            },
        },
    }
}

/// Verifies webhook signatures sent by the platform. The secret is owned
/// exclusively by the verifier and is never rendered, logged or serialized;
/// the verifier holds no mutable state, so one instance serves any number of
/// concurrent calls.
#[derive(Clone, Debug, PartialEq, Eq)]
pub struct WebhookVerifier {
    secret: Vec<u8>,
}

impl View for WebhookVerifier {
    type V = Seq<u8>;

    closed spec fn view(&self) -> Seq<u8> {
        self.secret@
    }
}

impl WebhookVerifier {
    /// Creates a new verifier using the provided shared secret. HMAC-SHA256
    /// itself accepts key material of every length, including none; this
    /// constructor enforces non-empty key material, so a deployment with an
    /// empty secret fails here, before any signing or verification call.
    pub fn new(secret: &[u8]) -> (r: Result<WebhookVerifier, SignatureError>)
        ensures
            secret@.len() == 0 ==> r == Err::<WebhookVerifier, SignatureError>(
                SignatureError::InvalidSecretLength,
            ),
            secret@.len() > 0 ==> r is Ok && r->Ok_0@ == secret@,
    {
        if secret.len() == 0 {
            return Err(SignatureError::InvalidSecretLength);
        }
        Ok(WebhookVerifier { secret: vstd::slice::slice_to_vec(secret) })
    }

    /// Computes the expected signature for a payload: the lower-case
    /// hexadecimal rendering of the payload's HMAC-SHA256 tag under the
    /// stored secret. Deterministic in the secret and the payload, and never
    /// fails.
    pub fn sign_payload(&self, payload: &[u8]) -> (r: Result<String, SignatureError>)
        ensures
            r is Ok,
            r->Ok_0@ == spec_hex_encode(hmac_sha256_tag(self@, payload@)),
    {
        let tag = compute_tag(self.secret.as_slice(), payload);
        Ok(hex_encode(tag.as_slice()))
    }

    /// Validates the provided signature against the payload: absent
    /// signatures are reported as missing, and a signature that does not
    /// decode as hexadecimal fails with the same error as one that decodes
    /// to the wrong tag. The decoded bytes are compared against the
    /// recomputed tag in constant time.
    pub fn verify(&self, payload: &[u8], signature: Option<&str>) -> (r: Result<
        (),
        SignatureError,
    >)
        ensures
            r == spec_verify(self@, payload@, match signature {
                Option::Some(s) => Some(s@),
                Option::None => None,
            }),
    {
        let sig = match signature {
            Option::Some(s) => s,
            Option::None => {
                return Err(SignatureError::Missing);
            },
        };
        let bytes = match hex_decode(sig) {
            Option::Some(b) => b,
            Option::None => {
                return Err(SignatureError::VerificationFailed);
            },
        };
        let expected = compute_tag(self.secret.as_slice(), payload);
        if ct_eq(bytes.as_slice(), expected.as_slice()) {
            Ok(())
        } else {
            Err(SignatureError::VerificationFailed)
        }
    }
}

/// Signing and then verifying with the same secret succeeds, for every
/// payload and every secret.
pub proof fn lemma_sign_verify_round_trip(secret: Seq<u8>, payload: Seq<u8>)
    ensures
        spec_verify(secret, payload, Some(spec_hex_encode(hmac_sha256_tag(secret, payload))))
            == Ok::<(), SignatureError>(()),
{
    crate::hex::lemma_hex_round_trip(hmac_sha256_tag(secret, payload));
}

/// A signature made with a different secret is rejected as a verification
/// failure, on every payload for which the two secrets' tags differ. Pairs of
/// distinct secrets whose tags for the payload coincide are outside this
/// statement: the model cannot exclude them.
pub proof fn lemma_wrong_secret_rejected(s1: Seq<u8>, s2: Seq<u8>, payload: Seq<u8>)
    requires
        s1 != s2,
        hmac_sha256_tag(s1, payload) != hmac_sha256_tag(s2, payload),
    ensures
        spec_verify(s2, payload, Some(spec_hex_encode(hmac_sha256_tag(s1, payload)))) == Err::<
            (),
            SignatureError,
        >(SignatureError::VerificationFailed),
{
    crate::hex::lemma_hex_round_trip(hmac_sha256_tag(s1, payload));
}

/// A missing signature is always reported as missing, for every payload and
/// every secret.
pub proof fn lemma_missing_signature_reported(secret: Seq<u8>, payload: Seq<u8>)
    ensures
        spec_verify(secret, payload, None) == Err::<(), SignatureError>(SignatureError::Missing),
{
}

/// Signature text that does not decode as hexadecimal fails exactly like a
/// well-formed signature that decodes to the wrong tag: the same error
/// value, indistinguishable to the caller.
pub proof fn lemma_bad_encoding_indistinguishable(
    secret: Seq<u8>,
    payload: Seq<u8>,
    undecodable: Seq<char>,
    wrong: Seq<char>,
)
    requires
        spec_hex_decode(undecodable) is None,
        spec_hex_decode(wrong) is Some,
        spec_hex_decode(wrong)->0 != hmac_sha256_tag(secret, payload),
    ensures
        spec_verify(secret, payload, Some(undecodable)) == spec_verify(
            secret,
            payload,
            Some(wrong),
        ),
        spec_verify(secret, payload, Some(undecodable)) == Err::<(), SignatureError>(
            SignatureError::VerificationFailed,
        ),
{
}

} // verus!
