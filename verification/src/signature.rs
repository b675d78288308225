//! Webhook signature validation.
//!
//! A webhook request is authentic when the value of its signature header,
//! decoded from standard base64, equals the HMAC-SHA256 tag of the raw request
//! body keyed by the channel secret. The comparison runs in constant time so
//! that a caller cannot learn the expected tag byte by byte from timing.

use vstd::prelude::*;
use base64::Engine;
use hmac::{Hmac, Mac};
use sha2::Sha256;

verus! {

use vstd::string::StringSliceAdditionalSpecFns;

/// Errors that can occur during signature validation.
#[derive(Debug, Clone, Copy, PartialEq, Eq, Structural)]
pub enum SignatureValidationError {
    /// The claimed signature is not valid standard base64.
    InvalidSignatureFormat,
    /// The channel secret could not be used as a MAC key.
    InvalidKey,
}

impl SignatureValidationError {
    /// A human-readable description of the error.
    pub fn message(&self) -> (r: &'static str)
        ensures
            *self is InvalidSignatureFormat ==> r@ == "Invalid signature format: signature must be base64 encoded"@,
            *self is InvalidKey ==> r@ == "Invalid channel secret key"@,
    {
        match self {
            SignatureValidationError::InvalidSignatureFormat => {
                "Invalid signature format: signature must be base64 encoded"
            },
            SignatureValidationError::InvalidKey => "Invalid channel secret key",
        }
    }
}

/// What decoding a character sequence as standard, padded base64 yields:
/// `Some` of the decoded bytes, or `None` when the text is not valid base64.
pub uninterp spec fn base64_decode_of(s: Seq<char>) -> Option<Seq<u8>>;

/// The standard, padded base64 encoding of a byte sequence.
pub uninterp spec fn base64_encode_of(bytes: Seq<u8>) -> Seq<char>;

/// The HMAC-SHA256 tag of a message under a key.
pub uninterp spec fn hmac_sha256_of(key: Seq<u8>, msg: Seq<u8>) -> Seq<u8>;

/// The verification outcome as a function of the three inputs: a claimed
/// signature that fails to decode is malformed input, and one that decodes is
/// accepted exactly when its bytes are the HMAC-SHA256 tag of the body under
/// the key.
pub open spec fn spec_verify(body: Seq<u8>, key: Seq<u8>, signature: Seq<char>) -> Result<
    bool,
    SignatureValidationError,
> {
    match base64_decode_of(signature) {
        Some(claimed) => Ok(claimed == hmac_sha256_of(key, body)),
        None => Err(SignatureValidationError::InvalidSignatureFormat),
    }
}

/// Relies on base64's `engine::general_purpose::STANDARD`: decodes the
/// standard alphabet with canonical padding required, and the result is a
/// function of the input text alone.
#[verifier::external_body]
fn base64_decode(s: &str) -> (r: Result<Vec<u8>, ()>)
    ensures
        r matches Ok(v) ==> base64_decode_of(s@) == Some(v@),
        r is Err <==> base64_decode_of(s@) is None,
{
    match base64::engine::general_purpose::STANDARD.decode(s) {
        Ok(v) => Ok(v),
        Err(_) => Err(()),
    }
}

/// Relies on base64's `engine::general_purpose::STANDARD`: encoding emits
/// standard, padded base64, which the same engine's decode inverts.
#[verifier::external_body]
fn base64_encode(bytes: &[u8]) -> (r: String)
    ensures
        r@ == base64_encode_of(bytes@),
        base64_decode_of(r@) == Some(bytes@),
{
    base64::engine::general_purpose::STANDARD.encode(bytes)
}

/// Relies on hmac's `Hmac<Sha256>`: `new_from_slice` accepts a key of any
/// length and returns `Ok` unconditionally, and `finalize().into_bytes()` is
/// the HMAC-SHA256 tag of the updated data, a function of key and message
/// alone.
#[verifier::external_body]
fn hmac_sha256(key: &[u8], msg: &[u8]) -> (r: Result<Vec<u8>, ()>)
    ensures
        r is Ok,
        r matches Ok(tag) ==> tag@ == hmac_sha256_of(key@, msg@),
{
    let mut mac = match <Hmac<Sha256> as Mac>::new_from_slice(key) {
        Ok(m) => m,
        Err(_) => return Err(()),
    };
    mac.update(msg);
    Ok(mac.finalize().into_bytes().to_vec())
}

/// Compares two byte slices of equal length without revealing, through timing
/// or branching, the position of the first mismatch: every byte pair is XORed
/// and the differences are accumulated with bitwise OR before the single test
/// against zero.
fn constant_time_eq(a: &[u8], b: &[u8]) -> (r: bool)
    requires
        a@.len() == b@.len(),
    ensures
        r == (a@ == b@),
{
    let mut acc: u8 = 0;
    let mut i: usize = 0;
    while i < a.len()
        invariant
            a@.len() == b@.len(),
            i <= a@.len(),
            (acc == 0) <==> (forall|j: int| 0 <= j < i ==> a@[j] == b@[j]),
        decreases a@.len() - i,
    {
        let x: u8 = a[i];
        let y: u8 = b[i];
        let prev: u8 = acc;
        acc = prev | (x ^ y);
        proof {
            assert(((prev | (x ^ y)) == 0) <==> (prev == 0 && x == y)) by (bit_vector);
        }
        i = i + 1;
    }
    if acc == 0 {
        proof {
            assert(a@ =~= b@);
        }
        true
    } else {
        false
    }
}

/// Validates a webhook signature.
///
/// Decodes `signature` from standard base64, computes the HMAC-SHA256 tag of
/// `body` keyed by `channel_secret`, and compares the two in constant time.
///
/// Returns `Ok(true)` when the decoded signature equals the tag, `Ok(false)`
/// when it is well-formed but different (a length mismatch included), and
/// `Err(InvalidSignatureFormat)` when it is not valid base64. A mismatch is a
/// normal negative outcome, never an error.
pub fn validate_signature(body: &[u8], channel_secret: &str, signature: &str) -> (r: Result<
    bool,
    SignatureValidationError,
>)
    ensures
        r == spec_verify(body@, channel_secret.spec_bytes(), signature@),
{
    let claimed: Vec<u8> = match base64_decode(signature) {
        Ok(v) => v,
        Err(()) => {
            return Err(SignatureValidationError::InvalidSignatureFormat);
        },
    };
    let computed: Vec<u8> = match hmac_sha256(channel_secret.as_bytes(), body) {
        Ok(tag) => tag,
        Err(()) => {
            return Err(SignatureValidationError::InvalidKey);
        },
    };
    if claimed.len() != computed.len() {
        return Ok(false);
    }
    Ok(constant_time_eq(claimed.as_slice(), computed.as_slice()))
}

/// Computes the signature the platform would send for `body` under
/// `channel_secret`: the standard base64 encoding of the body's HMAC-SHA256
/// tag. [`validate_signature`] accepts the result for the same body and
/// secret.
pub fn compute_signature(body: &[u8], channel_secret: &str) -> (r: Result<
    String,
    SignatureValidationError,
>)
    ensures
        r is Ok,
        r matches Ok(sig) ==> sig@ == base64_encode_of(
            hmac_sha256_of(channel_secret.spec_bytes(), body@),
        ),
        r matches Ok(sig) ==> spec_verify(body@, channel_secret.spec_bytes(), sig@)
            == Ok::<bool, SignatureValidationError>(true),
{
    let tag: Vec<u8> = match hmac_sha256(channel_secret.as_bytes(), body) {
        Ok(t) => t,
        Err(()) => {
            return Err(SignatureValidationError::InvalidKey);
        },
    };
    let sig: String = base64_encode(tag.as_slice());
    proof {
        lemma_valid_signature_accepted(body@, channel_secret.spec_bytes(), sig@);
    }
    Ok(sig)
}

/// Law: a claimed signature that decodes to exactly the HMAC-SHA256 tag of the
/// payload under the key is accepted with `Ok(true)`. The empty payload is not
/// special: it satisfies this law like any other.
pub proof fn lemma_valid_signature_accepted(body: Seq<u8>, key: Seq<u8>, signature: Seq<char>)
    requires
        base64_decode_of(signature) == Some(hmac_sha256_of(key, body)),
    ensures
        spec_verify(body, key, signature) == Ok::<bool, SignatureValidationError>(true),
{
}

/// Law: a claimed signature that decodes to anything other than the true tag —
/// for instance a valid signature whose decoded bytes had a single bit flipped
/// before re-encoding — is rejected with `Ok(false)`, never with an error.
pub proof fn lemma_altered_signature_rejected(
    body: Seq<u8>,
    key: Seq<u8>,
    signature: Seq<char>,
    claimed: Seq<u8>,
)
    requires
        base64_decode_of(signature) == Some(claimed),
        claimed != hmac_sha256_of(key, body),
    ensures
        spec_verify(body, key, signature) == Ok::<bool, SignatureValidationError>(false),
{
}

/// Law: a signature computed under one key is rejected under a different key,
/// provided the two keys do not give the payload the same tag (distinct keys
/// whose tags collide exist mathematically but are negligibly rare, and are
/// excluded here).
pub proof fn lemma_wrong_key_rejected(
    body: Seq<u8>,
    key1: Seq<u8>,
    key2: Seq<u8>,
    signature: Seq<char>,
)
    requires
        key1 != key2,
        hmac_sha256_of(key1, body) != hmac_sha256_of(key2, body),
        base64_decode_of(signature) == Some(hmac_sha256_of(key1, body)),
    ensures
        spec_verify(body, key2, signature) == Ok::<bool, SignatureValidationError>(false),
{
}

/// Law: reusing a valid signature after the payload changed length — for
/// instance after one byte was appended — is rejected with `Ok(false)`,
/// provided the two payloads do not share a tag (collisions excluded as in
/// [`lemma_wrong_key_rejected`]).
pub proof fn lemma_stale_signature_rejected(
    body1: Seq<u8>,
    body2: Seq<u8>,
    key: Seq<u8>,
    signature: Seq<char>,
)
    requires
        body1.len() != body2.len(),
        hmac_sha256_of(key, body1) != hmac_sha256_of(key, body2),
        base64_decode_of(signature) == Some(hmac_sha256_of(key, body1)),
    ensures
        spec_verify(body2, key, signature) == Ok::<bool, SignatureValidationError>(false),
{
}

/// Law: a claimed signature that is not valid standard base64 is reported as
/// malformed input — `Err(InvalidSignatureFormat)` — never as a mere mismatch
/// `Ok(false)`.
pub proof fn lemma_malformed_signature_is_error(body: Seq<u8>, key: Seq<u8>, signature: Seq<char>)
    requires
        base64_decode_of(signature) is None,
    ensures
        spec_verify(body, key, signature) == Err::<bool, SignatureValidationError>(
            SignatureValidationError::InvalidSignatureFormat,
        ),
{
}

} // verus!
