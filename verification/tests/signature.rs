use base64::Engine;
use hmac::Mac;
use line_bot_sdk_utils::signature::{
    compute_signature, validate_signature, SignatureValidationError,
};

/// Computes the expected signature independently of the library: the standard
/// base64 encoding of HMAC-SHA256(secret, body).
fn sign(secret: &str, body: &[u8]) -> String {
    let mut mac = <hmac::Hmac<sha2::Sha256> as Mac>::new_from_slice(secret.as_bytes()).unwrap();
    mac.update(body);
    let tag = mac.finalize().into_bytes();
    base64::engine::general_purpose::STANDARD.encode(tag)
}

#[test]
fn valid_signature_accepted() {
    let body = b"{\"events\":[]}";
    let secret = "channel_secret";
    let signature = sign(secret, body);
    assert_eq!(validate_signature(body, secret, &signature), Ok(true));
}

#[test]
fn compute_signature_matches_independent_computation() {
    let body = b"{\"events\":[{\"type\":\"message\"}]}";
    let secret = "another_secret";
    let computed = compute_signature(body, secret).unwrap();
    assert_eq!(computed, sign(secret, body));
    assert_eq!(validate_signature(body, secret, &computed), Ok(true));
}

#[test]
fn every_single_bit_flip_rejected() {
    let body = b"payload under test";
    let secret = "channel_secret";
    let valid = sign(secret, body);
    let tag = base64::engine::general_purpose::STANDARD
        .decode(&valid)
        .unwrap();
    for byte_index in 0..tag.len() {
        for bit in 0..8 {
            let mut flipped = tag.clone();
            flipped[byte_index] ^= 1u8 << bit;
            let forged = base64::engine::general_purpose::STANDARD.encode(&flipped);
            assert_eq!(validate_signature(body, secret, &forged), Ok(false));
        }
    }
}

#[test]
fn wrong_secret_rejected() {
    let body = b"hello";
    let signature = sign("secret_one", body);
    assert_eq!(validate_signature(body, "secret_two", &signature), Ok(false));
}

#[test]
fn malformed_signature_is_error_not_false() {
    let body = b"hello";
    let result = validate_signature(body, "secret", "not-valid-base64!!");
    assert_eq!(
        result,
        Err(SignatureValidationError::InvalidSignatureFormat)
    );
}

#[test]
fn missing_padding_is_error() {
    let body = b"hello";
    let secret = "secret";
    let mut signature = sign(secret, body);
    while signature.ends_with('=') {
        signature.pop();
    }
    assert_eq!(
        validate_signature(body, secret, &signature),
        Err(SignatureValidationError::InvalidSignatureFormat)
    );
}

#[test]
fn appended_byte_rejected() {
    let secret = "channel_secret";
    let signature = sign(secret, b"hello");
    assert_eq!(validate_signature(b"hello!", secret, &signature), Ok(false));
}

#[test]
fn empty_payload_accepted() {
    let secret = "secret";
    let signature = sign(secret, b"");
    assert_eq!(signature, "+eZuF5tnR65UEI+C+K3os8Jddv0wr95sOVgixTAZYWk=");
    assert_eq!(validate_signature(b"", secret, &signature), Ok(true));
}

#[test]
fn pinned_vector_accepted() {
    // HMAC-SHA256("secret", "hello"), standard base64 with padding.
    let pinned = "iKqz7ejTrflNJquQ07r9SiCDBww7zOnAFO4EpEOEfAs=";
    assert_eq!(validate_signature(b"hello", "secret", pinned), Ok(true));
    assert_eq!(compute_signature(b"hello", "secret").unwrap(), pinned);
}

#[test]
fn url_safe_alphabet_rejected() {
    // The correct signature for this pair contains '+'; its URL-safe spelling
    // must be reported as malformed, not compared.
    let secret = "secret";
    let standard = sign(secret, b"");
    assert!(standard.contains('+'));
    let url_safe = standard.replace('+', "-").replace('/', "_");
    assert_eq!(
        validate_signature(b"", secret, &url_safe),
        Err(SignatureValidationError::InvalidSignatureFormat)
    );
}

#[test]
fn well_formed_signature_of_wrong_length_is_false_not_error() {
    let body = b"hello";
    let short = base64::engine::general_purpose::STANDARD.encode(b"short");
    assert_eq!(validate_signature(body, "secret", &short), Ok(false));
}

#[test]
fn error_messages() {
    assert_eq!(
        SignatureValidationError::InvalidSignatureFormat.message(),
        "Invalid signature format: signature must be base64 encoded"
    );
    assert_eq!(
        SignatureValidationError::InvalidKey.message(),
        "Invalid channel secret key"
    );
}
