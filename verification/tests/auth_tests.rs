use ed25519_dalek::Signer;
use ed25519_dalek::SigningKey;
use playbot::auth::verify_request;
use playbot::auth::AuthorityKey;
use playbot::hexcode::hex_decode;
use playbot::RequestError;

fn hex_of(bytes: &[u8]) -> String {
    let mut s = String::new();
    for b in bytes {
        s.push(char::from_digit((b >> 4) as u32, 16).unwrap());
        s.push(char::from_digit((b & 15) as u32, 16).unwrap());
    }
    s
}

fn test_key() -> (SigningKey, AuthorityKey) {
    let sk = SigningKey::from_bytes(&[7u8; 32]);
    let key_hex = hex_of(&sk.verifying_key().to_bytes());
    let key = AuthorityKey::from_hex(key_hex.as_bytes()).unwrap();
    (sk, key)
}

fn sign(sk: &SigningKey, timestamp: &[u8], body: &[u8]) -> Vec<u8> {
    let mut msg = timestamp.to_vec();
    msg.extend_from_slice(body);
    hex_of(&sk.sign(&msg).to_bytes()).into_bytes()
}

#[test]
fn hex_decode_exact() {
    assert_eq!(hex_decode(b"00ff10"), Some(vec![0u8, 255u8, 16u8]));
    assert_eq!(hex_decode(b"DEadBEef"), Some(vec![0xde, 0xad, 0xbe, 0xef]));
    assert_eq!(hex_decode(b""), Some(vec![]));
}

#[test]
fn hex_decode_rejects_odd_length() {
    assert_eq!(hex_decode(b"abc"), None);
}

#[test]
fn hex_decode_rejects_bad_digit() {
    assert_eq!(hex_decode(b"zz"), None);
    assert_eq!(hex_decode(b"0g"), None);
}

#[test]
fn authority_key_rejects_bad_hex() {
    assert_eq!(
        AuthorityKey::from_hex(b"xyz").unwrap_err(),
        RequestError::MalformedSignature
    );
    let short = hex_of(&[1u8; 16]);
    assert_eq!(
        AuthorityKey::from_hex(short.as_bytes()).unwrap_err(),
        RequestError::MalformedSignature
    );
    let not_hex = vec![b'q'; 64];
    assert_eq!(
        AuthorityKey::from_hex(&not_hex).unwrap_err(),
        RequestError::MalformedSignature
    );
}

#[test]
fn valid_signature_verifies() {
    let (sk, key) = test_key();
    let ts = b"1700000000".to_vec();
    let body = br#"{"type":1}"#.to_vec();
    let sig = sign(&sk, &ts, &body);
    let verified = verify_request(&key, Some(&sig), Some(&ts), body.clone()).unwrap();
    assert_eq!(verified.body(), &body);
}

#[test]
fn flipped_body_byte_fails_verification() {
    let (sk, key) = test_key();
    let ts = b"1700000000".to_vec();
    let body = br#"{"type":1}"#.to_vec();
    let sig = sign(&sk, &ts, &body);
    let mut tampered = body.clone();
    tampered[0] ^= 1;
    assert_eq!(
        verify_request(&key, Some(&sig), Some(&ts), tampered).unwrap_err(),
        RequestError::VerificationFailed
    );
}

#[test]
fn flipped_timestamp_byte_fails_verification() {
    let (sk, key) = test_key();
    let ts = b"1700000000".to_vec();
    let body = br#"{"type":1}"#.to_vec();
    let sig = sign(&sk, &ts, &body);
    let mut bad_ts = ts.clone();
    bad_ts[3] ^= 1;
    assert_eq!(
        verify_request(&key, Some(&sig), Some(&bad_ts), body).unwrap_err(),
        RequestError::VerificationFailed
    );
}

#[test]
fn flipped_signature_byte_fails_verification() {
    let (sk, key) = test_key();
    let ts = b"1700000000".to_vec();
    let body = br#"{"type":1}"#.to_vec();
    let mut msg = ts.clone();
    msg.extend_from_slice(&body);
    let mut sig_bytes = sk.sign(&msg).to_bytes();
    sig_bytes[10] ^= 1;
    let sig = hex_of(&sig_bytes).into_bytes();
    assert_eq!(
        verify_request(&key, Some(&sig), Some(&ts), body).unwrap_err(),
        RequestError::VerificationFailed
    );
}

#[test]
fn wrong_key_fails_verification() {
    let (sk, _) = test_key();
    let other = SigningKey::from_bytes(&[9u8; 32]);
    let other_key = AuthorityKey::from_hex(hex_of(&other.verifying_key().to_bytes()).as_bytes())
        .unwrap();
    let ts = b"1700000000".to_vec();
    let body = b"hello".to_vec();
    let sig = sign(&sk, &ts, &body);
    assert_eq!(
        verify_request(&other_key, Some(&sig), Some(&ts), body).unwrap_err(),
        RequestError::VerificationFailed
    );
}

#[test]
fn missing_signature_header_fails_first() {
    let (_, key) = test_key();
    let ts = b"1700000000".to_vec();
    assert_eq!(
        verify_request(&key, None, Some(&ts), b"body".to_vec()).unwrap_err(),
        RequestError::MissingHeader
    );
}

#[test]
fn missing_timestamp_header_fails_first() {
    let (sk, key) = test_key();
    let ts = b"1700000000".to_vec();
    let body = b"body".to_vec();
    let sig = sign(&sk, &ts, &body);
    assert_eq!(
        verify_request(&key, Some(&sig), None, body).unwrap_err(),
        RequestError::MissingHeader
    );
}

#[test]
fn both_headers_missing_fails_first() {
    let (_, key) = test_key();
    assert_eq!(
        verify_request(&key, None, None, b"body".to_vec()).unwrap_err(),
        RequestError::MissingHeader
    );
}

#[test]
fn short_signature_is_malformed() {
    let (_, key) = test_key();
    let ts = b"1700000000".to_vec();
    let sig = b"abcd".to_vec();
    assert_eq!(
        verify_request(&key, Some(&sig), Some(&ts), b"body".to_vec()).unwrap_err(),
        RequestError::MalformedSignature
    );
}

#[test]
fn non_hex_signature_is_malformed() {
    let (_, key) = test_key();
    let ts = b"1700000000".to_vec();
    let sig = vec![b'x'; 128];
    assert_eq!(
        verify_request(&key, Some(&sig), Some(&ts), b"body".to_vec()).unwrap_err(),
        RequestError::MalformedSignature
    );
}
