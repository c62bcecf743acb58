//! The request verifier: proof that an inbound request was signed by the
//! configured authority.
//!
//! The signed message is the timestamp header's bytes followed by the raw
//! body bytes; the detached signature arrives hex-encoded in a header of its
//! own. Verification is strict (non-malleable) Ed25519.

use crate::hexcode::hex_decoded;
use crate::hexcode::hex_decode;
use crate::hexcode::is_hex_string;
use crate::RequestError;
use vstd::prelude::*;

verus! {

/// Length in hexadecimal digits of an encoded public key (32 bytes).
pub const PUBLIC_KEY_HEX_LEN: usize = 64;

/// Length in hexadecimal digits of an encoded detached signature (64 bytes).
pub const SIGNATURE_HEX_LEN: usize = 128;

/// Whether strict Ed25519 verification accepts `sig` as a signature over
/// `msg` under the public key bytes `key`. A `key` that is not a valid
/// curve point accepts no message at all.
pub uninterp spec fn ed25519_verifies(key: Seq<u8>, msg: Seq<u8>, sig: Seq<u8>) -> bool;

/// The message whose signature is checked: timestamp bytes, then body bytes.
pub open spec fn signed_message(timestamp: Seq<u8>, body: Seq<u8>) -> Seq<u8> {
    timestamp + body
}

/// Relies on `ed25519_dalek::VerifyingKey::from_bytes` and
/// `VerifyingKey::verify_strict`: strict verification of a detached
/// signature, a deterministic function of key, message and signature bytes
/// alone. A key that does not decompress to a curve point verifies nothing.
#[verifier::external_body]
fn ed25519_verify_strict(key: &[u8], msg: &Vec<u8>, sig: &[u8]) -> (r: bool)
    requires
        key@.len() == 32,
        sig@.len() == 64,
    ensures
        r == ed25519_verifies(key@, msg@, sig@),
{
    let key_arr: [u8; 32] = match key.try_into() {
        Ok(a) => a,
        Err(_) => return false,
    };
    let sig_arr: [u8; 64] = match sig.try_into() {
        Ok(a) => a,
        Err(_) => return false,
    };
    match ed25519_dalek::VerifyingKey::from_bytes(&key_arr) {
        Ok(vk) => vk.verify_strict(msg.as_slice(), &ed25519_dalek::Signature::from_bytes(&sig_arr)).is_ok(),
        Err(_) => false,
    }
}

/// The authority's public verification key, held as its 32 raw bytes.
/// Built once at startup from configuration and shared read-only.
#[derive(Debug)]
pub struct AuthorityKey {
    bytes: Vec<u8>,
}

impl View for AuthorityKey {
    type V = Seq<u8>;

    closed spec fn view(&self) -> Seq<u8> {
        self.bytes@
    }
}

impl AuthorityKey {
    /// A well-formed key holds exactly 32 bytes.
    pub open spec fn wf(&self) -> bool {
        self@.len() == 32
    }

    /// Parses the configured key from its hexadecimal form.
    ///
    /// Succeeds exactly on a well-formed hexadecimal string of 64 digits,
    /// and then holds the 32 bytes it denotes.
    pub fn from_hex(hex: &[u8]) -> (r: Result<AuthorityKey, RequestError>)
        ensures
            r matches Ok(k) ==> k.wf() && k@ == hex_decoded(hex@),
            r is Ok <==> is_hex_string(hex@) && hex@.len() == PUBLIC_KEY_HEX_LEN,
            r matches Err(e) ==> e == RequestError::MalformedSignature,
    {
        if hex.len() != PUBLIC_KEY_HEX_LEN {
            return Err(RequestError::MalformedSignature);
        }
        match hex_decode(hex) {
            Some(bytes) => Ok(AuthorityKey { bytes }),
            None => Err(RequestError::MalformedSignature),
        }
    }
}

/// A request body together with the fact that verification accepted it.
/// Transient: it exists only while one request is processed, and only the
/// verifier constructs it.
#[derive(Debug)]
pub struct VerifiedRequest {
    body: Vec<u8>,
}

impl View for VerifiedRequest {
    type V = Seq<u8>;

    closed spec fn view(&self) -> Seq<u8> {
        self.body@
    }
}

impl VerifiedRequest {
    /// The verified raw body bytes, now eligible for decoding.
    pub fn body(&self) -> (r: &Vec<u8>)
        ensures
            r@ == self@,
    {
        &self.body
    }
}

/// Checks that the request's detached signature proves its authenticity.
///
/// Fails with `MissingHeader` when either header is absent (before any
/// cryptographic work), with `MalformedSignature` when the signature header
/// is not 128 hexadecimal digits, and with `VerificationFailed` when strict
/// Ed25519 verification rejects the (timestamp ‖ body, signature) pair.
/// Succeeds exactly when verification accepts it, and then hands the body
/// on for decoding.
pub fn verify_request(
    key: &AuthorityKey,
    signature_hex: Option<&Vec<u8>>,
    timestamp: Option<&Vec<u8>>,
    body: Vec<u8>,
) -> (r: Result<VerifiedRequest, RequestError>)
    requires
        key.wf(),
    ensures
        ((r matches Err(e) && e == RequestError::MissingHeader) <==> (signature_hex is None
            || timestamp is None)),
        signature_hex matches Some(sh) ==> ((r matches Err(e) && e
            == RequestError::MalformedSignature) <==> (timestamp is Some && !(is_hex_string(sh@)
            && sh@.len() == SIGNATURE_HEX_LEN))),
        signature_hex matches Some(sh) ==> timestamp matches Some(ts) ==> (is_hex_string(sh@)
            && sh@.len() == SIGNATURE_HEX_LEN) ==> {
            let accepted = ed25519_verifies(
                key@,
                signed_message(ts@, body@),
                hex_decoded(sh@),
            );
            &&& (r matches Ok(v) ==> v@ == body@)
            &&& (r is Ok <==> accepted)
            &&& (!accepted ==> (r matches Err(e) && e == RequestError::VerificationFailed))
        },
{
    let sh = match signature_hex {
        Some(s) => s,
        None => {
            return Err(RequestError::MissingHeader);
        },
    };
    let ts = match timestamp {
        Some(t) => t,
        None => {
            return Err(RequestError::MissingHeader);
        },
    };
    if sh.len() != SIGNATURE_HEX_LEN {
        return Err(RequestError::MalformedSignature);
    }
    let sig = match hex_decode(sh.as_slice()) {
        Some(v) => v,
        None => {
            return Err(RequestError::MalformedSignature);
        },
    };
    let mut msg: Vec<u8> = Vec::new();
    msg.extend_from_slice(ts.as_slice());
    msg.extend_from_slice(body.as_slice());
    proof {
        assert(msg@ =~= signed_message(ts@, body@));
    }
    if ed25519_verify_strict(key.bytes.as_slice(), &msg, sig.as_slice()) {
        Ok(VerifiedRequest { body })
    } else {
        Err(RequestError::VerificationFailed)
    }
}

} // verus!
