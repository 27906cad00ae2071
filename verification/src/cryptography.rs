//! Ed25519 signature verification over payload bytes.
//!
//! Verification fails closed: a key or signature of the wrong size, or a
//! key that does not decode, never validates. Signing is the wallet's
//! concern and has no place here.

use core::convert::TryInto;
use ed25519_dalek::Verifier;
use vstd::prelude::*;

verus! {

/// Whether Ed25519 verification of `signature` over `message` under
/// `public_key` succeeds, named; dalek's verification is a pure function of
/// the three byte strings.
pub uninterp spec fn ed25519_verify_ok(
    public_key: Seq<u8>,
    message: Seq<u8>,
    signature: Seq<u8>,
) -> bool;

/// Relies on ed25519_dalek::VerifyingKey::{from_bytes, verify}: the outcome
/// depends on the key, message and signature bytes alone, and a key that
/// does not decode fails verification.
#[verifier::external_body]
fn dalek_verify(public_key: &[u8], message: &[u8], signature: &[u8]) -> (r: bool)
    requires
        public_key@.len() == 32,
        signature@.len() == 64,
    ensures
        r == ed25519_verify_ok(public_key@, message@, signature@),
{
    let pk: [u8; 32] = public_key.try_into().unwrap();
    let sig: [u8; 64] = signature.try_into().unwrap();
    match ed25519_dalek::VerifyingKey::from_bytes(&pk) {
        Ok(vk) => vk.verify(message, &ed25519_dalek::Signature::from_bytes(&sig)).is_ok(),
        Err(_) => false,
    }
}

/// What `verify` decides: the key and signature are well-sized and the
/// Ed25519 check passes over the payload's UTF-8 bytes.
pub open spec fn spec_verify(public_key: Seq<u8>, message: Seq<char>, signature: Seq<u8>) -> bool {
    &&& public_key.len() == 32
    &&& signature.len() == 64
    &&& ed25519_verify_ok(public_key, vstd::utf8::encode_utf8(message), signature)
}

/// Checks an Ed25519 signature over the payload's UTF-8 bytes; any
/// malformed key or signature yields `false`.
pub fn verify(public_key: &Vec<u8>, original_message: &String, signature: &Vec<u8>) -> (r: bool)
    ensures
        r == spec_verify(public_key@, original_message@, signature@),
{
    if public_key.len() != 32 || signature.len() != 64 {
        return false;
    }
    dalek_verify(
        public_key.as_slice(),
        original_message.as_str().as_bytes(),
        signature.as_slice(),
    )
}

} // verus!
