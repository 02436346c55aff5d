//! Trusted wrappers over the cryptographic primitives: SHA-256 digests and
//! Ed25519 key checking, signing and verification. Each result that is a
//! pure function of its inputs is given an uninterpreted name, and the
//! contracts say no more of those names than the crates' sources show.

use ed25519_dalek::Signer;
use ed25519_dalek::Verifier;
use sha2::Digest;
use vstd::prelude::*;

verus! {

/// The SHA-256 digest of a byte sequence.
pub uninterp spec fn sha256_of(data: Seq<u8>) -> Seq<u8>;

/// Whether 32 bytes form a structurally valid Ed25519 verification key.
pub uninterp spec fn ed25519_key_ok(pk: Seq<u8>) -> bool;

/// The Ed25519 signature of a message under a 32-byte signing key.
pub uninterp spec fn ed25519_signature_of(key: Seq<u8>, msg: Seq<u8>) -> Seq<u8>;

/// The 32-byte verification key derived from a 32-byte signing key.
pub uninterp spec fn ed25519_public_of(key: Seq<u8>) -> Seq<u8>;

/// Whether a signature verifies for a message under a verification key.
pub uninterp spec fn ed25519_verifies(pk: Seq<u8>, msg: Seq<u8>, sig: Seq<u8>) -> bool;

/// Relies on `sha2::Sha256` through `Digest::digest`: a 32-byte digest
/// that depends on the input bytes alone.
#[verifier::external_body]
pub(crate) fn sha256(data: &[u8]) -> (r: Vec<u8>)
    ensures
        r@ == sha256_of(data@),
        r@.len() == 32,
{
    sha2::Sha256::digest(data).to_vec()
}

/// Relies on `ed25519_dalek::VerifyingKey::from_bytes`: it succeeds
/// exactly when the 32 bytes decompress to a curve point, a property of
/// the bytes alone.
#[verifier::external_body]
pub(crate) fn ed25519_check_key(pk: &[u8]) -> (r: bool)
    requires
        pk@.len() == 32,
    ensures
        r == ed25519_key_ok(pk@),
{
    ed25519_dalek::VerifyingKey::from_bytes(pk.try_into().unwrap()).is_ok()
}

/// Relies on `ed25519_dalek::SigningKey::from_bytes` (which accepts any 32
/// bytes) and `Signer::sign`: Ed25519 signing is deterministic, the
/// signature is 64 bytes, and it verifies under the signing key's own
/// verification key, which is itself a valid key.
#[verifier::external_body]
pub(crate) fn ed25519_sign(key: &[u8], msg: &[u8]) -> (r: Vec<u8>)
    requires
        key@.len() == 32,
    ensures
        r@ == ed25519_signature_of(key@, msg@),
        r@.len() == 64,
        r@ == ed25519_signature_of(key@, msg@) ==> ed25519_public_of(key@).len() == 32
            && ed25519_key_ok(ed25519_public_of(key@)) && ed25519_verifies(
            ed25519_public_of(key@),
            msg@,
            r@,
        ),
{
    let sk = ed25519_dalek::SigningKey::from_bytes(key.try_into().unwrap());
    sk.sign(msg).to_bytes().to_vec()
}

/// Relies on `ed25519_dalek::SigningKey::verifying_key` and
/// `VerifyingKey::to_bytes`: the 32-byte verification key derived from
/// the signing key, always a valid key.
#[verifier::external_body]
pub(crate) fn ed25519_public_key(key: &[u8]) -> (r: Vec<u8>)
    requires
        key@.len() == 32,
    ensures
        r@ == ed25519_public_of(key@),
        r@.len() == 32,
        ed25519_key_ok(r@),
{
    let sk = ed25519_dalek::SigningKey::from_bytes(key.try_into().unwrap());
    sk.verifying_key().to_bytes().to_vec()
}

/// Relies on `ed25519_dalek::VerifyingKey::from_bytes` (guaranteed to
/// succeed by the precondition), `Signature::from_bytes` (infallible) and
/// `Verifier::verify`: the outcome depends only on the key, message and
/// signature bytes.
#[verifier::external_body]
pub(crate) fn ed25519_verify(pk: &[u8], msg: &[u8], sig: &[u8]) -> (r: bool)
    requires
        pk@.len() == 32,
        ed25519_key_ok(pk@),
        sig@.len() == 64,
    ensures
        r == ed25519_verifies(pk@, msg@, sig@),
{
    let key = ed25519_dalek::VerifyingKey::from_bytes(pk.try_into().unwrap()).unwrap();
    let signature = ed25519_dalek::Signature::from_bytes(sig.try_into().unwrap());
    key.verify(msg, &signature).is_ok()
}

} // verus!
