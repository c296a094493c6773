//! Trusted boundary to the cryptographic crates: SHA3-256 digests, Ed25519
//! key derivation and signing, and the operating-system randomness source.
//! The digests and signatures are deterministic functions of their inputs,
//! so they are given names that the rest of the library's contracts use.
use sha3::Digest;
use vstd::prelude::*;

verus! {

/// The SHA3-256 digest of a byte sequence (32 bytes).
pub uninterp spec fn sha3_256_of(bytes: Seq<u8>) -> Seq<u8>;

/// The Ed25519 public key derived from a 32-byte secret key (32 bytes).
pub uninterp spec fn ed25519_public_of(sk: Seq<u8>) -> Seq<u8>;

/// The Ed25519 signature over a message under a 32-byte secret key
/// (64 bytes; Ed25519 signing is deterministic, RFC 8032).
pub uninterp spec fn ed25519_sign_of(sk: Seq<u8>, msg: Seq<u8>) -> Seq<u8>;

/// Relies on `sha3::Sha3_256`: the digest is 32 bytes and depends on the
/// input bytes alone.
#[verifier::external_body]
pub(crate) fn sha3_256(bytes: &Vec<u8>) -> (r: Vec<u8>)
    ensures
        r@ == sha3_256_of(bytes@),
        r@.len() == 32,
{
    let mut hasher = sha3::Sha3_256::new();
    hasher.update(bytes.as_slice());
    hasher.finalize().to_vec()
}

/// Relies on `ed25519_dalek::SigningKey::from_bytes` and `verifying_key`:
/// the 32-byte public key is a function of the 32 secret-key bytes alone.
#[verifier::external_body]
pub(crate) fn ed25519_public_key(sk: &Vec<u8>) -> (r: Vec<u8>)
    requires
        sk@.len() == 32,
    ensures
        r@ == ed25519_public_of(sk@),
        r@.len() == 32,
{
    let bytes: [u8; 32] = sk.as_slice().try_into().unwrap();
    ed25519_dalek::SigningKey::from_bytes(&bytes).verifying_key().to_bytes().to_vec()
}

/// Whether `sig` is a valid Ed25519 signature over `msg` under the public
/// key `pk`: what verification returns, a function of the three arguments
/// alone.
pub uninterp spec fn ed25519_valid(pk: Seq<u8>, msg: Seq<u8>, sig: Seq<u8>) -> bool;

/// Relies on `ed25519_dalek::Verifier::verify`: deterministic Ed25519
/// signature verification; malformed key or signature bytes never verify.
#[verifier::external_body]
pub(crate) fn ed25519_verify(pk: &Vec<u8>, msg: &Vec<u8>, sig: &Vec<u8>) -> (r: bool)
    ensures
        r == ed25519_valid(pk@, msg@, sig@),
{
    let pk_arr: [u8; 32] = match pk.as_slice().try_into() {
        Ok(a) => a,
        Err(_) => return false,
    };
    let sig_arr: [u8; 64] = match sig.as_slice().try_into() {
        Ok(a) => a,
        Err(_) => return false,
    };
    let vk = match ed25519_dalek::VerifyingKey::from_bytes(&pk_arr) {
        Ok(k) => k,
        Err(_) => return false,
    };
    let sig = ed25519_dalek::Signature::from_bytes(&sig_arr);
    ed25519_dalek::Verifier::verify(&vk, msg.as_slice(), &sig).is_ok()
}

/// Relies on `ed25519_dalek::Signer::try_sign`: Ed25519 signing is
/// deterministic, a 64-byte function of the secret key and message alone;
/// for a well-formed 32-byte key it does not fail, and the produced
/// signature verifies under the key's derived public key (RFC 8032).
#[verifier::external_body]
pub(crate) fn ed25519_sign(sk: &Vec<u8>, msg: &Vec<u8>) -> (r: Vec<u8>)
    requires
        sk@.len() == 32,
    ensures
        r@ == ed25519_sign_of(sk@, msg@),
        r@.len() == 64,
        ed25519_valid(ed25519_public_of(sk@), msg@, r@),
{
    let bytes: [u8; 32] = sk.as_slice().try_into().unwrap();
    let key = ed25519_dalek::SigningKey::from_bytes(&bytes);
    let sig = ed25519_dalek::Signer::try_sign(&key, msg.as_slice()).unwrap();
    sig.to_bytes().to_vec()
}

/// Relies on `rand_core::OsRng` (through `rand`): on success the buffer holds
/// 32 bytes from the operating system; nothing is assumed about their values.
#[verifier::external_body]
pub(crate) fn random_seed() -> (r: Option<Vec<u8>>)
    ensures
        r matches Some(v) ==> v@.len() == 32,
{
    let mut buf = [0u8; 32];
    match rand::RngCore::try_fill_bytes(&mut rand::rngs::OsRng, &mut buf) {
        Ok(()) => Some(buf.to_vec()),
        Err(_) => None,
    }
}

} // verus!
