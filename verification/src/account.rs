//! Identities: an Ed25519 key pair with the address and authentication key
//! derived from the public key, and the locally cached sequence number.
use vstd::prelude::*;

verus! {

use crate::crypto::ed25519_public_of;
use crate::crypto::ed25519_sign_of;
use crate::crypto::ed25519_valid;
use crate::crypto::sha3_256_of;
use crate::crypto::ed25519_public_key;
use crate::crypto::ed25519_sign;
use crate::crypto::random_seed;
use crate::crypto::sha3_256;
use crate::errors::IdentityError;
use crate::hexenc::spec_hex_encode;
use crate::hexenc::lemma_hex_bytes_len;
use crate::hexenc::hex_encode;
use vstd::utf8::is_ascii_chars;

/// The authentication-key bytes derived from a public key: the SHA3-256
/// digest of the public key followed by the single-signer scheme byte 0.
pub open spec fn spec_auth_key_bytes(pk: Seq<u8>) -> Seq<u8> {
    sha3_256_of(pk + seq![0u8])
}

/// The account address as lowercase hex characters. In this single-signer
/// scheme the address and the authentication key are the same derivation,
/// a pure function of the public key.
pub open spec fn spec_address_chars(pk: Seq<u8>) -> Seq<char> {
    spec_hex_encode(spec_auth_key_bytes(pk))
}

/// A key pair together with the locally cached sequence number for the
/// account it controls. The signing key never leaves the structure.
pub struct Identity {
    signing_key: Vec<u8>,
    public_key: Vec<u8>,
    sequence_number: u64,
}

impl Identity {
    /// The secret signing-key bytes (specification-level only).
    pub closed spec fn spec_signing_key(&self) -> Seq<u8> {
        self.signing_key@
    }

    /// The public verification-key bytes.
    pub closed spec fn spec_public_key(&self) -> Seq<u8> {
        self.public_key@
    }

    /// The cached sequence number.
    pub closed spec fn spec_sequence_number(&self) -> u64 {
        self.sequence_number
    }

    /// The key pair is complete and consistent: a 32-byte secret key whose
    /// derived public key is stored alongside it.
    pub open spec fn well_formed(&self) -> bool {
        self.spec_signing_key().len() == 32 && self.spec_public_key() == ed25519_public_of(
            self.spec_signing_key(),
        )
    }

    /// Creates an identity: from the 32 given seed bytes when a seed is
    /// supplied (deterministically), otherwise from fresh operating-system
    /// randomness. The cached sequence number starts at 0.
    pub fn create(seed: Option<Vec<u8>>) -> (r: Result<Identity, IdentityError>)
        ensures
            match r {
                Ok(id) => {
                    &&& id.well_formed()
                    &&& id.spec_sequence_number() == 0
                    &&& (seed matches Some(s) ==> id.spec_signing_key() == s@)
                },
                Err(e) => match e {
                    IdentityError::InvalidSeed => seed matches Some(s) && s@.len() != 32,
                    IdentityError::RandomnessFailure => seed is None,
                },
            },
    {
        let sk: Vec<u8> = match seed {
            Some(s) => {
                if s.len() != 32 {
                    return Err(IdentityError::InvalidSeed);
                }
                s
            },
            None => {
                match random_seed() {
                    Some(s) => s,
                    None => {
                        return Err(IdentityError::RandomnessFailure);
                    },
                }
            },
        };
        let pk = ed25519_public_key(&sk);
        Ok(Identity { signing_key: sk, public_key: pk, sequence_number: 0 })
    }

    /// The on-chain address: hex of the SHA3-256 digest of the public key
    /// followed by the scheme byte 0. Deterministic: a pure function of the
    /// public key, identical on every call.
    pub fn address(&self) -> (r: String)
        requires
            self.well_formed(),
        ensures
            r@ == spec_address_chars(self.spec_public_key()),
            is_ascii_chars(r@),
            r@.len() == 64,
    {
        let mut data = self.public_key.clone();
        data.push(0u8);
        proof {
            assert(data@ =~= self.spec_public_key() + seq![0u8]);
            lemma_hex_bytes_len(spec_auth_key_bytes(self.spec_public_key()));
        }
        let digest = sha3_256(&data);
        hex_encode(&digest)
    }

    /// The authentication key used by funding and account-creation flows.
    /// In this scheme it equals the address: the same pure derivation from
    /// the public key.
    pub fn authentication_key(&self) -> (r: String)
        requires
            self.well_formed(),
        ensures
            r@ == spec_address_chars(self.spec_public_key()),
            is_ascii_chars(r@),
            r@.len() == 64,
    {
        self.address()
    }

    /// Signs the message with the secret key. Ed25519 signing is
    /// deterministic, so the signature is a function of the key and the
    /// message alone; it verifies under the identity's public key, and the
    /// secret key itself is never exposed.
    pub fn sign(&self, message: &Vec<u8>) -> (r: Vec<u8>)
        requires
            self.well_formed(),
        ensures
            r@ == ed25519_sign_of(self.spec_signing_key(), message@),
            r@.len() == 64,
            ed25519_valid(self.spec_public_key(), message@, r@),
    {
        ed25519_sign(&self.signing_key, message)
    }

    /// A copy of the public verification-key bytes.
    pub fn public_key_bytes(&self) -> (r: Vec<u8>)
        ensures
            r@ == self.spec_public_key(),
    {
        self.public_key.clone()
    }

    /// The cached sequence number.
    pub fn sequence_number(&self) -> (r: u64)
        ensures
            r == self.spec_sequence_number(),
    {
        self.sequence_number
    }

    /// Replaces the cached sequence number (after fetching the on-chain
    /// counter); the key pair is untouched.
    pub fn set_sequence_number(&mut self, n: u64)
        ensures
            final(self).spec_sequence_number() == n,
            final(self).spec_signing_key() == old(self).spec_signing_key(),
            final(self).spec_public_key() == old(self).spec_public_key(),
    {
        self.sequence_number = n;
    }

    /// Advances the cached sequence number after a successful submission;
    /// the key pair is untouched.
    pub fn increment_sequence_number(&mut self)
        requires
            old(self).spec_sequence_number() < u64::MAX,
        ensures
            final(self).spec_sequence_number() == old(self).spec_sequence_number() + 1,
            final(self).spec_signing_key() == old(self).spec_signing_key(),
            final(self).spec_public_key() == old(self).spec_public_key(),
    {
        self.sequence_number = self.sequence_number + 1;
    }
}

/// Law: the address and the authentication key are pure functions of the
/// public key. Two identities with the same public key derive the same
/// address, and the authentication key is that same derivation, so repeated
/// calls can never disagree.
pub proof fn lemma_address_pure(a: Identity, b: Identity)
    requires
        a.spec_public_key() == b.spec_public_key(),
    ensures
        spec_address_chars(a.spec_public_key()) == spec_address_chars(b.spec_public_key()),
{
}

} // verus!
