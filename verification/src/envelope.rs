//! Transaction envelopes: the canonical, signable representation of one
//! submission, and the signing step that fixes it into wire bytes.
use vstd::prelude::*;

verus! {

use crate::account::Identity;
use crate::account::spec_address_chars;
use crate::codec::enc_signed;
use crate::codec::enc_unsigned;
use crate::codec::encode_signed;
use crate::codec::encode_unsigned;
use crate::codec::env_encodable;
use crate::codec::lemma_decode_encode_roundtrip;
use crate::codec::pow256;
use crate::codec::spec_decode_signed;
use crate::crypto::ed25519_public_of;
use crate::crypto::ed25519_sign_of;
use crate::crypto::ed25519_valid;
use crate::crypto::ed25519_verify;
use crate::errors::BuildError;
use crate::payload::ActionPayload;
use crate::payload::PayloadView;
use crate::payload::payload_is_ascii;
use vstd::utf8::is_ascii_chars;

/// Default gas budget for one transaction.
pub const MAX_GAS_AMOUNT: u64 = 1000;

/// Default gas unit price.
pub const GAS_UNIT_PRICE: u64 = 1;

/// Specification-level envelope over character sequences.
pub struct EnvelopeView {
    pub sender: Seq<char>,
    pub sequence_number: u64,
    pub payload: PayloadView,
    pub max_gas_amount: u64,
    pub gas_unit_price: u64,
    pub expiration_timestamp_secs: u64,
}

impl EnvelopeView {
    pub open spec fn well_formed(self) -> bool {
        is_ascii_chars(self.sender) && self.payload.well_formed()
    }
}

/// An unsigned transaction envelope: sender address (lowercase hex), the
/// sequence number the node is expected to see next for that sender, the
/// action payload, and fixed gas and expiration parameters.
pub struct UnsignedEnvelope {
    pub sender: String,
    pub sequence_number: u64,
    pub payload: ActionPayload,
    pub max_gas_amount: u64,
    pub gas_unit_price: u64,
    pub expiration_timestamp_secs: u64,
}

impl View for UnsignedEnvelope {
    type V = EnvelopeView;

    open spec fn view(&self) -> EnvelopeView {
        EnvelopeView {
            sender: self.sender@,
            sequence_number: self.sequence_number,
            payload: self.payload@,
            max_gas_amount: self.max_gas_amount,
            gas_unit_price: self.gas_unit_price,
            expiration_timestamp_secs: self.expiration_timestamp_secs,
        }
    }
}

/// Specification-level signed envelope.
pub struct SignedView {
    pub envelope: EnvelopeView,
    pub public_key: Seq<u8>,
    pub signature: Seq<u8>,
}

/// A signed transaction envelope: the envelope, the sender's public key, and
/// exactly one signature over the envelope's canonical bytes. Immutable once
/// produced.
pub struct SignedEnvelope {
    pub envelope: UnsignedEnvelope,
    pub public_key: Vec<u8>,
    pub signature: Vec<u8>,
}

impl View for SignedEnvelope {
    type V = SignedView;

    open spec fn view(&self) -> SignedView {
        SignedView {
            envelope: self.envelope@,
            public_key: self.public_key@,
            signature: self.signature@,
        }
    }
}

impl SignedView {
    pub open spec fn well_formed(self) -> bool {
        self.envelope.well_formed()
    }
}

/// Assembles the canonical envelope for one submission. The sender address
/// is derived from the identity; gas parameters take the fixed defaults.
/// Rejected exactly when the payload holds non-ASCII text, which the wire
/// encoding cannot carry.
pub fn build(
    sender: &Identity,
    sequence_number: u64,
    payload: ActionPayload,
    expiration_timestamp_secs: u64,
) -> (r: Result<UnsignedEnvelope, BuildError>)
    requires
        sender.well_formed(),
    ensures
        match r {
            Ok(env) => env@ == (EnvelopeView {
                sender: spec_address_chars(sender.spec_public_key()),
                sequence_number: sequence_number,
                payload: payload@,
                max_gas_amount: MAX_GAS_AMOUNT,
                gas_unit_price: GAS_UNIT_PRICE,
                expiration_timestamp_secs: expiration_timestamp_secs,
            }) && env@.well_formed(),
            Err(e) => e == BuildError::NonAsciiText && !payload@.well_formed(),
        },
{
    if !payload_is_ascii(&payload) {
        return Err(BuildError::NonAsciiText);
    }
    let env = UnsignedEnvelope {
        sender: sender.address(),
        sequence_number,
        payload,
        max_gas_amount: MAX_GAS_AMOUNT,
        gas_unit_price: GAS_UNIT_PRICE,
        expiration_timestamp_secs,
    };
    Ok(env)
}

/// The signed envelope that signing `env` with secret key `sk` yields: the
/// envelope, the derived public key, and the Ed25519 signature over the
/// envelope's canonical bytes.
pub open spec fn spec_signed_view(env: EnvelopeView, sk: Seq<u8>) -> SignedView {
    SignedView {
        envelope: env,
        public_key: ed25519_public_of(sk),
        signature: ed25519_sign_of(sk, enc_unsigned(env)),
    }
}

/// The wire bytes that signing and encoding `env` with `sk` yields.
pub open spec fn spec_sign_and_encode(env: EnvelopeView, sk: Seq<u8>) -> Seq<u8> {
    enc_signed(spec_signed_view(env, sk))
}

/// Canonicalizes the envelope to bytes, signs them with the sender's key,
/// and re-encodes envelope, public key and signature into the wire bytes.
/// The result is a function of the envelope and the key alone, so identical
/// inputs give byte-identical output and a resubmission is safe; the
/// embedded signature verifies under the sender's public key.
pub fn sign_and_encode(envelope: UnsignedEnvelope, sender: &Identity) -> (r: Vec<u8>)
    requires
        sender.well_formed(),
        envelope@.well_formed(),
    ensures
        r@ == spec_sign_and_encode(envelope@, sender.spec_signing_key()),
        ed25519_valid(
            sender.spec_public_key(),
            enc_unsigned(envelope@),
            ed25519_sign_of(sender.spec_signing_key(), enc_unsigned(envelope@)),
        ),
{
    let msg = encode_unsigned(&envelope);
    let sig = sender.sign(&msg);
    let pk = sender.public_key_bytes();
    let se = SignedEnvelope { envelope, public_key: pk, signature: sig };
    encode_signed(&se)
}

/// Node-side signature check: whether the envelope's signature is a valid
/// Ed25519 signature over the envelope's canonical bytes under the embedded
/// public key. For wire bytes produced by `sign_and_encode` this is true.
pub fn verify_signed_envelope(se: &SignedEnvelope) -> (r: bool)
    requires
        se@.well_formed(),
    ensures
        r == ed25519_valid(se@.public_key, enc_unsigned(se@.envelope), se@.signature),
{
    let msg = encode_unsigned(&se.envelope);
    ed25519_verify(&se.public_key, &msg, &se.signature)
}

/// Law: `sign_and_encode` is deterministic. The wire bytes are a function of
/// the envelope and the signer's secret key alone, so two calls on the same
/// envelope and identity produce byte-identical output.
pub proof fn lemma_sign_and_encode_deterministic(
    e1: EnvelopeView,
    e2: EnvelopeView,
    sk1: Seq<u8>,
    sk2: Seq<u8>,
)
    requires
        e1 == e2,
        sk1 == sk2,
    ensures
        spec_sign_and_encode(e1, sk1) == spec_sign_and_encode(e2, sk2),
{
}

/// Law: decoding the wire bytes of a signed envelope recovers the sender,
/// sequence number, payload, gas parameters, public key and signature that
/// were signed. The two length bounds hold of every Ed25519 key pair (keys
/// are 32 bytes, signatures 64).
pub proof fn lemma_sign_and_encode_roundtrip(env: EnvelopeView, sk: Seq<u8>)
    requires
        env_encodable(env),
        ed25519_public_of(sk).len() < pow256(8),
        ed25519_sign_of(sk, enc_unsigned(env)).len() < pow256(8),
    ensures
        spec_decode_signed(spec_sign_and_encode(env, sk)) == Some(spec_signed_view(env, sk)),
{
    lemma_decode_encode_roundtrip(spec_signed_view(env, sk));
}

} // verus!
