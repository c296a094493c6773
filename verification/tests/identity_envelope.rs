//! Identity derivation, envelope signing, and the wire round trip.
use sha3::Digest;
use vault_testcase::account::Identity;
use vault_testcase::envelope::build;
use vault_testcase::envelope::sign_and_encode;
use vault_testcase::envelope::GAS_UNIT_PRICE;
use vault_testcase::envelope::MAX_GAS_AMOUNT;
use vault_testcase::codec::decode_signed;
use vault_testcase::codec::encode_unsigned;
use vault_testcase::payload::ActionPayload;
use vault_testcase::envelope::verify_signed_envelope;
use vault_testcase::vault_client::VaultClient;
use vault_testcase::errors::IdentityError;

fn test_identity(tag: u8) -> Identity {
    Identity::create(Some(vec![tag; 32])).unwrap()
}

#[test]
fn address_is_deterministic_and_pure_in_the_public_key() {
    let a = test_identity(7);
    let b = test_identity(7);
    // repeated calls agree, and identities with the same key pair agree
    assert_eq!(a.address(), a.address());
    assert_eq!(a.address(), b.address());
    // the authentication key is the same derivation
    assert_eq!(a.address(), a.authentication_key());
    assert_eq!(a.address().len(), 64);
    assert!(a.address().chars().all(|c| c.is_ascii_hexdigit() && !c.is_ascii_uppercase()));
    // a different key pair gives a different address
    let c = test_identity(8);
    assert_ne!(a.address(), c.address());
}

#[test]
fn address_matches_sha3_of_public_key_and_scheme_byte() {
    let a = test_identity(3);
    let mut data = a.public_key_bytes();
    data.push(0u8);
    let digest = sha3::Sha3_256::digest(&data);
    assert_eq!(a.address(), hex::encode(digest));
}

#[test]
fn create_from_randomness_gives_distinct_identities() {
    let a = Identity::create(None).unwrap();
    let b = Identity::create(None).unwrap();
    assert_eq!(a.sequence_number(), 0);
    assert_eq!(a.address().len(), 64);
    assert_ne!(a.address(), b.address());
}

#[test]
fn short_seed_is_rejected() {
    match Identity::create(Some(vec![1u8; 31])) {
        Err(IdentityError::InvalidSeed) => {},
        other => panic!("expected InvalidSeed, got {:?}", other.map(|_| ())),
    }
}

#[test]
fn sequence_counter_is_cached_locally() {
    let mut a = test_identity(9);
    assert_eq!(a.sequence_number(), 0);
    a.set_sequence_number(41);
    assert_eq!(a.sequence_number(), 41);
    a.increment_sequence_number();
    assert_eq!(a.sequence_number(), 42);
    let addr = a.address();
    a.increment_sequence_number();
    assert_eq!(a.address(), addr);
}

#[test]
fn sign_and_encode_is_deterministic() {
    let id = test_identity(1);
    let vc = VaultClient::new("http://node".to_string());
    let env1 = build(&id, 5, vc.pause_vault(&id.address()), 600).unwrap();
    let env2 = build(&id, 5, vc.pause_vault(&id.address()), 600).unwrap();
    let bytes1 = sign_and_encode(env1, &id);
    let bytes2 = sign_and_encode(env2, &id);
    assert_eq!(bytes1, bytes2);
}

#[test]
fn signature_verifies_against_the_public_key() {
    let id = test_identity(2);
    let vc = VaultClient::new("http://node".to_string());
    let env = build(&id, 0, vc.initialize_vault(&id.address()), 600).unwrap();
    let bytes = sign_and_encode(env, &id);
    let se = decode_signed(&bytes).expect("wire bytes decode");
    let msg = encode_unsigned(&se.envelope);
    let pk: [u8; 32] = se.public_key.clone().try_into().unwrap();
    let sig: [u8; 64] = se.signature.clone().try_into().unwrap();
    let vk = ed25519_dalek::VerifyingKey::from_bytes(&pk).unwrap();
    let sig = ed25519_dalek::Signature::from_bytes(&sig);
    assert!(ed25519_dalek::Verifier::verify(&vk, &msg, &sig).is_ok());
    assert_eq!(se.public_key, id.public_key_bytes());
}

#[test]
fn signature_check_accepts_signed_envelopes_and_rejects_tampering() {
    let id = test_identity(13);
    let vc = VaultClient::new("http://node".to_string());
    let env = build(&id, 7, vc.pause_vault(&id.address()), 600).unwrap();
    let bytes = sign_and_encode(env, &id);
    let se = decode_signed(&bytes).expect("wire bytes decode");
    assert!(verify_signed_envelope(&se));
    let mut tampered = se;
    tampered.signature[0] = tampered.signature[0].wrapping_add(1);
    assert!(!verify_signed_envelope(&tampered));
    let env2 = build(&id, 8, vc.pause_vault(&id.address()), 600).unwrap();
    let bytes2 = sign_and_encode(env2, &id);
    let mut wrong_msg = decode_signed(&bytes2).expect("wire bytes decode");
    wrong_msg.envelope.sequence_number = 9;
    assert!(!verify_signed_envelope(&wrong_msg));
}

#[test]
fn signed_envelope_round_trip_recovers_the_envelope() {
    let id = test_identity(4);
    let vc = VaultClient::new("http://node".to_string());
    let addr = id.address();
    let env = build(&id, 3, vc.deposit(&addr, 10), 1234).unwrap();
    let bytes = sign_and_encode(env, &id);
    let se = decode_signed(&bytes).expect("wire bytes decode");
    assert_eq!(se.envelope.sender, addr);
    assert_eq!(se.envelope.sequence_number, 3);
    assert_eq!(se.envelope.max_gas_amount, MAX_GAS_AMOUNT);
    assert_eq!(se.envelope.gas_unit_price, GAS_UNIT_PRICE);
    assert_eq!(se.envelope.expiration_timestamp_secs, 1234);
    match &se.envelope.payload {
        ActionPayload::ScriptFunction { function, type_arguments, arguments } => {
            assert_eq!(function, &format!("0x{}::Vault::deposit", addr));
            assert!(type_arguments.is_empty());
            assert_eq!(arguments, &vec!["10".to_string(), addr.clone()]);
        },
        other => panic!("unexpected payload {:?}", payload_kind(other)),
    }
}

fn payload_kind(p: &ActionPayload) -> &'static str {
    match p {
        ActionPayload::ModuleBundle { .. } => "module bundle",
        ActionPayload::ScriptFunction { .. } => "script function",
    }
}

#[test]
fn module_bundle_round_trip() {
    let id = test_identity(5);
    let vc = VaultClient::new("http://node".to_string());
    let env = build(&id, 0, vc.publish_module("0badc0de"), 60).unwrap();
    let bytes = sign_and_encode(env, &id);
    let se = decode_signed(&bytes).expect("wire bytes decode");
    match &se.envelope.payload {
        ActionPayload::ModuleBundle { bytecode_hex } => {
            assert_eq!(bytecode_hex, "0x0badc0de");
        },
        other => panic!("unexpected payload {:?}", payload_kind(other)),
    }
}

#[test]
fn garbage_does_not_decode() {
    let empty: Vec<u8> = Vec::new();
    assert!(decode_signed(&empty).is_none());
    assert!(decode_signed(&vec![9u8; 40]).is_none());
    // a valid envelope with a trailing byte is refused: the whole input must
    // be consumed
    let id = test_identity(6);
    let vc = VaultClient::new("http://node".to_string());
    let env = build(&id, 0, vc.pause_vault(&id.address()), 60).unwrap();
    let mut bytes = sign_and_encode(env, &id);
    bytes.push(0);
    assert!(decode_signed(&bytes).is_none());
}

#[test]
fn non_ascii_payload_is_rejected_at_build_time() {
    let id = test_identity(10);
    let payload = ActionPayload::ModuleBundle { bytecode_hex: "0x caf\u{e9}".to_string() };
    assert!(build(&id, 0, payload, 60).is_err());
}
