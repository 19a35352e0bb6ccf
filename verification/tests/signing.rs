use sp_core::Pair;
use tx_manager::call::Call;
use tx_manager::hexfmt::to_hex_payload;
use tx_manager::keyring::Keyring;
use tx_manager::payload::{AccountId32, Additional, Extra, RuntimeVersion, H256};
use tx_manager::signing::{
    extend_to_payload, is_signature_of, message_to_sign, sign_payload, Signature, SignatureXcm,
    MAX_RAW_PAYLOAD,
};
use tx_manager::tx_manager::TxManager;

const ALICE: &str = "d43593c715fdd31c61141abd04a99fd6822c8558854ccde39a5684e7a56da27d";
const BOB: &str = "8eaf04151687736326c9fea17e25fc5287613693c912909cb226aa4794f26a48";
const CHARLIE: &str = "90b5ab205c6974c9ea841be688864633dc9ca8a357843eeacf2314649965fe22";

fn manager() -> TxManager {
    TxManager::new("http://localhost:9501".to_string())
}

fn parts(nonce: u32, caller: &AccountId32) -> (Extra, Additional) {
    let m = manager();
    let version = RuntimeVersion { spec_version: 1, transaction_version: 1 };
    (m.create_extra(nonce, caller), m.create_additional(version, H256([0; 32])))
}

fn verifies(keyring: Keyring, message: &[u8], signature: [u8; 64]) -> bool {
    let public = sp_core::sr25519::Public::from_raw(keyring.to_account_id().0);
    let signature = sp_core::sr25519::Signature::from_raw(signature);
    sp_core::sr25519::Pair::verify(&signature, message, &public)
}

#[test]
fn accounts_of_the_identities() {
    assert_eq!(hex::encode(Keyring::Alice.to_account_id().0), ALICE);
    assert_eq!(hex::encode(Keyring::Bob.to_account_id().0), BOB);
    assert_eq!(hex::encode(Keyring::Charlie.to_account_id().0), CHARLIE);
    assert_eq!(
        Keyring::Two.to_account_id().0,
        sp_keyring::sr25519::Keyring::Two.to_raw_public()
    );
    assert_eq!(
        Keyring::FerdieStash.to_account_id().0,
        sp_keyring::sr25519::Keyring::FerdieStash.to_raw_public()
    );
}

#[test]
fn payload_is_call_then_extra_then_additional() {
    let caller = AccountId32([9; 32]);
    let (extra, additional) = parts(3, &caller);
    let payload = extend_to_payload(vec![0xaa, 0xbb], &extra, &additional);
    let mut expected = vec![0xaau8, 0xbb];
    extra.encode_to(&mut expected);
    additional.encode_to(&mut expected);
    assert_eq!(payload, expected);
    assert_eq!(payload.len(), 2 + 42 + 72);
}

#[test]
fn payload_of_256_bytes_is_signed_raw() {
    let payload = vec![7u8; 256];
    assert_eq!(payload.len(), MAX_RAW_PAYLOAD);
    assert_eq!(message_to_sign(payload.clone()), payload);
    let empty: Vec<u8> = Vec::new();
    assert_eq!(message_to_sign(empty.clone()), empty);
}

#[test]
fn payload_of_257_bytes_is_signed_by_its_digest() {
    let payload = vec![7u8; 257];
    let message = message_to_sign(payload.clone());
    assert_eq!(message.len(), 32);
    assert_eq!(message, sp_crypto_hashing::blake2_256(&payload).to_vec());
    assert_ne!(message, payload);
}

#[test]
fn digest_of_no_bytes_is_the_known_one() {
    let long = vec![0u8; 300];
    let message = message_to_sign(long.clone());
    assert_eq!(message, sp_crypto_hashing::blake2_256(&long).to_vec());
    assert_eq!(
        hex::encode(sp_crypto_hashing::blake2_256(b"")),
        "0e5751c026e543b2e8ab2eb06099daa1d1e5df47778f7787faab45cdf12fe3a8"
    );
}

#[test]
fn short_payload_verifies_against_the_raw_bytes() {
    let payload = vec![1u8; 100];
    let signature = sign_payload(Keyring::Alice, payload.clone());
    assert!(verifies(Keyring::Alice, &payload, signature));
    assert!(!verifies(Keyring::Bob, &payload, signature));
    assert!(!verifies(Keyring::Alice, &sp_crypto_hashing::blake2_256(&payload), signature));
}

#[test]
fn long_payload_verifies_against_the_digest() {
    let payload = vec![1u8; 257];
    let signature = sign_payload(Keyring::Bob, payload.clone());
    assert!(verifies(Keyring::Bob, &sp_crypto_hashing::blake2_256(&payload), signature));
    assert!(!verifies(Keyring::Bob, &payload, signature));
}

#[test]
fn structured_call_is_signed_over_its_encoding() {
    let caller = Keyring::Alice.to_account_id();
    let (extra, additional) = parts(0, &caller);
    let dest = Keyring::Bob.to_account_id();
    let call = Call::Transfer { pallet_index: 10, call_index: 0, dest, amount: 123456789012345 };
    let mut encoded = Vec::new();
    call.encode_to(&mut encoded);
    let payload = extend_to_payload(encoded, &extra, &additional);
    assert_eq!(payload.len(), 156);
    let signature = Signature::new(Keyring::Alice, call, extra, additional);
    assert!(verifies(Keyring::Alice, &payload, signature));
}

#[test]
fn long_structured_call_is_signed_over_the_digest() {
    let caller = Keyring::Dave.to_account_id();
    let (extra, additional) = parts(5, &caller);
    let blob = vec![0x5au8; 400];
    let payload = extend_to_payload(blob.clone(), &extra, &additional);
    let signature = Signature::new(Keyring::Dave, Call::Encoded(blob), extra, additional);
    assert!(verifies(Keyring::Dave, &sp_crypto_hashing::blake2_256(&payload), signature));
    assert!(!verifies(Keyring::Dave, &payload, signature));
}

#[test]
fn encoded_call_is_signed_unchanged() {
    let caller = Keyring::Eve.to_account_id();
    let (extra, additional) = parts(1, &caller);
    let blob = vec![0x1fu8, 0x09, 0x01];
    let payload = extend_to_payload(blob.clone(), &extra, &additional);
    assert_eq!(&payload[..3], &blob[..]);
    let signature = SignatureXcm::new_encoded_data(Keyring::Eve, blob, extra, additional);
    assert!(verifies(Keyring::Eve, &payload, signature));
}

#[test]
fn manager_signs_as_the_signing_types_do() {
    let m = manager();
    let caller = Keyring::One.to_account_id();
    let (extra, additional) = parts(2, &caller);
    let blob = vec![3u8; 10];
    let payload = extend_to_payload(blob.clone(), &extra, &additional);
    let first = m.create_signature(Keyring::One, Call::Encoded(blob.clone()), extra, additional);
    let second = m.create_signature_for_xcm(Keyring::One, blob, extra, additional);
    assert!(verifies(Keyring::One, &payload, first));
    assert!(verifies(Keyring::One, &payload, second));
}

#[test]
fn hex_payload_is_lower_case_with_prefix() {
    assert_eq!(to_hex_payload(&[]), "0x");
    assert_eq!(to_hex_payload(&[0x00, 0x0f, 0xa0, 0xff]), "0x000fa0ff");
    assert_eq!(to_hex_payload(&[0xde, 0xad, 0xbe, 0xef]), "0xdeadbeef");
}

#[test]
fn signature_check_follows_the_digest_rule() {
    let short = vec![1u8; 256];
    let signature = sign_payload(Keyring::Alice, short.clone());
    assert!(is_signature_of(Keyring::Alice, short.clone(), &signature));
    assert!(!is_signature_of(Keyring::Bob, short.clone(), &signature));
    assert!(!is_signature_of(Keyring::Alice, vec![2u8; 256], &signature));
    assert!(!is_signature_of(Keyring::Alice, short, &[0u8; 64]));

    let long = vec![1u8; 257];
    let signature = sign_payload(Keyring::Alice, long.clone());
    assert!(is_signature_of(Keyring::Alice, long.clone(), &signature));
    let over_raw = sp_keyring::sr25519::Keyring::Alice.sign(&long).0;
    assert!(!is_signature_of(Keyring::Alice, long.clone(), &over_raw));
    let over_digest =
        sp_keyring::sr25519::Keyring::Alice.sign(&sp_crypto_hashing::blake2_256(&long)).0;
    assert!(is_signature_of(Keyring::Alice, long, &over_digest));
}

#[test]
fn two_signatures_of_one_payload_both_verify() {
    let payload = vec![9u8; 40];
    let first = sign_payload(Keyring::Ferdie, payload.clone());
    let second = sign_payload(Keyring::Ferdie, payload.clone());
    assert!(is_signature_of(Keyring::Ferdie, payload.clone(), &first));
    assert!(is_signature_of(Keyring::Ferdie, payload, &second));
}
