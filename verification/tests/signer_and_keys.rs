use eip1337::crypto::{AccountHash, PublicKey, SecretKey, Signature};
use eip1337::der::{from_der, from_pem, Error};
use eip1337::hashes::Hashes;
use eip1337::signer::sign;

/// The PKCS#8 bytes of an Ed25519 secret key.
fn ed25519_pkcs8_bytes(key: [u8; 32]) -> Vec<u8> {
    let mut v = vec![
        0x30u8, 0x2e, 0x02, 0x01, 0x00, 0x30, 0x05, 0x06, 0x03, 0x2b, 0x65, 0x70, 0x04, 0x22,
        0x04, 0x20,
    ];
    v.extend_from_slice(&key);
    v
}

/// The SEC1 bytes of a secp256k1 secret key with a trailing value.
fn secp256k1_sec1_bytes(key: [u8; 32], tail: &[u8]) -> Vec<u8> {
    let mut v = vec![0x30u8];
    let content = 46 + tail.len();
    assert!(content < 128);
    v.push(content as u8);
    v.extend_from_slice(&[0x02, 0x01, 0x01, 0x04, 0x20]);
    v.extend_from_slice(&key);
    v.extend_from_slice(&[0xa0, 0x07, 0x06, 0x05, 0x2b, 0x81, 0x04, 0x00, 0x0a]);
    v.extend_from_slice(tail);
    v
}

#[test]
fn der_parses_ed25519_pkcs8() {
    let input = ed25519_pkcs8_bytes([7u8; 32]);
    assert_eq!(from_der(&input).unwrap(), SecretKey::Ed25519(vec![7u8; 32]));
}

#[test]
fn der_rejects_wrong_ed25519_structure() {
    // A wrong algorithm identifier byte.
    let mut input = ed25519_pkcs8_bytes([7u8; 32]);
    input[10] = 0x66;
    assert_eq!(from_der(&input).unwrap_err(), Error::FromDer);

    // A wrong version for the Ed25519 shape.
    let mut input = ed25519_pkcs8_bytes([7u8; 32]);
    input[4] = 0x01;
    assert_eq!(from_der(&input).unwrap_err(), Error::FromDer);

    // Truncated input.
    let input = ed25519_pkcs8_bytes([7u8; 32]);
    assert_eq!(from_der(&input[..40].to_vec()).unwrap_err(), Error::FromDer);

    // Trailing garbage makes the outer length wrong.
    let mut input = ed25519_pkcs8_bytes([7u8; 32]);
    input.push(0x00);
    assert_eq!(from_der(&input).unwrap_err(), Error::FromDer);
}

#[test]
fn der_parses_secp256k1_sec1() {
    let input = secp256k1_sec1_bytes([9u8; 32], &[]);
    assert_eq!(from_der(&input).unwrap(), SecretKey::Secp256k1(vec![9u8; 32]));

    // With an optional trailing value: one complete tag-length-value unit.
    let input = secp256k1_sec1_bytes([9u8; 32], &[0xa1, 0x03, 0x01, 0x01, 0x00]);
    assert_eq!(from_der(&input).unwrap(), SecretKey::Secp256k1(vec![9u8; 32]));

    // A truncated trailing value is rejected.
    let input = secp256k1_sec1_bytes([9u8; 32], &[0xa1, 0x03, 0x01]);
    assert_eq!(from_der(&input).unwrap_err(), Error::FromDer);
}

#[test]
fn pem_roundtrip_loads_the_key() {
    let contents = ed25519_pkcs8_bytes([7u8; 32]);
    let doc = pem::encode(&pem::Pem { tag: String::from("PRIVATE KEY"), contents });
    let loaded = from_pem(&doc.into_bytes()).unwrap();
    assert_eq!(loaded, SecretKey::Ed25519(vec![7u8; 32]));
}

#[test]
fn pem_tag_must_match_the_algorithm() {
    let contents = ed25519_pkcs8_bytes([7u8; 32]);
    let doc = pem::encode(&pem::Pem { tag: String::from("EC PRIVATE KEY"), contents });
    assert_eq!(from_pem(&doc.into_bytes()).unwrap_err(), Error::FromPem);

    assert_eq!(
        from_pem(&b"not a pem document".to_vec()).unwrap_err(),
        Error::FromPem
    );
}

#[test]
fn signing_produces_a_verifiable_hex_signature() {
    let message = vec![5u8; 32];
    let signature_hex = sign(SecretKey::Ed25519(vec![1u8; 32]), &message);
    assert_eq!(signature_hex.len(), 128);

    let sig_bytes = hex::decode(&signature_hex).unwrap();
    let sk = ed25519_dalek::SecretKey::from_bytes(&[1u8; 32]).unwrap();
    let pk = ed25519_dalek::PublicKey::from(&sk);

    let public = PublicKey::Ed25519(pk.to_bytes().to_vec());
    let signature = Signature::Ed25519(sig_bytes);
    assert!(eip1337::get_subscription_signer_and_verification(
        &public, &signature, &message
    ));

    // The same signature over a different message does not verify.
    let other = vec![6u8; 32];
    assert!(!eip1337::get_subscription_signer_and_verification(
        &public, &signature, &other
    ));
}

#[test]
fn non_ed25519_variants_never_verify() {
    let message = vec![5u8; 32];
    let signature_hex = sign(SecretKey::Ed25519(vec![1u8; 32]), &message);
    let sig_bytes = hex::decode(&signature_hex).unwrap();

    assert!(!eip1337::get_subscription_signer_and_verification(
        &PublicKey::System,
        &Signature::Ed25519(sig_bytes.clone()),
        &message
    ));
    let sk = ed25519_dalek::SecretKey::from_bytes(&[1u8; 32]).unwrap();
    let pk = ed25519_dalek::PublicKey::from(&sk);
    assert!(!eip1337::get_subscription_signer_and_verification(
        &PublicKey::Ed25519(pk.to_bytes().to_vec()),
        &Signature::Secp256k1(sig_bytes),
        &message
    ));
}

#[test]
fn subscription_data_renders_canonically() {
    let store = eip1337::call(
        AccountHash::new(vec![0xabu8; 32]),
        1000,
        2,
        String::from("tok"),
    );
    let from = AccountHash::new(vec![0x01u8; 32]);
    let data = eip1337::get_subscription_data(&store, &from);
    let expected = format!(
        "{}_{}_{}_{}",
        hex::encode([0xabu8; 32]),
        hex::encode([0x01u8; 32]),
        1000,
        2000
    );
    assert_eq!(data, expected);
}

#[test]
fn subscription_hash_matches_the_reference_hasher() {
    let data = String::from("publisher_subscriber_10_1000");
    let bytes = eip1337::get_subscription_hash_bytes(&data);
    assert_eq!(bytes.len(), 32);
    assert_eq!(bytes, renvm_sig::hash_message(&data).to_vec());

    let hex_hash = eip1337::_get_subscription_hash(&data);
    assert_eq!(hex_hash, hex::encode(renvm_sig::hash_message(&data)));
}

#[test]
fn hash_cache_stores_and_deletes_entries() {
    let mut cache = Hashes::new();
    let account = AccountHash::new(vec![3u8; 32]);
    let public = PublicKey::Ed25519(vec![8u8; 32]);

    let (h, p) = cache.get(&account);
    assert!(h.is_none() && p.is_none());

    cache.set(&account, "deadbeef", &public);
    let (h, p) = cache.get(&account);
    assert_eq!(h.unwrap(), String::from("deadbeef"));
    assert_eq!(p.unwrap(), public);
    assert_eq!(cache.get_public_key(&account).unwrap(), public);

    cache.delete(&account);
    let (h, p) = cache.get(&account);
    assert!(h.is_none() && p.is_none());
}
