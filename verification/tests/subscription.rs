use eip1337::crypto::{AccountHash, PublicKey, SecretKey};
use eip1337::store::{Store, CANCELLED_TIMESTAMP_MS};
use eip1337::ContractError;

const TOKEN_AMOUNT_VALUE: u64 = 1;
const PERIOD_SECONDS_VALUE: u64 = 0;

fn account(byte: u8) -> AccountHash {
    AccountHash::new(vec![byte; 32])
}

fn ed25519_public_key(seed: [u8; 32]) -> PublicKey {
    let sk = ed25519_dalek::SecretKey::from_bytes(&seed).unwrap();
    let pk = ed25519_dalek::PublicKey::from(&sk);
    PublicKey::Ed25519(pk.to_bytes().to_vec())
}

fn generate_eip_1337_secret_key() -> SecretKey {
    SecretKey::Ed25519(vec![1u8; 32])
}

fn deployment() -> Store {
    eip1337::call(
        account(4),
        TOKEN_AMOUNT_VALUE,
        PERIOD_SECONDS_VALUE,
        String::from("erc20-contract-hash"),
    )
}

fn gate_of(store: &Store, hash: &str) -> Option<u64> {
    let key = format!("next_valid_timestamp{}", hash);
    store.get_key(&key)
}

/// Signs the subscriber's subscription hash with the given Ed25519 seed.
fn signed_authorization(store: &mut Store, from: &AccountHash, seed: [u8; 32], blocktime: u64) -> (PublicKey, String) {
    let hash = eip1337::get_subscription_hash(store, from, blocktime);
    let mut hash_bytes = [0u8; 32];
    hex::decode_to_slice(hash, &mut hash_bytes as &mut [u8]).unwrap();
    let signature = eip1337::signer::sign(SecretKey::Ed25519(seed.to_vec()), &hash_bytes.to_vec());
    (ed25519_public_key(seed), signature)
}

#[test]
fn test_eip1337_deploy() {
    let s = deployment();
    assert_eq!(s.to, account(4));
    assert_eq!(s.token_amount, TOKEN_AMOUNT_VALUE);
    assert_eq!(s.period_ms, PERIOD_SECONDS_VALUE);
}

#[test]
fn test_execute_subscription() {
    let mut s = deployment();
    let user_from = account(4);
    let user_to = account(4);
    let blocktime: u64 = 0;

    // Give the owner 1000 tokens on the simulated ledger.
    let mut balance_from: u64 = 1000;
    let mut balance_to: u64 = 0;
    println!("DICT {} {}", "balances", hex::encode([4u8; 32]));
    assert_eq!(balance_from, 1000);

    // The owner allows this contract to spend 1000 tokens.
    let allowance: u64 = 1000;

    // Generate a subscription hash in the contract.
    eip1337::create_subscription_hash(&mut s, &user_from, blocktime);
    let subscription_hash = s.hashes.get(&user_from).0.unwrap();

    // Generate the subscription hash locally.
    let mut subscription_bytes = [0u8; 32];
    hex::decode_to_slice(subscription_hash.clone(), &mut subscription_bytes as &mut [u8]).unwrap();

    let sub_data = format!(
        "{}_{}_{}_{}",
        hex::encode([4u8; 32]),
        hex::encode([4u8; 32]),
        TOKEN_AMOUNT_VALUE,
        PERIOD_SECONDS_VALUE * 1000,
    );
    let sub_bytes = renvm_sig::hash_message(&sub_data);
    let sub_hex = hex::encode(sub_bytes);

    // Check that the subscription hashes match.
    println!("SUB_HASH {} == {}", subscription_hash, sub_hex);
    assert_eq!(subscription_hash, sub_hex);
    assert_eq!(subscription_bytes, sub_bytes);

    // Sign the subscription hash.
    let signature = eip1337::signer::sign(
        generate_eip_1337_secret_key(),
        &subscription_bytes.to_vec(),
    );

    // Pre-flight: the subscription is ready.
    let public = ed25519_public_key([1u8; 32]);
    eip1337::is_subscription_ready(&s, &public, &signature, &user_from, blocktime, allowance)
        .unwrap();

    // Use the signed subscription hash to execute a payment of 1 token.
    let transfer =
        eip1337::execute_subscription(&mut s, &public, &signature, &user_from, blocktime).unwrap();
    assert_eq!(transfer.owner, user_from);
    assert_eq!(transfer.recipient, user_to);
    assert_eq!(transfer.amount, 1);
    balance_from -= transfer.amount;
    balance_to += transfer.amount;
    assert_eq!(balance_from, 999);
    assert_eq!(balance_to, 1);
}

#[test]
fn hash_is_deterministic_across_entry_points() {
    let mut s1 = deployment();
    let mut s2 = deployment();
    let from = account(9);

    let h1 = eip1337::get_subscription_hash(&mut s1, &from, 0);
    let h2 = eip1337::get_subscription_hash(&mut s1, &from, 77);
    assert_eq!(h1, h2);

    eip1337::create_subscription_hash(&mut s2, &from, 5);
    let h3 = s2.hashes.get(&from).0.unwrap();
    assert_eq!(h1, h3);
}

#[test]
fn hash_caching_is_idempotent() {
    let mut s = eip1337::call(account(2), 10, 3, String::from("tok"));
    let from = account(9);

    let h1 = eip1337::get_subscription_hash(&mut s, &from, 100);
    let g1 = gate_of(&s, &h1).unwrap();
    assert_eq!(g1, 100 + 3000);

    // A later call returns the cached hash and leaves the billing gate alone.
    let h2 = eip1337::get_subscription_hash(&mut s, &from, 200);
    let g2 = gate_of(&s, &h2).unwrap();
    assert_eq!(h1, h2);
    assert_eq!(g2, g1);
}

#[test]
fn gate_advances_by_one_period_per_execution() {
    let mut s = eip1337::call(account(2), 5, 7, String::from("tok"));
    let from = account(9);
    let (public, signature) = signed_authorization(&mut s, &from, [3u8; 32], 1000);
    let hash = eip1337::get_subscription_hash(&mut s, &from, 1000);

    // The hash call initialized the billing gate to blocktime + one period.
    assert_eq!(gate_of(&s, &hash).unwrap(), 1000 + 7000);

    // Too early: rejected, no state change.
    let r = eip1337::execute_subscription(&mut s, &public, &signature, &from, 7999);
    assert_eq!(r.unwrap_err(), ContractError::InvalidBlockTime);
    assert_eq!(gate_of(&s, &hash).unwrap(), 8000);

    // At the billing gate exactly: accepted, gate advances by exactly one period.
    eip1337::execute_subscription(&mut s, &public, &signature, &from, 8000).unwrap();
    assert_eq!(gate_of(&s, &hash).unwrap(), 15000);

    // Later than the billing gate: the advance still starts from the billing gate.
    eip1337::execute_subscription(&mut s, &public, &signature, &from, 20000).unwrap();
    assert_eq!(gate_of(&s, &hash).unwrap(), 22000);
}

#[test]
fn cancellation_is_terminal() {
    let mut s = eip1337::call(account(2), 5, 7, String::from("tok"));
    let from = account(9);
    let (public, signature) = signed_authorization(&mut s, &from, [3u8; 32], 0);
    let hash = eip1337::get_subscription_hash(&mut s, &from, 0);

    eip1337::cancel_subscription(&mut s, &public, &signature, &from).unwrap();
    assert_eq!(gate_of(&s, &hash).unwrap(), CANCELLED_TIMESTAMP_MS);
    assert_eq!(CANCELLED_TIMESTAMP_MS, 99999999999 * 1000);

    // Any later execution or readiness check fails on the billing gate.
    let r = eip1337::execute_subscription(&mut s, &public, &signature, &from, 1_700_000_000_000);
    assert_eq!(r.unwrap_err(), ContractError::InvalidBlockTime);
    let r = eip1337::is_subscription_ready(&s, &public, &signature, &from, 1_700_000_000_000, 100);
    assert_eq!(r.unwrap_err(), ContractError::InvalidBlockTime);

    // Cancelling again is legal and leaves the same end state.
    eip1337::cancel_subscription(&mut s, &public, &signature, &from).unwrap();
    assert_eq!(gate_of(&s, &hash).unwrap(), CANCELLED_TIMESTAMP_MS);
}

#[test]
fn signature_over_different_message_is_rejected() {
    // Two stores differing only in the token amount give different hashes;
    // a signature for one must not authorize the other.
    let mut s1 = eip1337::call(account(2), 5, 7, String::from("tok"));
    let mut s2 = eip1337::call(account(2), 6, 7, String::from("tok"));
    let from = account(9);
    let (public, signature) = signed_authorization(&mut s1, &from, [3u8; 32], 0);

    let h1 = eip1337::get_subscription_hash(&mut s1, &from, 0);
    let h2 = eip1337::get_subscription_hash(&mut s2, &from, 0);
    assert_ne!(h1, h2);

    let r = eip1337::execute_subscription(&mut s2, &public, &signature, &from, 50000);
    assert_eq!(r.unwrap_err(), ContractError::SignerFailed);

    // The same signature still authorizes the store it was made for.
    eip1337::execute_subscription(&mut s1, &public, &signature, &from, 50000).unwrap();
}

#[test]
fn malformed_signatures_are_rejected() {
    let mut s = eip1337::call(account(2), 5, 7, String::from("tok"));
    let from = account(9);
    let public = ed25519_public_key([3u8; 32]);

    // Not hex at all.
    let r = eip1337::execute_subscription(&mut s, &public, &String::from("zz"), &from, 50000);
    assert_eq!(r.unwrap_err(), ContractError::SignerFailed);

    // Valid hex of the wrong length.
    let r = eip1337::execute_subscription(&mut s, &public, &String::from("abcd"), &from, 50000);
    assert_eq!(r.unwrap_err(), ContractError::SignerFailed);

    // Well-formed but invalid signature bytes.
    let zeros = "00".repeat(64);
    let r = eip1337::execute_subscription(&mut s, &public, &zeros, &from, 50000);
    assert_eq!(r.unwrap_err(), ContractError::SignerFailed);
}

#[test]
fn non_ed25519_keys_never_authorize() {
    let mut s = eip1337::call(account(2), 5, 7, String::from("tok"));
    let from = account(9);
    let (_public, signature) = signed_authorization(&mut s, &from, [3u8; 32], 0);

    let r = eip1337::execute_subscription(&mut s, &PublicKey::System, &signature, &from, 50000);
    assert_eq!(r.unwrap_err(), ContractError::SignerFailed);

    let secp = PublicKey::Secp256k1(vec![2u8; 33]);
    let r = eip1337::execute_subscription(&mut s, &secp, &signature, &from, 50000);
    assert_eq!(r.unwrap_err(), ContractError::SignerFailed);
}

#[test]
fn end_to_end_zero_period_scenario() {
    // Subscriber with a 1000-token allowance, amount 1, period 0.
    let mut s = deployment();
    let from = account(4);
    let blocktime: u64 = 12345;
    let (public, signature) = signed_authorization(&mut s, &from, [1u8; 32], blocktime);
    let hash = eip1337::get_subscription_hash(&mut s, &from, blocktime);
    let allowance: u64 = 1000;

    eip1337::is_subscription_ready(&s, &public, &signature, &from, blocktime, allowance).unwrap();
    let t = eip1337::execute_subscription(&mut s, &public, &signature, &from, blocktime).unwrap();
    assert_eq!(t.amount, 1);
    assert_eq!(gate_of(&s, &hash).unwrap(), blocktime);

    // With period zero the billing gate equals the block time, and equality passes:
    // a second execution in the same block succeeds.
    let t = eip1337::execute_subscription(&mut s, &public, &signature, &from, blocktime).unwrap();
    assert_eq!(t.amount, 1);
    assert_eq!(gate_of(&s, &hash).unwrap(), blocktime);
}

#[test]
fn allowance_boundary_is_inclusive() {
    let mut s = eip1337::call(account(2), 5, 0, String::from("tok"));
    let from = account(9);
    let (public, signature) = signed_authorization(&mut s, &from, [3u8; 32], 0);

    // allowance == token_amount passes; only a strictly smaller allowance fails.
    eip1337::is_subscription_ready(&s, &public, &signature, &from, 100, 5).unwrap();
    let r = eip1337::is_subscription_ready(&s, &public, &signature, &from, 100, 4);
    assert_eq!(r.unwrap_err(), ContractError::InsufficientAllowance);
}

#[test]
fn subscription_active_respects_grace_window() {
    let mut s = eip1337::call(account(2), 5, 7, String::from("tok"));
    let from = account(9);
    let hash = eip1337::get_subscription_hash(&mut s, &from, 1000);
    assert_eq!(gate_of(&s, &hash).unwrap(), 8000);

    // Active exactly from gate + grace milliseconds on.
    eip1337::is_subscription_active(&s, &hash, 2, 10000).unwrap();
    let r = eip1337::is_subscription_active(&s, &hash, 2, 9999);
    assert_eq!(r.unwrap_err(), ContractError::SubscriptionNotActive);

    // A hash never seen has a gate of zero.
    eip1337::is_subscription_active(&s, &String::from("ab"), 0, 0).unwrap();
    let r = eip1337::is_subscription_active(&s, &String::from("ab"), 1, 999);
    assert_eq!(r.unwrap_err(), ContractError::SubscriptionNotActive);
}

#[test]
fn error_codes_match_the_host_convention() {
    assert_eq!(ContractError::SignerFailed.code(), 20);
    assert_eq!(ContractError::InvalidBlockTime.code(), 22);
    assert_eq!(ContractError::InsufficientAllowance.code(), 23);
    assert_eq!(ContractError::SubscriptionNotActive.code(), 24);
    assert_eq!(ContractError::ReadingCallerError.code(), 25);
}

#[test]
fn entry_point_table_lists_all_six() {
    let eps = eip1337::get_entry_points();
    let names: Vec<String> = eps.iter().map(|e| e.name.clone()).collect();
    assert_eq!(
        names,
        vec![
            String::from("is_subscription_active"),
            String::from("is_subscription_ready"),
            String::from("cancel_subscription"),
            String::from("create_subscription_hash"),
            String::from("get_subscription_hash"),
            String::from("execute_subscription"),
        ]
    );
    assert_eq!(eps[5].params.len(), 3);
    assert_eq!(eps[5].params[2].0, String::from("from"));
}
