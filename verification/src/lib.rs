pub mod crypto;
pub mod der;
pub mod encoding;
pub mod hashes;
pub mod laws;
pub mod signer;
pub mod store;

use vstd::prelude::*;
use vstd::arithmetic::div_mod::{lemma_fundamental_div_mod, lemma_mod_division_less_than_divisor};
use vstd::hash_map::StringHashMap;

use crate::crypto::{AccountHash, PublicKey, Signature, spec_signer_verified};
use crate::encoding::{hex_of, lemma_hex_of_injective};
use crate::hashes::Hashes;
use crate::store::{
    gate_key, hash_message_of, sat_add64, spec_authorized, spec_cancel, spec_execute,
    spec_gate, spec_hash_call, spec_install, spec_is_active, spec_is_ready,
    spec_subscription_data, spec_subscription_hash_bytes, spec_subscription_hash_hex, Store,
    TransferRequest, TransferRequestView, CANCELLED_TIMESTAMP_MS,
};

verus! {

/// Error codes surfaced by the subscription contract's entry points.
///
/// Every failing entry point reports exactly one of these; the numeric
/// code is what the host environment shows to an external caller.
#[derive(Clone, Copy, PartialEq, Eq, Structural, Debug)]
pub enum ContractError {
    /// Signature verification failed, or the proof was malformed.
    SignerFailed,
    /// The block timestamp has not yet reached the subscription's gate.
    InvalidBlockTime,
    /// The token allowance is below the subscription's token amount.
    InsufficientAllowance,
    /// The subscription is not active within the grace window.
    SubscriptionNotActive,
    /// The caller's identity could not be resolved.
    ReadingCallerError,
}

impl ContractError {
    /// The numeric user-error code for this error.
    pub open spec fn spec_code(self) -> u16 {
        match self {
            ContractError::SignerFailed => 20,
            ContractError::InvalidBlockTime => 22,
            ContractError::InsufficientAllowance => 23,
            ContractError::SubscriptionNotActive => 24,
            ContractError::ReadingCallerError => 25,
        }
    }

    /// Numeric code as surfaced to the host environment.
    pub fn code(&self) -> (c: u16)
        ensures
            c == self.spec_code(),
    {
        match self {
            ContractError::SignerFailed => 20,
            ContractError::InvalidBlockTime => 22,
            ContractError::InsufficientAllowance => 23,
            ContractError::SubscriptionNotActive => 24,
            ContractError::ReadingCallerError => 25,
        }
    }
}

/// Read-only liveness check for third parties: succeeds exactly when the
/// block time has reached the hash's gate plus the grace window, so a
/// current subscription within its grace period counts as active.
pub fn is_subscription_active(
    store: &Store,
    subscription_hash: &String,
    grace_period_seconds: u64,
    blocktime: u64,
) -> (r: Result<(), ContractError>)
    ensures
        r == spec_is_active(store@, subscription_hash@, grace_period_seconds, blocktime),
        r is Ok <==> blocktime as int >= spec_gate(store@, subscription_hash@) + (
        grace_period_seconds as int) * 1000,
{
    let gk = gate_key(subscription_hash.as_str());
    let nvt = match store.get_key(gk.as_str()) {
        Some(g) => g,
        None => 0,
    };
    if blocktime >= nvt {
        let diff = blocktime - nvt;
        proof {
            lemma_fundamental_div_mod(diff as int, 1000);
            lemma_mod_division_less_than_divisor(diff as int, 1000);
        }
        if diff / 1000 >= grace_period_seconds {
            Ok(())
        } else {
            Err(ContractError::SubscriptionNotActive)
        }
    } else {
        Err(ContractError::SubscriptionNotActive)
    }
}

/// Builds the canonical message identifying the subscriber's agreement to
/// the stored terms; this exact string is what the subscriber signs.
pub fn get_subscription_data(store: &Store, from: &AccountHash) -> (r: String)
    ensures
        r@ == spec_subscription_data(store@, from@),
{
    let mut s = crate::encoding::hex_encode(store.to.as_bytes());
    let from_hex = crate::encoding::hex_encode(from.as_bytes());
    let amount_dec = crate::encoding::u64_to_dec(store.token_amount);
    let period_dec = crate::encoding::u64_to_dec(store.period_ms);
    s.append("_");
    s.append(from_hex.as_str());
    s.append("_");
    s.append(amount_dec.as_str());
    s.append("_");
    s.append(period_dec.as_str());
    proof {
        reveal_strlit("_");
        assert(s@ =~= spec_subscription_data(store@, from@));
    }
    s
}

/// Relies on renvm_sig::hash_message: the message is enveloped in the
/// EIP-191 personal-message form (a fixed domain tag and the message
/// length, then the message) and reduced with keccak256 to a 32-byte
/// digest that is a function of the message bytes alone.
#[verifier::external_body]
pub fn get_subscription_hash_bytes(data: &String) -> (r: Vec<u8>)
    ensures
        r@ == hash_message_of(data@),
        r@.len() == 32,
{
    renvm_sig::hash_message(data).to_vec()
}

/// The hex form of the subscription digest of a message.
pub fn _get_subscription_hash(data: &String) -> (r: String)
    ensures
        r@ == hex_of(hash_message_of(data@)),
{
    let bytes = get_subscription_hash_bytes(data);
    crate::encoding::hex_encode(&bytes)
}

/// Computes (or recalls) the subscriber's subscription hash, caches it,
/// and initializes the hash's gate to the block time plus one period when
/// the billing gate was never set; returns the hash.
pub fn get_subscription_hash(store: &mut Store, from: &AccountHash, blocktime: u64) -> (r: String)
    requires
        old(store)@.wf(),
        from@.len() == 32,
    ensures
        final(store)@.wf(),
        r@ == spec_subscription_hash_hex(old(store)@, from@),
        final(store)@ == spec_hash_call(old(store)@, from@, blocktime).0,
        r@ == spec_hash_call(old(store)@, from@, blocktime).1,
{
    let ghost s0 = store@;
    let data = get_subscription_data(store, from);
    let (cached, _pk) = store.hashes.get(from);
    let hash: String = match cached {
        Some(h) => h,
        None => _get_subscription_hash(&data),
    };
    assert(hash@ == spec_subscription_hash_hex(s0, from@));
    store.hashes.cache_hash(from, hash.as_str());
    let gk = gate_key(hash.as_str());
    let gate = match store.get_key(gk.as_str()) {
        Some(g) => g,
        None => 0,
    };
    if gate == 0 {
        let nvt = sat_add64(blocktime, store.period_ms);
        store.set_key(gk.as_str(), nvt);
    }
    proof {
        assert(store@ =~~= spec_hash_call(s0, from@, blocktime).0);
        assert forall|a: Seq<u8>|
            a.len() == 32 && #[trigger] store@.cache.hashes.contains_key(
                hex_of(a),
            ) implies store@.cache.hashes[hex_of(a)] == spec_subscription_hash_hex(
            store@,
            a,
        ) by {
            if hex_of(a) == hex_of(from@) {
                lemma_hex_of_injective(a, from@);
            } else {
                assert(s0.cache.hashes.contains_key(hex_of(a)));
            }
        }
    }
    hash
}

/// Side-effect-only variant of the hash-producing entry point: computes
/// and caches the hash and initializes the billing gate, returning nothing.
pub fn create_subscription_hash(store: &mut Store, from: &AccountHash, blocktime: u64)
    requires
        old(store)@.wf(),
        from@.len() == 32,
    ensures
        final(store)@.wf(),
        final(store)@ == spec_hash_call(old(store)@, from@, blocktime).0,
{
    let _hash = get_subscription_hash(store, from, blocktime);
}

/// Checks a detached signature against a subscription digest: accepted
/// exactly when the key and the signature are both Ed25519 and the
/// signature strictly verifies over the 32-byte digest; the secp256k1 and
/// system variants are rejected outright.
pub fn get_subscription_signer_and_verification(
    public_key: &PublicKey,
    signature: &Signature,
    eip191_hash_bytes: &Vec<u8>,
) -> (r: bool)
    ensures
        r == spec_signer_verified(public_key@, signature@, eip191_hash_bytes@),
{
    match (public_key, signature) {
        (PublicKey::Ed25519(p), Signature::Ed25519(s)) => crate::crypto::ed25519_verify(
            p,
            s,
            eip191_hash_bytes,
        ),
        _ => false,
    }
}

/// Recomputes the subscription digest for the subscriber and checks the
/// hex-encoded signature against it; returns the digest and whether the
/// call is authorized.
fn authorize(store: &Store, public_key: &PublicKey, signature: &String, from: &AccountHash) -> (r:
    (Vec<u8>, bool))
    ensures
        r.0@ == spec_subscription_hash_bytes(store@, from@),
        r.0@.len() == 32,
        r.1 == spec_authorized(public_key@, signature@, spec_subscription_hash_bytes(store@, from@)),
{
    let data = get_subscription_data(store, from);
    let hash_bytes = get_subscription_hash_bytes(&data);
    let ok = match crate::encoding::hex_decode(signature) {
        Some(sig_bytes) => {
            if sig_bytes.len() == 64 {
                let sig = Signature::Ed25519(sig_bytes);
                get_subscription_signer_and_verification(public_key, &sig, &hash_bytes)
            } else {
                false
            }
        },
        None => false,
    };
    (hash_bytes, ok)
}

/// Permanently disables the subscriber's subscription: after a correctly
/// signed cancellation the billing gate holds a timestamp beyond any realistic
/// block time. Cancelling an already-cancelled or never-initialized
/// subscription is legal and leaves the same end state.
pub fn cancel_subscription(
    store: &mut Store,
    public_key: &PublicKey,
    signature: &String,
    from: &AccountHash,
) -> (r: Result<(), ContractError>)
    requires
        old(store)@.wf(),
        from@.len() == 32,
    ensures
        final(store)@.wf(),
        final(store)@ == spec_cancel(old(store)@, public_key@, signature@, from@).0,
        r == spec_cancel(old(store)@, public_key@, signature@, from@).1,
        r is Err ==> r == Err::<(), ContractError>(ContractError::SignerFailed) && final(store)@
            == old(store)@,
        r is Ok ==> spec_gate(
            final(store)@,
            spec_subscription_hash_hex(old(store)@, from@),
        ) == CANCELLED_TIMESTAMP_MS,
{
    let ghost s0 = store@;
    let (hash_bytes, ok) = authorize(store, public_key, signature, from);
    if !ok {
        return Err(ContractError::SignerFailed);
    }
    let hash_hex = crate::encoding::hex_encode(&hash_bytes);
    let gk = gate_key(hash_hex.as_str());
    store.set_key(gk.as_str(), CANCELLED_TIMESTAMP_MS);
    proof {
        assert(store@ =~~= spec_cancel(s0, public_key@, signature@, from@).0);
        assert forall|a: Seq<u8>|
            a.len() == 32 && #[trigger] store@.cache.hashes.contains_key(
                hex_of(a),
            ) implies store@.cache.hashes[hex_of(a)] == spec_subscription_hash_hex(
            store@,
            a,
        ) by {
            assert(s0.cache.hashes.contains_key(hex_of(a)));
        }
    }
    Ok(())
}

/// Read-only pre-flight check for relayers: verifies the signature, the
/// gate and the allowance, in that order, without transferring anything.
/// The allowance passes exactly when it is at least the token amount.
pub fn is_subscription_ready(
    store: &Store,
    public_key: &PublicKey,
    signature: &String,
    from: &AccountHash,
    blocktime: u64,
    allowance: u64,
) -> (r: Result<(), ContractError>)
    requires
        store@.wf(),
        from@.len() == 32,
    ensures
        r == spec_is_ready(store@, public_key@, signature@, from@, blocktime, allowance),
        r is Ok <==> (spec_authorized(
            public_key@,
            signature@,
            spec_subscription_hash_bytes(store@, from@),
        ) && blocktime >= spec_gate(store@, spec_subscription_hash_hex(store@, from@)) && allowance
            >= store@.token_amount),
{
    let (hash_bytes, ok) = authorize(store, public_key, signature, from);
    if !ok {
        return Err(ContractError::SignerFailed);
    }
    let hash_hex = crate::encoding::hex_encode(&hash_bytes);
    let gk = gate_key(hash_hex.as_str());
    let gate = match store.get_key(gk.as_str()) {
        Some(g) => g,
        None => 0,
    };
    if blocktime >= gate {
        if allowance < store.token_amount {
            Err(ContractError::InsufficientAllowance)
        } else {
            Ok(())
        }
    } else {
        Err(ContractError::InvalidBlockTime)
    }
}

/// Executes one billing cycle: verifies the signature, gates on the block
/// time, advances the billing gate by one period (from the block time when the
/// gate was never initialized), and returns the one-cycle transfer owed
/// from the subscriber to the publisher. The caller performs that
/// transfer after the billing gate has advanced; a rejected attempt changes
/// nothing.
pub fn execute_subscription(
    store: &mut Store,
    public_key: &PublicKey,
    signature: &String,
    from: &AccountHash,
    blocktime: u64,
) -> (r: Result<TransferRequest, ContractError>)
    requires
        old(store)@.wf(),
        from@.len() == 32,
    ensures
        final(store)@.wf(),
        final(store)@ == spec_execute(old(store)@, public_key@, signature@, from@, blocktime).0,
        (match r {
            Ok(t) => Ok::<TransferRequestView, ContractError>(t@),
            Err(e) => Err(e),
        }) == spec_execute(old(store)@, public_key@, signature@, from@, blocktime).1,
        r is Err ==> final(store)@ == old(store)@,
{
    let ghost s0 = store@;
    let (hash_bytes, ok) = authorize(store, public_key, signature, from);
    if !ok {
        return Err(ContractError::SignerFailed);
    }
    let hash_hex = crate::encoding::hex_encode(&hash_bytes);
    let gk = gate_key(hash_hex.as_str());
    let gate = match store.get_key(gk.as_str()) {
        Some(g) => g,
        None => 0,
    };
    if blocktime < gate {
        return Err(ContractError::InvalidBlockTime);
    }
    let base = if gate == 0 {
        blocktime
    } else {
        gate
    };
    let next = sat_add64(base, store.period_ms);
    store.set_key(gk.as_str(), next);
    let request = TransferRequest {
        owner: from.clone(),
        recipient: store.to.clone(),
        amount: store.token_amount,
    };
    proof {
        assert(store@ =~~= spec_execute(s0, public_key@, signature@, from@, blocktime).0);
        assert forall|a: Seq<u8>|
            a.len() == 32 && #[trigger] store@.cache.hashes.contains_key(
                hex_of(a),
            ) implies store@.cache.hashes[hex_of(a)] == spec_subscription_hash_hex(
            store@,
            a,
        ) by {
            assert(s0.cache.hashes.contains_key(hex_of(a)));
        }
    }
    Ok(request)
}

/// One entry point of the deployed contract: its name and its named,
/// typed parameters.
pub struct EntryPointDef {
    /// The entry point's name.
    pub name: String,
    /// Parameter names with the names of their host-level types.
    pub params: Vec<(String, String)>,
}

fn param(name: &str, ty: &str) -> (r: (String, String))
    ensures
        r.0@ == name@,
        r.1@ == ty@,
{
    (name.to_owned(), ty.to_owned())
}

/// The table of the contract's entry points, with the parameters each one
/// takes.
pub fn get_entry_points() -> (eps: Vec<EntryPointDef>)
    ensures
        eps@.len() == 6,
        eps@[0].name@ == "is_subscription_active"@,
        eps@[0].params@.len() == 2,
        eps@[0].params@[0].0@ == "subscription_hash"@,
        eps@[0].params@[0].1@ == "string"@,
        eps@[0].params@[1].0@ == "grace_period_seconds"@,
        eps@[0].params@[1].1@ == "u64"@,
        eps@[1].name@ == "is_subscription_ready"@,
        eps@[1].params@.len() == 3,
        eps@[1].params@[0].0@ == "public"@,
        eps@[1].params@[0].1@ == "public_key"@,
        eps@[1].params@[1].0@ == "signature"@,
        eps@[1].params@[1].1@ == "string"@,
        eps@[1].params@[2].0@ == "from"@,
        eps@[1].params@[2].1@ == "account_hash"@,
        eps@[2].name@ == "cancel_subscription"@,
        eps@[2].params@.len() == 3,
        eps@[2].params@[0].0@ == "public"@,
        eps@[2].params@[1].0@ == "signature"@,
        eps@[2].params@[2].0@ == "from"@,
        eps@[3].name@ == "create_subscription_hash"@,
        eps@[3].params@.len() == 1,
        eps@[3].params@[0].0@ == "from"@,
        eps@[3].params@[0].1@ == "account_hash"@,
        eps@[4].name@ == "get_subscription_hash"@,
        eps@[4].params@.len() == 1,
        eps@[4].params@[0].0@ == "from"@,
        eps@[5].name@ == "execute_subscription"@,
        eps@[5].params@.len() == 3,
        eps@[5].params@[0].0@ == "public"@,
        eps@[5].params@[1].0@ == "signature"@,
        eps@[5].params@[2].0@ == "from"@,
{
    let mut eps: Vec<EntryPointDef> = Vec::new();

    let mut p0: Vec<(String, String)> = Vec::new();
    p0.push(param("subscription_hash", "string"));
    p0.push(param("grace_period_seconds", "u64"));
    eps.push(EntryPointDef { name: "is_subscription_active".to_owned(), params: p0 });

    let mut p1: Vec<(String, String)> = Vec::new();
    p1.push(param("public", "public_key"));
    p1.push(param("signature", "string"));
    p1.push(param("from", "account_hash"));
    eps.push(EntryPointDef { name: "is_subscription_ready".to_owned(), params: p1 });

    let mut p2: Vec<(String, String)> = Vec::new();
    p2.push(param("public", "public_key"));
    p2.push(param("signature", "string"));
    p2.push(param("from", "account_hash"));
    eps.push(EntryPointDef { name: "cancel_subscription".to_owned(), params: p2 });

    let mut p3: Vec<(String, String)> = Vec::new();
    p3.push(param("from", "account_hash"));
    eps.push(EntryPointDef { name: "create_subscription_hash".to_owned(), params: p3 });

    let mut p4: Vec<(String, String)> = Vec::new();
    p4.push(param("from", "account_hash"));
    eps.push(EntryPointDef { name: "get_subscription_hash".to_owned(), params: p4 });

    let mut p5: Vec<(String, String)> = Vec::new();
    p5.push(param("public", "public_key"));
    p5.push(param("signature", "string"));
    p5.push(param("from", "account_hash"));
    eps.push(EntryPointDef { name: "execute_subscription".to_owned(), params: p5 });

    eps
}

/// Establishes the subscription terms once: the publisher, the per-cycle
/// token amount, the billing period (stored in milliseconds) and the
/// token-ledger contract reference, with an empty cache and gate table.
pub fn install_or_upgrade_contract(
    to: AccountHash,
    token_amount: u64,
    period_seconds: u64,
    erc20_contract_hash: String,
) -> (s: Store)
    requires
        to@.len() == 32,
        token_amount > 0,
        period_seconds <= u64::MAX / 1000,
    ensures
        s@ == spec_install(to@, token_amount, period_seconds, erc20_contract_hash@),
        s@.wf(),
{
    let s = Store {
        to,
        token_amount,
        period_ms: period_seconds * 1000,
        erc20_contract_hash,
        hashes: Hashes::new(),
        gates: StringHashMap::new(),
    };
    proof {
        assert(s@ =~~= spec_install(s.to@, token_amount, period_seconds, s.erc20_contract_hash@));
    }
    s
}

/// The session entry point: installs the contract with the supplied
/// terms.
pub fn call(
    to: AccountHash,
    token_amount: u64,
    period_seconds: u64,
    erc20_contract_hash: String,
) -> (s: Store)
    requires
        to@.len() == 32,
        token_amount > 0,
        period_seconds <= u64::MAX / 1000,
    ensures
        s@ == spec_install(to@, token_amount, period_seconds, erc20_contract_hash@),
        s@.wf(),
{
    install_or_upgrade_contract(to, token_amount, period_seconds, erc20_contract_hash)
}

} // verus!
