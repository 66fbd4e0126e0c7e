use vstd::prelude::*;
use vstd::hash_map::StringHashMap;
use vstd::string::StringExecFns;

use crate::ContractError;
use crate::crypto::{AccountHash, PublicKeyView, SignatureView, spec_signer_verified};
use crate::encoding::{dec_of, hex_decode_spec, hex_of, valid_hex};
use crate::hashes::{Hashes, HashesView};

verus! {

/// The billing gate value written by a successful cancellation: a timestamp far
/// beyond any realistic block time, permanently disabling execution for
/// the cancelled hash.
pub const CANCELLED_TIMESTAMP_MS: u64 = 99999999999 * 1000;

/// One deployed instance's persisted state: the fixed subscription terms,
/// the per-subscriber hash cache, and the per-hash billing gate.
pub struct Store {
    /// The publisher: recipient of every payment.
    pub to: AccountHash,
    /// Tokens transferred per billing cycle.
    pub token_amount: u64,
    /// Billing interval in milliseconds.
    pub period_ms: u64,
    /// Reference to the token-ledger contract, in its formatted string form.
    pub erc20_contract_hash: String,
    /// Per-subscriber cache of subscription hashes and public keys.
    pub hashes: Hashes,
    /// Per-hash billing gate, stored under a prefixed hash string.
    pub gates: StringHashMap<u64>,
}

/// The mathematical content of a store.
#[verifier::ext_equal]
pub struct StoreView {
    pub to: Seq<u8>,
    pub token_amount: u64,
    pub period_ms: u64,
    pub erc20_contract_hash: Seq<char>,
    pub cache: HashesView,
    pub gates: Map<Seq<char>, u64>,
}

impl View for Store {
    type V = StoreView;

    open spec fn view(&self) -> StoreView {
        StoreView {
            to: self.to@,
            token_amount: self.token_amount,
            period_ms: self.period_ms,
            erc20_contract_hash: self.erc20_contract_hash@,
            cache: self.hashes@,
            gates: self.gates@,
        }
    }
}

impl Store {
    /// Typed read of a dynamically named slot: the value stored under
    /// `name`, or nothing where the slot was never written. The fixed
    /// terms have fields of their own; the dynamic slots hold the billing
    /// gate timestamps.
    pub fn get_key(&self, name: &str) -> (r: Option<u64>)
        ensures
            match r {
                Some(v) => self@.gates.contains_key(name@) && v == self@.gates[name@],
                None => !self@.gates.contains_key(name@),
            },
    {
        match self.gates.get(name) {
            Some(v) => Some(*v),
            None => None,
        }
    }

    /// Creates the named slot on first write and overwrites it in place
    /// thereafter.
    pub fn set_key(&mut self, name: &str, value: u64)
        ensures
            final(self)@ == (StoreView { gates: old(self)@.gates.insert(name@, value), ..old(
                self,
            )@ }),
    {
        self.gates.insert(name.to_owned(), value);
        proof {
            assert(self@ =~~= (StoreView {
                gates: old(self)@.gates.insert(name@, value),
                ..old(self)@
            }));
        }
    }
}

/// What an authorized subscriber signs: a name for the digest of the
/// EIP-191 envelope of a message, a function of the message alone.
pub uninterp spec fn hash_message_of(message: Seq<char>) -> Seq<u8>;

/// The canonical message identifying one subscriber's agreement to the
/// stored terms: publisher, subscriber, token amount and period joined by
/// underscores, identities in lowercase hex and integers in base ten.
pub open spec fn spec_subscription_data(s: StoreView, from: Seq<u8>) -> Seq<char> {
    hex_of(s.to) + seq!['_'] + hex_of(from) + seq!['_'] + dec_of(s.token_amount as nat)
        + seq!['_'] + dec_of(s.period_ms as nat)
}

/// The 32-byte digest identifying a subscription.
pub open spec fn spec_subscription_hash_bytes(s: StoreView, from: Seq<u8>) -> Seq<u8> {
    hash_message_of(spec_subscription_data(s, from))
}

/// The externally visible subscription identifier: the digest in
/// lowercase hex.
pub open spec fn spec_subscription_hash_hex(s: StoreView, from: Seq<u8>) -> Seq<char> {
    hex_of(spec_subscription_hash_bytes(s, from))
}

/// The dictionary name under which a hash's gate is stored: a fixed
/// prefix followed by the hash string.
pub open spec fn spec_gate_key(h: Seq<char>) -> Seq<char> {
    "next_valid_timestamp"@ + h
}

/// Builds the billing gate dictionary name for a hash string.
pub fn gate_key(h: &str) -> (r: String)
    ensures
        r@ == spec_gate_key(h@),
{
    let mut s = String::from_str("next_valid_timestamp");
    s.append(h);
    s
}

/// The billing gate for a hash: the stored timestamp, or zero when none was ever
/// stored.
pub open spec fn spec_gate(s: StoreView, h: Seq<char>) -> u64 {
    if s.gates.contains_key(spec_gate_key(h)) {
        s.gates[spec_gate_key(h)]
    } else {
        0
    }
}

/// Saturating 64-bit addition.
pub open spec fn sat_add(a: u64, b: u64) -> u64 {
    if a + b > u64::MAX {
        u64::MAX
    } else {
        (a + b) as u64
    }
}

/// Saturating 64-bit addition.
pub fn sat_add64(a: u64, b: u64) -> (r: u64)
    ensures
        r == sat_add(a, b),
{
    if a > u64::MAX - b {
        u64::MAX
    } else {
        a + b
    }
}

impl StoreView {
    /// Well-formedness: the publisher identity has its 32 bytes, and
    /// every cached hash is the canonical hash of the subscriber it is
    /// filed under.
    pub open spec fn wf(self) -> bool {
        &&& self.to.len() == 32
        &&& forall|a: Seq<u8>|
            a.len() == 32 && #[trigger] self.cache.hashes.contains_key(hex_of(a))
                ==> self.cache.hashes[hex_of(a)] == spec_subscription_hash_hex(self, a)
    }
}

/// The authorization check of the signature-bearing entry points: the hex
/// signature must decode to 64 bytes and strictly verify, under an
/// Ed25519 key, over the subscription's digest.
pub open spec fn spec_authorized(pk: PublicKeyView, sig: Seq<char>, h: Seq<u8>) -> bool {
    &&& valid_hex(sig)
    &&& hex_decode_spec(sig).len() == 64
    &&& spec_signer_verified(pk, SignatureView::Ed25519(hex_decode_spec(sig)), h)
}

/// The payment the executor owes after a successful execution.
#[derive(Debug)]
pub struct TransferRequest {
    /// The paying subscriber.
    pub owner: AccountHash,
    /// The receiving publisher.
    pub recipient: AccountHash,
    /// The fixed amount of one billing cycle.
    pub amount: u64,
}

/// The mathematical content of a transfer request.
pub struct TransferRequestView {
    pub owner: Seq<u8>,
    pub recipient: Seq<u8>,
    pub amount: u64,
}

impl View for TransferRequest {
    type V = TransferRequestView;

    open spec fn view(&self) -> TransferRequestView {
        TransferRequestView { owner: self.owner@, recipient: self.recipient@, amount: self.amount }
    }
}

/// The store installed from the given terms: the period in milliseconds,
/// an empty cache and an empty gate table.
pub open spec fn spec_install(
    to: Seq<u8>,
    token_amount: u64,
    period_seconds: u64,
    erc20_contract_hash: Seq<char>,
) -> StoreView {
    StoreView {
        to,
        token_amount,
        period_ms: (period_seconds * 1000) as u64,
        erc20_contract_hash,
        cache: HashesView {
            hashes: Map::<Seq<char>, Seq<char>>::empty(),
            pubkeys: Map::<Seq<char>, PublicKeyView>::empty(),
        },
        gates: Map::<Seq<char>, u64>::empty(),
    }
}

/// The state and returned identifier of a hash-producing call: the
/// canonical hash is cached for the subscriber, and, when the hash has no
/// gate yet, the billing gate is initialized to the block time plus one period.
pub open spec fn spec_hash_call(s: StoreView, from: Seq<u8>, blocktime: u64) -> (StoreView, Seq<
    char,
>) {
    let h = spec_subscription_hash_hex(s, from);
    let s1 = StoreView {
        cache: HashesView { hashes: s.cache.hashes.insert(hex_of(from), h), ..s.cache },
        ..s
    };
    let s2 = if spec_gate(s, h) == 0 {
        StoreView { gates: s.gates.insert(spec_gate_key(h), sat_add(blocktime, s.period_ms)), ..s1 }
    } else {
        s1
    };
    (s2, h)
}

/// The state and result of an execution attempt: an unauthorized call
/// fails as a signer failure; a block time short of the billing gate fails as an
/// invalid block time; otherwise the billing gate advances by one period (from
/// the block time, when the billing gate was never initialized) and the one-cycle
/// transfer from subscriber to publisher is owed.
pub open spec fn spec_execute(
    s: StoreView,
    pk: PublicKeyView,
    sig: Seq<char>,
    from: Seq<u8>,
    blocktime: u64,
) -> (StoreView, Result<TransferRequestView, ContractError>) {
    let h = spec_subscription_hash_hex(s, from);
    if !spec_authorized(pk, sig, spec_subscription_hash_bytes(s, from)) {
        (s, Err(ContractError::SignerFailed))
    } else if blocktime < spec_gate(s, h) {
        (s, Err(ContractError::InvalidBlockTime))
    } else {
        let base = if spec_gate(s, h) == 0 {
            blocktime
        } else {
            spec_gate(s, h)
        };
        (
            StoreView { gates: s.gates.insert(spec_gate_key(h), sat_add(base, s.period_ms)), ..s },
            Ok(TransferRequestView { owner: from, recipient: s.to, amount: s.token_amount }),
        )
    }
}

/// The state and result of a cancellation attempt: an unauthorized call
/// fails as a signer failure; otherwise the billing gate is set to the
/// cancellation sentinel, whatever it held before.
pub open spec fn spec_cancel(s: StoreView, pk: PublicKeyView, sig: Seq<char>, from: Seq<u8>) -> (
    StoreView,
    Result<(), ContractError>,
) {
    let h = spec_subscription_hash_hex(s, from);
    if !spec_authorized(pk, sig, spec_subscription_hash_bytes(s, from)) {
        (s, Err(ContractError::SignerFailed))
    } else {
        (
            StoreView {
                gates: s.gates.insert(spec_gate_key(h), CANCELLED_TIMESTAMP_MS),
                ..s
            },
            Ok(()),
        )
    }
}

/// The outcome of the read-only readiness check: signature, gate and
/// allowance are checked in that order, and the first failing check names
/// the error.
pub open spec fn spec_is_ready(
    s: StoreView,
    pk: PublicKeyView,
    sig: Seq<char>,
    from: Seq<u8>,
    blocktime: u64,
    allowance: u64,
) -> Result<(), ContractError> {
    let h = spec_subscription_hash_hex(s, from);
    if !spec_authorized(pk, sig, spec_subscription_hash_bytes(s, from)) {
        Err(ContractError::SignerFailed)
    } else if blocktime < spec_gate(s, h) {
        Err(ContractError::InvalidBlockTime)
    } else if allowance < s.token_amount {
        Err(ContractError::InsufficientAllowance)
    } else {
        Ok(())
    }
}

/// The outcome of the read-only liveness check: active exactly when the
/// block time has reached the billing gate plus the grace window.
pub open spec fn spec_is_active(
    s: StoreView,
    h: Seq<char>,
    grace_period_seconds: u64,
    blocktime: u64,
) -> Result<(), ContractError> {
    if blocktime as int >= spec_gate(s, h) + (grace_period_seconds as int) * 1000 {
        Ok(())
    } else {
        Err(ContractError::SubscriptionNotActive)
    }
}

} // verus!
