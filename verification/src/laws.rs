use vstd::prelude::*;

use crate::ContractError;
use crate::crypto::PublicKeyView;
use crate::store::{
    sat_add, spec_authorized, spec_cancel, spec_execute, spec_gate, spec_hash_call,
    spec_is_ready, spec_subscription_hash_bytes, spec_subscription_hash_hex, StoreView,
    TransferRequestView, CANCELLED_TIMESTAMP_MS,
};

verus! {

/// Determinism: the subscription hash is a function of the economic
/// parameters (publisher, token amount, period) and the subscriber alone.
/// Two stores agreeing on those parameters assign every subscriber the
/// same hash, however their caches and gate tables differ — in
/// particular, both hash-producing entry points, whose contracts return
/// `spec_hash_call`, yield this one value on every call.
pub proof fn lemma_hash_deterministic(
    s1: StoreView,
    s2: StoreView,
    from: Seq<u8>,
    bt1: u64,
    bt2: u64,
)
    requires
        s1.to == s2.to,
        s1.token_amount == s2.token_amount,
        s1.period_ms == s2.period_ms,
    ensures
        spec_subscription_hash_hex(s1, from) == spec_subscription_hash_hex(s2, from),
        spec_hash_call(s1, from, bt1).1 == spec_hash_call(s2, from, bt2).1,
{
}

/// Idempotent caching: two successive hash-producing calls for the same
/// subscriber return the same hash both times, and the billing gate the second
/// call leaves is never below the billing gate the first call left.
pub proof fn lemma_hash_call_idempotent(s0: StoreView, from: Seq<u8>, bt1: u64, bt2: u64)
    requires
        bt1 <= bt2,
    ensures
        ({
            let (s1, r1) = spec_hash_call(s0, from, bt1);
            let (s2, r2) = spec_hash_call(s1, from, bt2);
            &&& r1 == r2
            &&& spec_gate(s2, r2) >= spec_gate(s1, r1)
        }),
{
    let (s1, r1) = spec_hash_call(s0, from, bt1);
    let (s2, r2) = spec_hash_call(s1, from, bt2);
    assert(spec_subscription_hash_hex(s1, from) == spec_subscription_hash_hex(s0, from));
    assert(r1 == r2);
    if spec_gate(s1, r1) == 0 {
        assert(spec_gate(s2, r2) == sat_add(bt2, s1.period_ms));
    } else {
        assert(s2.gates == s1.gates);
    }
}

/// Gate monotonicity: a successful execution never lowers the billing gate, and
/// from an initialized gate whose advance fits in 64 bits it raises the
/// gate by exactly one period in milliseconds; a first execution (gate
/// never initialized) starts the billing gate from the block time plus one
/// period.
pub proof fn lemma_gate_advances_one_period(
    s: StoreView,
    pk: PublicKeyView,
    sig: Seq<char>,
    from: Seq<u8>,
    bt: u64,
)
    requires
        spec_execute(s, pk, sig, from, bt).1 is Ok,
    ensures
        ({
            let h = spec_subscription_hash_hex(s, from);
            let s2 = spec_execute(s, pk, sig, from, bt).0;
            &&& spec_gate(s2, h) >= spec_gate(s, h)
            &&& (spec_gate(s, h) != 0 && spec_gate(s, h) + s.period_ms <= u64::MAX
                ==> spec_gate(s2, h) == spec_gate(s, h) + s.period_ms)
            &&& (spec_gate(s, h) == 0 ==> spec_gate(s2, h) == sat_add(bt, s.period_ms))
        }),
{
}

/// A successful cancellation leaves the cancellation sentinel in the
/// subscriber's gate, and leaves the subscriber's hash unchanged.
pub proof fn lemma_cancel_sets_sentinel(
    s: StoreView,
    pk: PublicKeyView,
    sig: Seq<char>,
    from: Seq<u8>,
)
    requires
        spec_cancel(s, pk, sig, from).1 is Ok,
    ensures
        spec_gate(
            spec_cancel(s, pk, sig, from).0,
            spec_subscription_hash_hex(s, from),
        ) == CANCELLED_TIMESTAMP_MS,
        spec_subscription_hash_hex(spec_cancel(s, pk, sig, from).0, from)
            == spec_subscription_hash_hex(s, from),
{
}

/// Cancellation terminality: once the subscriber's gate holds the
/// cancellation sentinel, every execution and every readiness check at a
/// block time below the sentinel fails with InvalidBlockTime and changes
/// nothing, whatever valid signature it presents. The sentinel lies
/// beyond any realistic block time.
pub proof fn lemma_cancelled_blocks_execution(
    s: StoreView,
    pk: PublicKeyView,
    sig: Seq<char>,
    from: Seq<u8>,
    bt: u64,
    allowance: u64,
)
    requires
        spec_gate(s, spec_subscription_hash_hex(s, from)) == CANCELLED_TIMESTAMP_MS,
        bt < CANCELLED_TIMESTAMP_MS,
    ensures
        spec_authorized(pk, sig, spec_subscription_hash_bytes(s, from)) ==> spec_execute(
            s,
            pk,
            sig,
            from,
            bt,
        ).1 == Err::<TransferRequestView, ContractError>(ContractError::InvalidBlockTime),
        spec_execute(s, pk, sig, from, bt).0 == s,
        spec_authorized(pk, sig, spec_subscription_hash_bytes(s, from)) ==> spec_is_ready(
            s,
            pk,
            sig,
            from,
            bt,
            allowance,
        ) == Err::<(), ContractError>(ContractError::InvalidBlockTime),
{
}

/// Cancelling an already-cancelled subscription is legal and leaves the
/// same end state: cancellation is idempotent.
pub proof fn lemma_cancel_idempotent(s: StoreView, pk: PublicKeyView, sig: Seq<char>, from: Seq<u8>)
    ensures
        spec_cancel(spec_cancel(s, pk, sig, from).0, pk, sig, from).0 == spec_cancel(
            s,
            pk,
            sig,
            from,
        ).0,
{
    let s1 = spec_cancel(s, pk, sig, from).0;
    let s2 = spec_cancel(s1, pk, sig, from).0;
    assert(spec_subscription_hash_hex(s1, from) == spec_subscription_hash_hex(s, from));
    assert(spec_subscription_hash_bytes(s1, from) == spec_subscription_hash_bytes(s, from));
    assert(s2.gates =~= s1.gates);
    assert(s2 =~~= s1);
}

/// Allowance boundary: an allowance exactly equal to the token amount
/// passes the readiness check — only a strictly smaller allowance is
/// insufficient.
pub proof fn lemma_allowance_boundary(
    s: StoreView,
    pk: PublicKeyView,
    sig: Seq<char>,
    from: Seq<u8>,
    bt: u64,
)
    requires
        spec_authorized(pk, sig, spec_subscription_hash_bytes(s, from)),
        bt >= spec_gate(s, spec_subscription_hash_hex(s, from)),
    ensures
        spec_is_ready(s, pk, sig, from, bt, s.token_amount) == Ok::<(), ContractError>(()),
        forall|allowance: u64|
            allowance < s.token_amount ==> #[trigger] spec_is_ready(s, pk, sig, from, bt, allowance)
                == Err::<(), ContractError>(ContractError::InsufficientAllowance),
{
}

} // verus!
