use vstd::prelude::*;

verus! {

/// Byte-for-byte copy of a byte vector.
pub(crate) fn clone_bytes(v: &Vec<u8>) -> (r: Vec<u8>)
    ensures
        r@ == v@,
{
    let mut out: Vec<u8> = Vec::new();
    let mut i: usize = 0;
    while i < v.len()
        invariant
            i <= v@.len(),
            out@ == v@.take(i as int),
        decreases v@.len() - i,
    {
        out.push(v[i]);
        i = i + 1;
        proof {
            assert(out@ =~= v@.take(i as int));
        }
    }
    proof {
        assert(out@ =~= v@);
    }
    out
}

/// A 32-byte account identity. Its canonical textual form, used both in
/// the signed message and as a dictionary key, is its lowercase hex
/// rendering.
#[derive(Debug, PartialEq, Eq)]
pub struct AccountHash {
    bytes: Vec<u8>,
}

impl View for AccountHash {
    type V = Seq<u8>;

    closed spec fn view(&self) -> Seq<u8> {
        self.bytes@
    }
}

impl AccountHash {
    /// Wraps the 32 raw bytes of an account identity.
    pub fn new(bytes: Vec<u8>) -> (r: Self)
        requires
            bytes@.len() == 32,
        ensures
            r@ == bytes@,
    {
        AccountHash { bytes }
    }

    /// Whether this identity is well formed.
    pub open spec fn wf(&self) -> bool {
        self@.len() == 32
    }

    /// The raw bytes of the identity.
    pub fn as_bytes(&self) -> (r: &Vec<u8>)
        ensures
            r@ == self@,
    {
        &self.bytes
    }
}

impl Clone for AccountHash {
    fn clone(&self) -> (r: Self)
        ensures
            r@ == self@,
    {
        AccountHash { bytes: clone_bytes(&self.bytes) }
    }
}

/// A public key of one of the closed set of supported algorithms.
/// Only Ed25519 carries verification logic; the other variants exist to
/// be rejected explicitly.
#[derive(Debug, PartialEq, Eq)]
pub enum PublicKey {
    /// A 32-byte Ed25519 public key.
    Ed25519(Vec<u8>),
    /// A 33-byte compressed secp256k1 public key; never accepted as a signer.
    Secp256k1(Vec<u8>),
    /// The system variant; never accepted as a signer.
    System,
}

/// The mathematical shape of a public key.
pub enum PublicKeyView {
    Ed25519(Seq<u8>),
    Secp256k1(Seq<u8>),
    System,
}

impl View for PublicKey {
    type V = PublicKeyView;

    open spec fn view(&self) -> PublicKeyView {
        match self {
            PublicKey::Ed25519(b) => PublicKeyView::Ed25519(b@),
            PublicKey::Secp256k1(b) => PublicKeyView::Secp256k1(b@),
            PublicKey::System => PublicKeyView::System,
        }
    }
}

impl Clone for PublicKey {
    fn clone(&self) -> (r: Self)
        ensures
            r@ == self@,
    {
        match self {
            PublicKey::Ed25519(b) => PublicKey::Ed25519(clone_bytes(b)),
            PublicKey::Secp256k1(b) => PublicKey::Secp256k1(clone_bytes(b)),
            PublicKey::System => PublicKey::System,
        }
    }
}

/// A detached signature of one of the closed set of supported algorithms.
#[derive(Debug, PartialEq, Eq)]
pub enum Signature {
    /// A 64-byte Ed25519 signature.
    Ed25519(Vec<u8>),
    /// A secp256k1 signature; never accepted.
    Secp256k1(Vec<u8>),
    /// The system variant; never accepted.
    System,
}

/// The mathematical shape of a signature.
pub enum SignatureView {
    Ed25519(Seq<u8>),
    Secp256k1(Seq<u8>),
    System,
}

impl View for Signature {
    type V = SignatureView;

    open spec fn view(&self) -> SignatureView {
        match self {
            Signature::Ed25519(b) => SignatureView::Ed25519(b@),
            Signature::Secp256k1(b) => SignatureView::Secp256k1(b@),
            Signature::System => SignatureView::System,
        }
    }
}

impl Clone for Signature {
    fn clone(&self) -> (r: Self)
        ensures
            r@ == self@,
    {
        match self {
            Signature::Ed25519(b) => Signature::Ed25519(clone_bytes(b)),
            Signature::Secp256k1(b) => Signature::Secp256k1(clone_bytes(b)),
            Signature::System => Signature::System,
        }
    }
}

/// A secret key of one of the closed set of supported algorithms.
#[derive(Debug, PartialEq, Eq)]
pub enum SecretKey {
    /// A 32-byte Ed25519 seed.
    Ed25519(Vec<u8>),
    /// A 32-byte secp256k1 scalar.
    Secp256k1(Vec<u8>),
    /// The system variant; cannot sign.
    System,
}

/// The mathematical shape of a secret key.
pub enum SecretKeyView {
    Ed25519(Seq<u8>),
    Secp256k1(Seq<u8>),
    System,
}

impl View for SecretKey {
    type V = SecretKeyView;

    open spec fn view(&self) -> SecretKeyView {
        match self {
            SecretKey::Ed25519(b) => SecretKeyView::Ed25519(b@),
            SecretKey::Secp256k1(b) => SecretKeyView::Secp256k1(b@),
            SecretKey::System => SecretKeyView::System,
        }
    }
}

impl Clone for SecretKey {
    fn clone(&self) -> (r: Self)
        ensures
            r@ == self@,
    {
        match self {
            SecretKey::Ed25519(b) => SecretKey::Ed25519(clone_bytes(b)),
            SecretKey::Secp256k1(b) => SecretKey::Secp256k1(clone_bytes(b)),
            SecretKey::System => SecretKey::System,
        }
    }
}

/// Whether a strict Ed25519 verification of `signature` over `message`
/// under `public_key` succeeds. The outcome is a function of the three
/// byte strings alone.
pub uninterp spec fn ed25519_verifies(
    public_key: Seq<u8>,
    signature: Seq<u8>,
    message: Seq<u8>,
) -> bool;

/// Relies on ed25519_dalek::PublicKey::verify_strict: strict verification
/// with no context string and no malleability tolerance, a deterministic
/// function of the key bytes, signature bytes and message bytes; byte
/// strings that do not parse as a key or a signature never verify.
#[verifier::external_body]
pub(crate) fn ed25519_verify(public_key: &Vec<u8>, signature: &Vec<u8>, message: &Vec<u8>) -> (r:
    bool)
    ensures
        r == ed25519_verifies(public_key@, signature@, message@),
{
    let pk = match ed25519_dalek::PublicKey::from_bytes(public_key) {
        Ok(pk) => pk,
        Err(_) => return false,
    };
    let sig = match ed25519_dalek::Signature::try_from(&signature[..]) {
        Ok(sig) => sig,
        Err(_) => return false,
    };
    pk.verify_strict(message, &sig).is_ok()
}

/// What the signature check of the entry points accepts: an Ed25519 key
/// with an Ed25519 signature that strictly verifies over the hash; every
/// other combination is rejected.
pub open spec fn spec_signer_verified(pk: PublicKeyView, sig: SignatureView, h: Seq<u8>) -> bool {
    match (pk, sig) {
        (PublicKeyView::Ed25519(p), SignatureView::Ed25519(s)) => ed25519_verifies(p, s, h),
        _ => false,
    }
}

} // verus!
