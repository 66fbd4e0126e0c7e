use vstd::prelude::*;
use ed25519_dalek::Signer;

use crate::crypto::{SecretKey, SecretKeyView};
use crate::encoding::{hex_encode, hex_of};

verus! {

/// What Ed25519 signing produces: a name for the 64-byte signature over a
/// message under a 32-byte secret seed. Ed25519 signing is deterministic,
/// so the signature is a function of the seed and the message alone.
pub uninterp spec fn ed25519_sign_of(secret: Seq<u8>, message: Seq<u8>) -> Seq<u8>;

/// Relies on ed25519_dalek::Keypair::sign: deterministic Ed25519 signing
/// (RFC 8032) of the message under the 32-byte seed, yielding 64 bytes.
#[verifier::external_body]
fn ed25519_sign(secret: &Vec<u8>, message: &Vec<u8>) -> (r: Vec<u8>)
    requires
        secret@.len() == 32,
    ensures
        r@ == ed25519_sign_of(secret@, message@),
        r@.len() == 64,
{
    let sk = ed25519_dalek::SecretKey::from_bytes(secret).unwrap();
    let public = ed25519_dalek::PublicKey::from(&sk);
    let pair = ed25519_dalek::Keypair { secret: sk, public };
    pair.sign(message).to_bytes().to_vec()
}

/// Signs a 32-byte subscription digest with an Ed25519 secret key and
/// returns the signature as lowercase hex. Only an Ed25519 key can sign.
pub fn sign(secret_key: SecretKey, message_bytes: &Vec<u8>) -> (r: String)
    requires
        secret_key@ matches SecretKeyView::Ed25519(b) && b.len() == 32,
        message_bytes@.len() == 32,
    ensures
        (match secret_key@ {
            SecretKeyView::Ed25519(b) => r@ == hex_of(ed25519_sign_of(b, message_bytes@)),
            _ => false,
        }),
{
    match secret_key {
        SecretKey::Ed25519(b) => {
            let signature = ed25519_sign(&b, message_bytes);
            hex_encode(&signature)
        },
        _ => vstd::pervasive::unreached(),
    }
}

} // verus!
