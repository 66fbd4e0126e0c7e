use vstd::prelude::*;
use vstd::string::StringExecFns;

use crate::crypto::{SecretKey, SecretKeyView};

verus! {

/// Cryptographic errors of the offline key-loading utility.
#[derive(Clone, Copy, PartialEq, Eq, Structural, Debug)]
pub enum Error {
    /// A key was built with the wrong length for its algorithm.
    AsymmetricKey,
    /// The input is not a PEM document, or its tag does not match the
    /// key algorithm found inside.
    FromPem,
    /// The DER structure is not a supported secret-key encoding.
    FromDer,
    /// The system key cannot be handled.
    System,
}

/// The minimal DER encoding of a length below 65536: one byte below 128,
/// two bytes below 256, three bytes otherwise.
pub open spec fn der_len(n: nat) -> Seq<u8> {
    if n < 128 {
        seq![n as u8]
    } else if n < 256 {
        seq![0x81u8, n as u8]
    } else {
        seq![0x82u8, (n / 256) as u8, (n % 256) as u8]
    }
}

/// Reads a minimal DER length at `pos`: the length read and the position
/// after it, or nothing where no minimal encoding sits.
pub open spec fn spec_read_len(b: Seq<u8>, pos: int) -> Option<(nat, int)> {
    if 0 <= pos < b.len() {
        if b[pos] < 128 {
            Some((b[pos] as nat, pos + 1))
        } else if b[pos] == 0x81 {
            if pos + 1 < b.len() && b[pos + 1] >= 128 {
                Some((b[pos + 1] as nat, pos + 2))
            } else {
                None
            }
        } else if b[pos] == 0x82 {
            if pos + 2 < b.len() && (b[pos + 1] as int) * 256 + b[pos + 2] >= 256 {
                Some(((((b[pos + 1] as int) * 256 + b[pos + 2]) as nat), pos + 3))
            } else {
                None
            }
        } else {
            None
        }
    } else {
        None
    }
}

/// A successful length read reads back exactly a minimal length encoding.
pub proof fn lemma_spec_read_len_sound(b: Seq<u8>, pos: int)
    requires
        spec_read_len(b, pos) is Some,
    ensures
        ({
            let (n, p) = spec_read_len(b, pos).unwrap();
            &&& n < 65536
            &&& p == pos + der_len(n).len()
            &&& p <= b.len()
            &&& b.subrange(pos, p) == der_len(n)
        }),
{
    let (n, p) = spec_read_len(b, pos).unwrap();
    assert(b.subrange(pos, p) =~= der_len(n));
}

/// Where a minimal length encoding sits, the read returns that length.
pub proof fn lemma_spec_read_len_complete(b: Seq<u8>, pos: int, n: nat)
    requires
        0 <= pos,
        n < 65536,
        pos + der_len(n).len() <= b.len(),
        b.subrange(pos, pos + der_len(n).len()) == der_len(n),
    ensures
        spec_read_len(b, pos) == Some((n, pos + der_len(n).len())),
{
    let l = der_len(n).len();
    assert forall|i: int| 0 <= i < l implies b[pos + i] == der_len(n)[i] by {
        assert(b.subrange(pos, pos + l)[i] == b[pos + i]);
    }
    if n < 128 {
        assert(b[pos] == der_len(n)[0]);
    } else if n < 256 {
        assert(b[pos] == der_len(n)[0]);
        assert(b[pos + 1] == der_len(n)[1]);
    } else {
        assert(b[pos] == der_len(n)[0]);
        assert(b[pos + 1] == der_len(n)[1]);
        assert(b[pos + 2] == der_len(n)[2]);
        assert((n / 256) * 256 + n % 256 == n) by (nonlinear_arith);
        assert(n / 256 < 256) by (nonlinear_arith)
            requires
                n < 65536,
        ;
        assert(n / 256 >= 1) by (nonlinear_arith)
            requires
                n >= 256,
        ;
    }
}

/// One complete tag-length-value unit with a minimal DER length.
pub open spec fn is_tlv(b: Seq<u8>) -> bool {
    &&& b.len() >= 2
    &&& if b[1] < 128 {
        b.len() == 2 + b[1]
    } else if b[1] == 0x81 {
        b.len() >= 3 && b[2] >= 128 && b.len() == 3 + b[2]
    } else if b[1] == 0x82 {
        b.len() >= 4 && (b[2] as int) * 256 + b[3] >= 256 && b.len() == 4 + (b[2] as int) * 256
            + b[3]
    } else {
        false
    }
}

/// The PKCS#8 encoding of an Ed25519 secret key: a 48-byte sequence
/// holding version zero, the Ed25519 algorithm identifier, and the 32 key
/// bytes as an octet string nested in an octet string.
pub open spec fn ed25519_pkcs8(key: Seq<u8>) -> Seq<u8> {
    seq![
        0x30u8,
        0x2eu8,
        0x02u8,
        0x01u8,
        0x00u8,
        0x30u8,
        0x05u8,
        0x06u8,
        0x03u8,
        0x2bu8,
        0x65u8,
        0x70u8,
        0x04u8,
        0x22u8,
        0x04u8,
        0x20u8,
    ] + key
}

/// The SEC1 encoding of a secp256k1 secret key: a sequence holding
/// version one, the 32 key bytes as an octet string, the secp256k1 curve
/// identifier in its context tag, and an optional trailing value (the
/// public key), itself one complete unit.
pub open spec fn secp256k1_sec1(key: Seq<u8>, tail: Seq<u8>) -> Seq<u8> {
    seq![0x30u8] + der_len((46 + tail.len()) as nat) + seq![0x02u8, 0x01u8, 0x01u8, 0x04u8, 0x20u8]
        + key + seq![0xa0u8, 0x07u8, 0x06u8, 0x05u8, 0x2bu8, 0x81u8, 0x04u8, 0x00u8, 0x0au8] + tail
}

/// The input is the PKCS#8 encoding of the 32-byte Ed25519 key.
pub open spec fn parses_ed25519(input: Seq<u8>, key: Seq<u8>) -> bool {
    key.len() == 32 && input == ed25519_pkcs8(key)
}

/// The input is the SEC1 encoding of the 32-byte secp256k1 key, with an
/// empty or one-unit trailing value.
pub open spec fn parses_secp256k1(input: Seq<u8>, key: Seq<u8>) -> bool {
    key.len() == 32 && exists|tail: Seq<u8>|
        (tail.len() == 0 || is_tlv(tail)) && input == #[trigger] secp256k1_sec1(key, tail)
}

/// The functional model of the DER secret-key parser. A sequence opens
/// the input and must fill it; a one-byte version integer follows; a
/// nested sequence announces an Ed25519 key (version zero), a nested
/// octet string a secp256k1 key (version one). The key must have exactly
/// 32 bytes.
pub open spec fn spec_from_der(b: Seq<u8>) -> Result<SecretKeyView, Error> {
    if b.len() < 2 || b[0] != 0x30 {
        Err(Error::FromDer)
    } else {
        match spec_read_len(b, 1) {
            None => Err(Error::FromDer),
            Some((clen, p1)) => {
                if b.len() - p1 != clen || b.len() - p1 < 3 {
                    Err(Error::FromDer)
                } else if b[p1] != 0x02 || b[p1 + 1] != 0x01 {
                    Err(Error::FromDer)
                } else {
                    let version = b[p1 + 2];
                    let p2 = p1 + 3;
                    if p2 >= b.len() {
                        Err(Error::FromDer)
                    } else if b[p2] == 0x30 {
                        spec_from_der_ed25519_arm(b, version, p2)
                    } else if b[p2] == 0x04 {
                        spec_from_der_secp256k1_arm(b, version, p2)
                    } else {
                        Err(Error::FromDer)
                    }
                }
            },
        }
    }
}

/// The Ed25519 arm of the parser: version zero, the fixed algorithm
/// identifier, then the key as an octet string in an octet string,
/// filling the input.
pub open spec fn spec_from_der_ed25519_arm(b: Seq<u8>, version: u8, p2: int) -> Result<
    SecretKeyView,
    Error,
> {
    if version != 0 {
        Err(Error::FromDer)
    } else if b.len() - p2 != 43 {
        Err(Error::FromDer)
    } else if b[p2 + 1] != 0x05 || b[p2 + 2] != 0x06 || b[p2 + 3] != 0x03 || b[p2 + 4] != 0x2b
        || b[p2 + 5] != 0x65 || b[p2 + 6] != 0x70 {
        Err(Error::FromDer)
    } else if b[p2 + 7] != 0x04 || b[p2 + 8] != 0x22 || b[p2 + 9] != 0x04 || b[p2 + 10] != 0x20 {
        Err(Error::FromDer)
    } else {
        Ok(SecretKeyView::Ed25519(b.subrange(p2 + 11, b.len() as int)))
    }
}

/// The secp256k1 arm of the parser: version one, the key octet string,
/// the curve identifier, and an optional trailing unit filling the input.
pub open spec fn spec_from_der_secp256k1_arm(b: Seq<u8>, version: u8, p2: int) -> Result<
    SecretKeyView,
    Error,
> {
    if version != 1 {
        Err(Error::FromDer)
    } else {
        match spec_read_len(b, p2 + 1) {
            None => Err(Error::FromDer),
            Some((klen, kp)) => {
                if b.len() - kp < klen {
                    Err(Error::FromDer)
                } else {
                    let key_end = kp + klen;
                    if b.len() - key_end < 9 {
                        Err(Error::FromDer)
                    } else if b[key_end] != 0xa0 || b[key_end + 1] != 0x07 || b[key_end + 2] != 0x06
                        || b[key_end + 3] != 0x05 || b[key_end + 4] != 0x2b || b[key_end + 5]
                        != 0x81 || b[key_end + 6] != 0x04 || b[key_end + 7] != 0x00 || b[key_end
                        + 8] != 0x0a {
                        Err(Error::FromDer)
                    } else {
                        let p3 = key_end + 9;
                        if p3 < b.len() && !(p3 + 1 < b.len() && match spec_read_len(b, p3 + 1) {
                            Some((tlen, tp)) => b.len() - tp == tlen,
                            None => false,
                        }) {
                            Err(Error::FromDer)
                        } else if klen != 32 {
                            Err(Error::AsymmetricKey)
                        } else {
                            Ok(SecretKeyView::Secp256k1(b.subrange(kp, key_end)))
                        }
                    }
                }
            },
        }
    }
}

/// Reads a minimal DER length at `pos`.
fn read_len(input: &Vec<u8>, pos: usize) -> (r: Option<(usize, usize)>)
    requires
        pos < input@.len(),
    ensures
        match r {
            Some((n, p)) => spec_read_len(input@, pos as int) == Some((n as nat, p as int)),
            None => spec_read_len(input@, pos as int) is None,
        },
{
    let len = input.len();
    let b0 = input[pos];
    if b0 < 128 {
        Some((b0 as usize, pos + 1))
    } else if b0 == 0x81 {
        if pos + 1 < len {
            let b1 = input[pos + 1];
            if b1 >= 128 {
                Some((b1 as usize, pos + 2))
            } else {
                None
            }
        } else {
            None
        }
    } else if b0 == 0x82 {
        if pos + 1 < len && pos + 2 < len {
            let n = (input[pos + 1] as usize) * 256 + (input[pos + 2] as usize);
            if n >= 256 {
                Some((n, pos + 3))
            } else {
                None
            }
        } else {
            None
        }
    } else {
        None
    }
}

/// Copies a range of a byte vector.
fn copy_range(v: &Vec<u8>, start: usize, end: usize) -> (r: Vec<u8>)
    requires
        start <= end,
        end <= v@.len(),
    ensures
        r@ == v@.subrange(start as int, end as int),
{
    let mut out: Vec<u8> = Vec::new();
    let mut i: usize = start;
    while i < end
        invariant
            start <= i <= end,
            end <= v@.len(),
            out@ == v@.subrange(start as int, i as int),
        decreases end - i,
    {
        out.push(v[i]);
        i = i + 1;
        proof {
            assert(out@ =~= v@.subrange(start as int, i as int));
        }
    }
    out
}

/// Parses a DER-encoded secret key: the PKCS#8 form of an Ed25519 key or
/// the SEC1 form of a secp256k1 key, exactly as `spec_from_der` states.
pub fn from_der(input: &Vec<u8>) -> (r: Result<SecretKey, Error>)
    ensures
        (match r {
            Ok(k) => Ok::<SecretKeyView, Error>(k@),
            Err(e) => Err::<SecretKeyView, Error>(e),
        }) == spec_from_der(input@),
{
    let n = input.len();
    if n < 2 || *input.get(0).unwrap() != 0x30u8 {
        return Err(Error::FromDer);
    }
    let (clen, p1) = match read_len(input, 1) {
        Some(x) => x,
        None => return Err(Error::FromDer),
    };
    if n - p1 != clen || n - p1 < 3 {
        return Err(Error::FromDer);
    }
    if input[p1] != 0x02u8 || input[p1 + 1] != 0x01u8 {
        return Err(Error::FromDer);
    }
    let version = input[p1 + 2];
    let p2 = p1 + 3;
    if p2 >= n {
        return Err(Error::FromDer);
    }
    let tag = input[p2];
    if tag == 0x30u8 {
        // An Ed25519 key is announced.
        if version != 0 {
            return Err(Error::FromDer);
        }
        if n - p2 != 43 {
            return Err(Error::FromDer);
        }
        if input[p2 + 1] != 0x05u8 || input[p2 + 2] != 0x06u8 || input[p2 + 3] != 0x03u8 || input[p2
            + 4] != 0x2bu8 || input[p2 + 5] != 0x65u8 || input[p2 + 6] != 0x70u8 {
            return Err(Error::FromDer);
        }
        if input[p2 + 7] != 0x04u8 || input[p2 + 8] != 0x22u8 || input[p2 + 9] != 0x04u8 || input[p2
            + 10] != 0x20u8 {
            return Err(Error::FromDer);
        }
        let key = copy_range(input, p2 + 11, n);
        Ok(SecretKey::Ed25519(key))
    } else if tag == 0x04u8 {
        // A secp256k1 key is announced.
        if version != 1 {
            return Err(Error::FromDer);
        }
        if p2 + 1 >= n {
            proof {
                assert(spec_read_len(input@, p2 + 1) is None);
            }
            return Err(Error::FromDer);
        }
        let (klen, kp) = match read_len(input, p2 + 1) {
            Some(x) => x,
            None => return Err(Error::FromDer),
        };
        if n - kp < klen {
            return Err(Error::FromDer);
        }
        let key_end = kp + klen;
        if n - key_end < 9 {
            return Err(Error::FromDer);
        }
        if input[key_end] != 0xa0u8 || input[key_end + 1] != 0x07u8 || input[key_end + 2] != 0x06u8
            || input[key_end + 3] != 0x05u8 || input[key_end + 4] != 0x2bu8 || input[key_end + 5]
            != 0x81u8 || input[key_end + 6] != 0x04u8 || input[key_end + 7] != 0x00u8
            || input[key_end + 8] != 0x0au8 {
            return Err(Error::FromDer);
        }
        let p3 = key_end + 9;
        if p3 < n {
            // The optional trailing value must be one unit filling the rest.
            if p3 + 1 >= n {
                proof {
                    assert(spec_read_len(input@, p3 + 1) is None);
                }
                return Err(Error::FromDer);
            }
            let (tlen, tp) = match read_len(input, p3 + 1) {
                Some(x) => x,
                None => return Err(Error::FromDer),
            };
            if n - tp != tlen {
                return Err(Error::FromDer);
            }
        }
        if klen != 32 {
            return Err(Error::AsymmetricKey);
        }
        let key = copy_range(input, kp, key_end);
        Ok(SecretKey::Secp256k1(key))
    } else {
        Err(Error::FromDer)
    }
}

/// Soundness of the parser: a parsed Ed25519 key came from exactly its
/// PKCS#8 encoding, a parsed secp256k1 key from exactly its SEC1
/// encoding, and no parse yields the system variant.
pub proof fn lemma_from_der_sound(b: Seq<u8>)
    ensures
        match spec_from_der(b) {
            Ok(SecretKeyView::Ed25519(k)) => parses_ed25519(b, k),
            Ok(SecretKeyView::Secp256k1(k)) => parses_secp256k1(b, k),
            Ok(SecretKeyView::System) => false,
            Err(_) => true,
        },
{
    if spec_from_der(b) is Ok {
        let (clen, p1) = spec_read_len(b, 1).unwrap();
        lemma_spec_read_len_sound(b, 1);
        let version = b[p1 + 2];
        let p2 = p1 + 3;
        if b[p2] == 0x30 {
            // clen == b.len() - p1 and the arm forces b.len() - p2 == 43,
            // so clen == 46 and its minimal encoding is one byte.
            assert(clen == 46);
            assert(p1 == 2);
            let k = b.subrange(p2 + 11, b.len() as int);
            assert(b =~= ed25519_pkcs8(k));
        } else {
            let (klen, kp) = spec_read_len(b, p2 + 1).unwrap();
            lemma_spec_read_len_sound(b, p2 + 1);
            assert(klen == 32);
            let key_end = kp + klen;
            let p3 = key_end + 9;
            let k = b.subrange(kp, key_end);
            let tail = b.subrange(p3, b.len() as int);
            assert(clen == 46 + tail.len());
            if p3 < b.len() {
                let (tlen, tp) = spec_read_len(b, p3 + 1).unwrap();
                lemma_spec_read_len_sound(b, p3 + 1);
                assert(tail.len() >= 2);
                assert forall|i: int| 0 <= i < tail.len() implies tail[i] == b[p3 + i] by {}
                assert(is_tlv(tail));
            }
            assert(b =~= secp256k1_sec1(k, tail));
            assert(parses_secp256k1(b, k));
        }
    }
}

/// Completeness of the parser for Ed25519: the PKCS#8 encoding of any
/// 32-byte key parses to that key.
pub proof fn lemma_from_der_complete_ed25519(b: Seq<u8>, key: Seq<u8>)
    requires
        parses_ed25519(b, key),
    ensures
        spec_from_der(b) == Ok::<SecretKeyView, Error>(SecretKeyView::Ed25519(key)),
{
    assert(b.len() == 48);
    assert(b[1] == 0x2e && b[1] < 128);
    assert(spec_read_len(b, 1) == Some((46 as nat, 2int)));
    assert(b.subrange(16, 48) =~= key);
}

/// Completeness of the parser for secp256k1: the SEC1 encoding of any
/// 32-byte key, with an empty or one-unit trailing value, parses to that
/// key.
pub proof fn lemma_from_der_complete_secp256k1(b: Seq<u8>, key: Seq<u8>, tail: Seq<u8>)
    requires
        key.len() == 32,
        tail.len() == 0 || is_tlv(tail),
        tail.len() < 65000,
        b == secp256k1_sec1(key, tail),
    ensures
        spec_from_der(b) == Ok::<SecretKeyView, Error>(SecretKeyView::Secp256k1(key)),
{
    let clen: int = 46 + tail.len() as int;
    let ll: int = der_len(clen as nat).len() as int;
    assert(b.len() == 1 + ll + clen);
    assert(b.subrange(1, 1 + ll) =~= der_len(clen as nat));
    lemma_spec_read_len_complete(b, 1, clen as nat);
    let p1: int = 1 + ll;
    let p2: int = p1 + 3;
    assert(b[p1] == 0x02 && b[p1 + 1] == 0x01 && b[p1 + 2] == 0x01);
    assert(b[p2] == 0x04);
    assert(b[p2 + 1] == 0x20 && (b[p2 + 1] as int) < 128);
    assert(spec_read_len(b, p2 + 1) == Some((32 as nat, p2 + 2)));
    let kp: int = p2 + 2;
    let key_end: int = kp + 32;
    assert forall|i: int| 0 <= i < 9 implies b[key_end + i] == seq![
        0xa0u8,
        0x07u8,
        0x06u8,
        0x05u8,
        0x2bu8,
        0x81u8,
        0x04u8,
        0x00u8,
        0x0au8,
    ][i] by {}
    let p3: int = key_end + 9;
    assert forall|i: int| 0 <= i < tail.len() implies b[p3 + i] == tail[i] by {}
    if tail.len() != 0 {
        assert(tail.len() >= 2);
        assert(b[p3 + 1] == tail[1]);
        if tail[1] < 128 {
            assert(spec_read_len(b, p3 + 1) == Some((tail[1] as nat, p3 + 2)));
        } else if tail[1] == 0x81 {
            assert(b[p3 + 2] == tail[2]);
            assert(spec_read_len(b, p3 + 1) == Some((tail[2] as nat, p3 + 3)));
        } else {
            assert(tail[1] == 0x82);
            assert(b[p3 + 2] == tail[2] && b[p3 + 3] == tail[3]);
        }
    }
    assert(b.subrange(kp, key_end) =~= key);
}

/// A name for what pem::parse extracts from a PEM document: its tag and
/// its base64-decoded contents, a function of the input bytes alone; no
/// result where the input is not valid PEM.
pub uninterp spec fn pem_parse_of(input: Seq<u8>) -> Option<(Seq<char>, Seq<u8>)>;

/// Relies on pem::parse: decodes one PEM document into its tag and its
/// base64-decoded contents.
#[verifier::external_body]
fn pem_parse(input: &Vec<u8>) -> (r: Option<(String, Vec<u8>)>)
    ensures
        (match r {
            Some(p) => pem_parse_of(input@) == Some((p.0@, p.1@)),
            None => pem_parse_of(input@) is None,
        }),
{
    match pem::parse(input) {
        Ok(p) => Some((p.tag, p.contents)),
        Err(_) => None,
    }
}

/// The functional model of the PEM secret-key loader: the PEM document is
/// decoded, its contents parsed as DER, and the PEM tag checked against
/// the algorithm found inside.
pub open spec fn spec_from_pem(input: Seq<u8>) -> Result<SecretKeyView, Error> {
    match pem_parse_of(input) {
        None => Err(Error::FromPem),
        Some((tag, contents)) => match spec_from_der(contents) {
            Err(e) => Err(e),
            Ok(SecretKeyView::System) => Err(Error::System),
            Ok(SecretKeyView::Ed25519(k)) => if tag == "PRIVATE KEY"@ {
                Ok(SecretKeyView::Ed25519(k))
            } else {
                Err(Error::FromPem)
            },
            Ok(SecretKeyView::Secp256k1(k)) => if tag == "EC PRIVATE KEY"@ {
                Ok(SecretKeyView::Secp256k1(k))
            } else {
                Err(Error::FromPem)
            },
        },
    }
}

/// Loads a secret key from a PEM document, checking that the PEM tag
/// matches the algorithm of the key found inside.
pub fn from_pem(input: &Vec<u8>) -> (r: Result<SecretKey, Error>)
    ensures
        (match r {
            Ok(k) => Ok::<SecretKeyView, Error>(k@),
            Err(e) => Err::<SecretKeyView, Error>(e),
        }) == spec_from_pem(input@),
{
    let parsed = match pem_parse(input) {
        Some(p) => p,
        None => return Err(Error::FromPem),
    };
    let (tag, contents) = parsed;
    let secret = match from_der(&contents) {
        Ok(k) => k,
        Err(e) => return Err(e),
    };
    match &secret {
        SecretKey::System => Err(Error::System),
        SecretKey::Ed25519(_) => {
            let expected = String::from_str("PRIVATE KEY");
            if tag == expected {
                Ok(secret)
            } else {
                Err(Error::FromPem)
            }
        },
        SecretKey::Secp256k1(_) => {
            let expected = String::from_str("EC PRIVATE KEY");
            if tag == expected {
                Ok(secret)
            } else {
                Err(Error::FromPem)
            }
        },
    }
}

} // verus!
