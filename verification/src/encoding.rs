use vstd::prelude::*;
use vstd::string::StringExecFns;

verus! {

/// The lowercase hex digit standing for a value below sixteen.
pub open spec fn hex_char_of(n: u8) -> char {
    if n == 0 {
        '0'
    } else if n == 1 {
        '1'
    } else if n == 2 {
        '2'
    } else if n == 3 {
        '3'
    } else if n == 4 {
        '4'
    } else if n == 5 {
        '5'
    } else if n == 6 {
        '6'
    } else if n == 7 {
        '7'
    } else if n == 8 {
        '8'
    } else if n == 9 {
        '9'
    } else if n == 10 {
        'a'
    } else if n == 11 {
        'b'
    } else if n == 12 {
        'c'
    } else if n == 13 {
        'd'
    } else if n == 14 {
        'e'
    } else {
        'f'
    }
}

/// Lowercase hex rendering of a byte string: two digits per byte,
/// high nibble first.
pub open spec fn hex_of(b: Seq<u8>) -> Seq<char>
    decreases b.len(),
{
    if b.len() == 0 {
        Seq::empty()
    } else {
        seq![hex_char_of(b[0] / 16), hex_char_of(b[0] % 16)] + hex_of(b.skip(1))
    }
}

pub proof fn lemma_hex_of_len(b: Seq<u8>)
    ensures
        hex_of(b).len() == 2 * b.len(),
    decreases b.len(),
{
    if b.len() > 0 {
        lemma_hex_of_len(b.skip(1));
    }
}

pub proof fn lemma_hex_of_index(b: Seq<u8>, i: int)
    requires
        0 <= i < b.len(),
    ensures
        hex_of(b).len() == 2 * b.len(),
        hex_of(b)[2 * i] == hex_char_of(b[i] / 16),
        hex_of(b)[2 * i + 1] == hex_char_of(b[i] % 16),
    decreases i,
{
    lemma_hex_of_len(b);
    lemma_hex_of_len(b.skip(1));
    if i > 0 {
        lemma_hex_of_index(b.skip(1), i - 1);
    }
}

proof fn lemma_hex_char_of_injective(x: u8, y: u8)
    requires
        x < 16,
        y < 16,
        hex_char_of(x) == hex_char_of(y),
    ensures
        x == y,
{
}

/// Two byte strings with the same hex rendering are equal: the rendering
/// is an injective encoding.
pub proof fn lemma_hex_of_injective(a: Seq<u8>, b: Seq<u8>)
    requires
        hex_of(a) == hex_of(b),
    ensures
        a == b,
{
    lemma_hex_of_len(a);
    lemma_hex_of_len(b);
    assert forall|i: int| 0 <= i < a.len() implies a[i] == b[i] by {
        lemma_hex_of_index(a, i);
        lemma_hex_of_index(b, i);
        lemma_hex_char_of_injective(a[i] / 16, b[i] / 16);
        lemma_hex_char_of_injective(a[i] % 16, b[i] % 16);
        assert(a[i] == (a[i] / 16) * 16 + a[i] % 16) by (nonlinear_arith);
        assert(b[i] == (b[i] / 16) * 16 + b[i] % 16) by (nonlinear_arith);
    }
    assert(a =~= b);
}

/// Whether a character is a hex digit, in either case.
pub open spec fn is_hex_digit(c: char) -> bool {
    ('0' as u32 <= c as u32 && c as u32 <= '9' as u32) || ('a' as u32 <= c as u32 && c as u32
        <= 'f' as u32) || ('A' as u32 <= c as u32 && c as u32 <= 'F' as u32)
}

/// The value of a hex digit, in either case.
pub open spec fn hex_val(c: char) -> u8 {
    if '0' as u32 <= c as u32 && c as u32 <= '9' as u32 {
        (c as u32 - '0' as u32) as u8
    } else if 'a' as u32 <= c as u32 && c as u32 <= 'f' as u32 {
        (c as u32 - 'a' as u32 + 10) as u8
    } else if 'A' as u32 <= c as u32 && c as u32 <= 'F' as u32 {
        (c as u32 - 'A' as u32 + 10) as u8
    } else {
        0
    }
}

/// A string that hex-decodes: even length, hex digits throughout.
pub open spec fn valid_hex(s: Seq<char>) -> bool {
    s.len() % 2 == 0 && (forall|i: int| 0 <= i < s.len() ==> is_hex_digit(#[trigger] s[i]))
}

/// The bytes denoted by a string of hex digits, two digits per byte.
pub open spec fn hex_decode_spec(s: Seq<char>) -> Seq<u8>
    decreases s.len(),
{
    if s.len() < 2 {
        Seq::empty()
    } else {
        seq![((hex_val(s[0]) as int) * 16 + (hex_val(s[1]) as int)) as u8] + hex_decode_spec(
            s.skip(2),
        )
    }
}

/// Relies on hex::encode: renders each input byte as exactly two lowercase
/// hex digits, high nibble first.
#[verifier::external_body]
pub(crate) fn hex_encode(b: &Vec<u8>) -> (r: String)
    ensures
        r@ == hex_of(b@),
{
    hex::encode(b)
}

/// Relies on hex::decode: succeeds exactly on even-length strings made of
/// hex digits of either case, and returns the bytes those digits denote.
#[verifier::external_body]
pub(crate) fn hex_decode(s: &String) -> (r: Option<Vec<u8>>)
    ensures
        r is Some <==> valid_hex(s@),
        r matches Some(v) ==> v@ == hex_decode_spec(s@),
{
    match hex::decode(s.as_str()) {
        Ok(v) => Some(v),
        Err(_) => None,
    }
}

/// Decimal rendering of a natural number, most significant digit first,
/// no leading zeros (zero itself renders as a single digit).
pub open spec fn dec_of(n: nat) -> Seq<char>
    decreases n,
{
    if n < 10 {
        seq![hex_char_of(n as u8)]
    } else {
        dec_of(n / 10) + seq![hex_char_of((n % 10) as u8)]
    }
}

fn digit_str(d: u8) -> (r: &'static str)
    requires
        d < 10,
    ensures
        r@ == seq![hex_char_of(d)],
{
    proof {
        reveal_strlit("0");
        reveal_strlit("1");
        reveal_strlit("2");
        reveal_strlit("3");
        reveal_strlit("4");
        reveal_strlit("5");
        reveal_strlit("6");
        reveal_strlit("7");
        reveal_strlit("8");
        reveal_strlit("9");
    }
    match d {
        0 => "0",
        1 => "1",
        2 => "2",
        3 => "3",
        4 => "4",
        5 => "5",
        6 => "6",
        7 => "7",
        8 => "8",
        _ => "9",
    }
}

/// Decimal rendering of a 64-bit integer.
pub fn u64_to_dec(n: u64) -> (r: String)
    ensures
        r@ == dec_of(n as nat),
    decreases n,
{
    if n < 10 {
        String::from_str(digit_str(n as u8))
    } else {
        let mut s = u64_to_dec(n / 10);
        s.append(digit_str((n % 10) as u8));
        s
    }
}

} // verus!
