//! Byte- and character-level notions shared by the hashing and parsing code:
//! hexadecimal and decimal digits, big-endian words, and ABI words.
use vstd::prelude::*;
use vstd::arithmetic::power::pow;
use vstd::arithmetic::div_mod::lemma_div_denominator;

verus! {

/// An ASCII hexadecimal digit, either case.
pub open spec fn is_hex_char(c: char) -> bool {
    ||| (48 <= c as u32 && c as u32 <= 57)
    ||| (97 <= c as u32 && c as u32 <= 102)
    ||| (65 <= c as u32 && c as u32 <= 70)
}

/// The value of a hexadecimal digit.
pub open spec fn hex_char_value(c: char) -> int {
    if 48 <= c as u32 && c as u32 <= 57 {
        c as u32 - 48
    } else if 97 <= c as u32 && c as u32 <= 102 {
        c as u32 - 87
    } else {
        c as u32 - 55
    }
}

pub open spec fn all_hex_chars(s: Seq<char>) -> bool {
    forall|i: int| 0 <= i < s.len() ==> is_hex_char(#[trigger] s[i])
}

/// A string that decodes as hex into bytes: hex digits only, an even number of them.
pub open spec fn is_hex_text(s: Seq<char>) -> bool {
    all_hex_chars(s) && s.len() % 2 == 0
}

/// The bytes that a sequence of hex digit pairs denotes, high nibble first.
pub open spec fn hex_pairs_to_bytes(s: Seq<char>) -> Seq<u8> {
    Seq::new(
        s.len() / 2,
        |i: int| (hex_char_value(s[2 * i]) * 16 + hex_char_value(s[2 * i + 1])) as u8,
    )
}

/// The lower-case hex digit of a nibble.
pub open spec fn lower_hex_digit(n: int) -> char {
    if n < 10 {
        (n + 48) as char
    } else {
        (n + 87) as char
    }
}

/// Lower-case hex text of a byte string, two digits per byte, high nibble first.
pub open spec fn lower_hex_of(b: Seq<u8>) -> Seq<char> {
    Seq::new(
        2 * b.len(),
        |i: int|
            if i % 2 == 0 {
                lower_hex_digit((b[i / 2] / 16) as int)
            } else {
                lower_hex_digit((b[i / 2] % 16) as int)
            },
    )
}

/// An ASCII decimal digit.
pub open spec fn is_dec_char(c: char) -> bool {
    48 <= c as u32 && c as u32 <= 57
}

pub open spec fn all_dec_chars(s: Seq<char>) -> bool {
    forall|i: int| 0 <= i < s.len() ==> is_dec_char(#[trigger] s[i])
}

/// The number that a string of decimal digits denotes (0 for the empty string).
pub open spec fn dec_value(s: Seq<char>) -> nat
    decreases s.len(),
{
    if s.len() == 0 {
        0
    } else {
        (dec_value(s.drop_last()) * 10 + (s.last() as u32 - 48)) as nat
    }
}

/// The number that a string of hex digits denotes (0 for the empty string).
pub open spec fn hex_value(s: Seq<char>) -> nat
    decreases s.len(),
{
    if s.len() == 0 {
        0
    } else {
        (hex_value(s.drop_last()) * 16 + hex_char_value(s.last())) as nat
    }
}

/// 2 to the power 256: the bound of a `uint256`.
pub open spec fn uint256_bound() -> int {
    115792089237316195423570985008687907853269984665640564039457584007913129639936int
}

/// The 32-byte big-endian encoding of `v` (taken modulo 2^256).
pub open spec fn be32(v: nat) -> Seq<u8> {
    Seq::new(32, |i: int| (((v as int) / pow(256, (31 - i) as nat)) % 256) as u8)
}

/// `n` zero bytes.
pub open spec fn zeros(n: nat) -> Seq<u8> {
    Seq::new(n, |i: int| 0u8)
}

/// The 32-byte big-endian word of a `u64`.
pub fn word_from_u64(n: u64) -> (w: Vec<u8>)
    ensures
        w@ == be32(n as nat),
{
    let mut w: Vec<u8> = vec![0u8; 32];
    let mut x: u64 = n;
    let mut i: usize = 32;
    proof {
        assert(pow(256, 0) == 1) by {
            vstd::arithmetic::power::lemma_pow0(256);
        }
    }
    while i > 0
        invariant
            i <= 32,
            w@.len() == 32,
            x as int == n as int / pow(256, (32 - i) as nat),
            forall|k: int| i <= k < 32 ==> w@[k] == #[trigger] be32(n as nat)[k],
        decreases i,
    {
        i = i - 1;
        proof {
            vstd::arithmetic::power::lemma_pow_positive(256, (31 - i) as nat);
            assert(pow(256, (32 - i) as nat) == 256 * pow(256, (31 - i) as nat)) by {
                vstd::arithmetic::power::lemma_pow_adds(256, 1, (31 - i) as nat);
                vstd::arithmetic::power::lemma_pow1(256);
            }
            lemma_div_denominator(n as int, pow(256, (31 - i) as nat), 256);
            assert(pow(256, (31 - i) as nat) * 256 == 256 * pow(256, (31 - i) as nat)) by (nonlinear_arith);
        }
        w.set(i, (x % 256) as u8);
        x = x / 256;
    }
    assert(w@ =~= be32(n as nat));
    w
}


proof fn lemma_lower_hex_digit(n: int)
    requires
        0 <= n < 16,
    ensures
        is_hex_char(lower_hex_digit(n)),
        hex_char_value(lower_hex_digit(n)) == n,
{
}

/// Lower-case hex text decodes back to the bytes it encodes.
pub proof fn lemma_lower_hex_roundtrip(b: Seq<u8>)
    ensures
        is_hex_text(lower_hex_of(b)),
        hex_pairs_to_bytes(lower_hex_of(b)) == b,
{
    let h = lower_hex_of(b);
    assert forall|i: int| 0 <= i < h.len() implies is_hex_char(#[trigger] h[i]) by {
        if i % 2 == 0 {
            lemma_lower_hex_digit((b[i / 2] / 16) as int);
        } else {
            lemma_lower_hex_digit((b[i / 2] % 16) as int);
        }
    }
    assert(h.len() == 2 * b.len());
    assert(h.len() % 2 == 0) by (nonlinear_arith)
        requires
            h.len() == 2 * b.len(),
    ;
    assert(h.len() / 2 == b.len()) by (nonlinear_arith)
        requires
            h.len() == 2 * b.len(),
    ;
    assert forall|i: int| 0 <= i < b.len() implies #[trigger] hex_pairs_to_bytes(h)[i] == b[i] by {
        assert((2 * i) % 2 == 0 && (2 * i) / 2 == i) by (nonlinear_arith);
        assert((2 * i + 1) % 2 == 1 && (2 * i + 1) / 2 == i) by (nonlinear_arith);
        lemma_lower_hex_digit((b[i] / 16) as int);
        lemma_lower_hex_digit((b[i] % 16) as int);
        assert(h[2 * i] == lower_hex_digit((b[i] / 16) as int));
        assert(h[2 * i + 1] == lower_hex_digit((b[i] % 16) as int));
        let x = b[i];
        assert((x / 16) as int * 16 + (x % 16) as int == x as int) by (nonlinear_arith);
    }
    assert(hex_pairs_to_bytes(h) =~= b);
}

} // verus!
