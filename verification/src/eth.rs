//! Trusted calls into `ethers_core`: Keccak-256, ABI encoding of static tokens,
//! the text parsers of `U256`, `Address` and `Signature`, and signer recovery.
use vstd::prelude::*;
use std::str::FromStr;
use ethers_core::types::{Address, Signature, H256, U256};
use ethers_core::abi::Token;
use crate::encoding::{
    all_dec_chars, all_hex_chars, be32, dec_value, hex_pairs_to_bytes, hex_value, is_hex_char,
    uint256_bound, zeros,
};
use crate::text::{has_lower_0x, has_0x_prefix};

verus! {

/// What `ethers_core::utils::keccak256` returns for a byte string.
pub uninterp spec fn keccak256_digest(data: Seq<u8>) -> Seq<u8>;

/// Calls `ethers_core::utils::keccak256`, which returns a `[u8; 32]`. The digest
/// itself is named, not stated.
#[verifier::external_body]
pub fn keccak256(data: &[u8]) -> (res: Vec<u8>)
    ensures
        res@ == keccak256_digest(data@),
        res@.len() == 32,
{
    ethers_core::utils::keccak256(data).to_vec()
}

/// A static ABI token: the four kinds of value that the typed-data hashing encodes.
pub enum AbiToken {
    /// A 20-byte address.
    Address(Vec<u8>),
    /// Between 1 and 32 bytes, padded on the right.
    FixedBytes(Vec<u8>),
    /// A 256-bit unsigned integer, as 32 big-endian bytes.
    Uint(Vec<u8>),
    Bool(bool),
}

/// The shapes that `abi_encode` accepts.
pub open spec fn abi_token_ok(t: AbiToken) -> bool {
    match t {
        AbiToken::Address(a) => a@.len() == 20,
        AbiToken::FixedBytes(b) => 1 <= b@.len() <= 32,
        AbiToken::Uint(u) => u@.len() == 32,
        AbiToken::Bool(_) => true,
    }
}

/// The 32-byte word of a static token.
pub open spec fn abi_word(t: AbiToken) -> Seq<u8> {
    match t {
        AbiToken::Address(a) => zeros(12) + a@,
        AbiToken::FixedBytes(b) => b@ + zeros((32 - b@.len()) as nat),
        AbiToken::Uint(u) => u@,
        AbiToken::Bool(b) => zeros(31).push(if b { 1u8 } else { 0u8 }),
    }
}

/// The encoding of a list of static tokens: their words one after another.
pub open spec fn abi_encoding(ts: Seq<AbiToken>) -> Seq<u8>
    decreases ts.len(),
{
    if ts.len() == 0 {
        Seq::empty()
    } else {
        abi_encoding(ts.drop_last()) + abi_word(ts.last())
    }
}

/// Calls `ethers_core::abi::encode`. Its source encodes a static token as its head
/// alone, with no tail: an address left-padded to 32 bytes, fixed bytes right-padded
/// to whole words (one word for 1 to 32 bytes), a `uint` as 32 big-endian bytes, a
/// `bool` as 0 or 1 in the last byte. `Address::from_slice` panics on a slice that
/// is not 20 bytes long, hence the requirement.
#[verifier::external_body]
pub fn abi_encode(tokens: &Vec<AbiToken>) -> (res: Vec<u8>)
    requires
        forall|i: int| 0 <= i < tokens@.len() ==> abi_token_ok(#[trigger] tokens@[i]),
    ensures
        res@ == abi_encoding(tokens@),
{
    let converted: Vec<Token> = tokens.iter().map(|t| match t {
        AbiToken::Address(a) => Token::Address(Address::from_slice(a)),
        AbiToken::FixedBytes(b) => Token::FixedBytes(b.clone()),
        AbiToken::Uint(u) => Token::Uint(U256::from_big_endian(u)),
        AbiToken::Bool(b) => Token::Bool(*b),
    }).collect();
    ethers_core::abi::encode(&converted)
}

/// The texts that `U256::from_dec_str` accepts: decimal digits only (the empty
/// text is 0) whose value is below 2^256.
pub open spec fn is_u256_dec_text(s: Seq<char>) -> bool {
    all_dec_chars(s) && dec_value(s) < uint256_bound()
}

/// Calls `U256::from_dec_str` and returns the value as 32 big-endian bytes. Its
/// source reads the bytes one by one, fails on any that is no decimal digit and on
/// overflow of 256 bits.
#[verifier::external_body]
pub fn u256_from_dec_str(s: &str) -> (res: Option<Vec<u8>>)
    ensures
        res is Some <==> is_u256_dec_text(s@),
        res matches Some(w) ==> w@ == be32(dec_value(s@)),
{
    match U256::from_dec_str(s) {
        Ok(v) => Some(<[u8; 32]>::from(v).to_vec()),
        Err(_) => None,
    }
}

/// The digits that `U256::from_str` reads: the text after a leading `0x`, if any
/// (only the lower-case prefix is skipped).
pub open spec fn u256_hex_digits(s: Seq<char>) -> Seq<char> {
    if has_lower_0x(s) {
        s.subrange(2, s.len() as int)
    } else {
        s
    }
}

/// The texts that `U256::from_str` accepts: at most 64 hex digits after an
/// optional `0x` (none at all is 0).
pub open spec fn is_u256_hex_text(s: Seq<char>) -> bool {
    all_hex_chars(u256_hex_digits(s)) && u256_hex_digits(s).len() <= 64
}

/// Calls `U256::from_str` (hexadecimal) and returns the value as 32 big-endian
/// bytes. Its source strips `0x`, refuses more than 64 digits, pads an odd count
/// with a leading `0` and decodes with `hex::decode_to_slice`.
#[verifier::external_body]
pub fn u256_from_hex_str(s: &str) -> (res: Option<Vec<u8>>)
    ensures
        res is Some <==> is_u256_hex_text(s@),
        res matches Some(w) ==> w@ == be32(hex_value(u256_hex_digits(s@))),
{
    match U256::from_str(s) {
        Ok(v) => Some(<[u8; 32]>::from(v).to_vec()),
        Err(_) => None,
    }
}

/// The characters that the hex reader behind `Address::from_str` skips.
pub open spec fn is_hex_reader_space(c: char) -> bool {
    c == ' ' || c == '\r' || c == '\n' || c == '\t'
}

/// The text that `Address::from_str` reads: after a leading `0x`, if any.
pub open spec fn address_body(s: Seq<char>) -> Seq<char> {
    if has_lower_0x(s) {
        s.subrange(2, s.len() as int)
    } else {
        s
    }
}

/// The hex digits of an address text, skipped characters left out.
pub open spec fn address_digits(s: Seq<char>) -> Seq<char> {
    address_body(s).filter(|c: char| !is_hex_reader_space(c))
}

/// The texts that `Address::from_str` accepts: after an optional `0x`, nothing but
/// hex digits and skipped characters, with exactly 40 digits.
pub open spec fn is_address_text(s: Seq<char>) -> bool {
    &&& forall|i: int|
        0 <= i < address_body(s).len() ==> (is_hex_char(#[trigger] address_body(s)[i])
            || is_hex_reader_space(address_body(s)[i]))
    &&& address_digits(s).len() == 40
}

/// Calls `Address::from_str` (the `FromStr` of `H160`) and returns its 20 bytes.
/// Its source strips `0x`, reads hex digit pairs with `rustc_hex::FromHexIter`, which
/// skips spaces, tabs, carriage returns and line feeds, fills 20 bytes and fails if
/// anything but skipped characters is left.
#[verifier::external_body]
pub fn address_from_str(s: &str) -> (res: Option<Vec<u8>>)
    ensures
        res is Some <==> is_address_text(s@),
        res matches Some(a) ==> a@ == hex_pairs_to_bytes(address_digits(s@)),
{
    match Address::from_str(s) {
        Ok(a) => Some(a.as_bytes().to_vec()),
        Err(_) => None,
    }
}

/// A secp256k1 signature with its recovery value, as `ethers_core` keeps it.
pub struct RecoverableSignature {
    /// `r`, 32 big-endian bytes.
    pub r: Vec<u8>,
    /// `s`, 32 big-endian bytes.
    pub s: Vec<u8>,
    pub v: u64,
}

/// The hex digits of a signature text: after a leading `0x` or `0X`, if any.
pub open spec fn signature_digits(s: Seq<char>) -> Seq<char> {
    if has_0x_prefix(s) {
        s.subrange(2, s.len() as int)
    } else {
        s
    }
}

/// The texts that `Signature::from_str` accepts: 130 hex digits (65 bytes) after
/// an optional `0x` or `0X`.
pub open spec fn is_signature_text(s: Seq<char>) -> bool {
    all_hex_chars(signature_digits(s)) && signature_digits(s).len() == 130
}

/// Calls `Signature::from_str`. Its source decodes the text with `const_hex::decode`
/// (optional `0x`/`0X`, even length, hex digits only) and requires 65 bytes: `r` is
/// the first 32, `s` the next 32, `v` the last byte.
#[verifier::external_body]
pub fn signature_from_str(s: &str) -> (res: Option<RecoverableSignature>)
    ensures
        res is Some <==> is_signature_text(s@),
        res matches Some(sig) ==> {
            let b = hex_pairs_to_bytes(signature_digits(s@));
            &&& sig.r@ == b.subrange(0, 32)
            &&& sig.s@ == b.subrange(32, 64)
            &&& sig.v == b[64] as u64
        },
{
    match Signature::from_str(s) {
        Ok(sig) => Some(RecoverableSignature {
            r: <[u8; 32]>::from(sig.r).to_vec(),
            s: <[u8; 32]>::from(sig.s).to_vec(),
            v: sig.v,
        }),
        Err(_) => None,
    }
}

/// What `Signature::recover` returns for a signature and a 32-byte message hash:
/// the 20-byte address of the signing key, or nothing where recovery fails.
pub uninterp spec fn ecrecover_address(r: Seq<u8>, s: Seq<u8>, v: u64, digest: Seq<u8>) -> Option<
    Seq<u8>,
>;

/// Calls `Signature::recover` on a prehashed message. ECDSA recovery is named, not
/// stated; its source ends in `Address::from_slice` of 20 bytes. `H256::from_slice`
/// panics on a slice that is not 32 bytes long, and `U256::from_big_endian` on one
/// longer than 32, hence the requirements.
#[verifier::external_body]
pub fn recover_signer(sig: &RecoverableSignature, digest: &[u8]) -> (res: Option<Vec<u8>>)
    requires
        sig.r@.len() == 32,
        sig.s@.len() == 32,
        digest@.len() == 32,
    ensures
        match res {
            Some(a) => ecrecover_address(sig.r@, sig.s@, sig.v, digest@) == Some(a@),
            None => ecrecover_address(sig.r@, sig.s@, sig.v, digest@) is None,
        },
        res matches Some(a) ==> a@.len() == 20,
{
    let signature = Signature {
        r: U256::from_big_endian(&sig.r),
        s: U256::from_big_endian(&sig.s),
        v: sig.v,
    };
    match signature.recover(H256::from_slice(digest)) {
        Ok(a) => Some(a.as_bytes().to_vec()),
        Err(_) => None,
    }
}

} // verus!
