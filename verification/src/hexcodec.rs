//! Trusted calls into the `hex` crate.
use vstd::prelude::*;
use crate::encoding::{is_hex_text, hex_pairs_to_bytes, lower_hex_of};

verus! {

/// Calls `hex::decode` on the UTF-8 bytes of `s`. Its source rejects an odd length
/// and any byte outside `0-9a-fA-F`, and otherwise turns each pair of digits into
/// one byte, high nibble first; no prefix is skipped. A character outside ASCII
/// encodes to bytes above 0x7f, which are no digits, so the contract can be stated
/// over the characters of `s`.
#[verifier::external_body]
pub fn hex_decode(s: &str) -> (res: Option<Vec<u8>>)
    ensures
        res is Some <==> is_hex_text(s@),
        res matches Some(b) ==> b@ == hex_pairs_to_bytes(s@),
{
    hex::decode(s).ok()
}

/// Calls `hex::encode`: two lower-case hex digits per byte, high nibble first.
#[verifier::external_body]
pub fn hex_encode(b: &[u8]) -> (res: String)
    ensures
        res@ == lower_hex_of(b@),
{
    hex::encode(b)
}

} // verus!
