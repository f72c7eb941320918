use vstd::prelude::*;
use crate::types::TxHash;

verus! {

/// The Keccak-256 digest of a byte sequence.
///
/// The digest is a pure function of the input bytes; its definition is the
/// Keccak-256 algorithm, which this crate does not restate. Everything the
/// rest of the crate proves about hashes is relative to this name.
pub uninterp spec fn keccak_of(data: Seq<u8>) -> TxHash;

/// Relies on `ethers_core::utils::keccak256`: the Keccak-256 digest of the
/// input bytes, a deterministic function of the bytes alone.
#[verifier::external_body]
pub fn keccak256(data: &[u8]) -> (h: TxHash)
    ensures
        h == keccak_of(data@),
{
    ethers_core::utils::keccak256(data)
}

/// The lowercase hexadecimal digit for a value below 16.
pub open spec fn hex_digit(d: u8) -> char
    recommends
        d < 16,
{
    if d == 0 { '0' } else if d == 1 { '1' } else if d == 2 { '2' } else if d == 3 { '3' }
    else if d == 4 { '4' } else if d == 5 { '5' } else if d == 6 { '6' } else if d == 7 { '7' }
    else if d == 8 { '8' } else if d == 9 { '9' } else if d == 10 { 'a' } else if d == 11 { 'b' }
    else if d == 12 { 'c' } else if d == 13 { 'd' } else if d == 14 { 'e' } else { 'f' }
}

/// Lowercase hexadecimal encoding: two digits per byte, high nibble first.
pub open spec fn hex_of(data: Seq<u8>) -> Seq<char>
    decreases data.len(),
{
    if data.len() == 0 {
        Seq::empty()
    } else {
        seq![hex_digit(data[0] / 16), hex_digit(data[0] % 16)]
            + hex_of(data.subrange(1, data.len() as int))
    }
}

/// Relies on `ethers_core::utils::hex::encode` (the `const-hex` crate):
/// lowercase hexadecimal, two digits per byte, high nibble first.
#[verifier::external_body]
pub fn hex_lower(data: &[u8]) -> (r: String)
    ensures
        r@ == hex_of(data@),
{
    ethers_core::utils::hex::encode(data)
}

} // verus!
