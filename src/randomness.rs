use vstd::prelude::*;

use frame_support::pallet_prelude::{Decode, Encode};
use frame_support::PalletId;

use crate::coin::CoinSide;

verus! {

/// The four bytes of `x`, least significant first.
pub open spec fn le_bytes_u32(x: u32) -> Seq<u8> {
    seq![
        (x % 0x100) as u8,
        ((x / 0x100) % 0x100) as u8,
        ((x / 0x1_0000) % 0x100) as u8,
        ((x / 0x100_0000) % 0x100) as u8,
    ]
}

/// The integer that the first four bytes of `b` spell, least significant first.
pub open spec fn le_u32(b: Seq<u8>) -> int
    recommends
        b.len() >= 4,
{
    b[0] + 0x100 * b[1] + 0x1_0000 * b[2] + 0x100_0000 * b[3]
}

/// The bytes handed to the randomness source: the pallet identifier, then the
/// seed.
pub open spec fn subject_bytes(pallet_id: Seq<u8>, seed: u32) -> Seq<u8> {
    pallet_id + le_bytes_u32(seed)
}

/// The seed taken from a block number: the number itself where it fits in
/// 32 bits, zero where it does not.
pub open spec fn seed_of(block_number: u64) -> u32 {
    if block_number <= u32::MAX {
        block_number as u32
    } else {
        0
    }
}

/// Whether a random value counts as `true`: its leading 32-bit word is even.
pub open spec fn random_bool(random: Seq<u8>) -> bool {
    le_u32(random) % 2 == 0
}

/// The side that a random value draws: `Head` for `true`, `Tail` for `false`.
pub open spec fn drawn_side(random: Seq<u8>) -> CoinSide {
    if random_bool(random) {
        CoinSide::Head
    } else {
        CoinSide::Tail
    }
}

/// Relies on SCALE encoding (`Encode::encode` of a `(PalletId, u32)` pair): the
/// eight identifier bytes as they are, then the seed as four little-endian
/// bytes.
#[verifier::external_body]
pub(crate) fn encode_subject(pallet_id: [u8; 8], seed: u32) -> (r: Vec<u8>)
    ensures
        r@ == subject_bytes(pallet_id@, seed),
{
    (PalletId(pallet_id), seed).encode()
}

/// Relies on SCALE decoding (`Decode::decode` of a `u32` from a byte slice): the
/// first four bytes read little-endian; an error when there are fewer.
#[verifier::external_body]
pub(crate) fn decode_u32(bytes: &[u8]) -> (r: Option<u32>)
    ensures
        bytes@.len() >= 4 ==> r == Some(le_u32(bytes@) as u32),
        bytes@.len() < 4 ==> r is None,
{
    let mut input = bytes;
    u32::decode(&mut input).ok()
}

/// The seed for a block number, saturating to zero past 32 bits.
pub fn seed_from_block_number(block_number: u64) -> (r: u32)
    ensures
        r == seed_of(block_number),
{
    if block_number <= u32::MAX as u64 {
        block_number as u32
    } else {
        0
    }
}

} // verus!
