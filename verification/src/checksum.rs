//! Checksum engine: CRC-CCITT over a byte sequence.
//!
//! The wire protocol seals every frame with a 16-bit cyclic redundancy
//! check: seed `0xFFFF`, polynomial `0x1021`, MSB first, no final XOR.
//! The spec functions below define the value mathematically; `crc_ccitt`
//! is the executable engine, proved to compute exactly that value.

use vstd::prelude::*;

verus! {

/// One shift-and-conditionally-XOR round of the CRC register.
pub open spec fn crc_round(crc: u16) -> u16 {
    if crc & 0x8000 != 0 {
        (crc << 1) ^ 0x1021
    } else {
        crc << 1
    }
}

/// `n` rounds of `crc_round`, applied to `crc`.
pub open spec fn crc_rounds(crc: u16, n: nat) -> u16
    decreases n,
{
    if n == 0 {
        crc
    } else {
        crc_round(crc_rounds(crc, (n - 1) as nat))
    }
}

/// Folding one input byte into the CRC register: XOR into the high
/// byte, then eight rounds.
pub open spec fn crc_step(crc: u16, byte: u8) -> u16 {
    crc_rounds(crc ^ ((byte as u16) << 8), 8)
}

/// The CRC register after the first `i` bytes of `bytes`, starting
/// from the seed `0xFFFF`.
pub open spec fn crc_upto(bytes: Seq<u8>, i: int) -> u16
    decreases i,
{
    if i <= 0 {
        0xFFFF
    } else {
        crc_step(crc_upto(bytes, i - 1), bytes[i - 1])
    }
}

/// The CRC-CCITT checksum of a whole byte sequence.
pub open spec fn crc16_spec(bytes: Seq<u8>) -> u16 {
    crc_upto(bytes, bytes.len() as int)
}

/// Computes the CRC-CCITT checksum of `bytes`.
///
/// Deterministic and total: the result is a function of the input
/// bytes alone, as the postcondition states.
pub fn crc_ccitt(bytes: &[u8]) -> (crc: u16)
    ensures
        crc == crc16_spec(bytes@),
{
    let mut crc: u16 = 0xFFFF;
    let mut i: usize = 0;
    while i < bytes.len()
        invariant
            i <= bytes@.len(),
            crc == crc_upto(bytes@, i as int),
        decreases bytes@.len() - i,
    {
        crc = crc ^ ((bytes[i] as u16) << 8u16);
        let ghost entry: u16 = crc;
        let mut round: usize = 0;
        while round < 8
            invariant
                round <= 8,
                crc == crc_rounds(entry, round as nat),
            decreases 8 - round,
        {
            if (crc & 0x8000) != 0 {
                crc = (crc << 1u16) ^ 0x1021;
            } else {
                crc = crc << 1u16;
            }
            round = round + 1;
        }
        i = i + 1;
    }
    crc
}

} // verus!
