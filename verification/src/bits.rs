//! The bit-level view of the trace stream.
//!
//! The engine's input buffer is a sequence of bits: every fed byte
//! contributes its eight bits, least significant first, and the engine
//! consumes from the head — whole bytes while decoding, single bits while
//! re-synchronizing. This module defines the byte/bit correspondence and the
//! two executable buffer operations built on it.

use vstd::prelude::*;

verus! {

/// The eight bits of a byte, least significant first: the order in which the
/// engine consumes bits from the stream.
pub open spec fn byte_bits(b: u8) -> Seq<bool> {
    seq![
        b & 0x01 != 0,
        b & 0x02 != 0,
        b & 0x04 != 0,
        b & 0x08 != 0,
        b & 0x10 != 0,
        b & 0x20 != 0,
        b & 0x40 != 0,
        b & 0x80 != 0,
    ]
}

/// A byte sequence flattened to its bit stream, each byte least significant
/// bit first.
pub open spec fn bytes_to_bits(bytes: Seq<u8>) -> Seq<bool>
    decreases bytes.len(),
{
    if bytes.len() == 0 {
        Seq::<bool>::empty()
    } else {
        bytes_to_bits(bytes.drop_last()) + byte_bits(bytes.last())
    }
}

/// The byte whose bits, least significant first, are the eight-bit sequence
/// `s`.
pub open spec fn byte_of_bits(s: Seq<bool>) -> u8
    recommends
        s.len() == 8,
{
    (if s[0] { 0x01u8 } else { 0u8 }) | (if s[1] { 0x02u8 } else { 0u8 })
        | (if s[2] { 0x04u8 } else { 0u8 }) | (if s[3] { 0x08u8 } else { 0u8 })
        | (if s[4] { 0x10u8 } else { 0u8 }) | (if s[5] { 0x20u8 } else { 0u8 })
        | (if s[6] { 0x40u8 } else { 0u8 }) | (if s[7] { 0x80u8 } else { 0u8 })
}

/// Reassembling the bits of a byte gives the byte back.
pub proof fn lemma_byte_of_byte_bits(b: u8)
    ensures
        byte_of_bits(byte_bits(b)) == b,
{
    assert(b == (if b & 0x01 != 0 { 0x01u8 } else { 0u8 }) | (if b & 0x02 != 0 {
        0x02u8
    } else {
        0u8
    }) | (if b & 0x04 != 0 { 0x04u8 } else { 0u8 }) | (if b & 0x08 != 0 { 0x08u8 } else { 0u8 }) | (
    if b & 0x10 != 0 {
        0x10u8
    } else {
        0u8
    }) | (if b & 0x20 != 0 { 0x20u8 } else { 0u8 }) | (if b & 0x40 != 0 { 0x40u8 } else { 0u8 }) | (
    if b & 0x80 != 0 {
        0x80u8
    } else {
        0u8
    })) by (bit_vector);
}

/// Remove the eight oldest bits from the head of the buffer and reassemble
/// the byte they came from.
pub fn take_byte(buf: &mut Vec<bool>) -> (b: u8)
    requires
        old(buf).len() >= 8,
    ensures
        final(buf)@ == old(buf)@.skip(8),
        b == byte_of_bits(old(buf)@.take(8)),
{
    let b0 = buf.remove(0);
    let b1 = buf.remove(0);
    let b2 = buf.remove(0);
    let b3 = buf.remove(0);
    let b4 = buf.remove(0);
    let b5 = buf.remove(0);
    let b6 = buf.remove(0);
    let b7 = buf.remove(0);
    proof {
        assert(buf@ =~= old(buf)@.skip(8));
    }
    (if b0 { 0x01u8 } else { 0u8 }) | (if b1 { 0x02u8 } else { 0u8 })
        | (if b2 { 0x04u8 } else { 0u8 }) | (if b3 { 0x08u8 } else { 0u8 })
        | (if b4 { 0x10u8 } else { 0u8 }) | (if b5 { 0x20u8 } else { 0u8 })
        | (if b6 { 0x40u8 } else { 0u8 }) | (if b7 { 0x80u8 } else { 0u8 })
}

/// Remove the oldest bit from the head of the buffer.
pub fn take_bit(buf: &mut Vec<bool>) -> (bit: bool)
    requires
        old(buf).len() >= 1,
    ensures
        final(buf)@ == old(buf)@.skip(1),
        bit == old(buf)@[0],
{
    let bit = buf.remove(0);
    proof {
        assert(buf@ =~= old(buf)@.skip(1));
    }
    bit
}

/// Append the eight bits of a byte, least significant first, to the tail of
/// the buffer.
pub fn push_byte_bits(buf: &mut Vec<bool>, b: u8)
    ensures
        final(buf)@ == old(buf)@ + byte_bits(b),
{
    buf.push(b & 0x01 != 0);
    buf.push(b & 0x02 != 0);
    buf.push(b & 0x04 != 0);
    buf.push(b & 0x08 != 0);
    buf.push(b & 0x10 != 0);
    buf.push(b & 0x20 != 0);
    buf.push(b & 0x40 != 0);
    buf.push(b & 0x80 != 0);
    proof {
        assert(buf@ =~= old(buf)@ + byte_bits(b));
    }
}

} // verus!
