//! The timestamp codec: reconstruction of a continuation-bit-encoded
//! integer of up to `max_len` bits from an ordered byte sequence.
//!
//! Every byte contributes its low seven bits (the top bit is the
//! continuation bit) at bit offset `7 * index`, little-endian group order.
//! For the global-timestamp-low width, bits 5 and 6 of the final byte are
//! the clock-change and wrap flags, delivered separately, and are excluded
//! from the magnitude. The result is truncated to `max_len` bits.

use vstd::prelude::*;

verus! {

/// The value bits of the non-final byte `b`, placed at its 7-bit group
/// offset `index`.
pub open spec fn ts_group(b: u8, index: int) -> u64
    recommends
        0 <= index < 10,
{
    ((b & 0x7f) as u64) << ((7 * index) as u64)
}

/// The value carried by the sequence `s` of non-final bytes, with group
/// offsets 0, 7, 14, ... A group whose offset lies beyond the result's
/// width contributes nothing.
pub open spec fn ts_groups(s: Seq<u8>) -> u64
    decreases s.len(),
{
    if s.len() == 0 {
        0u64
    } else if s.len() <= 10 {
        ts_groups(s.drop_last()) | ts_group(s.last(), s.len() - 1)
    } else {
        ts_groups(s.drop_last())
    }
}

/// The value bits of the final byte: never the continuation bit, and for
/// the global-timestamp-low width (25 bits) also not bits 5 and 6, which
/// are the clock-change and wrap flags, extracted separately.
pub open spec fn head_mask(max_len: u32) -> u8 {
    if max_len == 25 {
        0x1fu8
    } else {
        0x7fu8
    }
}

/// The low `max_len` bits of `value`.
pub open spec fn ts_truncate(value: u64, max_len: u32) -> u64 {
    if max_len < 64 {
        value & (((1u64 << (max_len as u64)) - 1) as u64)
    } else {
        value
    }
}

/// The timestamp magnitude encoded by `payload`: the value of the leading
/// continuation bytes, together with the masked final byte at the highest
/// group offset, truncated to `max_len` bits.
pub open spec fn spec_extract_timestamp(payload: Seq<u8>, max_len: u32) -> u64
    recommends
        payload.len() >= 1,
{
    ts_truncate(
        if payload.len() <= 10 {
            ts_groups(payload.drop_last()) | (((payload.last() & head_mask(max_len)) as u64) << ((7
                * (payload.len() - 1)) as u64))
        } else {
            ts_groups(payload.drop_last())
        },
        max_len,
    )
}

/// Reconstruct an unsigned integer of up to `max_len` bits from an ordered
/// payload byte sequence, 7 value bits per byte in little-endian group
/// order.
pub fn extract_timestamp(payload: &Vec<u8>, max_len: u32) -> (ts: u64)
    requires
        payload@.len() >= 1,
    ensures
        ts == spec_extract_timestamp(payload@, max_len),
{
    let n = payload.len();
    let mut ts: u64 = 0;
    let mut i: usize = 0;
    while i < n - 1
        invariant
            1 <= n == payload@.len(),
            i <= n - 1,
            ts == ts_groups(payload@.take(i as int)),
        decreases n - 1 - i,
    {
        if i <= 9 {
            let sh: u64 = 7 * (i as u64);
            ts = ts | (((payload[i] & 0x7f) as u64) << sh);
        }
        proof {
            assert(payload@.take(i + 1).drop_last() =~= payload@.take(i as int));
        }
        i = i + 1;
    }
    let last = payload[n - 1];
    let keep: u8 = if max_len == 25 {
        0x1f
    } else {
        0x7f
    };
    if n <= 10 {
        let sh: u64 = 7 * ((n - 1) as u64);
        ts = ts | (((last & keep) as u64) << sh);
    }
    proof {
        assert(payload@.take(n - 1) =~= payload@.drop_last());
    }
    if max_len < 64 {
        let m: u64 = max_len as u64;
        proof {
            assert(1u64 << m >= 1) by (bit_vector)
                requires
                    m < 64,
            ;
        }
        ts = ts & ((1u64 << m) - 1);
    }
    ts
}

} // verus!
