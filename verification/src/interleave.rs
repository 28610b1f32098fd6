//! Packing and spreading of alternating bits: the two halves of a Morton
//! (Z-order) code are built by spreading a 32-bit coordinate over the even
//! bit positions of a 64-bit word, and read back by compressing the even
//! bit positions into the low 32 bits.

use vstd::prelude::*;

verus! {

/// The even-positioned bits of `v`, packed into the low 32 bits of the
/// result (bit `2*i` of `v` becomes bit `i` of the result).
pub open spec fn spec_compress_bits(v: u64) -> u64 {
    let a = v & 0x5555_5555_5555_5555;
    let b = (a ^ (a >> 1)) & 0x3333_3333_3333_3333;
    let c = (b ^ (b >> 2)) & 0x0F0F_0F0F_0F0F_0F0F;
    let d = (c ^ (c >> 4)) & 0x00FF_00FF_00FF_00FF;
    let e = (d ^ (d >> 8)) & 0x0000_FFFF_0000_FFFF;
    (e ^ (e >> 16)) & 0x0000_0000_FFFF_FFFF
}

/// The low 32 bits of `v` spread over the even bit positions of the result
/// (bit `i` of `v` becomes bit `2*i` of the result). A value with the top
/// bit set (a negative value reinterpreted) is first truncated to 32 bits,
/// so that the sign extension cannot reach the high bits.
pub open spec fn spec_spread_bits(v: u64) -> u64 {
    let m = if v >= 0x8000_0000_0000_0000 { v & 0xFFFF_FFFF } else { v };
    let a = (m | (m << 16)) & 0x0000_FFFF_0000_FFFF;
    let b = (a | (a << 8)) & 0x00FF_00FF_00FF_00FF;
    let c = (b | (b << 4)) & 0x0F0F_0F0F_0F0F_0F0F;
    let d = (c | (c << 2)) & 0x3333_3333_3333_3333;
    (d | (d << 1)) & 0x5555_5555_5555_5555
}

/// Packs the even-positioned bits of `v` into the low 32 bits.
pub fn encode_bits(v: i64) -> (r: i64)
    ensures
        r as u64 == spec_compress_bits(v as u64),
        0 <= r < 0x1_0000_0000,
{
    let a: u64 = (v as u64) & 0x5555_5555_5555_5555;
    let b: u64 = (a ^ (a >> 1u64)) & 0x3333_3333_3333_3333;
    let c: u64 = (b ^ (b >> 2u64)) & 0x0F0F_0F0F_0F0F_0F0F;
    let d: u64 = (c ^ (c >> 4u64)) & 0x00FF_00FF_00FF_00FF;
    let e: u64 = (d ^ (d >> 8u64)) & 0x0000_FFFF_0000_FFFF;
    let f: u64 = (e ^ (e >> 16u64)) & 0x0000_0000_FFFF_FFFF;
    proof {
        assert((e ^ (e >> 16u64)) & 0x0000_0000_FFFF_FFFF < 0x1_0000_0000) by (bit_vector);
    }
    f as i64
}

/// Spreads the low 32 bits of `v` over the even bit positions of the result.
pub fn decode_bits(v: i64) -> (r: i64)
    ensures
        r as u64 == spec_spread_bits(v as u64),
        0 <= r,
{
    let mut m: u64 = v as u64;
    if v < 0 {
        proof {
            assert((v < 0) ==> ((v as u64) >= 0x8000_0000_0000_0000)) by (bit_vector);
        }
        m = m & 0xFFFF_FFFF;
    } else {
        proof {
            assert((v >= 0) ==> ((v as u64) < 0x8000_0000_0000_0000)) by (bit_vector);
        }
    }
    let a: u64 = (m | (m << 16u64)) & 0x0000_FFFF_0000_FFFF;
    let b: u64 = (a | (a << 8u64)) & 0x00FF_00FF_00FF_00FF;
    let c: u64 = (b | (b << 4u64)) & 0x0F0F_0F0F_0F0F_0F0F;
    let d: u64 = (c | (c << 2u64)) & 0x3333_3333_3333_3333;
    let f: u64 = (d | (d << 1u64)) & 0x5555_5555_5555_5555;
    proof {
        assert((d | (d << 1u64)) & 0x5555_5555_5555_5555 < 0x8000_0000_0000_0000) by (bit_vector);
    }
    f as i64
}

/// Spreading a 32-bit value touches only even bit positions, and
/// compressing reads exactly those positions back: on an interleaved pair
/// the two reads return the original coordinates.
pub proof fn lemma_interleave_round_trip(x: u64, y: u64)
    by (bit_vector)
    requires
        x < 0x1_0000_0000,
        y < 0x8000_0000,
    ensures
        spec_compress_bits(spec_spread_bits(x) | (spec_spread_bits(y) << 1)) == x,
        spec_compress_bits((spec_spread_bits(x) | (spec_spread_bits(y) << 1)) >> 1) == y,
{
}

/// What spreading means, bit by bit: bit `i` of the input stands at bit
/// `2*i` of the result, and every odd bit position is clear.
pub proof fn lemma_spread_bit(v: u64, i: u64)
    by (bit_vector)
    requires
        v < 0x1_0000_0000,
        i < 32,
    ensures
        ((spec_spread_bits(v) >> (2 * i)) & 1) == ((v >> i) & 1),
        ((spec_spread_bits(v) >> (2 * i + 1)) & 1) == 0,
{
}

/// What compressing means, bit by bit: bit `2*i` of the input stands at
/// bit `i` of the result.
pub proof fn lemma_compress_bit(v: u64, i: u64)
    by (bit_vector)
    requires
        i < 32,
    ensures
        ((spec_compress_bits(v) >> i) & 1) == ((v >> (2 * i)) & 1),
        spec_compress_bits(v) < 0x1_0000_0000,
{
}

} // verus!
