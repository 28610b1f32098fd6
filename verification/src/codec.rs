//! The tile address codec: a tile identifier encodes its zoom level in its
//! bit length (a marker bit stands at position `16 + level`) and the tile's
//! position as the high bits of a Morton code truncated to `2 * level + 1`
//! bits. Coordinates are fixed-point values scaled so that 90 degrees is
//! `1 << 30` units.

use vstd::prelude::*;

verus! {

use crate::interleave::{decode_bits, encode_bits, spec_compress_bits, spec_spread_bits};
use vstd::bits::{lemma_u64_pow2_no_overflow, lemma_u64_shl_is_mul};

/// Number of binary digits of `v`: the position of the highest set bit,
/// plus one.
pub open spec fn bit_len(v: nat) -> nat
    decreases v,
{
    if v == 0 {
        0
    } else {
        1 + bit_len(v / 2)
    }
}

/// The zoom level a tile identifier encodes: its bit length minus 17.
pub open spec fn spec_tile_level(t: u64) -> int {
    bit_len(t as nat) - 17
}

/// Derives the zoom level of a tile from its identifier.
pub fn get_tile_level(tile_id: i64) -> (r: i8)
    requires
        1 <= tile_id,
    ensures
        r as int == spec_tile_level(tile_id as u64),
{
    let mut tile: u64 = tile_id as u64;
    let mut level: i8 = 0;
    proof {
        lemma_bit_len_le_64(tile_id as u64);
    }
    while tile != 0
        invariant
            0 <= level,
            level as int + bit_len(tile as nat) == bit_len((tile_id as u64) as nat),
            bit_len((tile_id as u64) as nat) <= 64,
        decreases tile,
    {
        proof {
            vstd::bits::lemma_u64_shr_is_div(tile, 1);
            vstd::arithmetic::power2::lemma2_to64();
        }
        tile = tile >> 1u64;
        level = level + 1;
    }
    level - 17
}

/// Every 64-bit value has at most 64 binary digits.
proof fn lemma_bit_len_le_64(v: u64)
    ensures
        bit_len(v as nat) <= 64,
{
    vstd::arithmetic::power2::lemma2_to64();
    vstd::arithmetic::power2::lemma2_to64_rest();
    lemma_bit_len_bounded(v as nat, 64);
}

/// A value below `2^k` has at most `k` binary digits.
proof fn lemma_bit_len_bounded(v: nat, k: nat)
    requires
        v < vstd::arithmetic::power2::pow2(k),
    ensures
        bit_len(v) <= k,
    decreases k,
{
    if v > 0 {
        vstd::arithmetic::power2::lemma_pow2_pos(k);
        if k == 0 {
            assert(vstd::arithmetic::power2::pow2(0) == 1) by {
                vstd::arithmetic::power2::lemma2_to64();
            }
        } else {
            assert(vstd::arithmetic::power2::pow2(k) == 2 * vstd::arithmetic::power2::pow2(
                (k - 1) as nat,
            )) by {
                vstd::arithmetic::power2::lemma_pow2_unfold(k);
            }
            lemma_bit_len_bounded(v / 2, (k - 1) as nat);
        }
    }
}

/// A nonzero value with `n` binary digits lies in `[2^(n-1), 2^n)`.
pub proof fn lemma_bit_len_range(v: nat)
    requires
        v > 0,
    ensures
        vstd::arithmetic::power2::pow2((bit_len(v) - 1) as nat) <= v,
        v < vstd::arithmetic::power2::pow2(bit_len(v)),
    decreases v,
{
    vstd::arithmetic::power2::lemma2_to64();
    if v == 1 {
        assert(bit_len(v / 2) == 0);
        assert(bit_len(v) == 1);
    } else {
        lemma_bit_len_range(v / 2);
        assert(bit_len(v) == 1 + bit_len(v / 2));
        assert(bit_len(v / 2) >= 1);
        vstd::arithmetic::power2::lemma_pow2_unfold(bit_len(v));
        vstd::arithmetic::power2::lemma_pow2_unfold((bit_len(v) - 1) as nat);
        assert(vstd::arithmetic::power2::pow2((bit_len(v) - 1) as nat) == 2
            * vstd::arithmetic::power2::pow2((bit_len(v / 2) - 1) as nat));
        assert(2 * vstd::arithmetic::power2::pow2((bit_len(v / 2) - 1) as nat) <= 2 * (v / 2));
        assert(v < 2 * (v / 2) + 2);
        assert(2 * (v / 2) + 2 <= 2 * vstd::arithmetic::power2::pow2(bit_len(v / 2)));
        assert((bit_len(v) - 1) as nat == bit_len(v / 2));
        assert(vstd::arithmetic::power2::pow2(bit_len(v)) == 2
            * vstd::arithmetic::power2::pow2(bit_len(v / 2)));
    }
}

/// The tile width at level `l`, in fixed-point units: `2^(31 - l)`.
pub open spec fn spec_tile_width(l: u64) -> u64 {
    1u64 << ((31 - l) as u64)
}

/// The Morton code held in a tile identifier: the low `2*l + 1` bits,
/// shifted back up to full precision.
pub open spec fn spec_tileid2morton(t: u64, l: u64) -> u64 {
    ((0xFFFF_FFFFu64 >> ((31 - 2 * l) as u64)) & t) << ((62 - 2 * l) as u64)
}

/// The tile identifier for a Morton code at level `l`: the code truncated
/// to its top `2*l + 1` bits, with the level marker bit set above them.
pub open spec fn spec_morton2tileid(m: u64, l: u64) -> u64 {
    (m >> ((62 - 2 * l) as u64)) | (1u64 << ((16 + l) as u64))
}

/// The Morton code of a fixed-point coordinate pair: `x` spread over the
/// even bit positions, the low 31 bits of `y` over the odd ones.
pub open spec fn spec_nds2morton(x: u64, y: u64) -> u64 {
    spec_spread_bits(x) | (spec_spread_bits(y & 0x7FFF_FFFF) << 1)
}

/// The x coordinate read back from a Morton code.
pub open spec fn spec_morton_x(m: u64) -> u64 {
    spec_compress_bits(m)
}

/// The y coordinate read back from a Morton code. Encoding kept only the
/// low 31 bits of y, so a value with bit 30 set has its dropped sign bit
/// restored.
pub open spec fn spec_morton_y(m: u64) -> u64 {
    let y = spec_compress_bits(m >> 1);
    if y & 0x4000_0000 != 0 {
        y | 0x8000_0000
    } else {
        y
    }
}

/// A tile identifier carrying level `l`: above its `2*l + 1` Morton payload
/// bits stands exactly the level marker bit, and nothing higher.
pub open spec fn is_tile_at_level(t: u64, l: u64) -> bool {
    l <= 15 && (t >> ((2 * l + 1) as u64)) == (1u64 << ((15 - l) as u64))
}

/// A well-formed tile identifier: one that carries its own derived level.
pub open spec fn spec_well_formed_tile(t: u64) -> bool {
    0 <= spec_tile_level(t) <= 15 && is_tile_at_level(t, spec_tile_level(t) as u64)
}

/// A tile that carries level `l` also derives level `l` from its bit
/// length, since its highest set bit is the marker at position `16 + l`.
pub proof fn lemma_level_of_tile(t: u64, l: u64)
    requires
        is_tile_at_level(t, l),
    ensures
        spec_tile_level(t) == l,
        spec_well_formed_tile(t),
{
    assert((1u64 << ((16 + l) as u64)) <= t && t < (1u64 << ((17 + l) as u64))) by (bit_vector)
        requires
            l <= 15 && (t >> ((2 * l + 1) as u64)) == (1u64 << ((15 - l) as u64)),
    ;
    vstd::arithmetic::power2::lemma_pow2_pos((16 + l) as nat);
    vstd::arithmetic::power2::lemma_pow2_pos((17 + l) as nat);
    lemma_u64_pow2_no_overflow((16 + l) as nat);
    lemma_u64_pow2_no_overflow((17 + l) as nat);
    lemma_u64_shl_is_mul(1u64, (16 + l) as u64);
    lemma_u64_shl_is_mul(1u64, (17 + l) as u64);
    lemma_bit_len_bounded(t as nat, (17 + l) as nat);
    lemma_bit_len_range(t as nat);
    if bit_len(t as nat) <= 16 + l {
        if bit_len(t as nat) < 16 + l {
            vstd::arithmetic::power2::lemma_pow2_strictly_increases(
                bit_len(t as nat),
                (16 + l) as nat,
            );
        }
        assert(t < vstd::arithmetic::power2::pow2((16 + l) as nat));
        assert(false);
    }
}

/// Derives the tile width, in fixed-point units, of a tile identifier.
pub fn get_tile_width(tile_id: i64) -> (r: i64)
    requires
        1 <= tile_id,
        0 <= spec_tile_level(tile_id as u64) <= 31,
    ensures
        r as u64 == spec_tile_width(spec_tile_level(tile_id as u64) as u64),
        1 <= r <= 0x8000_0000,
{
    let level: i8 = get_tile_level(tile_id);
    let s: u64 = (31 - level) as u64;
    let w: u64 = 1u64 << s;
    proof {
        assert(s <= 31 ==> 1 <= (1u64 << s) <= 0x8000_0000) by (bit_vector);
    }
    w as i64
}

/// Recovers the full-precision Morton code held in a tile identifier.
pub fn tileid2morton(tileid: i64) -> (r: i64)
    requires
        1 <= tileid,
        0 <= spec_tile_level(tileid as u64) <= 15,
    ensures
        r as u64 == spec_tileid2morton(tileid as u64, spec_tile_level(tileid as u64) as u64),
        0 <= r,
{
    let level: i8 = get_tile_level(tileid);
    let l: u64 = level as u64;
    let morton_code_tile: u64 = (0xFFFF_FFFFu64 >> (31 - 2 * l)) & (tileid as u64);
    let morton_code: u64 = morton_code_tile << (62 - 2 * l);
    proof {
        let t = tileid as u64;
        assert((((0xFFFF_FFFFu64 >> ((31 - 2 * l) as u64)) & t) << ((62 - 2 * l) as u64))
            < 0x8000_0000_0000_0000) by (bit_vector)
            requires
                l <= 15,
        ;
    }
    morton_code as i64
}

/// Builds the tile identifier that holds the top `2*level + 1` bits of a
/// Morton code, with the level marker bit set above them.
pub fn morton2tileid(morton_code: i64, level: i8) -> (r: i64)
    requires
        0 <= morton_code,
        0 <= level <= 31,
    ensures
        r as u64 == spec_morton2tileid(morton_code as u64, level as u64),
        1 <= r,
        level <= 15 ==> is_tile_at_level(r as u64, level as u64)
            && spec_tile_level(r as u64) == level,
{
    let l: u64 = level as u64;
    let packed_tile_id: u64 = (morton_code as u64) >> (62 - 2 * l);
    let packed_level: u64 = 1u64 << (16 + l);
    let packed: u64 = packed_tile_id | packed_level;
    proof {
        let m = morton_code as u64;
        assert(m < 0x8000_0000_0000_0000 && l <= 31 ==> 1 <= ((m >> ((62 - 2 * l) as u64)) | (
        1u64 << ((16 + l) as u64))) < 0x8000_0000_0000_0000) by (bit_vector);
        assert(m < 0x8000_0000_0000_0000 && l <= 15 ==> (((m >> ((62 - 2 * l) as u64)) | (1u64
            << ((16 + l) as u64))) >> ((2 * l + 1) as u64)) == (1u64 << ((15 - l) as u64)))
            by (bit_vector);
        if level <= 15 {
            lemma_level_of_tile(packed, l);
        }
    }
    packed as i64
}

/// Interleaves a fixed-point coordinate pair into a Morton code; only the
/// low 31 bits of the y coordinate are encoded.
pub fn nds2morton(nds_x: i64, ndx_y: i64) -> (r: i64)
    ensures
        r as u64 == spec_nds2morton(nds_x as u64, ndx_y as u64),
        0 <= r,
{
    let ym: i64 = ndx_y & 0x7FFF_FFFF;
    proof {
        assert((ndx_y & 0x7FFF_FFFF) as u64 == (ndx_y as u64) & 0x7FFF_FFFF
            && 0 <= (ndx_y & 0x7FFF_FFFF) < 0x8000_0000) by (bit_vector);
    }
    let ex: i64 = decode_bits(nds_x);
    let ey: i64 = decode_bits(ym);
    let r: u64 = (ex as u64) | ((ey as u64) << 1u64);
    proof {
        let x = nds_x as u64;
        let y = ndx_y as u64;
        assert((spec_spread_bits(x) | (spec_spread_bits(y & 0x7FFF_FFFF) << 1))
            < 0x8000_0000_0000_0000) by (bit_vector);
    }
    r as i64
}

/// Reads the fixed-point coordinate pair of a tile identifier's lower-left
/// corner.
pub fn tileid2nds(tileid: i64) -> (r: (i64, i64))
    requires
        1 <= tileid,
        0 <= spec_tile_level(tileid as u64) <= 15,
    ensures
        r.0 as u64 == spec_compress_bits(
            spec_tileid2morton(tileid as u64, spec_tile_level(tileid as u64) as u64),
        ),
        r.1 as u64 == spec_compress_bits(
            spec_tileid2morton(tileid as u64, spec_tile_level(tileid as u64) as u64) >> 1,
        ),
        0 <= r.0 < 0x1_0000_0000,
        0 <= r.1 < 0x1_0000_0000,
{
    let mortoncode: i64 = tileid2morton(tileid);
    let x: i64 = encode_bits(mortoncode);
    let high: i64 = mortoncode >> 1u64;
    proof {
        assert(0 <= mortoncode ==> (mortoncode >> 1u64) as u64 == (mortoncode as u64) >> 1
            && 0 <= (mortoncode >> 1u64)) by (bit_vector);
    }
    let y: i64 = encode_bits(high);
    (x, y)
}

/// Reads the fixed-point coordinate pair at a Morton code, restoring the
/// sign bit that encoding dropped from the y coordinate.
pub fn morton2nds(morton_code: i64) -> (r: (i64, i64))
    requires
        0 <= morton_code,
    ensures
        r.0 as u64 == spec_morton_x(morton_code as u64),
        r.1 as u64 == spec_morton_y(morton_code as u64),
        0 <= r.0 < 0x1_0000_0000,
        0 <= r.1 < 0x1_0000_0000,
{
    let x: i64 = encode_bits(morton_code);
    let high: i64 = morton_code >> 1u64;
    proof {
        assert(0 <= morton_code ==> (morton_code >> 1u64) as u64 == (morton_code as u64) >> 1
            && 0 <= (morton_code >> 1u64)) by (bit_vector);
    }
    let mut y: i64 = encode_bits(high);
    if (y & 0x4000_0000) != 0 {
        proof {
            let yo = y;
            assert(0 <= yo < 0x1_0000_0000 ==> ((yo | 0x8000_0000) as u64 == ((yo as u64)
                | 0x8000_0000) && 0 <= (yo | 0x8000_0000) < 0x1_0000_0000 && (((yo as u64)
                & 0x4000_0000 != 0) <==> (yo & 0x4000_0000 != 0)))) by (bit_vector);
        }
        y = y | 0x8000_0000;
    } else {
        proof {
            let yo = y;
            assert(0 <= yo < 0x1_0000_0000 ==> (((yo as u64) & 0x4000_0000 != 0) <==> (yo
                & 0x4000_0000 != 0))) by (bit_vector);
        }
    }
    (x, y)
}

/// Encodes a fixed-point coordinate pair as the tile identifier that
/// contains it at the given level.
pub fn nds2tileid(nds_x: i64, nds_y: i64, level: i8) -> (r: i64)
    requires
        0 <= level <= 31,
    ensures
        r as u64 == spec_morton2tileid(
            spec_nds2morton(nds_x as u64, nds_y as u64),
            level as u64,
        ),
        1 <= r,
        level <= 15 ==> is_tile_at_level(r as u64, level as u64)
            && spec_tile_level(r as u64) == level,
{
    let morton_code: i64 = nds2morton(nds_x, nds_y);
    let tileid: i64 = morton2tileid(morton_code, level);
    tileid
}

/// The fixed-point x coordinate of the lower-left corner of a tile.
pub open spec fn spec_tile_corner_x(t: u64, l: u64) -> u64 {
    spec_morton_x(spec_tileid2morton(t, l))
}

/// The fixed-point y coordinate of the lower-left corner of a tile, with
/// the dropped sign bit restored.
pub open spec fn spec_tile_corner_y(t: u64, l: u64) -> u64 {
    spec_morton_y(spec_tileid2morton(t, l))
}

/// The fixed-point x coordinate of the center of a tile.
pub open spec fn spec_tile_center_x(t: u64, l: u64) -> int {
    spec_tile_corner_x(t, l) + spec_tile_width(l) / 2
}

/// The fixed-point y coordinate of the center of a tile.
pub open spec fn spec_tile_center_y(t: u64, l: u64) -> int {
    spec_tile_corner_y(t, l) + spec_tile_width(l) / 2
}

/// Reads a tile's bounding box in fixed-point units, as
/// `(left, bottom, right, top)`: the lower-left corner, and the corner one
/// tile width up and to the right of it.
pub fn get_nds_border_by_tileid(tileid: i64) -> (r: (i64, i64, i64, i64))
    requires
        1 <= tileid,
        0 <= spec_tile_level(tileid as u64) <= 15,
    ensures
        r.0 as u64 == spec_tile_corner_x(tileid as u64, spec_tile_level(tileid as u64) as u64),
        r.1 as u64 == spec_tile_corner_y(tileid as u64, spec_tile_level(tileid as u64) as u64),
        r.2 == r.0 + spec_tile_width(spec_tile_level(tileid as u64) as u64),
        r.3 == r.1 + spec_tile_width(spec_tile_level(tileid as u64) as u64),
        0 <= r.0 < 0x1_0000_0000 && r.0 <= r.2 < 0x1_8000_0000,
        0 <= r.1 < 0x1_0000_0000 && r.1 <= r.3 < 0x1_8000_0000,
{
    let morton_code: i64 = tileid2morton(tileid);
    let (x, y): (i64, i64) = morton2nds(morton_code);
    let tile_width: i64 = get_tile_width(tileid);
    (x, y, x + tile_width, y + tile_width)
}

/// Reads the fixed-point coordinates of a tile's center: the midpoint of
/// its bounding box.
pub fn get_ceneter_nds_by_tileid(tileid: i64) -> (r: (i64, i64))
    requires
        1 <= tileid,
        0 <= spec_tile_level(tileid as u64) <= 15,
    ensures
        r.0 == spec_tile_center_x(tileid as u64, spec_tile_level(tileid as u64) as u64),
        r.1 == spec_tile_center_y(tileid as u64, spec_tile_level(tileid as u64) as u64),
        0 <= r.0 < 0x1_8000_0000,
        0 <= r.1 < 0x1_8000_0000,
{
    let (left, bottom, right, top): (i64, i64, i64, i64) = get_nds_border_by_tileid(tileid);
    let nds_x: i64 = left + (right - left) / 2;
    let nds_y: i64 = bottom + (top - bottom) / 2;
    (nds_x, nds_y)
}

/// Re-encodes a tile identifier at another zoom level, by re-quantizing
/// the tile's lower-left corner coordinates at the new level.
pub fn tileid_transform(tileid: i64, to_level: i8) -> (r: i64)
    requires
        1 <= tileid,
        0 <= spec_tile_level(tileid as u64) <= 15,
        0 <= to_level <= 31,
    ensures
        r as u64 == spec_morton2tileid(
            spec_nds2morton(
                spec_compress_bits(
                    spec_tileid2morton(tileid as u64, spec_tile_level(tileid as u64) as u64),
                ),
                spec_compress_bits(
                    spec_tileid2morton(tileid as u64, spec_tile_level(tileid as u64) as u64) >> 1,
                ),
            ),
            to_level as u64,
        ),
        1 <= r,
        to_level <= 15 ==> spec_tile_level(r as u64) == to_level,
{
    let (lng, lat): (i64, i64) = tileid2nds(tileid);
    nds2tileid(lng, lat, to_level)
}

/// A well-formed tile identifier survives the round trip through its
/// Morton code: re-encoding the code at the tile's own level rebuilds the
/// identifier exactly.
pub proof fn lemma_morton_round_trip(t: i64)
    requires
        1 <= t,
        spec_well_formed_tile(t as u64),
    ensures
        spec_morton2tileid(
            spec_tileid2morton(t as u64, spec_tile_level(t as u64) as u64),
            spec_tile_level(t as u64) as u64,
        ) == t as u64,
{
    let l = spec_tile_level(t as u64) as u64;
    let tu = t as u64;
    assert(spec_morton2tileid(spec_tileid2morton(tu, l), l) == tu) by (bit_vector)
        requires
            l <= 15 && (tu >> ((2 * l + 1) as u64)) == (1u64 << ((15 - l) as u64)),
    ;
}

/// The bit length never shrinks as the value grows.
pub proof fn lemma_bit_len_monotone(a: nat, b: nat)
    requires
        a <= b,
    ensures
        bit_len(a) <= bit_len(b),
    decreases b,
{
    if a > 0 {
        lemma_bit_len_monotone(a / 2, b / 2);
    }
}

/// The level is a non-decreasing step function of the identifier: it is
/// the identifier's bit length shifted down by 17, so it never decreases
/// as the identifier (and with it the bit length) grows.
pub proof fn lemma_level_monotone(a: i64, b: i64)
    requires
        1 <= a <= b,
    ensures
        bit_len(a as nat) <= bit_len(b as nat),
        spec_tile_level(a as u64) <= spec_tile_level(b as u64),
{
    lemma_bit_len_monotone(a as nat, b as nat);
}

/// The tile width halves exactly with each unit increase of the level.
pub proof fn lemma_width_halves(l: u64)
    requires
        l < 31,
    ensures
        spec_tile_width(l) == 2 * spec_tile_width((l + 1) as u64),
{
    assert((1u64 << ((31 - l) as u64)) == 2 * (1u64 << ((31 - (l + 1)) as u64))) by (bit_vector)
        requires
            l < 31,
    ;
}

/// Encoding any in-range point gives a tile that carries the level it was
/// encoded at, and whose corner is the point rounded down to the tile grid.
pub proof fn lemma_encode_corner(u: u64, v: u64, l: u64)
    by (bit_vector)
    requires
        l <= 15,
        u < 0x1_0000_0000,
    ensures
        (spec_morton2tileid(spec_nds2morton(u, v), l) >> ((2 * l + 1) as u64)) == (1u64 << ((15
            - l) as u64)),
        spec_compress_bits(
            spec_tileid2morton(spec_morton2tileid(spec_nds2morton(u, v), l), l),
        ) == ((u >> ((31 - l) as u64)) << ((31 - l) as u64)),
        spec_compress_bits(
            spec_tileid2morton(spec_morton2tileid(spec_nds2morton(u, v), l), l) >> 1,
        ) == (((v & 0x7FFF_FFFF) >> ((31 - l) as u64)) << ((31 - l) as u64)),
{
}

/// A tile that carries its level has corner coordinates aligned to the
/// tile grid, an x corner below `2^32` and a raw y corner below `2^31`.
pub proof fn lemma_wf_corner(t: u64, l: u64)
    by (bit_vector)
    requires
        l <= 15,
        (t >> ((2 * l + 1) as u64)) == (1u64 << ((15 - l) as u64)),
    ensures
        ((spec_compress_bits(spec_tileid2morton(t, l)) >> ((31 - l) as u64)) << ((31
            - l) as u64)) == spec_compress_bits(spec_tileid2morton(t, l)),
        ((spec_compress_bits(spec_tileid2morton(t, l) >> 1) >> ((31 - l) as u64)) << ((31
            - l) as u64)) == spec_compress_bits(spec_tileid2morton(t, l) >> 1),
        spec_compress_bits(spec_tileid2morton(t, l)) < 0x1_0000_0000,
        spec_compress_bits(spec_tileid2morton(t, l) >> 1) < 0x8000_0000,
{
}

/// Two tiles that carry one level and share their corner are one tile.
pub proof fn lemma_corner_unique(t1: u64, t2: u64, l: u64)
    by (bit_vector)
    requires
        l <= 15,
        (t1 >> ((2 * l + 1) as u64)) == (1u64 << ((15 - l) as u64)),
        (t2 >> ((2 * l + 1) as u64)) == (1u64 << ((15 - l) as u64)),
        spec_compress_bits(spec_tileid2morton(t1, l)) == spec_compress_bits(
            spec_tileid2morton(t2, l),
        ),
        spec_compress_bits(spec_tileid2morton(t1, l) >> 1) == spec_compress_bits(
            spec_tileid2morton(t2, l) >> 1,
        ),
    ensures
        t1 == t2,
{
}

} // verus!
