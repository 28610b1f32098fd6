//! Neighbor lookup: the tile next to a given tile in one of the eight
//! compass directions, found by stepping the tile's center by one tile
//! width and re-encoding the stepped point at the same level.

use vstd::prelude::*;

verus! {

use crate::codec::{
    get_ceneter_nds_by_tileid, get_tile_level, get_tile_width, lemma_corner_unique,
    lemma_encode_corner, lemma_level_of_tile, lemma_wf_corner, nds2tileid, spec_morton2tileid,
    spec_nds2morton, spec_tile_center_x, spec_tile_center_y,
    spec_tile_corner_x, spec_tile_corner_y, spec_tile_level, spec_tile_width, spec_tileid2morton,
    spec_well_formed_tile,
};
use crate::interleave::spec_compress_bits;

/// A compass direction to one of the eight neighbors of a tile.
#[derive(Clone, Copy, PartialEq, Eq, Structural, Debug)]
pub enum Direction {
    Up,
    Down,
    Left,
    Right,
    LeftUp,
    RightUp,
    LeftDown,
    RightDown,
}

/// The horizontal step a direction takes, in tile widths.
pub open spec fn spec_dir_dx(d: Direction) -> int {
    match d {
        Direction::Up => 0,
        Direction::Down => 0,
        Direction::Left => -1,
        Direction::Right => 1,
        Direction::LeftUp => -1,
        Direction::RightUp => 1,
        Direction::LeftDown => -1,
        Direction::RightDown => 1,
    }
}

/// The vertical step a direction takes, in tile widths.
pub open spec fn spec_dir_dy(d: Direction) -> int {
    match d {
        Direction::Up => 1,
        Direction::Down => -1,
        Direction::Left => 0,
        Direction::Right => 0,
        Direction::LeftUp => 1,
        Direction::RightUp => 1,
        Direction::LeftDown => -1,
        Direction::RightDown => -1,
    }
}

/// The direction that steps back where `d` stepped.
pub open spec fn spec_opposite(d: Direction) -> Direction {
    match d {
        Direction::Up => Direction::Down,
        Direction::Down => Direction::Up,
        Direction::Left => Direction::Right,
        Direction::Right => Direction::Left,
        Direction::LeftUp => Direction::RightDown,
        Direction::RightUp => Direction::LeftDown,
        Direction::LeftDown => Direction::RightUp,
        Direction::RightDown => Direction::LeftUp,
    }
}

/// The neighbor of tile `t` (carrying level `l`) in direction `d`: the
/// tile's center, stepped by one tile width along each axis the direction
/// names, re-encoded at the same level.
pub open spec fn spec_neighbor(t: u64, l: u64, d: Direction) -> u64 {
    let w = spec_tile_width(l) as int;
    let nx = spec_tile_center_x(t, l) + spec_dir_dx(d) * w;
    let ny = spec_tile_center_y(t, l) + spec_dir_dy(d) * w;
    spec_morton2tileid(spec_nds2morton((nx as i64) as u64, (ny as i64) as u64), l)
}

/// Finds the identifier of the tile adjacent to `tileid` in the given
/// compass direction, at the same zoom level.
pub fn get_neighbor_tileid(tileid: i64, direction: Direction) -> (r: i64)
    requires
        1 <= tileid,
        0 <= spec_tile_level(tileid as u64) <= 15,
    ensures
        r as u64 == spec_neighbor(
            tileid as u64,
            spec_tile_level(tileid as u64) as u64,
            direction,
        ),
        1 <= r,
        spec_tile_level(r as u64) == spec_tile_level(tileid as u64),
{
    let level: i8 = get_tile_level(tileid);
    let tile_width: i64 = get_tile_width(tileid);
    let (mut center_x, mut center_y): (i64, i64) = get_ceneter_nds_by_tileid(tileid);
    match direction {
        Direction::Right => {
            center_x = center_x + tile_width;
        },
        Direction::Up => {
            center_y = center_y + tile_width;
        },
        Direction::Down => {
            center_y = center_y - tile_width;
        },
        Direction::Left => {
            center_x = center_x - tile_width;
        },
        Direction::LeftDown => {
            center_x = center_x - tile_width;
            center_y = center_y - tile_width;
        },
        Direction::RightDown => {
            center_x = center_x + tile_width;
            center_y = center_y - tile_width;
        },
        Direction::LeftUp => {
            center_x = center_x - tile_width;
            center_y = center_y + tile_width;
        },
        Direction::RightUp => {
            center_y = center_y + tile_width;
            center_x = center_x + tile_width;
        },
    }
    nds2tileid(center_x, center_y, level)
}

/// Collects a tile and its eight neighbors, in a fixed order: the tile
/// itself, then up, down, left, right, left-up, right-up, left-down,
/// right-down.
pub fn get_all_neighbor_tiles(tileid: i64) -> (r: Vec<i64>)
    requires
        1 <= tileid,
        0 <= spec_tile_level(tileid as u64) <= 15,
    ensures
        r@.len() == 9,
        r@[0] == tileid,
        r@[1] as u64 == spec_neighbor(
            tileid as u64,
            spec_tile_level(tileid as u64) as u64,
            Direction::Up,
        ),
        r@[2] as u64 == spec_neighbor(
            tileid as u64,
            spec_tile_level(tileid as u64) as u64,
            Direction::Down,
        ),
        r@[3] as u64 == spec_neighbor(
            tileid as u64,
            spec_tile_level(tileid as u64) as u64,
            Direction::Left,
        ),
        r@[4] as u64 == spec_neighbor(
            tileid as u64,
            spec_tile_level(tileid as u64) as u64,
            Direction::Right,
        ),
        r@[5] as u64 == spec_neighbor(
            tileid as u64,
            spec_tile_level(tileid as u64) as u64,
            Direction::LeftUp,
        ),
        r@[6] as u64 == spec_neighbor(
            tileid as u64,
            spec_tile_level(tileid as u64) as u64,
            Direction::RightUp,
        ),
        r@[7] as u64 == spec_neighbor(
            tileid as u64,
            spec_tile_level(tileid as u64) as u64,
            Direction::LeftDown,
        ),
        r@[8] as u64 == spec_neighbor(
            tileid as u64,
            spec_tile_level(tileid as u64) as u64,
            Direction::RightDown,
        ),
{
    let mut neighbor_tiles: Vec<i64> = Vec::new();
    neighbor_tiles.push(tileid);
    neighbor_tiles.push(get_neighbor_tileid(tileid, Direction::Up));
    neighbor_tiles.push(get_neighbor_tileid(tileid, Direction::Down));
    neighbor_tiles.push(get_neighbor_tileid(tileid, Direction::Left));
    neighbor_tiles.push(get_neighbor_tileid(tileid, Direction::Right));
    neighbor_tiles.push(get_neighbor_tileid(tileid, Direction::LeftUp));
    neighbor_tiles.push(get_neighbor_tileid(tileid, Direction::RightUp));
    neighbor_tiles.push(get_neighbor_tileid(tileid, Direction::LeftDown));
    neighbor_tiles.push(get_neighbor_tileid(tileid, Direction::RightDown));
    neighbor_tiles
}

/// A tile that does not stand in the outermost ring of the grid at its
/// level: a full tile width of room remains on every side of it, so every
/// neighbor (and the neighbor's way back) stays on the grid.
pub open spec fn spec_interior_tile(t: u64, l: u64) -> bool {
    let w = spec_tile_width(l);
    let x = spec_tile_corner_x(t, l);
    let yr = spec_compress_bits(spec_tileid2morton(t, l) >> 1);
    w <= x && x + 2 * w <= 0x1_0000_0000 && w <= yr && yr + 2 * w <= 0x8000_0000
}

/// Rounding down to the grid undoes a half-width offset from a grid point.
proof fn lemma_snap(a: u64, s: u64)
    by (bit_vector)
    requires
        s <= 31,
        ((a >> s) << s) == a,
        a + (1u64 << s) <= 0x1_0000_0000,
    ensures
        ((((a + ((1u64 << s) / 2)) as u64) >> s) << s) == a,
{
}

/// A grid point stepped by one tile width in either direction stays a
/// grid point.
proof fn lemma_step_align(a: u64, s: u64)
    by (bit_vector)
    requires
        s <= 31,
        ((a >> s) << s) == a,
    ensures
        (a + (1u64 << s) <= 0x1_0000_0000) ==> ((((a + (1u64 << s)) as u64) >> s) << s) == a + (
        1u64 << s),
        ((1u64 << s) <= a) ==> ((((a - (1u64 << s)) as u64) >> s) << s) == a - (1u64 << s),
{
}

/// For a y coordinate below `2^31`, masking to 31 bits is the identity,
/// masking after the sign bit was restored takes it off again, and
/// restoring the sign bit is a plain addition.
proof fn lemma_y_mask(b: u64)
    by (bit_vector)
    requires
        b < 0x8000_0000,
    ensures
        (b & 0x7FFF_FFFF) == b,
        ((((b + 0x8000_0000) as u64)) & 0x7FFF_FFFF) == b,
        (b | 0x8000_0000) == b + 0x8000_0000,
{
}

/// Stepping to a neighbor and stepping back along the opposite direction
/// returns to the original tile, for every well-formed tile that does not
/// stand in the outermost ring of the grid at its level.
pub proof fn lemma_neighbor_round_trip(t: i64, d: Direction)
    requires
        1 <= t,
        spec_well_formed_tile(t as u64),
        spec_interior_tile(t as u64, spec_tile_level(t as u64) as u64),
    ensures
        spec_tile_level(
            spec_neighbor(t as u64, spec_tile_level(t as u64) as u64, d),
        ) == spec_tile_level(t as u64),
        spec_neighbor(
            spec_neighbor(t as u64, spec_tile_level(t as u64) as u64, d),
            spec_tile_level(t as u64) as u64,
            spec_opposite(d),
        ) == t as u64,
{
    let tu = t as u64;
    let l = spec_tile_level(tu) as u64;
    let s = (31 - l) as u64;
    let w = spec_tile_width(l);
    let m = spec_tileid2morton(tu, l);
    let xx = spec_compress_bits(m);
    let yr = spec_compress_bits(m >> 1);
    let dx = spec_dir_dx(d);
    let dy = spec_dir_dy(d);
    assert(dx == -1 || dx == 0 || dx == 1);
    assert(dy == -1 || dy == 0 || dy == 1);
    assert(spec_dir_dx(spec_opposite(d)) == -dx);
    assert(spec_dir_dy(spec_opposite(d)) == -dy);
    lemma_wf_corner(tu, l);
    lemma_y_mask(yr);
    assert(w == (1u64 << s));

    // The stepped corner along each axis, still aligned and in range.
    let x1: u64 = if dx == 1 {
        (xx + w) as u64
    } else if dx == 0 {
        xx
    } else {
        (xx - w) as u64
    };
    let y1: u64 = if dy == 1 {
        (yr + w) as u64
    } else if dy == 0 {
        yr
    } else {
        (yr - w) as u64
    };
    lemma_step_align(xx, s);
    lemma_step_align(yr, s);
    assert(((x1 >> s) << s) == x1);
    assert(((y1 >> s) << s) == y1);
    lemma_snap(x1, s);
    lemma_snap(y1, s);
    lemma_y_mask((y1 + w / 2) as u64);

    // The stepped center, as the neighbor computation forms it.
    let nxi = spec_tile_center_x(tu, l) + dx * w;
    let nyi = spec_tile_center_y(tu, l) + dy * w;
    assert(spec_tile_corner_x(tu, l) == xx);
    if yr & 0x4000_0000 != 0 {
        assert(spec_tile_corner_y(tu, l) == yr + 0x8000_0000);
    } else {
        assert(spec_tile_corner_y(tu, l) == yr);
    }
    assert(nxi == x1 + w / 2);
    let nxu = (nxi as i64) as u64;
    let nyu = (nyi as i64) as u64;
    assert(nxu == (x1 + w / 2) as u64);
    assert((nyu & 0x7FFF_FFFF) == (y1 + w / 2) as u64);

    // First step: the neighbor is the well-formed tile whose corner is the
    // stepped corner.
    lemma_encode_corner(nxu, nyu, l);
    let n = spec_morton2tileid(spec_nds2morton(nxu, nyu), l);
    assert(n == spec_neighbor(tu, l, d));
    lemma_level_of_tile(n, l);
    assert(spec_compress_bits(spec_tileid2morton(n, l)) == x1);
    assert(spec_compress_bits(spec_tileid2morton(n, l) >> 1) == y1);
    lemma_y_mask(y1);

    // Second step: from the neighbor's center, the opposite step lands on
    // the original corner.
    let nxi2 = spec_tile_center_x(n, l) + (-dx) * w;
    let nyi2 = spec_tile_center_y(n, l) + (-dy) * w;
    if y1 & 0x4000_0000 != 0 {
        assert(spec_tile_corner_y(n, l) == y1 + 0x8000_0000);
    } else {
        assert(spec_tile_corner_y(n, l) == y1);
    }
    assert(nxi2 == xx + w / 2);
    let nxu2 = (nxi2 as i64) as u64;
    let nyu2 = (nyi2 as i64) as u64;
    assert(nxu2 == (xx + w / 2) as u64);
    lemma_y_mask((yr + w / 2) as u64);
    assert((nyu2 & 0x7FFF_FFFF) == (yr + w / 2) as u64);
    lemma_encode_corner(nxu2, nyu2, l);
    let n2 = spec_morton2tileid(spec_nds2morton(nxu2, nyu2), l);
    assert(n2 == spec_neighbor(n, l, spec_opposite(d)));
    lemma_snap(xx, s);
    lemma_snap(yr, s);
    assert(spec_compress_bits(spec_tileid2morton(n2, l)) == xx);
    assert(spec_compress_bits(spec_tileid2morton(n2, l) >> 1) == yr);
    lemma_corner_unique(n2, tu, l);
}

} // verus!
