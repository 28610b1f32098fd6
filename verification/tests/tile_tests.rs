use nds_tiles::codec::{
    get_ceneter_nds_by_tileid, get_nds_border_by_tileid, get_tile_level, get_tile_width,
    morton2nds, morton2tileid, nds2morton, nds2tileid, tileid2morton, tileid2nds,
    tileid_transform,
};
use nds_tiles::interleave::{decode_bits, encode_bits};
use nds_tiles::neighbor::{get_all_neighbor_tiles, get_neighbor_tileid, Direction};
use nds_tiles::raster::select_intersecting_tiles;

#[test]
fn test_get_tile_level() {
    assert_eq!(get_tile_level(556610400), 13);
    assert_eq!(get_tile_level(67424006), 10);
}

#[test]
fn test_get_tile_width() {
    assert_eq!(get_tile_width(556610400), 262144);
}

#[test]
fn test_encode_decode_bits() {
    assert_eq!(encode_bits(1330786202097287168), 1336934400);
    assert_eq!(encode_bits(1330779330149613568), 1334312960);
    assert_eq!(decode_bits(1334312960), 1176917521249337344);
    assert_eq!(decode_bits(1336934400), 1176922743929569280);
}

#[test]
fn test_nds2morton() {
    let nds_x = ((1_i64 << 30) as f64 * 77.50886984831503 / 90.0) as i64;
    let nds_y = ((1_i64 << 30) as f64 * 43.13809797582891 / 90.0) as i64;
    assert_eq!(nds2morton(nds_x, nds_y), 557753618534958618);
}

#[test]
fn test_tile2morton() {
    assert_eq!(tileid2morton(556236300), 1330779330149613568);
}

#[test]
fn test_get_all_neighbor_tiles() {
    assert_eq!(
        get_all_neighbor_tiles(556236300),
        [
            556236300, 556236302, 556236294, 556236297, 556236301, 556236299, 556236303,
            556236291, 556236295
        ]
    );
}

#[test]
fn test_tileid_transform() {
    assert_eq!(tileid_transform(556236300, 10), 67411448);
}

#[test]
fn test_tileid2nds() {
    assert_eq!(tileid2nds(556236300), (1334312960, 365428736));
}

#[test]
fn test_get_nds_border_by_tileid() {
    assert_eq!(
        get_nds_border_by_tileid(556236300),
        (1334312960, 365428736, 1334575104, 365690880)
    );
}

#[test]
fn test_get_ceneter_nds_by_tileid() {
    assert_eq!(get_ceneter_nds_by_tileid(556236300), (1334444032, 365559808));
}

#[test]
fn test_morton_round_trip() {
    for tile in [556236300_i64, 556610400, 67424006, 67411448] {
        let level = get_tile_level(tile);
        assert_eq!(morton2tileid(tileid2morton(tile), level), tile);
    }
}

#[test]
fn test_neighbor_round_trip() {
    let pairs = [
        (Direction::Up, Direction::Down),
        (Direction::Left, Direction::Right),
        (Direction::LeftUp, Direction::RightDown),
        (Direction::RightUp, Direction::LeftDown),
    ];
    for tile in [556236300_i64, 67424006] {
        for (there, back) in pairs {
            assert_eq!(get_neighbor_tileid(get_neighbor_tileid(tile, there), back), tile);
            assert_eq!(get_neighbor_tileid(get_neighbor_tileid(tile, back), there), tile);
        }
    }
}

#[test]
fn test_single_neighbors() {
    assert_eq!(get_neighbor_tileid(556236300, Direction::Up), 556236302);
    assert_eq!(get_neighbor_tileid(556236300, Direction::Down), 556236294);
    assert_eq!(get_neighbor_tileid(556236300, Direction::Left), 556236297);
    assert_eq!(get_neighbor_tileid(556236300, Direction::Right), 556236301);
}

#[test]
fn test_width_halves_with_level() {
    let coarse = 556236300; // level 13
    let finer = tileid_transform(coarse, 14);
    assert_eq!(get_tile_level(finer), 14);
    assert_eq!(get_tile_width(coarse), 2 * get_tile_width(finer));
}

#[test]
fn test_morton2nds_sign_restore() {
    // The y coordinate loses its bit 31 on encoding; a decoded value with
    // bit 30 set gets it back.
    let morton = nds2morton(5, 0x5000_0000);
    assert_eq!(morton2nds(morton), (5, 0xD000_0000_i64));
    // A y coordinate without bit 30 comes back untouched.
    let low = nds2morton(7, 0x1234_5678);
    assert_eq!(morton2nds(low), (7, 0x1234_5678_i64));
}

#[test]
fn test_decode_bits_negative_masked() {
    // A negative input is truncated to 32 bits before spreading, so its
    // sign extension cannot reach the high bits.
    assert_eq!(decode_bits(-1), 0x5555_5555_5555_5555_i64);
    assert_eq!(decode_bits(-1), decode_bits(0xFFFF_FFFF_i64));
}

#[test]
fn test_encode_bits_reads_even_positions() {
    assert_eq!(encode_bits(0b10), 0);
    assert_eq!(encode_bits(0b100), 0b10);
    assert_eq!(encode_bits(0b101), 0b11);
}

#[test]
fn test_select_intersecting_tiles() {
    let flags = vec![true, false, true, true, false];
    assert_eq!(select_intersecting_tiles(100, 104, &flags), vec![100, 102, 103]);
    let none = vec![false, false];
    assert_eq!(select_intersecting_tiles(7, 8, &none), Vec::<i64>::new());
    let all = vec![true];
    assert_eq!(select_intersecting_tiles(42, 42, &all), vec![42]);
}

#[test]
fn test_nds2tileid_levels() {
    // The corner of tile 556236300 re-encodes to the tile itself, and to
    // the coarser tile that contains it.
    let (x, y) = tileid2nds(556236300);
    assert_eq!(nds2tileid(x, y, 13), 556236300);
    assert_eq!(nds2tileid(x, y, 10), 67411448);
}
