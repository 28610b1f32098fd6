//! Hierarchical tile addressing on a Morton (Z-order) curve over a signed
//! 64-bit fixed-point coordinate grid, with tile borders, centers, neighbor
//! lookup, level changes, and support for enumerating the tiles that
//! intersect a polygon.

pub mod codec;
pub mod interleave;
pub mod neighbor;
pub mod raster;

pub use codec::{
    get_ceneter_nds_by_tileid, get_nds_border_by_tileid, get_tile_level, get_tile_width,
    morton2nds, morton2tileid, nds2morton, nds2tileid, tileid2morton, tileid2nds,
    tileid_transform,
};
pub use interleave::{decode_bits, encode_bits};
pub use neighbor::{get_all_neighbor_tiles, get_neighbor_tileid, Direction};
pub use raster::select_intersecting_tiles;
