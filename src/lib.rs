//! Decoding of 3D Tiles: the binary tile formats (batched model, instanced
//! model, point cloud), their feature and batch tables, and the tileset tree.
pub mod b3dm;
pub mod batch_table;
pub mod bytes;
pub mod error;
pub mod feature_table;
pub mod header;
pub mod i3dm;
pub mod json;
pub mod payload;
pub mod pnts;
pub mod points;
pub mod tileset;
