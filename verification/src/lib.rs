//! Loader and visibility core for a binary game-resource archive.
//!
//! The crate has two subsystems: a reader that decodes fixed-layout
//! little-endian records (vertices, walls, map objects, partition nodes,
//! wall segments, leaf regions) out of a flat byte buffer, and a recursive
//! spatial-partition walker that, for a given observer pose, emits the
//! wall-segment endpoints inside the view window in near-to-far order.

pub mod angle;
pub mod datatypes;
pub mod errors;
pub mod map;
pub mod player;
pub mod utils;
pub mod view;
pub mod wad;

pub use view::check_for_sub_sector;
pub use view::get_sub_sector;
