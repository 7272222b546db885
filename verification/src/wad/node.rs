//! Partition-node records: the internal elements of the spatial partition
//! tree.

use vstd::prelude::*;

use crate::datatypes::MapLumpsIndex;
use crate::errors::DoomError;
use crate::utils::le_i16;
use crate::utils::le_u16;
use crate::utils::to_i16;
use crate::utils::to_u16;
use crate::wad::WadMetaData;
use vstd::string::StringExecFns;

verus! {

/// An internal partition node: a partition line (point plus direction), the
/// bounding boxes of its two halves, and its two child references.  A child
/// reference with the high bit set is a leaf: its low 15 bits index a leaf
/// region; otherwise it indexes another node.
#[derive(Debug, Clone, Copy, PartialEq, Eq, Structural)]
pub struct Node {
    pub x_partition: i16,
    pub y_partition: i16,
    pub change_x_partition: i16,
    pub change_y_partition: i16,
    pub right_box_top: i16,
    pub right_box_bottom: i16,
    pub right_box_left: i16,
    pub right_box_right: i16,
    pub left_box_top: i16,
    pub left_box_bottom: i16,
    pub left_box_left: i16,
    pub left_box_right: i16,
    pub right_child: u16,
    pub left_child: u16,
}

impl WadMetaData for Node {
    open spec fn spec_lump_name() -> Seq<char> {
        "NODES"@
    }

    open spec fn spec_size() -> u32 {
        28
    }

    open spec fn spec_index() -> usize {
        MapLumpsIndex::NODES.spec_offset()
    }

    open spec fn spec_read(b: Seq<u8>, offset: int) -> Node {
        Node {
            x_partition: le_i16(b, offset),
            y_partition: le_i16(b, offset + 2),
            change_x_partition: le_i16(b, offset + 4),
            change_y_partition: le_i16(b, offset + 6),
            right_box_top: le_i16(b, offset + 8),
            right_box_bottom: le_i16(b, offset + 10),
            right_box_left: le_i16(b, offset + 12),
            right_box_right: le_i16(b, offset + 14),
            left_box_top: le_i16(b, offset + 16),
            left_box_bottom: le_i16(b, offset + 18),
            left_box_left: le_i16(b, offset + 20),
            left_box_right: le_i16(b, offset + 22),
            right_child: le_u16(b, offset + 24),
            left_child: le_u16(b, offset + 26),
        }
    }

    fn read(wad: &[u8], offset: usize) -> (r: Result<Node, DoomError>) {
        if offset >= wad.len() || wad.len() - offset < 28 {
            return Err(DoomError::ByteRange { offset: offset as u64, len: 28 });
        }
        let x_partition = match to_i16(wad, offset) {
            Ok(v) => v,
            Err(e) => {
                return Err(e);
            },
        };
        let y_partition = match to_i16(wad, offset + 2) {
            Ok(v) => v,
            Err(e) => {
                return Err(e);
            },
        };
        let change_x_partition = match to_i16(wad, offset + 4) {
            Ok(v) => v,
            Err(e) => {
                return Err(e);
            },
        };
        let change_y_partition = match to_i16(wad, offset + 6) {
            Ok(v) => v,
            Err(e) => {
                return Err(e);
            },
        };
        let right_box_top = match to_i16(wad, offset + 8) {
            Ok(v) => v,
            Err(e) => {
                return Err(e);
            },
        };
        let right_box_bottom = match to_i16(wad, offset + 10) {
            Ok(v) => v,
            Err(e) => {
                return Err(e);
            },
        };
        let right_box_left = match to_i16(wad, offset + 12) {
            Ok(v) => v,
            Err(e) => {
                return Err(e);
            },
        };
        let right_box_right = match to_i16(wad, offset + 14) {
            Ok(v) => v,
            Err(e) => {
                return Err(e);
            },
        };
        let left_box_top = match to_i16(wad, offset + 16) {
            Ok(v) => v,
            Err(e) => {
                return Err(e);
            },
        };
        let left_box_bottom = match to_i16(wad, offset + 18) {
            Ok(v) => v,
            Err(e) => {
                return Err(e);
            },
        };
        let left_box_left = match to_i16(wad, offset + 20) {
            Ok(v) => v,
            Err(e) => {
                return Err(e);
            },
        };
        let left_box_right = match to_i16(wad, offset + 22) {
            Ok(v) => v,
            Err(e) => {
                return Err(e);
            },
        };
        let right_child = match to_u16(wad, offset + 24) {
            Ok(v) => v,
            Err(e) => {
                return Err(e);
            },
        };
        let left_child = match to_u16(wad, offset + 26) {
            Ok(v) => v,
            Err(e) => {
                return Err(e);
            },
        };
        Ok(Node {
            x_partition,
            y_partition,
            change_x_partition,
            change_y_partition,
            right_box_top,
            right_box_bottom,
            right_box_left,
            right_box_right,
            left_box_top,
            left_box_bottom,
            left_box_left,
            left_box_right,
            right_child,
            left_child,
        })
    }

    fn lump_name() -> (r: String) {
        String::from_str("NODES")
    }

    fn size_in_bytes() -> (r: u32) {
        28
    }

    fn index() -> (r: usize) {
        MapLumpsIndex::NODES.offset()
    }
}

} // verus!
