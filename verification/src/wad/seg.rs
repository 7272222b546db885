//! Wall-segment records: the directed pieces of walls that the partition
//! tree's leaves reference.

use vstd::prelude::*;

use crate::datatypes::MapLumpsIndex;
use crate::errors::DoomError;
use crate::utils::le_u16;
use crate::utils::to_u16;
use crate::wad::WadMetaData;
use vstd::string::StringExecFns;

verus! {

/// A directed wall segment: its two vertex indices, its angle, the wall it
/// belongs to, which side of that wall it covers (0 front, 1 back), and its
/// offset along the wall.
#[derive(Debug, Clone, Copy, PartialEq, Eq, Structural)]
pub struct Seg {
    pub start_vertex: u16,
    pub end_vertex: u16,
    pub angle: u16,
    pub linedef: u16,
    pub side: u16,
    pub offset: u16,
}

impl WadMetaData for Seg {
    open spec fn spec_lump_name() -> Seq<char> {
        "SEGS"@
    }

    open spec fn spec_size() -> u32 {
        12
    }

    open spec fn spec_index() -> usize {
        MapLumpsIndex::SEGS.spec_offset()
    }

    open spec fn spec_read(b: Seq<u8>, offset: int) -> Seg {
        Seg {
            start_vertex: le_u16(b, offset),
            end_vertex: le_u16(b, offset + 2),
            angle: le_u16(b, offset + 4),
            linedef: le_u16(b, offset + 6),
            side: le_u16(b, offset + 8),
            offset: le_u16(b, offset + 10),
        }
    }

    fn read(wad: &[u8], offset: usize) -> (r: Result<Seg, DoomError>) {
        if offset >= wad.len() || wad.len() - offset < 12 {
            return Err(DoomError::ByteRange { offset: offset as u64, len: 12 });
        }
        let start_vertex = match to_u16(wad, offset) {
            Ok(v) => v,
            Err(e) => {
                return Err(e);
            },
        };
        let end_vertex = match to_u16(wad, offset + 2) {
            Ok(v) => v,
            Err(e) => {
                return Err(e);
            },
        };
        let angle = match to_u16(wad, offset + 4) {
            Ok(v) => v,
            Err(e) => {
                return Err(e);
            },
        };
        let linedef = match to_u16(wad, offset + 6) {
            Ok(v) => v,
            Err(e) => {
                return Err(e);
            },
        };
        let side = match to_u16(wad, offset + 8) {
            Ok(v) => v,
            Err(e) => {
                return Err(e);
            },
        };
        let seg_offset = match to_u16(wad, offset + 10) {
            Ok(v) => v,
            Err(e) => {
                return Err(e);
            },
        };
        Ok(Seg { start_vertex, end_vertex, angle, linedef, side, offset: seg_offset })
    }

    fn lump_name() -> (r: String) {
        String::from_str("SEGS")
    }

    fn size_in_bytes() -> (r: u32) {
        12
    }

    fn index() -> (r: usize) {
        MapLumpsIndex::SEGS.offset()
    }
}

} // verus!
