//! Wall records: each joins two vertices and carries side metadata.

use vstd::prelude::*;

use crate::datatypes::MapLumpsIndex;
use crate::errors::DoomError;
use crate::utils::le_u16;
use crate::utils::to_u16;
use crate::wad::WadMetaData;
use vstd::string::StringExecFns;

verus! {

/// A wall: start and end vertex indices, flags, special type, sector tag,
/// and the indices of its front and back side definitions.
#[derive(Debug, Clone, Copy, PartialEq, Eq, Structural)]
pub struct LineDef {
    pub start_vertex: u16,
    pub end_vertex: u16,
    pub flags: u16,
    pub line_type: u16,
    pub sector_tag: u16,
    pub front_side_def: u16,
    pub back_side_def: u16,
}

impl WadMetaData for LineDef {
    open spec fn spec_lump_name() -> Seq<char> {
        "LINEDEFS"@
    }

    open spec fn spec_size() -> u32 {
        14
    }

    open spec fn spec_index() -> usize {
        MapLumpsIndex::LINEDEFS.spec_offset()
    }

    open spec fn spec_read(b: Seq<u8>, offset: int) -> LineDef {
        LineDef {
            start_vertex: le_u16(b, offset),
            end_vertex: le_u16(b, offset + 2),
            flags: le_u16(b, offset + 4),
            line_type: le_u16(b, offset + 6),
            sector_tag: le_u16(b, offset + 8),
            front_side_def: le_u16(b, offset + 10),
            back_side_def: le_u16(b, offset + 12),
        }
    }

    fn read(wad: &[u8], offset: usize) -> (r: Result<LineDef, DoomError>) {
        if offset >= wad.len() || wad.len() - offset < 14 {
            return Err(DoomError::ByteRange { offset: offset as u64, len: 14 });
        }
        let start_vertex = match to_u16(wad, offset) {
            Ok(v) => v,
            Err(e) => {
                return Err(e);
            },
        };
        let end_vertex = match to_u16(wad, offset + 2) {
            Ok(v) => v,
            Err(e) => {
                return Err(e);
            },
        };
        let flags = match to_u16(wad, offset + 4) {
            Ok(v) => v,
            Err(e) => {
                return Err(e);
            },
        };
        let line_type = match to_u16(wad, offset + 6) {
            Ok(v) => v,
            Err(e) => {
                return Err(e);
            },
        };
        let sector_tag = match to_u16(wad, offset + 8) {
            Ok(v) => v,
            Err(e) => {
                return Err(e);
            },
        };
        let front_side_def = match to_u16(wad, offset + 10) {
            Ok(v) => v,
            Err(e) => {
                return Err(e);
            },
        };
        let back_side_def = match to_u16(wad, offset + 12) {
            Ok(v) => v,
            Err(e) => {
                return Err(e);
            },
        };
        Ok(LineDef {
            start_vertex,
            end_vertex,
            flags,
            line_type,
            sector_tag,
            front_side_def,
            back_side_def,
        })
    }

    fn lump_name() -> (r: String) {
        String::from_str("LINEDEFS")
    }

    fn size_in_bytes() -> (r: u32) {
        14
    }

    fn index() -> (r: usize) {
        MapLumpsIndex::LINEDEFS.offset()
    }
}

} // verus!
