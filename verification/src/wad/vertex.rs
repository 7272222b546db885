//! Map vertices and the visibility query's output collection.

use vstd::prelude::*;

use crate::datatypes::MapLumpsIndex;
use crate::errors::DoomError;
use crate::utils::le_i16;
use crate::utils::to_i16;
use crate::wad::WadMetaData;
use vstd::string::StringExecFns;

verus! {

/// The ordered visible wall-segment endpoints of one visibility query.
#[derive(Debug)]
pub struct VisibleVertexes {
    pub vertexes: Vec<(Vertex, Vertex)>,
}

/// A map vertex: a point in the level plane.  Vertices are referenced by
/// their position in the decoded sequence.
#[derive(Debug, Clone, Copy, PartialEq, Eq, Structural)]
pub struct Vertex {
    pub x: i16,
    pub y: i16,
}

impl WadMetaData for Vertex {
    open spec fn spec_lump_name() -> Seq<char> {
        "VERTEXES"@
    }

    open spec fn spec_size() -> u32 {
        4
    }

    open spec fn spec_index() -> usize {
        MapLumpsIndex::VERTEXES.spec_offset()
    }

    open spec fn spec_read(b: Seq<u8>, offset: int) -> Vertex {
        Vertex { x: le_i16(b, offset), y: le_i16(b, offset + 2) }
    }

    fn read(wad: &[u8], offset: usize) -> (r: Result<Vertex, DoomError>) {
        if offset >= wad.len() || wad.len() - offset < 4 {
            return Err(DoomError::ByteRange { offset: offset as u64, len: 4 });
        }
        let x = match to_i16(wad, offset) {
            Ok(v) => v,
            Err(e) => {
                return Err(e);
            },
        };
        let y = match to_i16(wad, offset + 2) {
            Ok(v) => v,
            Err(e) => {
                return Err(e);
            },
        };
        Ok(Vertex { x, y })
    }

    fn lump_name() -> (r: String) {
        String::from_str("VERTEXES")
    }

    fn size_in_bytes() -> (r: u32) {
        4
    }

    fn index() -> (r: usize) {
        MapLumpsIndex::VERTEXES.offset()
    }
}

} // verus!
