//! Map-object records: positioned entities such as the player start.

use vstd::prelude::*;

use crate::datatypes::MapLumpsIndex;
use crate::errors::DoomError;
use crate::utils::le_i16;
use crate::utils::le_u16;
use crate::utils::to_i16;
use crate::utils::to_u16;
use crate::wad::WadMetaData;
use vstd::string::StringExecFns;

verus! {

/// A map object: its position, facing direction in degrees, type
/// identifier, and flags.
#[derive(Debug, Clone, Copy, PartialEq, Eq, Structural)]
pub struct Thing {
    pub x: i16,
    pub y: i16,
    pub direction: u16,
    pub typ: u16,
    pub flags: u16,
}

impl WadMetaData for Thing {
    open spec fn spec_lump_name() -> Seq<char> {
        "THINGS"@
    }

    open spec fn spec_size() -> u32 {
        10
    }

    open spec fn spec_index() -> usize {
        MapLumpsIndex::THINGS.spec_offset()
    }

    open spec fn spec_read(b: Seq<u8>, offset: int) -> Thing {
        Thing {
            x: le_i16(b, offset),
            y: le_i16(b, offset + 2),
            direction: le_u16(b, offset + 4),
            typ: le_u16(b, offset + 6),
            flags: le_u16(b, offset + 8),
        }
    }

    fn read(wad: &[u8], offset: usize) -> (r: Result<Thing, DoomError>) {
        if offset >= wad.len() || wad.len() - offset < 10 {
            return Err(DoomError::ByteRange { offset: offset as u64, len: 10 });
        }
        let x = match to_i16(wad, offset) {
            Ok(v) => v,
            Err(e) => {
                return Err(e);
            },
        };
        let y = match to_i16(wad, offset + 2) {
            Ok(v) => v,
            Err(e) => {
                return Err(e);
            },
        };
        let direction = match to_u16(wad, offset + 4) {
            Ok(v) => v,
            Err(e) => {
                return Err(e);
            },
        };
        let typ = match to_u16(wad, offset + 6) {
            Ok(v) => v,
            Err(e) => {
                return Err(e);
            },
        };
        let flags = match to_u16(wad, offset + 8) {
            Ok(v) => v,
            Err(e) => {
                return Err(e);
            },
        };
        Ok(Thing { x, y, direction, typ, flags })
    }

    fn lump_name() -> (r: String) {
        String::from_str("THINGS")
    }

    fn size_in_bytes() -> (r: u32) {
        10
    }

    fn index() -> (r: usize) {
        MapLumpsIndex::THINGS.offset()
    }
}

} // verus!
