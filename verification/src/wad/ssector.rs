//! Leaf-region records: each leaf of the partition tree references a
//! contiguous run of wall segments.

use vstd::prelude::*;

use crate::datatypes::MapLumpsIndex;
use crate::errors::DoomError;
use crate::utils::le_u16;
use crate::utils::to_u16;
use crate::wad::WadMetaData;
use vstd::string::StringExecFns;

verus! {

/// A leaf region: `seg_count` consecutive wall segments starting at index
/// `first_seg` in the segment sequence.
#[derive(Debug, Clone, Copy, PartialEq, Eq, Structural)]
pub struct SSector {
    pub seg_count: u16,
    pub first_seg: u16,
}

impl WadMetaData for SSector {
    open spec fn spec_lump_name() -> Seq<char> {
        "SSECTORS"@
    }

    open spec fn spec_size() -> u32 {
        4
    }

    open spec fn spec_index() -> usize {
        MapLumpsIndex::SSECTORS.spec_offset()
    }

    open spec fn spec_read(b: Seq<u8>, offset: int) -> SSector {
        SSector { seg_count: le_u16(b, offset), first_seg: le_u16(b, offset + 2) }
    }

    fn read(wad: &[u8], offset: usize) -> (r: Result<SSector, DoomError>) {
        if offset >= wad.len() || wad.len() - offset < 4 {
            return Err(DoomError::ByteRange { offset: offset as u64, len: 4 });
        }
        let seg_count = match to_u16(wad, offset) {
            Ok(v) => v,
            Err(e) => {
                return Err(e);
            },
        };
        let first_seg = match to_u16(wad, offset + 2) {
            Ok(v) => v,
            Err(e) => {
                return Err(e);
            },
        };
        Ok(SSector { seg_count, first_seg })
    }

    fn lump_name() -> (r: String) {
        String::from_str("SSECTORS")
    }

    fn size_in_bytes() -> (r: u32) {
        4
    }

    fn index() -> (r: usize) {
        MapLumpsIndex::SSECTORS.offset()
    }
}

} // verus!
