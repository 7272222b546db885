//! Fixed relative positions of a map's lumps behind its marker entry.

use vstd::prelude::*;

verus! {

/// The lumps of one map follow its marker entry in the directory at these
/// fixed relative positions (marker + 1 for THINGS, marker + 2 for LINEDEFS,
/// and so on).
#[derive(Debug, Clone, Copy, PartialEq, Eq, Structural)]
pub enum MapLumpsIndex {
    THINGS,
    LINEDEFS,
    SIDEDEFS,
    VERTEXES,
    SEGS,
    SSECTORS,
    NODES,
    SECTORS,
    REJECT,
    BLOCKMAP,
    COUNT,
}

impl MapLumpsIndex {
    /// Position of this lump relative to the map marker entry.
    pub open spec fn spec_offset(self) -> usize {
        match self {
            MapLumpsIndex::THINGS => 1,
            MapLumpsIndex::LINEDEFS => 2,
            MapLumpsIndex::SIDEDEFS => 3,
            MapLumpsIndex::VERTEXES => 4,
            MapLumpsIndex::SEGS => 5,
            MapLumpsIndex::SSECTORS => 6,
            MapLumpsIndex::NODES => 7,
            MapLumpsIndex::SECTORS => 8,
            MapLumpsIndex::REJECT => 9,
            MapLumpsIndex::BLOCKMAP => 10,
            MapLumpsIndex::COUNT => 11,
        }
    }

    /// Position of this lump relative to the map marker entry.
    pub fn offset(self) -> (r: usize)
        ensures
            r == self.spec_offset(),
    {
        match self {
            MapLumpsIndex::THINGS => 1,
            MapLumpsIndex::LINEDEFS => 2,
            MapLumpsIndex::SIDEDEFS => 3,
            MapLumpsIndex::VERTEXES => 4,
            MapLumpsIndex::SEGS => 5,
            MapLumpsIndex::SSECTORS => 6,
            MapLumpsIndex::NODES => 7,
            MapLumpsIndex::SECTORS => 8,
            MapLumpsIndex::REJECT => 9,
            MapLumpsIndex::BLOCKMAP => 10,
            MapLumpsIndex::COUNT => 11,
        }
    }
}

} // verus!
