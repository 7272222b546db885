//! Failure taxonomy for archive decoding and partition traversal.

use vstd::prelude::*;

verus! {

/// Everything that can go wrong while decoding an archive or walking its
/// partition tree.  Every failure is a deterministic data fault, reported
/// with the offset or index that provoked it.
#[derive(Debug, Clone, Copy, PartialEq, Eq, Structural)]
pub enum DoomError {
    /// A fixed-width read of `len` bytes at `offset` falls outside the buffer.
    ByteRange { offset: u64, len: u64 },
    /// A name or tag field starting at `offset` holds a byte that is not
    /// ASCII text.
    TextDecode { offset: u64 },
    /// The directory entry at `index` is missing or does not carry the lump
    /// name that the requested record type demands.
    StructuralError { index: u64 },
    /// A decoded reference resolved outside its target sequence: `index` was
    /// used against a sequence of length `limit`.
    IndexIntegrity { index: u64, limit: u64 },
}

} // verus!
