//! Little-endian field readers over a flat byte buffer.

use vstd::prelude::*;

use crate::errors::DoomError;

verus! {

/// The unsigned 16-bit value stored little-endian at `offset`.
pub open spec fn le_u16(b: Seq<u8>, offset: int) -> u16 {
    (b[offset] + b[offset + 1] * 0x100) as u16
}

/// The signed 16-bit value stored little-endian at `offset`: the unsigned
/// value reinterpreted in two's complement.
pub open spec fn le_i16(b: Seq<u8>, offset: int) -> i16 {
    le_u16(b, offset) as i16
}

/// The unsigned 32-bit value stored little-endian at `offset`.
pub open spec fn le_u32(b: Seq<u8>, offset: int) -> u32 {
    (b[offset] + b[offset + 1] * 0x100 + b[offset + 2] * 0x1_0000 + b[offset + 3]
        * 0x100_0000) as u32
}

/// Reads the signed 16-bit little-endian field at `offset`, or reports the
/// out-of-range read.
pub fn to_i16(array: &[u8], offset: usize) -> (r: Result<i16, DoomError>)
    ensures
        offset + 2 <= array@.len() ==> r == Ok::<i16, DoomError>(le_i16(array@, offset as int)),
        offset + 2 > array@.len() ==> r == Err::<i16, DoomError>(
            DoomError::ByteRange { offset: offset as u64, len: 2 },
        ),
{
    match to_u16(array, offset) {
        Ok(v) => Ok(v as i16),
        Err(e) => Err(e),
    }
}

/// Reads the unsigned 16-bit little-endian field at `offset`, or reports the
/// out-of-range read.
pub fn to_u16(array: &[u8], offset: usize) -> (r: Result<u16, DoomError>)
    ensures
        offset + 2 <= array@.len() ==> r == Ok::<u16, DoomError>(le_u16(array@, offset as int)),
        offset + 2 > array@.len() ==> r == Err::<u16, DoomError>(
            DoomError::ByteRange { offset: offset as u64, len: 2 },
        ),
{
    if offset < array.len() && array.len() - offset >= 2 {
        let lo = array[offset];
        let hi = array[offset + 1];
        Ok(lo as u16 + hi as u16 * 0x100)
    } else {
        Err(DoomError::ByteRange { offset: offset as u64, len: 2 })
    }
}

/// Reads the unsigned 32-bit little-endian field at `offset`, or reports the
/// out-of-range read.
pub fn to_u32(array: &[u8], offset: usize) -> (r: Result<u32, DoomError>)
    ensures
        offset + 4 <= array@.len() ==> r == Ok::<u32, DoomError>(le_u32(array@, offset as int)),
        offset + 4 > array@.len() ==> r == Err::<u32, DoomError>(
            DoomError::ByteRange { offset: offset as u64, len: 4 },
        ),
{
    if offset < array.len() && array.len() - offset >= 4 {
        let b0 = array[offset];
        let b1 = array[offset + 1];
        let b2 = array[offset + 2];
        let b3 = array[offset + 3];
        Ok(b0 as u32 + b1 as u32 * 0x100 + b2 as u32 * 0x1_0000 + b3 as u32 * 0x100_0000)
    } else {
        Err(DoomError::ByteRange { offset: offset as u64, len: 4 })
    }
}

} // verus!
