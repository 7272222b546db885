//! Tests of the archive reader: header and directory parsing, map lookup,
//! and generic record decoding.

use doom_core::errors::DoomError;
use doom_core::utils::to_i16;
use doom_core::utils::to_u16;
use doom_core::utils::to_u32;
use doom_core::wad::linedef::LineDef;
use doom_core::wad::vertex::Vertex;
use doom_core::wad::Wad;

fn push_u32(out: &mut Vec<u8>, v: u32) {
    out.extend_from_slice(&v.to_le_bytes());
}

fn push_name(out: &mut Vec<u8>, name: &str) {
    let mut field = [0u8; 8];
    let bytes = name.as_bytes();
    field[..bytes.len()].copy_from_slice(bytes);
    out.extend_from_slice(&field);
}

/// A synthetic archive: a map marker followed by its lumps at the fixed
/// relative positions, with the given VERTEXES payload.
fn synthetic_archive(vertex_bytes: &[u8]) -> Vec<u8> {
    let names = ["E1M1", "THINGS", "LINEDEFS", "SIDEDEFS", "VERTEXES"];
    let data_offset: u32 = 12;
    let dir_offset: u32 = data_offset + vertex_bytes.len() as u32;
    let mut out = Vec::new();
    out.extend_from_slice(b"IWAD");
    push_u32(&mut out, names.len() as u32);
    push_u32(&mut out, dir_offset);
    out.extend_from_slice(vertex_bytes);
    for name in names {
        if name == "VERTEXES" {
            push_u32(&mut out, data_offset);
            push_u32(&mut out, vertex_bytes.len() as u32);
        } else {
            push_u32(&mut out, 0);
            push_u32(&mut out, 0);
        }
        push_name(&mut out, name);
    }
    out
}

#[test]
fn round_trip_two_vertices() {
    let bytes = synthetic_archive(&[0, 0, 0, 0, 10, 0, 0, 0]);
    let wad = Wad::new(&bytes).unwrap();
    let map_index = wad.find_map_index("E1M1").unwrap();
    assert_eq!(map_index, 0);
    let vertexes: Vec<Vertex> = wad.read_wad_for(map_index).unwrap();
    assert_eq!(vertexes.len(), 2);
    assert_eq!(vertexes[0], Vertex { x: 0, y: 0 });
    assert_eq!(vertexes[1], Vertex { x: 10, y: 0 });
}

#[test]
fn find_map_index_exact_match_only() {
    let bytes = synthetic_archive(&[]);
    let wad = Wad::new(&bytes).unwrap();
    assert_eq!(wad.find_map_index("E1M1"), Some(0));
    assert_eq!(wad.find_map_index("VERTEXES"), Some(4));
    assert_eq!(wad.find_map_index("E1M"), None);
    assert_eq!(wad.find_map_index("E1M11"), None);
    assert_eq!(wad.find_map_index("e1m1"), None);
    assert_eq!(wad.find_map_index(""), None);
}

#[test]
fn linedefs_structural_error_on_misnamed_entry() {
    // The entry two places after the marker is SIDEDEFS' position from the
    // marker at index 1, so a LINEDEFS read rooted there must fail.
    let bytes = synthetic_archive(&[]);
    let wad = Wad::new(&bytes).unwrap();
    let r: Result<Vec<LineDef>, DoomError> = wad.read_wad_for(1);
    assert_eq!(r.unwrap_err(), DoomError::StructuralError { index: 3 });
}

#[test]
fn linedefs_read_from_marker() {
    let bytes = synthetic_archive(&[]);
    let wad = Wad::new(&bytes).unwrap();
    let defs: Vec<LineDef> = wad.read_wad_for(0).unwrap();
    assert_eq!(defs.len(), 0);
}

#[test]
fn vertexes_lump_size_rounds_down() {
    // Ten bytes is not a multiple of four: two whole records decode and the
    // trailing two bytes are ignored, without an error.
    let bytes = synthetic_archive(&[1, 0, 255, 255, 3, 0, 4, 0, 9, 9]);
    let wad = Wad::new(&bytes).unwrap();
    let vertexes: Vec<Vertex> = wad.read_wad_for(0).unwrap();
    assert_eq!(vertexes.len(), 2);
    assert_eq!(vertexes[0], Vertex { x: 1, y: -1 });
    assert_eq!(vertexes[1], Vertex { x: 3, y: 4 });
}

#[test]
fn truncated_header_is_byte_range_error() {
    let r = Wad::new(&[1, 2, 3]);
    assert_eq!(r.unwrap_err(), DoomError::ByteRange { offset: 0, len: 12 });
}

#[test]
fn non_ascii_tag_is_text_decode_error() {
    let mut bytes = synthetic_archive(&[]);
    bytes[1] = 0xFF;
    let r = Wad::new(&bytes);
    assert_eq!(r.unwrap_err(), DoomError::TextDecode { offset: 0 });
}

#[test]
fn non_ascii_lump_name_is_text_decode_error() {
    let mut bytes = synthetic_archive(&[]);
    // The first directory entry's name field starts 8 bytes into the entry.
    bytes[12 + 8] = 0x80;
    let r = Wad::new(&bytes);
    assert_eq!(r.unwrap_err(), DoomError::TextDecode { offset: 20 });
}

#[test]
fn directory_outside_buffer_is_byte_range_error() {
    let mut bytes = synthetic_archive(&[]);
    // Point the directory past the end of the buffer.
    bytes[8] = 0xF0;
    bytes[9] = 0;
    bytes[10] = 0;
    bytes[11] = 0;
    let r = Wad::new(&bytes);
    assert_eq!(r.unwrap_err(), DoomError::ByteRange { offset: 0xF0, len: 16 });
}

#[test]
fn lump_data_outside_buffer_is_byte_range_error() {
    let mut bytes = synthetic_archive(&[0, 0, 0, 0]);
    // Grow the VERTEXES entry's recorded size far past the buffer; its size
    // field sits 4 bytes into the fifth directory entry.
    let dir_offset = 12 + 4;
    let entry = dir_offset + 4 * 16;
    bytes[entry + 4] = 0xFF;
    bytes[entry + 5] = 0xFF;
    let wad = Wad::new(&bytes).unwrap();
    let r: Result<Vec<Vertex>, DoomError> = wad.read_wad_for(0);
    match r.unwrap_err() {
        DoomError::ByteRange { len: 4, .. } => (),
        other => panic!("unexpected error: {:?}", other),
    }
}

#[test]
fn field_readers_decode_little_endian() {
    let bytes = [0x34, 0x12, 0xFE, 0xFF, 0x78, 0x56, 0x34, 0x12];
    assert_eq!(to_u16(&bytes, 0).unwrap(), 0x1234);
    assert_eq!(to_i16(&bytes, 2).unwrap(), -2);
    assert_eq!(to_u32(&bytes, 4).unwrap(), 0x12345678);
    assert_eq!(
        to_u16(&bytes, 7).unwrap_err(),
        DoomError::ByteRange { offset: 7, len: 2 }
    );
    assert_eq!(
        to_u32(&bytes, 5).unwrap_err(),
        DoomError::ByteRange { offset: 5, len: 4 }
    );
    assert_eq!(
        to_i16(&bytes, 100).unwrap_err(),
        DoomError::ByteRange { offset: 100, len: 2 }
    );
}

#[test]
fn header_fields_parse() {
    let bytes = synthetic_archive(&[]);
    let header = Wad::read_header(&bytes, 0).unwrap();
    assert_eq!(header.wad_type, "IWAD");
    assert_eq!(header.directory_count, 5);
    assert_eq!(header.directory_offset, 12);
}

#[test]
fn directory_entry_name_is_trimmed() {
    let bytes = synthetic_archive(&[]);
    let dir = Wad::read_directory(&bytes, 12).unwrap();
    assert_eq!(dir.lump_name, "E1M1");
    assert_eq!(dir.lump_offset, 0);
    assert_eq!(dir.lump_size, 0);
}
