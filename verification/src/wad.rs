//! The archive reader: header, directory, and generic record decoding.
//!
//! An archive is a flat byte buffer that starts with a 12-byte header (a
//! 4-character type tag and the count and byte offset of the directory),
//! followed somewhere by `count` 16-byte directory entries.  Each entry names
//! a lump — a block of record data — and gives its byte offset and size.

pub mod linedef;
pub mod node;
pub mod seg;
pub mod ssector;
pub mod thing;
pub mod vertex;

use vstd::prelude::*;

use crate::errors::DoomError;
use crate::utils::le_u32;
use vstd::arithmetic::mul::lemma_mul_inequality;

verus! {

/// Every byte of `s` is ASCII.
pub open spec fn ascii_seq(s: Seq<u8>) -> bool {
    forall|i: int| 0 <= i < s.len() ==> s[i] < 0x80
}

/// The bytes of `s` read as characters, one per byte.
pub open spec fn ascii_chars(s: Seq<u8>) -> Seq<char> {
    Seq::new(s.len(), |i: int| s[i] as char)
}

/// First position at or after `i` whose byte is not NUL (or the length).
pub open spec fn trim_lo(s: Seq<u8>, i: int) -> int
    decreases s.len() - i,
{
    if 0 <= i < s.len() && s[i] == 0 {
        trim_lo(s, i + 1)
    } else {
        i
    }
}

/// One past the last position before `i` whose byte is not NUL (or zero).
pub open spec fn trim_hi(s: Seq<u8>, i: int) -> int
    decreases i,
{
    if 0 < i <= s.len() && s[i - 1] == 0 {
        trim_hi(s, i - 1)
    } else {
        i
    }
}

/// `s` with its NUL padding removed from both ends.
pub open spec fn trim_nuls(s: Seq<u8>) -> Seq<u8> {
    let lo = trim_lo(s, 0);
    let hi = trim_hi(s, s.len() as int);
    if lo < hi {
        s.subrange(lo, hi)
    } else {
        Seq::empty()
    }
}

/// The text stored in the `n` bytes at `start`: NUL padding trimmed, each
/// remaining byte one character.
pub open spec fn name_at(b: Seq<u8>, start: int, n: int) -> Seq<char> {
    ascii_chars(trim_nuls(b.subrange(start, start + n)))
}

/// Relies on `String::from_utf8`: bytes below 0x80 are single-byte UTF-8
/// code points, so they decode to exactly one character each, with the same
/// code point value.  On ASCII input the call always succeeds.
#[verifier::external_body]
fn ascii_to_string(bytes: Vec<u8>) -> (r: String)
    requires
        ascii_seq(bytes@),
    ensures
        r@ == ascii_chars(bytes@),
{
    match String::from_utf8(bytes) {
        Ok(s) => s,
        Err(_) => String::new(),
    }
}

/// Decodes the text field of `n` bytes at `start`: checks that every byte is
/// ASCII, trims NUL padding from both ends, and returns the characters in
/// between.
fn parse_name(wad: &[u8], start: usize, n: usize) -> (r: Result<String, DoomError>)
    requires
        start + n <= wad@.len(),
    ensures
        r matches Ok(s) ==> ascii_seq(wad@.subrange(start as int, start as int + n))
            && s@ == name_at(wad@, start as int, n as int),
        r matches Err(e) ==> !ascii_seq(wad@.subrange(start as int, start as int + n))
            && e == (DoomError::TextDecode { offset: start as u64 }),
{
    let ghost sub = wad@.subrange(start as int, start as int + n);
    let end = wad.len();
    let mut i: usize = 0;
    while i < n
        invariant
            i <= n,
            start + n <= end,
            end == wad@.len(),
            sub == wad@.subrange(start as int, start as int + n),
            forall|j: int| 0 <= j < i ==> sub[j] < 0x80,
        decreases n - i,
    {
        if wad[start + i] >= 0x80 {
            assert(sub[i as int] == wad@[start + i]);
            return Err(DoomError::TextDecode { offset: start as u64 });
        }
        assert(sub[i as int] == wad@[start + i]);
        i = i + 1;
    }
    assert(ascii_seq(sub));

    let mut lo: usize = 0;
    while lo < n && wad[start + lo] == 0
        invariant
            lo <= n,
            start + n <= end,
            end == wad@.len(),
            sub == wad@.subrange(start as int, start as int + n),
            trim_lo(sub, 0) == trim_lo(sub, lo as int),
        decreases n - lo,
    {
        assert(sub[lo as int] == wad@[start + lo]);
        lo = lo + 1;
    }
    assert(sub.len() == n);
    assert(lo < n ==> sub[lo as int] == wad@[start + lo]);
    assert(trim_lo(sub, lo as int) == lo as int);

    let mut hi: usize = n;
    while hi > 0 && wad[start + hi - 1] == 0
        invariant
            hi <= n,
            start + n <= end,
            end == wad@.len(),
            sub == wad@.subrange(start as int, start as int + n),
            trim_hi(sub, n as int) == trim_hi(sub, hi as int),
        decreases hi,
    {
        assert(sub[hi as int - 1] == wad@[start + hi - 1]);
        hi = hi - 1;
    }
    assert(hi > 0 ==> sub[hi as int - 1] == wad@[start + hi - 1]);
    assert(trim_hi(sub, hi as int) == hi as int);

    let mut trimmed: Vec<u8> = Vec::new();
    if lo < hi {
        let mut k: usize = lo;
        while k < hi
            invariant
                lo <= k <= hi <= n,
                start + n <= end,
                end == wad@.len(),
                sub == wad@.subrange(start as int, start as int + n),
                trimmed@ == sub.subrange(lo as int, k as int),
            decreases hi - k,
        {
            trimmed.push(wad[start + k]);
            assert(trimmed@ =~= sub.subrange(lo as int, k as int + 1));
            k = k + 1;
        }
        assert(trimmed@ == trim_nuls(sub));
    } else {
        assert(trimmed@ =~= trim_nuls(sub));
    }
    assert(ascii_seq(trimmed@));
    Ok(ascii_to_string(trimmed))
}

/// The capability set of one fixed-width record type: its byte width, the
/// name of the lump that holds it, the lump's position relative to the map
/// marker, and how one record decodes from the buffer.
pub trait WadMetaData: Sized {
    /// The lump name that the directory entry must carry.
    spec fn spec_lump_name() -> Seq<char>;

    /// Width of one record, in bytes.
    spec fn spec_size() -> u32;

    /// Position of the record type's lump relative to the map marker entry.
    spec fn spec_index() -> usize;

    /// The record stored at `offset`, assuming the fields are in bounds.
    spec fn spec_read(b: Seq<u8>, offset: int) -> Self;

    /// Decodes the record at `offset`, or reports the out-of-range read.
    fn read(wad: &[u8], offset: usize) -> (r: Result<Self, DoomError>)
        ensures
            offset + Self::spec_size() <= wad@.len() ==> r == Ok::<Self, DoomError>(
                Self::spec_read(wad@, offset as int),
            ),
            offset + Self::spec_size() > wad@.len() ==> r == Err::<Self, DoomError>(
                DoomError::ByteRange { offset: offset as u64, len: Self::spec_size() as u64 },
            ),
    ;

    fn lump_name() -> (r: String)
        ensures
            r@ == Self::spec_lump_name(),
    ;

    fn size_in_bytes() -> (r: u32)
        ensures
            r == Self::spec_size(),
            r > 0,
    ;

    fn index() -> (r: usize)
        ensures
            r == Self::spec_index(),
            r <= 11,
    ;
}

/// The archive header: type tag plus directory count and offset.
#[derive(Debug)]
pub struct Header {
    pub wad_type: String,
    pub directory_count: u32,
    pub directory_offset: u32,
}

/// One directory entry: a lump's name, byte size, and byte offset.
#[derive(Debug)]
pub struct Directory {
    pub lump_name: String,
    pub lump_size: u32,
    pub lump_offset: u32,
}

/// An archive is readable when its header is in bounds and its tag is text.
pub open spec fn header_ok(b: Seq<u8>) -> bool {
    b.len() >= 12 && ascii_seq(b.subrange(0, 4))
}

/// Directory entry count stored in the header.
pub open spec fn spec_dir_count(b: Seq<u8>) -> u32 {
    le_u32(b, 4)
}

/// Byte offset of the directory stored in the header.
pub open spec fn spec_dir_offset(b: Seq<u8>) -> u32 {
    le_u32(b, 8)
}

/// Byte position of directory entry `i`.
pub open spec fn entry_pos(b: Seq<u8>, i: int) -> int {
    spec_dir_offset(b) + 16 * i
}

/// Entry `i` lies inside the buffer and its name field is text.
pub open spec fn entry_ok(b: Seq<u8>, i: int) -> bool {
    &&& entry_pos(b, i) + 16 <= b.len()
    &&& ascii_seq(b.subrange(entry_pos(b, i) + 8, entry_pos(b, i) + 16))
}

/// The trimmed name of entry `i`.
pub open spec fn spec_entry_name(b: Seq<u8>, i: int) -> Seq<char> {
    name_at(b, entry_pos(b, i) + 8, 8)
}

/// The lump size of entry `i`.
pub open spec fn spec_entry_size(b: Seq<u8>, i: int) -> u32 {
    le_u32(b, entry_pos(b, i) + 4)
}

/// The lump offset of entry `i`.
pub open spec fn spec_entry_offset(b: Seq<u8>, i: int) -> u32 {
    le_u32(b, entry_pos(b, i))
}

/// Record `j` of a lump that starts at byte `start` with `size`-byte
/// records lies inside the buffer.
pub open spec fn record_fits(b: Seq<u8>, start: int, j: int, size: int) -> bool {
    start + (j + 1) * size <= b.len()
}

/// The whole archive parses: header and every directory entry.
pub open spec fn wad_ok(b: Seq<u8>) -> bool {
    header_ok(b) && forall|i: int| 0 <= i < spec_dir_count(b) ==> entry_ok(b, i)
}

impl Directory {
    /// This parsed entry carries exactly the fields stored at entry `i`.
    pub open spec fn matches_entry(self, b: Seq<u8>, i: int) -> bool {
        &&& self.lump_name@ == spec_entry_name(b, i)
        &&& self.lump_size == spec_entry_size(b, i)
        &&& self.lump_offset == spec_entry_offset(b, i)
    }
}

/// A parsed archive: the raw buffer and its decoded directory.
#[derive(Debug)]
pub struct Wad {
    wad: Vec<u8>,
    directories: Vec<Directory>,
}

impl Wad {
    /// The raw bytes the archive was parsed from.
    pub closed spec fn buf(self) -> Seq<u8> {
        self.wad@
    }

    /// The decoded directory entries, in file order.
    pub closed spec fn dirs(self) -> Seq<Directory> {
        self.directories@
    }

    #[verifier::type_invariant]
    spec fn wf(self) -> bool {
        self.directories@.len() <= u32::MAX
    }

    /// A parsed archive reflects its buffer: the directory has the count the
    /// header stores, and each entry carries the fields stored in the buffer.
    pub open spec fn parsed_from(self, b: Seq<u8>) -> bool {
        &&& self.buf() == b
        &&& self.dirs().len() == spec_dir_count(b)
        &&& forall|i: int|
            0 <= i < self.dirs().len() ==> #[trigger] self.dirs()[i].matches_entry(b, i)
    }

    /// Parses the 12-byte header at `offset`: the 4-byte type tag (trimmed of
    /// NUL padding), the directory entry count, and the directory offset.
    pub fn read_header(wad: &[u8], offset: usize) -> (r: Result<Header, DoomError>)
        ensures
            r is Ok <==> offset + 12 <= wad@.len() && ascii_seq(
                wad@.subrange(offset as int, offset as int + 4),
            ),
            r matches Ok(h) ==> {
                &&& offset + 12 <= wad@.len()
                &&& ascii_seq(wad@.subrange(offset as int, offset as int + 4))
                &&& h.wad_type@ == name_at(wad@, offset as int, 4)
                &&& h.directory_count == le_u32(wad@, offset as int + 4)
                &&& h.directory_offset == le_u32(wad@, offset as int + 8)
            },
            offset + 12 > wad@.len() ==> r == Err::<Header, DoomError>(
                DoomError::ByteRange { offset: offset as u64, len: 12 },
            ),
            offset + 12 <= wad@.len() && !ascii_seq(
                wad@.subrange(offset as int, offset as int + 4),
            ) ==> r == Err::<Header, DoomError>(DoomError::TextDecode { offset: offset as u64 }),
    {
        if offset >= wad.len() || wad.len() - offset < 12 {
            return Err(DoomError::ByteRange { offset: offset as u64, len: 12 });
        }
        let wad_type = match parse_name(wad, offset, 4) {
            Ok(s) => s,
            Err(e) => {
                return Err(e);
            },
        };
        let directory_count = match crate::utils::to_u32(wad, offset + 4) {
            Ok(v) => v,
            Err(e) => {
                return Err(e);
            },
        };
        let directory_offset = match crate::utils::to_u32(wad, offset + 8) {
            Ok(v) => v,
            Err(e) => {
                return Err(e);
            },
        };
        Ok(Header { wad_type, directory_count, directory_offset })
    }

    /// Parses the 16-byte directory entry at `offset`: lump offset, lump
    /// size, and the 8-byte lump name trimmed of NUL padding.
    pub fn read_directory(wad: &[u8], offset: usize) -> (r: Result<Directory, DoomError>)
        ensures
            r is Ok <==> offset + 16 <= wad@.len() && ascii_seq(
                wad@.subrange(offset as int + 8, offset as int + 16),
            ),
            r matches Ok(d) ==> {
                &&& offset + 16 <= wad@.len()
                &&& ascii_seq(wad@.subrange(offset as int + 8, offset as int + 16))
                &&& d.lump_name@ == name_at(wad@, offset as int + 8, 8)
                &&& d.lump_size == le_u32(wad@, offset as int + 4)
                &&& d.lump_offset == le_u32(wad@, offset as int)
            },
            offset + 16 > wad@.len() ==> r == Err::<Directory, DoomError>(
                DoomError::ByteRange { offset: offset as u64, len: 16 },
            ),
            offset + 16 <= wad@.len() && !ascii_seq(
                wad@.subrange(offset as int + 8, offset as int + 16),
            ) ==> r == Err::<Directory, DoomError>(DoomError::TextDecode { offset: (offset + 8) as u64 }),
    {
        if offset >= wad.len() || wad.len() - offset < 16 {
            return Err(DoomError::ByteRange { offset: offset as u64, len: 16 });
        }
        let lump_offset = match crate::utils::to_u32(wad, offset) {
            Ok(v) => v,
            Err(e) => {
                return Err(e);
            },
        };
        let lump_size = match crate::utils::to_u32(wad, offset + 4) {
            Ok(v) => v,
            Err(e) => {
                return Err(e);
            },
        };
        let lump_name = match parse_name(wad, offset + 8, 8) {
            Ok(s) => s,
            Err(e) => {
                return Err(e);
            },
        };
        Ok(Directory { lump_name, lump_size, lump_offset })
    }

    /// Parses a whole archive: the header, then every directory entry the
    /// header announces.  Succeeds exactly when the buffer holds a readable
    /// header and all entries are in bounds with text names; the first
    /// failing read is reported.
    pub fn new(wad: &[u8]) -> (r: Result<Wad, DoomError>)
        ensures
            r is Ok <==> wad_ok(wad@),
            r matches Ok(w) ==> w.parsed_from(wad@),
            wad@.len() < 12 ==> r == Err::<Wad, DoomError>(DoomError::ByteRange { offset: 0u64, len: 12 }),
            wad@.len() >= 12 && !ascii_seq(wad@.subrange(0, 4)) ==> r == Err::<Wad, DoomError>(
                DoomError::TextDecode { offset: 0 },
            ),
            r matches Err(e) ==> header_ok(wad@) ==> exists|i: int|
                {
                    &&& 0 <= i < spec_dir_count(wad@)
                    &&& !entry_ok(wad@, i)
                    &&& (forall|j: int| 0 <= j < i ==> entry_ok(wad@, j))
                    &&& e == (if entry_pos(wad@, i) + 16 > wad@.len() {
                        DoomError::ByteRange { offset: entry_pos(wad@, i) as u64, len: 16 }
                    } else {
                        DoomError::TextDecode { offset: (entry_pos(wad@, i) + 8) as u64 }
                    })
                },
    {
        let header = match Wad::read_header(wad, 0) {
            Ok(h) => h,
            Err(e) => {
                return Err(e);
            },
        };
        let mut directories: Vec<Directory> = Vec::new();
        let count = header.directory_count;
        let dir_offset = header.directory_offset;
        let mut dir: u32 = 0;
        while dir < count
            invariant
                dir <= count,
                count == spec_dir_count(wad@),
                dir_offset == spec_dir_offset(wad@),
                header_ok(wad@),
                directories@.len() == dir,
                forall|j: int| 0 <= j < dir ==> entry_ok(wad@, j),
                forall|j: int|
                    0 <= j < dir ==> #[trigger] directories@[j].matches_entry(wad@, j),
            decreases count - dir,
        {
            let offset64 = dir_offset as u64 + (dir as u64) * 16;
            assert(offset64 == entry_pos(wad@, dir as int));
            if offset64 >= wad.len() as u64 {
                assert(!entry_ok(wad@, dir as int));
                return Err(DoomError::ByteRange { offset: offset64, len: 16 });
            }
            let directory = match Wad::read_directory(wad, offset64 as usize) {
                Ok(d) => d,
                Err(e) => {
                    assert(!entry_ok(wad@, dir as int));
                    return Err(e);
                },
            };
            directories.push(directory);
            dir = dir + 1;
        }
        Ok(Wad { wad: vstd::slice::slice_to_vec(wad), directories })
    }

    /// Position of the first directory entry whose trimmed name equals
    /// `name` exactly, if any: `Some(i)` exactly when entry `i` matches and
    /// no earlier entry does; `None` exactly when no entry matches.
    pub fn find_map_index(&self, name: &str) -> (r: Option<usize>)
        ensures
            r matches Some(i) ==> {
                &&& 0 <= i < self.dirs().len()
                &&& self.dirs()[i as int].lump_name@ == name@
                &&& forall|j: int| 0 <= j < i ==> self.dirs()[j].lump_name@ != name@
            },
            r is None ==> forall|j: int|
                0 <= j < self.dirs().len() ==> self.dirs()[j].lump_name@ != name@,
    {
        let query: String = name.to_owned();
        let n = self.directories.len();
        let mut i: usize = 0;
        while i < n
            invariant
                i <= n,
                n == self.dirs().len(),
                query@ == name@,
                forall|j: int| 0 <= j < i ==> self.dirs()[j].lump_name@ != name@,
            decreases n - i,
        {
            if self.directories[i].lump_name == query {
                return Some(i);
            }
            i = i + 1;
        }
        None
    }

    /// Decodes every `T` record of the map whose marker entry sits at
    /// `map_index`.  The entry at `map_index + T`'s relative position must
    /// exist and carry `T`'s lump name; the lump's size is rounded down to
    /// whole records; each record is decoded in file order.  Fails with a
    /// structural error when the entry is missing or misnamed, and with the
    /// first out-of-range read when the lump overruns the buffer.
    pub fn read_wad_for<T: WadMetaData>(&self, map_index: usize) -> (r: Result<Vec<T>, DoomError>)
        ensures
            ({
                let idx = map_index + T::spec_index();
                let size = T::spec_size() as int;
                let start = self.dirs()[idx as int].lump_offset as int;
                let count = self.dirs()[idx as int].lump_size as int / size;
                &&& (r is Ok <==> {
                    &&& idx < self.dirs().len()
                    &&& self.dirs()[idx as int].lump_name@ == T::spec_lump_name()
                    &&& (count == 0 || start + count * size <= self.buf().len())
                })
                &&& (r matches Ok(v) ==> v@.len() == count && forall|i: int|
                    0 <= i < count ==> v@[i] == T::spec_read(self.buf(), start + i * size))
                &&& (map_index >= self.dirs().len() ==> r == Err::<Vec<T>, DoomError>(
                    DoomError::StructuralError { index: map_index as u64 },
                ))
                &&& (map_index < self.dirs().len() && idx >= self.dirs().len() ==> r == Err::<
                    Vec<T>,
                    DoomError,
                >(DoomError::StructuralError { index: idx as u64 }))
                &&& (idx < self.dirs().len() && self.dirs()[idx as int].lump_name@
                    != T::spec_lump_name() ==> r == Err::<Vec<T>, DoomError>(
                    DoomError::StructuralError { index: idx as u64 },
                ))
                &&& (idx < self.dirs().len() && self.dirs()[idx as int].lump_name@
                    == T::spec_lump_name() && count > 0 && start + count * size > self.buf().len()
                    ==> exists|i: int|
                    {
                        &&& 0 <= i < count
                        &&& !#[trigger] record_fits(self.buf(), start, i, size)
                        &&& forall|j: int|
                            0 <= j < i ==> #[trigger] record_fits(self.buf(), start, j, size)
                        &&& r == Err::<Vec<T>, DoomError>(
                            DoomError::ByteRange {
                                offset: (start + i * size) as u64,
                                len: size as u64,
                            },
                        )
                    })
            }),
    {
        proof {
            use_type_invariant(self);
        }
        if map_index >= self.directories.len() {
            return Err(DoomError::StructuralError { index: map_index as u64 });
        }
        let wide_index = map_index as u64 + T::index() as u64;
        if wide_index >= self.directories.len() as u64 {
            return Err(DoomError::StructuralError { index: wide_index });
        }
        let index = wide_index as usize;
        let expected = T::lump_name();
        if !(self.directories[index].lump_name == expected) {
            return Err(DoomError::StructuralError { index: wide_index });
        }

        let size = T::size_in_bytes();
        let start = self.directories[index].lump_offset;
        let lump_size = self.directories[index].lump_size;
        let count = lump_size / size;
        let ghost bufs = self.buf();
        proof {
            vstd::arithmetic::div_mod::lemma_fundamental_div_mod(
                lump_size as int,
                size as int,
            );
            vstd::arithmetic::div_mod::lemma_mod_bound(lump_size as int, size as int);
        }
        assert(count as int * size as int <= lump_size as int);

        let mut vec: Vec<T> = Vec::new();
        let mut i: u32 = 0;
        while i < count
            invariant
                i <= count,
                size == T::spec_size(),
                size > 0,
                count as int * size as int <= lump_size,
                vec@.len() == i,
                bufs == self.buf(),
                map_index + T::spec_index() < self.dirs().len(),
                start == self.dirs()[map_index + T::spec_index()].lump_offset,
                lump_size == self.dirs()[map_index + T::spec_index()].lump_size,
                count == lump_size / size,
                self.dirs()[map_index + T::spec_index()].lump_name@ == T::spec_lump_name(),
                forall|j: int|
                    0 <= j < i ==> #[trigger] vec@[j] == T::spec_read(
                        bufs,
                        start as int + j * size as int,
                    ),
                forall|j: int|
                    0 <= j < i ==> #[trigger] record_fits(bufs, start as int, j, size as int),
            decreases count - i,
        {
            proof {
                lemma_mul_inequality(i as int + 1, count as int, size as int);
                lemma_mul_inequality(i as int, i as int + 1, size as int);
                assert((i as int + 1) * size as int == i as int * size as int + size as int)
                    by (nonlinear_arith);
            }
            let offset64 = start as u64 + (i as u64) * (size as u64);
            if offset64 >= self.wad.len() as u64 || (self.wad.len() as u64) - offset64
                < size as u64 {
                assert(!record_fits(bufs, start as int, i as int, size as int));
                return Err(DoomError::ByteRange { offset: offset64, len: size as u64 });
            }
            let data = match T::read(self.wad.as_slice(), offset64 as usize) {
                Ok(d) => d,
                Err(e) => {
                    assert(!record_fits(bufs, start as int, i as int, size as int));
                    return Err(e);
                },
            };
            vec.push(data);
            i = i + 1;
        }
        proof {
            if count > 0 {
                assert(record_fits(bufs, start as int, count as int - 1, size as int));
            }
        }
        Ok(vec)
    }
}

} // verus!
