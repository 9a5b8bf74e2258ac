//! EXIF reading that looks only at the EXIF segment of a file: find where
//! it starts, read its size and bytes, and list its first IFD.

use vstd::prelude::*;
use crate::bytes::{be32, read_u16, read_u32, u16_at, u32_at};
use crate::metadata::{txt, PieceModel, TagMap};
use crate::text::{append_str, dec_text, hex_text, push_dec, push_hex, text};

verus! {

type M = Map<Seq<char>, Seq<PieceModel>>;

/// What a failed `read_exact` reports when the file ends too early.
pub open spec fn eof_text() -> Seq<char> {
    "failed to fill whole buffer"@
}

/// The farthest offset that the segment searches go to.
pub const SEARCH_LIMIT: usize = 1048576;

/// The name of a tag in the first IFD.
pub open spec fn zc_tag_name(tag: u16) -> Seq<char> {
    if tag == 0x010F {
        "Make"@
    } else if tag == 0x0110 {
        "Model"@
    } else if tag == 0x0132 {
        "DateTime"@
    } else if tag == 0x8769 {
        "ExifIFD"@
    } else if tag == 0x8825 {
        "GPSIFD"@
    } else {
        "Tag_"@ + hex_text(tag as nat, 4, true)
    }
}

/// What an entry's value is shown as, by its type.
pub open spec fn zc_value_text(data_type: u16, count: u32, vo: u32) -> Seq<char> {
    if data_type == 1 {
        if count <= 4 {
            dec_text(vo as nat)
        } else {
            "Binary data ("@ + dec_text(count as nat) + " bytes)"@
        }
    } else if data_type == 2 {
        "ASCII string"@
    } else if data_type == 3 {
        if count == 1 {
            dec_text((vo % 65536) as nat)
        } else {
            "Short array ("@ + dec_text(count as nat) + " items)"@
        }
    } else if data_type == 4 {
        dec_text(vo as nat)
    } else if data_type == 5 {
        "Rational ("@ + dec_text(count as nat) + " items)"@
    } else {
        "Unknown type "@ + dec_text(data_type as nat) + " ("@ + dec_text(count as nat) + " items)"@
    }
}

/// What the twelve-byte entry at `p` stores.
pub open spec fn zc_entry_effect(d: Seq<u8>, p: int, le: bool, m: M) -> M {
    m.insert(
        zc_tag_name(u16_at(d, p, le) as u16),
        txt(
            zc_value_text(
                u16_at(d, p + 2, le) as u16,
                u32_at(d, p + 4, le) as u32,
                u32_at(d, p + 8, le) as u32,
            ),
        ),
    )
}

/// The entries of the IFD at `offset` from the `i`-th of `n` on: the map
/// after them, and the error that stopped them, if any.
pub open spec fn zc_entries(d: Seq<u8>, offset: int, le: bool, n: nat, i: nat, m: M) -> (M, Option<Seq<char>>)
    decreases n - i,
{
    if i >= n {
        (m, None)
    } else {
        let p = offset + 2 + 12 * i;
        if p + 12 > d.len() {
            (m, Some("IFD entry out of bounds"@))
        } else {
            zc_entries(d, offset, le, n, i + 1, zc_entry_effect(d, p, le, m))
        }
    }
}

/// Reading the IFD at `offset`: the map after it, and its error, if any.
pub open spec fn zc_ifd(d: Seq<u8>, offset: int, le: bool, m: M) -> (M, Option<Seq<char>>) {
    if offset + 2 > d.len() {
        (m, Some("IFD offset out of bounds"@))
    } else if u16_at(d, offset, le) > 1000 {
        (m, Some("Too many IFD entries"@))
    } else {
        zc_entries(d, offset, le, u16_at(d, offset, le), 0, m)
    }
}

/// Reading an EXIF segment (`Exif\0\0` then a TIFF header): the tags of its
/// first IFD, or why not.
pub open spec fn zc_parse_exif(e: Seq<u8>) -> Result<M, Seq<char>> {
    if e.len() < 6 {
        Err("EXIF data too short"@)
    } else if e.subrange(0, 6) != seq![0x45u8, 0x78u8, 0x69u8, 0x66u8, 0u8, 0u8] {
        Err("Invalid EXIF signature"@)
    } else if e.len() < 14 {
        Err("EXIF data too short for TIFF header"@)
    } else if !(e[6] == 0x49 && e[7] == 0x49) && !(e[6] == 0x4D && e[7] == 0x4D) {
        Err("Invalid TIFF byte order"@)
    } else {
        let le = e[6] == 0x49 && e[7] == 0x49;
        let (m, err) = zc_ifd(e, u32_at(e, 8, le) as int, le, Map::empty());
        match err {
            Some(x) => Err(x),
            None => Ok(m),
        }
    }
}

/// Where the JPEG markers from `offset` lead: to just past the
/// `Exif\0\0` of the first APP1 segment that has one.
pub open spec fn zc_jpeg_scan(d: Seq<u8>, offset: int) -> Result<int, Seq<char>>
    decreases SEARCH_LIMIT + 1 - offset,
{
    if offset < 0 || offset > SEARCH_LIMIT {
        Err("EXIF segment not found within reasonable limit"@)
    } else if offset + 4 > d.len() {
        Err("Failed to read marker: "@ + eof_text())
    } else if d[offset] != 0xFF {
        Err("Invalid JPEG marker"@)
    } else if d[offset + 1] == 0xE1 && offset + 10 > d.len() {
        Err("Failed to read EXIF signature: "@ + eof_text())
    } else if d[offset + 1] == 0xE1 && d.subrange(offset + 4, offset + 10) == seq![0x45u8, 0x78u8, 0x69u8, 0x66u8, 0u8, 0u8] {
        Ok(offset + 10)
    } else {
        let next = offset + 2 + be16_at(d, offset + 2);
        if next > SEARCH_LIMIT {
            Err("EXIF segment not found within reasonable limit"@)
        } else {
            zc_jpeg_scan(d, next)
        }
    }
}

/// The 16-bit big-endian value at `p`.
pub open spec fn be16_at(d: Seq<u8>, p: int) -> int {
    (d[p] as int) * 256 + d[p + 1] as int
}

/// Where the boxes from `offset` lead: four bytes into the first box of
/// the given type, when one is reached before the search limit.
pub open spec fn zc_box_scan(d: Seq<u8>, offset: int, code: nat, what: Seq<char>, missing: Seq<char>) -> Result<int, Seq<char>>
    decreases SEARCH_LIMIT + 1 - offset,
{
    if offset < 0 || offset > SEARCH_LIMIT {
        Err(missing)
    } else if offset + 8 > d.len() {
        Err("Failed to read "@ + what + " header: "@ + eof_text())
    } else if be32(d[offset + 4], d[offset + 5], d[offset + 6], d[offset + 7]) == code {
        Ok(offset + 12)
    } else if be32(d[offset], d[offset + 1], d[offset + 2], d[offset + 3]) == 0 {
        Err(missing)
    } else {
        let next = offset + be32(d[offset], d[offset + 1], d[offset + 2], d[offset + 3]);
        if next > SEARCH_LIMIT {
            Err(missing)
        } else {
            zc_box_scan(d, next, code, what, missing)
        }
    }
}

/// Where the EXIF segment of a file starts, by its format.
pub open spec fn zc_find_segment(d: Seq<u8>) -> Result<int, Seq<char>> {
    if d.len() < 16 {
        Err("Failed to read file header: "@ + eof_text())
    } else if d[0] == 0xFF && d[1] == 0xD8 {
        zc_jpeg_scan(d, 2)
    } else if (d[0] == 0x49 && d[1] == 0x49) || (d[0] == 0x4D && d[1] == 0x4D) {
        Ok(0)
    } else if d[4] == 0x66 && d[5] == 0x74 && d[6] == 0x79 && d[7] == 0x70 {
        zc_box_scan(d, 0, 0x6d657461, "box"@, "EXIF segment not found in HEIC file"@)
    } else {
        Err("Unsupported file format"@)
    }
}

/// The EXIF segment at `offset`: a 32-bit big-endian size, then that many
/// bytes, no more than `max`.
pub open spec fn zc_read_segment(d: Seq<u8>, offset: int, max: nat) -> Result<Seq<u8>, Seq<char>> {
    if offset + 4 > d.len() {
        Err("Failed to read EXIF size: "@ + eof_text())
    } else {
        let size = be32(d[offset], d[offset + 1], d[offset + 2], d[offset + 3]);
        if size > max {
            Err("EXIF segment too large: "@ + dec_text(size) + " bytes"@)
        } else if offset + 4 + size > d.len() {
            Err("Failed to read EXIF data: "@ + eof_text())
        } else {
            Ok(d.subrange(offset + 4, offset + 4 + size))
        }
    }
}

/// Reading a whole file's EXIF segment with a size limit of `max`.
pub open spec fn zc_parse_file(d: Seq<u8>, max: nat) -> Result<M, Seq<char>> {
    match zc_find_segment(d) {
        Err(e) => Err(e),
        Ok(offset) => match zc_read_segment(d, offset, max) {
            Err(e) => Err(e),
            Ok(seg) => zc_parse_exif(seg),
        },
    }
}

/// The error text of a failed read.
fn eof_error(what: &str) -> (r: String)
    ensures
        r@ == what@ + eof_text(),
{
    let mut s = text(what);
    append_str(&mut s, "failed to fill whole buffer");
    s
}

/// Reads the EXIF segment of a file without looking at the image data.
pub struct ZeroCopyExifParser {
    buffer: Vec<u8>,
    max_exif_size: usize,
}

impl View for ZeroCopyExifParser {
    type V = nat;

    /// The largest EXIF segment it reads.
    closed spec fn view(&self) -> nat {
        self.max_exif_size as nat
    }
}

impl ZeroCopyExifParser {
    /// A parser that reads segments of up to one megabyte.
    pub fn new() -> (r: ZeroCopyExifParser)
        ensures
            r@ == 1048576,
    {
        ZeroCopyExifParser { buffer: Vec::new(), max_exif_size: 1048576 }
    }

    /// Reads the EXIF tags of a whole file's bytes: the first IFD of its
    /// EXIF segment.
    pub fn parse_file(&mut self, data: &[u8]) -> (r: Result<TagMap, String>)
        ensures
            final(self)@ == old(self)@,
            r matches Ok(m) ==> zc_parse_file(data@, old(self)@) == Ok::<M, Seq<char>>(m@),
            r matches Err(e) ==> zc_parse_file(data@, old(self)@) == Err::<M, Seq<char>>(e@),
    {
        let offset = match self.find_exif_segment(data) {
            Ok(o) => o,
            Err(e) => {
                return Err(e);
            },
        };
        let exif_data = match self.read_exif_segment(data, offset) {
            Ok(v) => v,
            Err(e) => {
                return Err(e);
            },
        };
        self.parse_exif_data(exif_data.as_slice())
    }

    /// Where the EXIF segment starts, by the file's format.
    fn find_exif_segment(&self, data: &[u8]) -> (r: Result<usize, String>)
        ensures
            r matches Ok(o) ==> zc_find_segment(data@) == Ok::<int, Seq<char>>(o as int),
            r matches Err(e) ==> zc_find_segment(data@) == Err::<int, Seq<char>>(e@),
    {
        if data.len() < 16 {
            return Err(eof_error("Failed to read file header: "));
        }
        if data[0] == 0xFF && data[1] == 0xD8 {
            return self.find_jpeg_exif_segment(data);
        }
        if (data[0] == 0x49 && data[1] == 0x49) || (data[0] == 0x4D && data[1] == 0x4D) {
            return Ok(0);
        }
        if data[4] == 0x66 && data[5] == 0x74 && data[6] == 0x79 && data[7] == 0x70 {
            return self.find_heic_exif_segment(data);
        }
        Err(text("Unsupported file format"))
    }

    /// Walks the JPEG markers to the APP1 segment that holds EXIF.
    fn find_jpeg_exif_segment(&self, data: &[u8]) -> (r: Result<usize, String>)
        ensures
            r matches Ok(o) ==> zc_jpeg_scan(data@, 2) == Ok::<int, Seq<char>>(o as int),
            r matches Err(e) ==> zc_jpeg_scan(data@, 2) == Err::<int, Seq<char>>(e@),
    {
        let mut offset: usize = 2;
        let sig: [u8; 6] = [0x45u8, 0x78u8, 0x69u8, 0x66u8, 0u8, 0u8];
        assert(sig@ =~= seq![0x45u8, 0x78u8, 0x69u8, 0x66u8, 0u8, 0u8]);
        loop
            invariant
                offset <= SEARCH_LIMIT,
                zc_jpeg_scan(data@, offset as int) == zc_jpeg_scan(data@, 2),
            decreases SEARCH_LIMIT + 1 - offset,
        {
            if offset > data.len() || data.len() - offset < 4 {
                return Err(eof_error("Failed to read marker: "));
            }
            if data[offset] != 0xFF {
                return Err(text("Invalid JPEG marker"));
            }
            let marker = data[offset + 1];
            let segment_size = read_u16(data, offset + 2, false) as usize;
            if marker == 0xE1 {
                if data.len() - offset < 10 {
                    return Err(eof_error("Failed to read EXIF signature: "));
                }
                let mut same = true;
                let mut k: usize = 0;
                assert(data@.subrange(offset + 4, offset + 4) =~= sig@.subrange(0, 0));
                while k < 6
                    invariant
                        k <= 6,
                        offset + 10 <= data@.len(),
                        same == (data@.subrange(offset + 4, offset + 4 + k) == sig@.subrange(0, k as int)),
                    decreases 6 - k,
                {
                    proof {
                        assert(data@.subrange(offset + 4, offset + 4 + k + 1) =~= data@.subrange(offset + 4, offset + 4 + k).push(data@[offset + 4 + k]));
                        assert(sig@.subrange(0, k + 1) =~= sig@.subrange(0, k as int).push(sig@[k as int]));
                        if data@.subrange(offset + 4, offset + 4 + k + 1) == sig@.subrange(0, k + 1) {
                            assert(data@.subrange(offset + 4, offset + 4 + k + 1)[k as int] == sig@.subrange(0, k + 1)[k as int]);
                            assert(data@.subrange(offset + 4, offset + 4 + k) =~= data@.subrange(offset + 4, offset + 4 + k + 1).drop_last());
                            assert(sig@.subrange(0, k as int) =~= sig@.subrange(0, k + 1).drop_last());
                        }
                    }
                    if data[offset + 4 + k] != sig[k] {
                        same = false;
                    }
                    k = k + 1;
                }
                assert(sig@.subrange(0, 6) =~= sig@);
                if same {
                    return Ok(offset + 10);
                }
            }
            offset = offset + 2 + segment_size;
            if offset > SEARCH_LIMIT {
                return Err(text("EXIF segment not found within reasonable limit"));
            }
        }
    }

    /// Walks the top-level boxes to the `meta` box.
    fn find_heic_exif_segment(&self, data: &[u8]) -> (r: Result<usize, String>)
        ensures
            r matches Ok(o) ==> zc_box_scan(data@, 0, 0x6d657461, "box"@, "EXIF segment not found in HEIC file"@) == Ok::<int, Seq<char>>(o as int),
            r matches Err(e) ==> zc_box_scan(data@, 0, 0x6d657461, "box"@, "EXIF segment not found in HEIC file"@) == Err::<int, Seq<char>>(e@),
    {
        let mut offset: u64 = 0;
        loop
            invariant
                offset <= SEARCH_LIMIT,
                zc_box_scan(data@, offset as int, 0x6d657461, "box"@, "EXIF segment not found in HEIC file"@)
                    == zc_box_scan(data@, 0, 0x6d657461, "box"@, "EXIF segment not found in HEIC file"@),
            decreases SEARCH_LIMIT + 1 - offset,
        {
            let o = offset as usize;
            if o > data.len() || data.len() - o < 8 {
                let mut e = text("Failed to read ");
                append_str(&mut e, "box");
                append_str(&mut e, " header: ");
                append_str(&mut e, "failed to fill whole buffer");
                return Err(e);
            }
            let box_size = read_u32(data, o, false);
            let box_type = read_u32(data, o + 4, false);
            if box_type == 0x6d657461 {
                return Ok(self.find_exif_in_meta_box(o + 8));
            }
            if box_size == 0 {
                return Err(text("EXIF segment not found in HEIC file"));
            }
            offset = offset + box_size as u64;
            if offset > SEARCH_LIMIT as u64 {
                return Err(text("EXIF segment not found in HEIC file"));
            }
        }
    }

    /// Where the EXIF data of a `meta` box is taken to start.
    fn find_exif_in_meta_box(&self, meta_offset: usize) -> (r: usize)
        requires
            meta_offset <= SEARCH_LIMIT + 8,
        ensures
            r == meta_offset + 4,
    {
        meta_offset + 4
    }

    /// Reads the EXIF segment at `offset`: its size, then its bytes.
    fn read_exif_segment(&mut self, data: &[u8], offset: usize) -> (r: Result<Vec<u8>, String>)
        ensures
            final(self)@ == old(self)@,
            r matches Ok(v) ==> zc_read_segment(data@, offset as int, old(self)@) == Ok::<Seq<u8>, Seq<char>>(v@),
            r matches Err(e) ==> zc_read_segment(data@, offset as int, old(self)@) == Err::<Seq<u8>, Seq<char>>(e@),
    {
        if offset > data.len() || data.len() - offset < 4 {
            return Err(eof_error("Failed to read EXIF size: "));
        }
        let exif_size = read_u32(data, offset, false) as usize;
        if exif_size > self.max_exif_size {
            let mut e = text("EXIF segment too large: ");
            push_dec(&mut e, exif_size as u64);
            append_str(&mut e, " bytes");
            return Err(e);
        }
        if data.len() - offset - 4 < exif_size {
            return Err(eof_error("Failed to read EXIF data: "));
        }
        self.buffer = vstd::slice::slice_to_vec(crate::text::sub_slice(data, offset + 4, offset + 4 + exif_size));
        Ok(self.buffer.clone())
    }

    /// Reads the tags of the first IFD of an EXIF segment.
    fn parse_exif_data(&self, exif_data: &[u8]) -> (r: Result<TagMap, String>)
        ensures
            r matches Ok(m) ==> zc_parse_exif(exif_data@) == Ok::<M, Seq<char>>(m@),
            r matches Err(e) ==> zc_parse_exif(exif_data@) == Err::<M, Seq<char>>(e@),
    {
        let mut metadata = TagMap::new();
        if exif_data.len() < 6 {
            return Err(text("EXIF data too short"));
        }
        if !(exif_data[0] == 0x45 && exif_data[1] == 0x78 && exif_data[2] == 0x69 && exif_data[3] == 0x66 && exif_data[4] == 0 && exif_data[5] == 0) {
            proof {
                let s = seq![0x45u8, 0x78u8, 0x69u8, 0x66u8, 0u8, 0u8];
                if exif_data@.subrange(0, 6) == s {
                    assert(exif_data@.subrange(0, 6)[0] == s[0]);
                    assert(exif_data@.subrange(0, 6)[1] == s[1]);
                    assert(exif_data@.subrange(0, 6)[2] == s[2]);
                    assert(exif_data@.subrange(0, 6)[3] == s[3]);
                    assert(exif_data@.subrange(0, 6)[4] == s[4]);
                    assert(exif_data@.subrange(0, 6)[5] == s[5]);
                }
            }
            return Err(text("Invalid EXIF signature"));
        }
        assert(exif_data@.subrange(0, 6) =~= seq![0x45u8, 0x78u8, 0x69u8, 0x66u8, 0u8, 0u8]);
        if exif_data.len() < 14 {
            return Err(text("EXIF data too short for TIFF header"));
        }
        let is_little_endian = exif_data[6] == 0x49 && exif_data[7] == 0x49;
        if !is_little_endian && !(exif_data[6] == 0x4D && exif_data[7] == 0x4D) {
            return Err(text("Invalid TIFF byte order"));
        }
        let ifd_offset = read_u32(exif_data, 8, is_little_endian) as usize;
        match self.parse_ifd(exif_data, ifd_offset, is_little_endian, &mut metadata) {
            Err(e) => Err(e),
            Ok(()) => Ok(metadata),
        }
    }

    /// Reads the entries of the IFD at `offset`.
    fn parse_ifd(&self, data: &[u8], offset: usize, is_little_endian: bool, metadata: &mut TagMap) -> (r: Result<(), String>)
        ensures
            final(metadata)@ == zc_ifd(data@, offset as int, is_little_endian, old(metadata)@).0,
            r is Ok <==> zc_ifd(data@, offset as int, is_little_endian, old(metadata)@).1 is None,
            r matches Err(e) ==> zc_ifd(data@, offset as int, is_little_endian, old(metadata)@).1 == Some(e@),
    {
        if offset > data.len() || data.len() - offset < 2 {
            return Err(text("IFD offset out of bounds"));
        }
        let entry_count = read_u16(data, offset, is_little_endian) as usize;
        if entry_count > 1000 {
            return Err(text("Too many IFD entries"));
        }
        let ghost goal = zc_entries(data@, offset as int, is_little_endian, entry_count as nat, 0, metadata@);
        let mut i: usize = 0;
        while i < entry_count
            invariant
                i <= entry_count <= 1000,
                offset + 2 <= data@.len(),
                zc_entries(data@, offset as int, is_little_endian, entry_count as nat, i as nat, metadata@) == goal,
            decreases entry_count - i,
        {
            let rel = i * 12;
            if data.len() - offset - 2 < rel || data.len() - offset - 2 - rel < 12 {
                return Err(text("IFD entry out of bounds"));
            }
            let entry_offset = offset + 2 + rel;
            self.parse_ifd_entry(data, entry_offset, is_little_endian, metadata);
            i = i + 1;
        }
        Ok(())
    }

    /// Stores the entry at `p`.
    fn parse_ifd_entry(&self, data: &[u8], p: usize, is_little_endian: bool, metadata: &mut TagMap)
        requires
            p + 12 <= data.len(),
        ensures
            final(metadata)@ == zc_entry_effect(data@, p as int, is_little_endian, old(metadata)@),
    {
        let tag_id = read_u16(data, p, is_little_endian);
        let data_type = read_u16(data, p + 2, is_little_endian);
        let count = read_u32(data, p + 4, is_little_endian);
        let value_offset = read_u32(data, p + 8, is_little_endian);
        let tag_name = self.get_tag_name(tag_id);
        let value = self.parse_value(data_type, count, value_offset);
        metadata.insert_text(tag_name.as_str(), value);
    }

    /// What an entry's value is shown as, by its type.
    fn parse_value(&self, data_type: u16, count: u32, value_offset: u32) -> (r: String)
        ensures
            r@ == zc_value_text(data_type, count, value_offset),
    {
        let mut s = String::new();
        if data_type == 1 {
            if count <= 4 {
                push_dec(&mut s, value_offset as u64);
            } else {
                append_str(&mut s, "Binary data (");
                push_dec(&mut s, count as u64);
                append_str(&mut s, " bytes)");
            }
        } else if data_type == 2 {
            append_str(&mut s, "ASCII string");
        } else if data_type == 3 {
            if count == 1 {
                push_dec(&mut s, (value_offset % 65536) as u64);
            } else {
                append_str(&mut s, "Short array (");
                push_dec(&mut s, count as u64);
                append_str(&mut s, " items)");
            }
        } else if data_type == 4 {
            push_dec(&mut s, value_offset as u64);
        } else if data_type == 5 {
            append_str(&mut s, "Rational (");
            push_dec(&mut s, count as u64);
            append_str(&mut s, " items)");
        } else {
            append_str(&mut s, "Unknown type ");
            push_dec(&mut s, data_type as u64);
            append_str(&mut s, " (");
            push_dec(&mut s, count as u64);
            append_str(&mut s, " items)");
        }
        assert(s@ =~= zc_value_text(data_type, count, value_offset));
        s
    }

    /// The name of a tag in the first IFD.
    fn get_tag_name(&self, tag_id: u16) -> (r: String)
        ensures
            r@ == zc_tag_name(tag_id),
    {
        match tag_id {
            0x010F => text("Make"),
            0x0110 => text("Model"),
            0x0132 => text("DateTime"),
            0x8769 => text("ExifIFD"),
            0x8825 => text("GPSIFD"),
            _ => {
                let mut s = text("Tag_");
                push_hex(&mut s, tag_id as u64, 4, true);
                s
            },
        }
    }
}

impl Default for ZeroCopyExifParser {
    fn default() -> (r: ZeroCopyExifParser)
        ensures
            r@ == 1048576,
    {
        Self::new()
    }
}

} // verus!
