//! Reading only the EXIF segment of a file, optionally keeping only some
//! fields.

use vstd::prelude::*;
use crate::adaptive_memory::{exif_signature, io_eof, tiff_tags};
use crate::bytes::{be32, read_u16, read_u32};
use crate::metadata::{txt, PieceModel, TagMap};
use crate::text::{dec_text, text, u64_text, views};
use crate::tiff::{tiff_outcome, TiffParser};
use crate::types::{error_message, ExifError};

verus! {

type M = Map<Seq<char>, Seq<PieceModel>>;

/// Where the JPEG markers from `offset` lead: the offset and size of the
/// EXIF data of the first APP1 segment that holds it, within the first
/// megabyte.
pub open spec fn seek_locate_jpeg(d: Seq<u8>, offset: int) -> Result<(int, int), Seq<char>>
    decreases 1048576 - offset,
{
    if offset < 0 || offset >= 1048576 {
        Err("Invalid EXIF data: "@ + "EXIF segment not found in JPEG"@)
    } else if offset + 4 > d.len() {
        Err(io_eof())
    } else if d[offset] != 0xFF {
        Err("Invalid EXIF data: "@ + "Invalid JPEG marker"@)
    } else {
        let size = (d[offset + 2] as int) * 256 + d[offset + 3] as int;
        if d[offset + 1] == 0xE1 && offset + 10 > d.len() {
            Err(io_eof())
        } else if d[offset + 1] == 0xE1 && d.subrange(offset + 4, offset + 10) == exif_signature() {
            Ok((offset + 10, (size as usize).wrapping_sub(6usize) as int))
        } else if offset + 2 + size >= 1048576 {
            Err("Invalid EXIF data: "@ + "EXIF segment not found in JPEG"@)
        } else {
            seek_locate_jpeg(d, offset + 2 + size)
        }
    }
}

/// Where the boxes from `offset` lead: just inside the first `meta` box,
/// within the first megabyte.
pub open spec fn seek_locate_heic(d: Seq<u8>, offset: int) -> Result<(int, int), Seq<char>>
    decreases 1048576 - offset,
{
    if offset < 0 || offset >= 1048576 {
        Err("Invalid EXIF data: "@ + "EXIF segment not found in HEIC"@)
    } else if offset + 8 > d.len() {
        Err(io_eof())
    } else if be32(d[offset + 4], d[offset + 5], d[offset + 6], d[offset + 7]) == 0x6d657461 {
        Ok((offset + 12, 65536))
    } else {
        let size = be32(d[offset], d[offset + 1], d[offset + 2], d[offset + 3]) as int;
        if size == 0 || offset + size >= 1048576 {
            Err("Invalid EXIF data: "@ + "EXIF segment not found in HEIC"@)
        } else {
            seek_locate_heic(d, offset + size)
        }
    }
}

/// Where the EXIF data of a file is, by its format.
pub open spec fn seek_locate(d: Seq<u8>, max: nat) -> Result<(int, int), Seq<char>> {
    if d.len() < 32 {
        Err(io_eof())
    } else if d[0] == 0xFF && d[1] == 0xD8 {
        seek_locate_jpeg(d, 2)
    } else if (d[0] == 0x49 && d[1] == 0x49) || (d[0] == 0x4D && d[1] == 0x4D) {
        Ok((0, if d.len() < max { d.len() as int } else { max as int }))
    } else if d[4] == 0x66 && d[5] == 0x74 && d[6] == 0x79 && d[7] == 0x70 {
        seek_locate_heic(d, 0)
    } else {
        Err("Invalid EXIF data: "@ + "Unsupported file format"@)
    }
}

/// The bytes of the segment at `offset`, at most `max` of them.
pub open spec fn seek_read(d: Seq<u8>, offset: int, size: int, max: nat) -> Result<Seq<u8>, Seq<char>> {
    let n = if size < max { size } else { max as int };
    if offset + n > d.len() {
        Err(io_eof())
    } else {
        Ok(d.subrange(offset, offset + n))
    }
}

/// The tags of an EXIF segment, only the target fields when parsing is
/// lazy and fields are targeted.
pub open spec fn seek_tags(e: Seq<u8>, lazy: bool, targets: Seq<Seq<char>>) -> Result<M, Seq<char>> {
    if e.len() < 8 {
        Err("Invalid EXIF data: "@ + "EXIF data too short"@)
    } else {
        match tiff_tags(e) {
            Err(x) => Err(x),
            Ok(m) => if lazy && targets.len() > 0 {
                Ok(m.restrict(targets.to_set()))
            } else {
                Ok(m)
            },
        }
    }
}

/// What reading a file's EXIF segment gives.
pub open spec fn seek_file(d: Seq<u8>, max: nat, lazy: bool, targets: Seq<Seq<char>>) -> Result<M, Seq<char>> {
    match seek_locate(d, max) {
        Err(e) => Err(e),
        Ok((offset, size)) => match seek_read(d, offset, size, max) {
            Err(e) => Err(e),
            Ok(seg) => seek_tags(seg, lazy, targets),
        },
    }
}

/// Where the EXIF data of a file is.
struct SegmentAt {
    offset: usize,
    size: usize,
}

/// Reads only the EXIF segment of a file.
pub struct UltraSeekOptimizedParser {
    pub read_buffer: Vec<u8>,
    /// The largest segment read.
    pub max_exif_size: usize,
    pub metadata_cache: TagMap,
    /// Whether only the target fields are kept.
    pub lazy_parsing: bool,
    /// The fields to keep (none means all).
    pub target_fields: Vec<String>,
}

impl UltraSeekOptimizedParser {
    /// A parser that reads segments of up to 2 MiB and keeps every field.
    pub fn new() -> (r: UltraSeekOptimizedParser)
        ensures
            r.max_exif_size == 2097152,
            r.lazy_parsing,
            r.target_fields@.len() == 0,
    {
        UltraSeekOptimizedParser {
            read_buffer: Vec::with_capacity(65536),
            max_exif_size: 2097152,
            metadata_cache: TagMap::new(),
            lazy_parsing: true,
            target_fields: Vec::new(),
        }
    }

    /// A parser that keeps the given fields.
    pub fn with_target_fields(fields: Vec<String>) -> (r: UltraSeekOptimizedParser)
        ensures
            r.max_exif_size == 2097152,
            r.lazy_parsing,
            r.target_fields@ == fields@,
    {
        UltraSeekOptimizedParser {
            read_buffer: Vec::with_capacity(65536),
            max_exif_size: 2097152,
            metadata_cache: TagMap::new(),
            lazy_parsing: true,
            target_fields: fields,
        }
    }

    /// Reads the EXIF tags of a file's bytes.
    pub fn parse_file(&mut self, data: &[u8]) -> (r: Result<TagMap, ExifError>)
        ensures
            final(self).max_exif_size == old(self).max_exif_size,
            final(self).lazy_parsing == old(self).lazy_parsing,
            final(self).target_fields@ == old(self).target_fields@,
            r matches Ok(m) ==> seek_file(data@, old(self).max_exif_size as nat, old(self).lazy_parsing, views(old(self).target_fields@)) == Ok::<M, Seq<char>>(m@),
            r matches Err(e) ==> seek_file(data@, old(self).max_exif_size as nat, old(self).lazy_parsing, views(old(self).target_fields@)) == Err::<M, Seq<char>>(error_message(e)),
    {
        self.metadata_cache = TagMap::new();
        let info = match self.locate_exif_segment(data) {
            Ok(i) => i,
            Err(e) => {
                return Err(e);
            },
        };
        let exif_data = match self.read_exif_segment(data, &info) {
            Ok(v) => v,
            Err(e) => {
                return Err(e);
            },
        };
        match self.parse_exif_data_optimized(exif_data.as_slice()) {
            Ok(()) => Ok(self.metadata_cache.duplicate()),
            Err(e) => Err(e),
        }
    }

    /// Where the EXIF data of a file is, by its format.
    fn locate_exif_segment(&self, data: &[u8]) -> (r: Result<SegmentAt, ExifError>)
        ensures
            r matches Ok(info) ==> seek_locate(data@, self.max_exif_size as nat) == Ok::<(int, int), Seq<char>>((info.offset as int, info.size as int)),
            r matches Err(e) ==> seek_locate(data@, self.max_exif_size as nat) == Err::<(int, int), Seq<char>>(error_message(e)),
    {
        if data.len() < 32 {
            return Err(ExifError::IoError(text("failed to fill whole buffer")));
        }
        if data[0] == 0xFF && data[1] == 0xD8 {
            self.locate_jpeg_exif(data)
        } else if (data[0] == 0x49 && data[1] == 0x49) || (data[0] == 0x4D && data[1] == 0x4D) {
            let size = if data.len() < self.max_exif_size { data.len() } else { self.max_exif_size };
            Ok(SegmentAt { offset: 0, size })
        } else if data[4] == 0x66 && data[5] == 0x74 && data[6] == 0x79 && data[7] == 0x70 {
            self.locate_heic_exif(data)
        } else {
            Err(ExifError::invalid("Unsupported file format"))
        }
    }

    /// Walks the JPEG markers to the APP1 segment that holds EXIF.
    fn locate_jpeg_exif(&self, data: &[u8]) -> (r: Result<SegmentAt, ExifError>)
        ensures
            r matches Ok(info) ==> seek_locate_jpeg(data@, 2) == Ok::<(int, int), Seq<char>>((info.offset as int, info.size as int)),
            r matches Err(e) ==> seek_locate_jpeg(data@, 2) == Err::<(int, int), Seq<char>>(error_message(e)),
    {
        let mut offset: usize = 2;
        while offset < 1048576
            invariant
                seek_locate_jpeg(data@, offset as int) == seek_locate_jpeg(data@, 2),
            decreases 1048576 - offset,
        {
            if offset > data.len() || data.len() - offset < 4 {
                return Err(ExifError::IoError(text("failed to fill whole buffer")));
            }
            if data[offset] != 0xFF {
                return Err(ExifError::invalid("Invalid JPEG marker"));
            }
            let marker = data[offset + 1];
            let segment_size = read_u16(data, offset + 2, false) as usize;
            if marker == 0xE1 {
                if data.len() - offset < 10 {
                    return Err(ExifError::IoError(text("failed to fill whole buffer")));
                }
                let sig: [u8; 6] = [0x45u8, 0x78u8, 0x69u8, 0x66u8, 0u8, 0u8];
                assert(sig@ =~= exif_signature());
                if crate::utils::bytes_equal(crate::text::sub_slice(data, offset + 4, offset + 10), &sig) {
                    return Ok(SegmentAt { offset: offset + 10, size: segment_size.wrapping_sub(6) });
                }
            }
            if offset + 2 + segment_size >= 1048576 {
                return Err(ExifError::invalid("EXIF segment not found in JPEG"));
            }
            offset = offset + 2 + segment_size;
        }
        Err(ExifError::invalid("EXIF segment not found in JPEG"))
    }

    /// Walks the top-level boxes to the `meta` box.
    fn locate_heic_exif(&self, data: &[u8]) -> (r: Result<SegmentAt, ExifError>)
        ensures
            r matches Ok(info) ==> seek_locate_heic(data@, 0) == Ok::<(int, int), Seq<char>>((info.offset as int, info.size as int)),
            r matches Err(e) ==> seek_locate_heic(data@, 0) == Err::<(int, int), Seq<char>>(error_message(e)),
    {
        let mut offset: usize = 0;
        while offset < 1048576
            invariant
                seek_locate_heic(data@, offset as int) == seek_locate_heic(data@, 0),
            decreases 1048576 - offset,
        {
            if offset > data.len() || data.len() - offset < 8 {
                return Err(ExifError::IoError(text("failed to fill whole buffer")));
            }
            let box_size = read_u32(data, offset, false) as u64;
            let box_type = read_u32(data, offset + 4, false);
            if box_type == 0x6d657461 {
                return Ok(self.locate_exif_in_meta_box(offset + 8));
            }
            if box_size == 0 || offset as u64 + box_size >= 1048576 {
                return Err(ExifError::invalid("EXIF segment not found in HEIC"));
            }
            offset = offset + box_size as usize;
        }
        Err(ExifError::invalid("EXIF segment not found in HEIC"))
    }

    /// Where the EXIF data of a `meta` box is taken to be.
    fn locate_exif_in_meta_box(&self, meta_offset: usize) -> (r: SegmentAt)
        requires
            meta_offset < 1048576 + 8,
        ensures
            r.offset == meta_offset + 4,
            r.size == 65536,
    {
        SegmentAt { offset: meta_offset + 4, size: 65536 }
    }

    /// The segment's bytes, at most `max_exif_size` of them.
    fn read_exif_segment(&mut self, data: &[u8], info: &SegmentAt) -> (r: Result<Vec<u8>, ExifError>)
        ensures
            final(self).max_exif_size == old(self).max_exif_size,
            final(self).lazy_parsing == old(self).lazy_parsing,
            final(self).target_fields@ == old(self).target_fields@,
            final(self).metadata_cache@ == old(self).metadata_cache@,
            r matches Ok(v) ==> seek_read(data@, info.offset as int, info.size as int, old(self).max_exif_size as nat) == Ok::<Seq<u8>, Seq<char>>(v@),
            r matches Err(e) ==> seek_read(data@, info.offset as int, info.size as int, old(self).max_exif_size as nat) == Err::<Seq<u8>, Seq<char>>(error_message(e)),
    {
        let n = if info.size < self.max_exif_size { info.size } else { self.max_exif_size };
        if info.offset > data.len() || data.len() - info.offset < n {
            return Err(ExifError::IoError(text("failed to fill whole buffer")));
        }
        self.read_buffer = vstd::slice::slice_to_vec(crate::text::sub_slice(data, info.offset, info.offset + n));
        Ok(self.read_buffer.clone())
    }

    /// Reads the tags of an EXIF segment into the cache.
    fn parse_exif_data_optimized(&mut self, exif_data: &[u8]) -> (r: Result<(), ExifError>)
        requires
            old(self).metadata_cache@ == Map::<Seq<char>, Seq<PieceModel>>::empty(),
        ensures
            final(self).max_exif_size == old(self).max_exif_size,
            final(self).lazy_parsing == old(self).lazy_parsing,
            final(self).target_fields@ == old(self).target_fields@,
            r matches Ok(()) ==> seek_tags(exif_data@, old(self).lazy_parsing, views(old(self).target_fields@)) == Ok::<M, Seq<char>>(final(self).metadata_cache@),
            r matches Err(e) ==> seek_tags(exif_data@, old(self).lazy_parsing, views(old(self).target_fields@)) == Err::<M, Seq<char>>(error_message(e)),
    {
        if exif_data.len() < 8 {
            return Err(ExifError::invalid("EXIF data too short"));
        }
        if self.lazy_parsing && self.target_fields.len() > 0 {
            self.parse_selective_fields(exif_data)
        } else {
            TiffParser::parse_tiff_exif(exif_data, &mut self.metadata_cache)
        }
    }

    /// Reads the tags of an EXIF segment, then keeps only the target fields.
    fn parse_selective_fields(&mut self, exif_data: &[u8]) -> (r: Result<(), ExifError>)
        requires
            old(self).metadata_cache@ == Map::<Seq<char>, Seq<PieceModel>>::empty(),
            old(self).target_fields@.len() > 0,
        ensures
            final(self).max_exif_size == old(self).max_exif_size,
            final(self).lazy_parsing == old(self).lazy_parsing,
            final(self).target_fields@ == old(self).target_fields@,
            r is Ok ==> tiff_tags(exif_data@) == Ok::<M, Seq<char>>(tiff_outcome(exif_data@, Map::empty()).1),
            r is Ok ==> final(self).metadata_cache@ == tiff_outcome(exif_data@, Map::empty()).1.restrict(views(old(self).target_fields@).to_set()),
            r matches Err(e) ==> tiff_tags(exif_data@) == Err::<M, Seq<char>>(error_message(e)),
    {
        match TiffParser::parse_tiff_exif(exif_data, &mut self.metadata_cache) {
            Err(e) => {
                return Err(e);
            },
            Ok(()) => {},
        }
        let mut filtered = TagMap::new();
        let mut i: usize = 0;
        let ghost full = self.metadata_cache@;
        while i < self.target_fields.len()
            invariant
                i <= self.target_fields@.len(),
                self.metadata_cache@ == full,
                filtered@ == full.restrict(views(self.target_fields@.subrange(0, i as int)).to_set()),
            decreases self.target_fields.len() - i,
        {
            let f = self.target_fields[i].as_str();
            proof {
                let a = views(self.target_fields@.subrange(0, i as int));
                assert(views(self.target_fields@.subrange(0, i + 1)) =~= a.push(f@));
                a.lemma_push_to_set_commute(f@);
            }
            match self.metadata_cache.get(f) {
                Some(v) => {
                    let copy = crate::utils::copy_value(v);
                    filtered.insert(text(f), copy);
                },
                None => {},
            }
            assert(filtered@ =~= full.restrict(views(self.target_fields@.subrange(0, i + 1)).to_set()));
            i = i + 1;
        }
        assert(self.target_fields@.subrange(0, self.target_fields@.len() as int) =~= self.target_fields@);
        self.metadata_cache = filtered;
        Ok(())
    }

    /// Sets the fields to keep.
    pub fn set_target_fields(&mut self, fields: Vec<String>)
        ensures
            final(self).target_fields@ == fields@,
            final(self).max_exif_size == old(self).max_exif_size,
            final(self).lazy_parsing == old(self).lazy_parsing,
    {
        self.target_fields = fields;
    }

    /// Turns keeping only the target fields on or off.
    pub fn set_lazy_parsing(&mut self, enabled: bool)
        ensures
            final(self).lazy_parsing == enabled,
            final(self).max_exif_size == old(self).max_exif_size,
            final(self).target_fields@ == old(self).target_fields@,
    {
        self.lazy_parsing = enabled;
    }

    /// The parser's settings by name; the buffer's capacity is what the
    /// allocator gave.
    pub fn get_stats(&self) -> (r: TagMap)
        ensures
            r@.dom() == set!["parser_type"@, "max_exif_size"@, "lazy_parsing"@, "target_fields_count"@, "buffer_capacity"@],
            r@["parser_type"@] == txt("UltraSeekOptimized"@),
            r@["max_exif_size"@] == txt(dec_text(self.max_exif_size as nat)),
            r@["lazy_parsing"@] == txt(if self.lazy_parsing { "true"@ } else { "false"@ }),
            r@["target_fields_count"@] == txt(dec_text(self.target_fields@.len())),
            exists|n: nat| r@["buffer_capacity"@] == txt(dec_text(n)),
    {
        proof {
            reveal_strlit("parser_type");
            reveal_strlit("max_exif_size");
            reveal_strlit("lazy_parsing");
            reveal_strlit("target_fields_count");
            reveal_strlit("buffer_capacity");
            assert("parser_type"@.len() == 11);
            assert("max_exif_size"@.len() == 13);
            assert("lazy_parsing"@.len() == 12);
            assert("target_fields_count"@.len() == 19);
            assert("buffer_capacity"@.len() == 15);
        }
        let mut stats = TagMap::new();
        stats.insert_str("parser_type", "UltraSeekOptimized");
        stats.insert_text("max_exif_size", u64_text(self.max_exif_size as u64));
        stats.insert_str("lazy_parsing", if self.lazy_parsing { "true" } else { "false" });
        stats.insert_text("target_fields_count", u64_text(self.target_fields.len() as u64));
        let cap = vec_capacity(&self.read_buffer);
        stats.insert_text("buffer_capacity", u64_text(cap as u64));
        assert(stats@.dom() =~= set!["parser_type"@, "max_exif_size"@, "lazy_parsing"@, "target_fields_count"@, "buffer_capacity"@]);
        stats
    }
}

/// The capacity of a buffer (std `Vec::capacity`): what the allocator gave,
/// of which std documents only that it is at least the length.
#[verifier::external_body]
pub(crate) fn vec_capacity<T>(v: &Vec<T>) -> (r: usize)
    ensures
        r >= v@.len(),
{
    v.capacity()
}

impl Default for UltraSeekOptimizedParser {
    fn default() -> (r: UltraSeekOptimizedParser)
        ensures
            r.max_exif_size == 2097152,
            r.lazy_parsing,
            r.target_fields@.len() == 0,
    {
        Self::new()
    }
}

/// Reads batches of files with one parser.
pub struct UltraSeekBatchProcessor {
    pub parser: UltraSeekOptimizedParser,
    pub batch_size: usize,
}

/// What reading one file of a batch gives: an empty map for a file that
/// could not be read.
pub open spec fn seek_file_or_empty(d: Seq<u8>, max: nat, lazy: bool, targets: Seq<Seq<char>>) -> M {
    match seek_file(d, max, lazy, targets) {
        Ok(m) => m,
        Err(_) => Map::empty(),
    }
}

impl UltraSeekBatchProcessor {
    /// A processor with a fresh parser.
    pub fn new(batch_size: usize) -> (r: UltraSeekBatchProcessor)
        ensures
            r.batch_size == batch_size,
            r.parser.max_exif_size == 2097152,
            r.parser.lazy_parsing,
            r.parser.target_fields@.len() == 0,
    {
        UltraSeekBatchProcessor { parser: UltraSeekOptimizedParser::new(), batch_size }
    }

    /// Reads several files' bytes in turn; a file that cannot be read gives
    /// an empty map.
    pub fn process_files(&mut self, files: &[Vec<u8>]) -> (r: Result<Vec<TagMap>, ExifError>)
        ensures
            final(self).batch_size == old(self).batch_size,
            final(self).parser.max_exif_size == old(self).parser.max_exif_size,
            final(self).parser.lazy_parsing == old(self).parser.lazy_parsing,
            final(self).parser.target_fields@ == old(self).parser.target_fields@,
            r matches Ok(v) && v@.len() == files@.len() && forall|i: int| 0 <= i < files@.len() ==>
                (#[trigger] v@[i])@ == seek_file_or_empty(files@[i]@, old(self).parser.max_exif_size as nat,
                    old(self).parser.lazy_parsing, views(old(self).parser.target_fields@)),
    {
        let mut results: Vec<TagMap> = Vec::new();
        let mut i: usize = 0;
        while i < files.len()
            invariant
                i <= files@.len(),
                self.batch_size == old(self).batch_size,
                self.parser.max_exif_size == old(self).parser.max_exif_size,
                self.parser.lazy_parsing == old(self).parser.lazy_parsing,
                self.parser.target_fields@ == old(self).parser.target_fields@,
                results@.len() == i,
                forall|k: int| 0 <= k < i ==> (#[trigger] results@[k])@ == seek_file_or_empty(files@[k]@,
                    old(self).parser.max_exif_size as nat, old(self).parser.lazy_parsing,
                    views(old(self).parser.target_fields@)),
            decreases files.len() - i,
        {
            let m = match self.parser.parse_file(files[i].as_slice()) {
                Ok(m) => m,
                Err(_) => TagMap::new(),
            };
            results.push(m);
            i = i + 1;
        }
        Ok(results)
    }

    /// Sets the fields to keep, then reads the files.
    pub fn process_files_with_fields(&mut self, files: &[Vec<u8>], target_fields: Vec<String>) -> (r: Result<Vec<TagMap>, ExifError>)
        ensures
            final(self).parser.target_fields@ == target_fields@,
            r matches Ok(v) && v@.len() == files@.len() && forall|i: int| 0 <= i < files@.len() ==>
                (#[trigger] v@[i])@ == seek_file_or_empty(files@[i]@, old(self).parser.max_exif_size as nat,
                    old(self).parser.lazy_parsing, views(target_fields@)),
    {
        self.parser.set_target_fields(target_fields);
        self.process_files(files)
    }
}

impl Default for UltraSeekBatchProcessor {
    fn default() -> (r: UltraSeekBatchProcessor)
        ensures
            r.batch_size == 100,
    {
        Self::new(100)
    }
}

} // verus!
