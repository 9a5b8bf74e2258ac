//! Choosing how to read a file (map it whole, map its start, or read only
//! the EXIF segment) by its size, and reading the EXIF segment.

use vstd::prelude::*;
use crate::bytes::{be32, read_u16, u32_at};
use crate::metadata::{txt, PieceModel, TagMap};
use crate::text::{dec_text, text, u64_text};
use crate::tiff::{tiff_outcome, TiffParser};
use crate::types::{error_message, ExifError};
use crate::ultra_fast_jpeg::{outcome_result, ultra_readable, UltraFastJpegParser};

verus! {

type M = Map<Seq<char>, Seq<PieceModel>>;

/// How a file is read.
#[derive(Clone, Copy, PartialEq, Eq, Debug)]
pub enum MemoryStrategy {
    /// Map the whole file.
    MemoryMap,
    /// Read only the EXIF segment.
    SelectiveSeek,
    /// Map the first part of the file, reading the segment when the EXIF is
    /// not there.
    Hybrid,
}

/// The strategy for a file of `size` bytes.
pub open spec fn strategy_for(size: nat, threshold: nat, max_mmap: nat) -> MemoryStrategy {
    if size < 1048576 {
        MemoryStrategy::SelectiveSeek
    } else if size <= threshold {
        MemoryStrategy::MemoryMap
    } else if size <= max_mmap {
        MemoryStrategy::Hybrid
    } else {
        MemoryStrategy::SelectiveSeek
    }
}

/// The `Exif\0\0` signature.
pub open spec fn exif_signature() -> Seq<u8> {
    seq![0x45u8, 0x78u8, 0x69u8, 0x66u8, 0u8, 0u8]
}

/// The first APP1 segment from position `i` on that holds EXIF: the bytes
/// after its signature.
pub open spec fn mapped_scan(d: Seq<u8>, i: int) -> Option<Seq<u8>>
    decreases d.len() - i,
{
    if i < 0 || i + 10 >= d.len() {
        None
    } else {
        let len = (d[i + 2] as int) * 256 + d[i + 3] as int;
        if d[i] == 0xFF && d[i + 1] == 0xE1 && i + 4 + len <= d.len() && len >= 6
            && d.subrange(i + 4, i + 10) == exif_signature() {
            Some(d.subrange(i + 10, i + 4 + len))
        } else {
            mapped_scan(d, i + 1)
        }
    }
}

/// The message of a failed read.
pub open spec fn io_eof() -> Seq<char> {
    "IO error: "@ + "failed to fill whole buffer"@
}

/// Where the JPEG markers from `offset` lead: the offset and size of the
/// EXIF data of the first APP1 segment that holds it, within the first
/// megabyte.
pub open spec fn locate_jpeg(d: Seq<u8>, offset: int) -> Result<(int, int), Seq<char>>
    decreases 1048576 - offset,
{
    if offset < 0 || offset >= 1048576 {
        Err("Invalid EXIF data: "@ + "EXIF segment not found"@)
    } else if offset + 4 > d.len() {
        Err(io_eof())
    } else if d[offset] != 0xFF {
        Err("Invalid EXIF data: "@ + "Invalid JPEG marker"@)
    } else {
        let size = (d[offset + 2] as int) * 256 + d[offset + 3] as int;
        if d[offset + 1] == 0xE1 && offset + 10 > d.len() {
            Err(io_eof())
        } else if d[offset + 1] == 0xE1 && d.subrange(offset + 4, offset + 10) == exif_signature() {
            Ok((offset + 10, (size as usize).wrapping_sub(6usize) as int))
        } else if offset + 2 + size >= 1048576 {
            Err("Invalid EXIF data: "@ + "EXIF segment not found"@)
        } else {
            locate_jpeg(d, offset + 2 + size)
        }
    }
}

/// Where the EXIF data of a file is, by its format.
pub open spec fn locate_segment(d: Seq<u8>) -> Result<(int, int), Seq<char>> {
    if d.len() < 32 {
        Err(io_eof())
    } else if d[0] == 0xFF && d[1] == 0xD8 {
        locate_jpeg(d, 2)
    } else if (d[0] == 0x49 && d[1] == 0x49) || (d[0] == 0x4D && d[1] == 0x4D) {
        Ok((0, 65536))
    } else {
        Err("Invalid EXIF data: "@ + "Unsupported file format"@)
    }
}

/// The bytes of the segment at `offset`, at most two megabytes of them.
pub open spec fn read_segment(d: Seq<u8>, offset: int, size: int) -> Result<Seq<u8>, Seq<char>> {
    let n = if size < 2097152 { size } else { 2097152 };
    if offset + n > d.len() {
        Err(io_eof())
    } else {
        Ok(d.subrange(offset, offset + n))
    }
}

/// The tags of TIFF EXIF data read into an empty map, or the error.
pub open spec fn tiff_tags(e: Seq<u8>) -> Result<M, Seq<char>> {
    let (err, m) = tiff_outcome(e, Map::empty());
    match err {
        Some(msg) => Err("Invalid EXIF data: "@ + msg),
        None => Ok(m),
    }
}

/// What reading only the EXIF segment of a file gives.
pub open spec fn seek_parse(d: Seq<u8>) -> Result<M, Seq<char>> {
    match locate_segment(d) {
        Err(e) => Err(e),
        Ok((offset, size)) => match read_segment(d, offset, size) {
            Err(e) => Err(e),
            Ok(seg) => tiff_tags(seg),
        },
    }
}

/// What mapping the start of a file gives: the EXIF found there, else the
/// EXIF segment read on its own.
pub open spec fn hybrid_parse(d: Seq<u8>, file_size: nat, threshold: nat) -> Result<M, Seq<char>> {
    let quarter = file_size / 4;
    let map_size = if quarter < threshold { quarter } else { threshold };
    let mapped = d.subrange(0, if map_size < d.len() { map_size as int } else { d.len() as int });
    match mapped_scan(mapped, 0) {
        Some(exif) => tiff_tags(exif),
        None => seek_parse(d),
    }
}

/// What reading a file of contents `d` gives: the ultra-fast reading of
/// the whole file, its EXIF segment alone, or its first part.
pub open spec fn adaptive_file(d: Seq<u8>, threshold: nat, max_mmap: nat) -> Result<M, Seq<char>> {
    match strategy_for(d.len(), threshold, max_mmap) {
        MemoryStrategy::MemoryMap => outcome_result(d, None),
        MemoryStrategy::SelectiveSeek => seek_parse(d),
        MemoryStrategy::Hybrid => hybrid_parse(d, d.len(), threshold),
    }
}

/// Counters of how files were read.
pub struct PerformanceStats {
    pub mmap_count: usize,
    pub seek_count: usize,
    pub total_bytes_read: usize,
    pub total_processing_time: u64,
}

/// Where the EXIF data of a file is.
struct ExifSegmentInfo {
    offset: usize,
    size: usize,
}

/// Reads EXIF with a strategy chosen by file size.
pub struct AdaptiveMemoryParser {
    /// Files up to this size are mapped whole.
    pub memory_map_threshold: usize,
    /// Files up to this size have their start mapped.
    pub max_mmap_size: usize,
    pub read_buffer: Vec<u8>,
    pub metadata_cache: TagMap,
    pub stats: PerformanceStats,
}

impl AdaptiveMemoryParser {
    /// A parser with a 16 MiB mapping threshold and a 256 MiB mapping limit.
    pub fn new() -> (r: AdaptiveMemoryParser)
        ensures
            r.memory_map_threshold == 16777216,
            r.max_mmap_size == 268435456,
            r.stats.mmap_count == 0 && r.stats.seek_count == 0,
            r.stats.total_bytes_read == 0 && r.stats.total_processing_time == 0,
    {
        Self::with_thresholds(16777216, 268435456)
    }

    /// A parser with the given thresholds.
    pub fn with_thresholds(mmap_threshold: usize, max_mmap_size: usize) -> (r: AdaptiveMemoryParser)
        ensures
            r.memory_map_threshold == mmap_threshold,
            r.max_mmap_size == max_mmap_size,
            r.stats.mmap_count == 0 && r.stats.seek_count == 0,
            r.stats.total_bytes_read == 0 && r.stats.total_processing_time == 0,
    {
        AdaptiveMemoryParser {
            memory_map_threshold: mmap_threshold,
            max_mmap_size,
            read_buffer: Vec::new(),
            metadata_cache: TagMap::new(),
            stats: PerformanceStats { mmap_count: 0, seek_count: 0, total_bytes_read: 0, total_processing_time: 0 },
        }
    }

    /// The strategy for a file of `file_size` bytes.
    pub fn choose_strategy(&self, file_size: usize) -> (r: MemoryStrategy)
        ensures
            r == strategy_for(file_size as nat, self.memory_map_threshold as nat, self.max_mmap_size as nat),
    {
        if file_size < 1048576 {
            return MemoryStrategy::SelectiveSeek;
        }
        if file_size <= self.memory_map_threshold {
            return MemoryStrategy::MemoryMap;
        }
        if file_size <= self.max_mmap_size {
            return MemoryStrategy::Hybrid;
        }
        MemoryStrategy::SelectiveSeek
    }

    /// Counts a file read with `strategy` (the hybrid strategy maps).
    pub fn record_strategy(&mut self, strategy: MemoryStrategy)
        requires
            old(self).stats.mmap_count < usize::MAX,
            old(self).stats.seek_count < usize::MAX,
        ensures
            final(self).memory_map_threshold == old(self).memory_map_threshold,
            final(self).max_mmap_size == old(self).max_mmap_size,
            final(self).stats.total_bytes_read == old(self).stats.total_bytes_read,
            final(self).stats.total_processing_time == old(self).stats.total_processing_time,
            final(self).metadata_cache@ == old(self).metadata_cache@,
            strategy == MemoryStrategy::SelectiveSeek ==> final(self).stats.seek_count == old(self).stats.seek_count + 1
                && final(self).stats.mmap_count == old(self).stats.mmap_count,
            strategy != MemoryStrategy::SelectiveSeek ==> final(self).stats.mmap_count == old(self).stats.mmap_count + 1
                && final(self).stats.seek_count == old(self).stats.seek_count,
    {
        match strategy {
            MemoryStrategy::SelectiveSeek => {
                self.stats.seek_count = self.stats.seek_count + 1;
            },
            _ => {
                self.stats.mmap_count = self.stats.mmap_count + 1;
            },
        }
    }

    /// Adds the time a file took, in microseconds.
    pub fn record_processing_time(&mut self, micros: u64)
        requires
            old(self).stats.total_processing_time + micros <= u64::MAX,
        ensures
            final(self).memory_map_threshold == old(self).memory_map_threshold,
            final(self).max_mmap_size == old(self).max_mmap_size,
            final(self).stats.mmap_count == old(self).stats.mmap_count,
            final(self).stats.seek_count == old(self).stats.seek_count,
            final(self).stats.total_bytes_read == old(self).stats.total_bytes_read,
            final(self).stats.total_processing_time == old(self).stats.total_processing_time + micros,
    {
        self.stats.total_processing_time = self.stats.total_processing_time + micros;
    }

    /// Whether a file of contents `data` can be read: when its size calls
    /// for reading it whole, the ultra-fast reader can read it.
    pub fn can_read(&self, data: &[u8]) -> (r: bool)
        ensures
            r == (strategy_for(data@.len(), self.memory_map_threshold as nat, self.max_mmap_size as nat)
                == MemoryStrategy::MemoryMap ==> ultra_readable(data@, None)),
    {
        match self.choose_strategy(data.len()) {
            MemoryStrategy::MemoryMap => UltraFastJpegParser::new().can_read(data),
            _ => true,
        }
    }

    /// Reads a file of contents `data` with the strategy its size calls
    /// for, counting it as mapped or sought.
    pub fn parse_file(&mut self, data: &[u8]) -> (r: Result<TagMap, ExifError>)
        requires
            old(self).stats.mmap_count < usize::MAX,
            old(self).stats.seek_count < usize::MAX,
            strategy_for(data@.len(), old(self).memory_map_threshold as nat, old(self).max_mmap_size as nat)
                == MemoryStrategy::MemoryMap ==> ultra_readable(data@, None),
        ensures
            r matches Ok(m) ==> adaptive_file(data@, old(self).memory_map_threshold as nat, old(self).max_mmap_size as nat)
                == Ok::<M, Seq<char>>(m@),
            r matches Err(e) ==> adaptive_file(data@, old(self).memory_map_threshold as nat, old(self).max_mmap_size as nat)
                == Err::<M, Seq<char>>(error_message(e)),
            final(self).memory_map_threshold == old(self).memory_map_threshold,
            final(self).max_mmap_size == old(self).max_mmap_size,
            final(self).stats.total_bytes_read == old(self).stats.total_bytes_read,
            final(self).stats.total_processing_time == old(self).stats.total_processing_time,
            strategy_for(data@.len(), old(self).memory_map_threshold as nat, old(self).max_mmap_size as nat)
                == MemoryStrategy::SelectiveSeek ==> final(self).stats.seek_count == old(self).stats.seek_count + 1
                && final(self).stats.mmap_count == old(self).stats.mmap_count,
            strategy_for(data@.len(), old(self).memory_map_threshold as nat, old(self).max_mmap_size as nat)
                != MemoryStrategy::SelectiveSeek ==> final(self).stats.mmap_count == old(self).stats.mmap_count + 1
                && final(self).stats.seek_count == old(self).stats.seek_count,
    {
        self.metadata_cache = TagMap::new();
        let strategy = self.choose_strategy(data.len());
        self.record_strategy(strategy);
        match strategy {
            MemoryStrategy::MemoryMap => self.parse_with_memory_map(data),
            MemoryStrategy::SelectiveSeek => self.parse_with_selective_seek(data),
            MemoryStrategy::Hybrid => self.parse_with_hybrid_approach(data, data.len()),
        }
    }

    /// Reads the whole file with the ultra-fast JPEG reader.
    fn parse_with_memory_map(&mut self, data: &[u8]) -> (r: Result<TagMap, ExifError>)
        requires
            old(self).metadata_cache@ == Map::<Seq<char>, Seq<PieceModel>>::empty(),
            ultra_readable(data@, None),
        ensures
            r matches Ok(m) ==> outcome_result(data@, None) == Ok::<M, Seq<char>>(m@),
            r matches Err(e) ==> outcome_result(data@, None) == Err::<M, Seq<char>>(error_message(e)),
            final(self).memory_map_threshold == old(self).memory_map_threshold,
            final(self).max_mmap_size == old(self).max_mmap_size,
            final(self).stats == old(self).stats,
    {
        match self.parse_memory_mapped_data(data) {
            Ok(()) => Ok(self.metadata_cache.duplicate()),
            Err(e) => Err(e),
        }
    }

    /// Reads the data into the cache with a fresh ultra-fast JPEG reader.
    fn parse_memory_mapped_data(&mut self, data: &[u8]) -> (r: Result<(), ExifError>)
        requires
            old(self).metadata_cache@ == Map::<Seq<char>, Seq<PieceModel>>::empty(),
            ultra_readable(data@, None),
        ensures
            r is Ok ==> outcome_result(data@, None) == Ok::<M, Seq<char>>(final(self).metadata_cache@),
            r matches Err(e) ==> outcome_result(data@, None) == Err::<M, Seq<char>>(error_message(e)),
            final(self).memory_map_threshold == old(self).memory_map_threshold,
            final(self).max_mmap_size == old(self).max_mmap_size,
            final(self).stats == old(self).stats,
    {
        let mut parser = UltraFastJpegParser::new();
        parser.parse_jpeg_exif_ultra_fast(data, &mut self.metadata_cache)
    }

    /// Reads a file's EXIF segment on its own: where it is, its bytes, its
    /// tags.
    pub fn parse_with_selective_seek(&mut self, data: &[u8]) -> (r: Result<TagMap, ExifError>)
        ensures
            final(self).memory_map_threshold == old(self).memory_map_threshold,
            final(self).max_mmap_size == old(self).max_mmap_size,
            final(self).stats == old(self).stats,
            r matches Ok(m) ==> seek_parse(data@) == Ok::<M, Seq<char>>(m@),
            r matches Err(e) ==> seek_parse(data@) == Err::<M, Seq<char>>(error_message(e)),
    {
        self.metadata_cache = TagMap::new();
        let info = match self.locate_exif_segment(data) {
            Ok(i) => i,
            Err(e) => {
                return Err(e);
            },
        };
        let exif_data = match self.read_exif_segment(data, &info) {
            Ok(v) => v,
            Err(e) => {
                return Err(e);
            },
        };
        match self.parse_exif_data(exif_data.as_slice()) {
            Ok(()) => Ok(self.metadata_cache.duplicate()),
            Err(e) => Err(e),
        }
    }

    /// Looks for the EXIF in the start of the file (a quarter of
    /// `file_size`, at most the mapping threshold), reading the EXIF
    /// segment on its own when it is not there.
    pub fn parse_with_hybrid_approach(&mut self, data: &[u8], file_size: usize) -> (r: Result<TagMap, ExifError>)
        ensures
            final(self).memory_map_threshold == old(self).memory_map_threshold,
            final(self).max_mmap_size == old(self).max_mmap_size,
            final(self).stats == old(self).stats,
            r matches Ok(m) ==> hybrid_parse(data@, file_size as nat, old(self).memory_map_threshold as nat) == Ok::<M, Seq<char>>(m@),
            r matches Err(e) ==> hybrid_parse(data@, file_size as nat, old(self).memory_map_threshold as nat) == Err::<M, Seq<char>>(error_message(e)),
    {
        let quarter = file_size / 4;
        let map_size = if quarter < self.memory_map_threshold { quarter } else { self.memory_map_threshold };
        let end = if map_size < data.len() { map_size } else { data.len() };
        let mapped = crate::text::sub_slice(data, 0, end);
        match self.extract_exif_from_mapped(mapped) {
            Ok(exif_data) => {
                self.metadata_cache = TagMap::new();
                match self.parse_exif_data(exif_data.as_slice()) {
                    Ok(()) => Ok(self.metadata_cache.duplicate()),
                    Err(e) => Err(e),
                }
            },
            Err(_) => self.parse_with_selective_seek(data),
        }
    }

    /// The EXIF data of the first APP1 segment in `data` that holds it.
    pub fn extract_exif_from_mapped(&self, data: &[u8]) -> (r: Result<Vec<u8>, ExifError>)
        ensures
            r matches Ok(v) ==> mapped_scan(data@, 0) == Some(v@),
            r is Err ==> mapped_scan(data@, 0) is None,
            r matches Err(e) ==> error_message(e) == "Invalid EXIF data: "@ + "EXIF not found in mapped region"@,
    {
        let mut i: usize = 0;
        while data.len() >= 10 && i < data.len() - 10
            invariant
                mapped_scan(data@, i as int) == mapped_scan(data@, 0),
            decreases data.len() - i,
        {
            if data[i] == 0xFF && data[i + 1] == 0xE1 && i + 10 < data.len() {
                let length = read_u16(data, i + 2, false) as usize;
                if length <= data.len() - i - 4 && length >= 6 {
                    let seg = crate::text::sub_slice(data, i + 4, i + 10);
                    let sig: [u8; 6] = [0x45u8, 0x78u8, 0x69u8, 0x66u8, 0u8, 0u8];
                    assert(sig@ =~= exif_signature());
                    if crate::utils::bytes_equal(seg, &sig) {
                        return Ok(vstd::slice::slice_to_vec(crate::text::sub_slice(data, i + 10, i + 4 + length)));
                    }
                }
            }
            i = i + 1;
        }
        Err(ExifError::invalid("EXIF not found in mapped region"))
    }

    /// Where the EXIF data of a file is, by its format.
    fn locate_exif_segment(&self, data: &[u8]) -> (r: Result<ExifSegmentInfo, ExifError>)
        ensures
            r matches Ok(info) ==> locate_segment(data@) == Ok::<(int, int), Seq<char>>((info.offset as int, info.size as int)),
            r matches Err(e) ==> locate_segment(data@) == Err::<(int, int), Seq<char>>(error_message(e)),
    {
        if data.len() < 32 {
            return Err(ExifError::IoError(text("failed to fill whole buffer")));
        }
        if data[0] == 0xFF && data[1] == 0xD8 {
            self.locate_jpeg_exif(data)
        } else if (data[0] == 0x49 && data[1] == 0x49) || (data[0] == 0x4D && data[1] == 0x4D) {
            Ok(ExifSegmentInfo { offset: 0, size: 65536 })
        } else {
            Err(ExifError::invalid("Unsupported file format"))
        }
    }

    /// Walks the JPEG markers to the APP1 segment that holds EXIF.
    fn locate_jpeg_exif(&self, data: &[u8]) -> (r: Result<ExifSegmentInfo, ExifError>)
        ensures
            r matches Ok(info) ==> locate_jpeg(data@, 2) == Ok::<(int, int), Seq<char>>((info.offset as int, info.size as int)),
            r matches Err(e) ==> locate_jpeg(data@, 2) == Err::<(int, int), Seq<char>>(error_message(e)),
    {
        let mut offset: usize = 2;
        while offset < 1048576
            invariant
                locate_jpeg(data@, offset as int) == locate_jpeg(data@, 2),
            decreases 1048576 - offset,
        {
            if offset > data.len() || data.len() - offset < 4 {
                return Err(ExifError::IoError(text("failed to fill whole buffer")));
            }
            if data[offset] != 0xFF {
                return Err(ExifError::invalid("Invalid JPEG marker"));
            }
            let marker = data[offset + 1];
            let segment_size = read_u16(data, offset + 2, false) as usize;
            if marker == 0xE1 {
                if data.len() - offset < 10 {
                    return Err(ExifError::IoError(text("failed to fill whole buffer")));
                }
                let sig: [u8; 6] = [0x45u8, 0x78u8, 0x69u8, 0x66u8, 0u8, 0u8];
                assert(sig@ =~= exif_signature());
                if crate::utils::bytes_equal(crate::text::sub_slice(data, offset + 4, offset + 10), &sig) {
                    return Ok(ExifSegmentInfo { offset: offset + 10, size: segment_size.wrapping_sub(6) });
                }
            }
            if offset + 2 + segment_size >= 1048576 {
                return Err(ExifError::invalid("EXIF segment not found"));
            }
            offset = offset + 2 + segment_size;
        }
        Err(ExifError::invalid("EXIF segment not found"))
    }

    /// The segment's bytes, at most two megabytes of them.
    fn read_exif_segment(&mut self, data: &[u8], info: &ExifSegmentInfo) -> (r: Result<Vec<u8>, ExifError>)
        ensures
            final(self).memory_map_threshold == old(self).memory_map_threshold,
            final(self).max_mmap_size == old(self).max_mmap_size,
            final(self).stats == old(self).stats,
            final(self).metadata_cache@ == old(self).metadata_cache@,
            r matches Ok(v) ==> read_segment(data@, info.offset as int, info.size as int) == Ok::<Seq<u8>, Seq<char>>(v@),
            r matches Err(e) ==> read_segment(data@, info.offset as int, info.size as int) == Err::<Seq<u8>, Seq<char>>(error_message(e)),
    {
        let n = if info.size < 2097152 { info.size } else { 2097152 };
        if info.offset > data.len() || data.len() - info.offset < n {
            return Err(ExifError::IoError(text("failed to fill whole buffer")));
        }
        self.read_buffer = vstd::slice::slice_to_vec(crate::text::sub_slice(data, info.offset, info.offset + n));
        Ok(self.read_buffer.clone())
    }

    /// Reads TIFF EXIF data into the cache.
    fn parse_exif_data(&mut self, exif_data: &[u8]) -> (r: Result<(), ExifError>)
        ensures
            final(self).memory_map_threshold == old(self).memory_map_threshold,
            final(self).max_mmap_size == old(self).max_mmap_size,
            final(self).stats == old(self).stats,
            final(self).metadata_cache@ == tiff_outcome(exif_data@, old(self).metadata_cache@).1,
            r is Ok <==> tiff_outcome(exif_data@, old(self).metadata_cache@).0 is None,
            r matches Err(e) ==> tiff_outcome(exif_data@, old(self).metadata_cache@).0 matches Some(msg) && error_message(e) == "Invalid EXIF data: "@ + msg,
    {
        TiffParser::parse_tiff_exif(exif_data, &mut self.metadata_cache)
    }

    /// The parser's settings and counters by name.
    pub fn get_stats(&self) -> (r: TagMap)
        ensures
            r@ == adaptive_stats(self.memory_map_threshold, self.max_mmap_size, self.stats.mmap_count,
                self.stats.seek_count, self.stats.total_bytes_read, self.stats.total_processing_time),
    {
        let mut stats = TagMap::new();
        stats.insert_str("parser_type", "AdaptiveMemory");
        stats.insert_text("mmap_threshold", u64_text(self.memory_map_threshold as u64));
        stats.insert_text("max_mmap_size", u64_text(self.max_mmap_size as u64));
        stats.insert_text("mmap_count", u64_text(self.stats.mmap_count as u64));
        stats.insert_text("seek_count", u64_text(self.stats.seek_count as u64));
        stats.insert_text("total_bytes_read", u64_text(self.stats.total_bytes_read as u64));
        stats.insert_text("total_processing_time_us", u64_text(self.stats.total_processing_time));
        let files = self.stats.mmap_count as u128 + self.stats.seek_count as u128;
        let avg: u64 = if files > 0 { (self.stats.total_processing_time as u128 / files) as u64 } else { 0 };
        stats.insert_text("avg_processing_time_us", u64_text(avg));
        stats
    }

    /// Sets the size up to which files are mapped whole.
    pub fn set_mmap_threshold(&mut self, threshold: usize)
        ensures
            final(self).memory_map_threshold == threshold,
            final(self).max_mmap_size == old(self).max_mmap_size,
            final(self).stats == old(self).stats,
    {
        self.memory_map_threshold = threshold;
    }

    /// Sets the size up to which files have their start mapped.
    pub fn set_max_mmap_size(&mut self, max_size: usize)
        ensures
            final(self).max_mmap_size == max_size,
            final(self).memory_map_threshold == old(self).memory_map_threshold,
            final(self).stats == old(self).stats,
    {
        self.max_mmap_size = max_size;
    }
}

/// The statistics map of an adaptive parser.
pub open spec fn adaptive_stats(threshold: usize, max_mmap: usize, mmap_count: usize, seek_count: usize, bytes: usize, time: u64) -> M {
    let files = mmap_count + seek_count;
    let avg: nat = if files > 0 { ((time as int) / files) as nat } else { 0 };
    Map::<Seq<char>, Seq<PieceModel>>::empty()
        .insert("parser_type"@, txt("AdaptiveMemory"@))
        .insert("mmap_threshold"@, txt(dec_text(threshold as nat)))
        .insert("max_mmap_size"@, txt(dec_text(max_mmap as nat)))
        .insert("mmap_count"@, txt(dec_text(mmap_count as nat)))
        .insert("seek_count"@, txt(dec_text(seek_count as nat)))
        .insert("total_bytes_read"@, txt(dec_text(bytes as nat)))
        .insert("total_processing_time_us"@, txt(dec_text(time as nat)))
        .insert("avg_processing_time_us"@, txt(dec_text(avg)))
}

impl Default for AdaptiveMemoryParser {
    fn default() -> (r: AdaptiveMemoryParser)
        ensures
            r.memory_map_threshold == 16777216,
            r.max_mmap_size == 268435456,
    {
        Self::new()
    }
}

/// Reads batches of files with one adaptive parser.
pub struct AdaptiveMemoryBatchProcessor {
    pub parser: AdaptiveMemoryParser,
    pub batch_size: usize,
}

impl AdaptiveMemoryBatchProcessor {
    /// A processor with a fresh parser.
    pub fn new(batch_size: usize) -> (r: AdaptiveMemoryBatchProcessor)
        ensures
            r.batch_size == batch_size,
            r.parser.memory_map_threshold == 16777216,
            r.parser.max_mmap_size == 268435456,
            r.parser.stats.mmap_count == 0 && r.parser.stats.seek_count == 0,
            r.parser.stats.total_bytes_read == 0 && r.parser.stats.total_processing_time == 0,
    {
        AdaptiveMemoryBatchProcessor { parser: AdaptiveMemoryParser::new(), batch_size }
    }

    /// Reads each file's contents in turn; a file that fails gives an
    /// empty map.
    pub fn process_files(&mut self, files: &[Vec<u8>]) -> (r: Result<Vec<TagMap>, ExifError>)
        requires
            old(self).parser.stats.mmap_count + files@.len() < usize::MAX,
            old(self).parser.stats.seek_count + files@.len() < usize::MAX,
            forall|i: int|
                0 <= i < files@.len() && strategy_for(
                    #[trigger] files@[i]@.len(),
                    old(self).parser.memory_map_threshold as nat,
                    old(self).parser.max_mmap_size as nat,
                ) == MemoryStrategy::MemoryMap ==> ultra_readable(files@[i]@, None),
        ensures
            r matches Ok(v) && v@.len() == files@.len() && forall|i: int|
                0 <= i < files@.len() ==> (#[trigger] v@[i])@ == match adaptive_file(
                    files@[i]@,
                    old(self).parser.memory_map_threshold as nat,
                    old(self).parser.max_mmap_size as nat,
                ) {
                    Ok(m) => m,
                    Err(_) => Map::<Seq<char>, Seq<PieceModel>>::empty(),
                },
            final(self).batch_size == old(self).batch_size,
            final(self).parser.memory_map_threshold == old(self).parser.memory_map_threshold,
            final(self).parser.max_mmap_size == old(self).parser.max_mmap_size,
    {
        let mut results: Vec<TagMap> = Vec::new();
        let mut i: usize = 0;
        while i < files.len()
            invariant
                i <= files@.len(),
                results@.len() == i,
                self.batch_size == old(self).batch_size,
                self.parser.memory_map_threshold == old(self).parser.memory_map_threshold,
                self.parser.max_mmap_size == old(self).parser.max_mmap_size,
                self.parser.stats.mmap_count <= old(self).parser.stats.mmap_count + i,
                self.parser.stats.seek_count <= old(self).parser.stats.seek_count + i,
                forall|j: int|
                    0 <= j < i ==> (#[trigger] results@[j])@ == match adaptive_file(
                        files@[j]@,
                        old(self).parser.memory_map_threshold as nat,
                        old(self).parser.max_mmap_size as nat,
                    ) {
                        Ok(m) => m,
                        Err(_) => Map::<Seq<char>, Seq<PieceModel>>::empty(),
                    },
            decreases files.len() - i,
        {
            let m = match self.parser.parse_file(files[i].as_slice()) {
                Ok(m) => m,
                Err(_) => TagMap::new(),
            };
            results.push(m);
            i = i + 1;
        }
        Ok(results)
    }

    /// The parser's statistics.
    pub fn get_stats(&self) -> (r: TagMap)
        ensures
            r@ == adaptive_stats(self.parser.memory_map_threshold, self.parser.max_mmap_size,
                self.parser.stats.mmap_count, self.parser.stats.seek_count,
                self.parser.stats.total_bytes_read, self.parser.stats.total_processing_time),
    {
        self.parser.get_stats()
    }
}

impl Default for AdaptiveMemoryBatchProcessor {
    fn default() -> (r: AdaptiveMemoryBatchProcessor)
        ensures
            r.batch_size == 100,
    {
        Self::new(100)
    }
}

} // verus!

verus! {

/// The statistics of a reader that has read nothing: eight entries, the
/// reader's kind and thresholds, zero counts and an average of zero (no
/// division by zero).
pub proof fn law_fresh_stats(threshold: usize, max_mmap: usize)
    ensures
        ({
            let s = adaptive_stats(threshold, max_mmap, 0, 0, 0, 0);
            &&& s.len() == 8
            &&& s["parser_type"@] == txt("AdaptiveMemory"@)
            &&& s["mmap_threshold"@] == txt(dec_text(threshold as nat))
            &&& s["max_mmap_size"@] == txt(dec_text(max_mmap as nat))
            &&& s["mmap_count"@] == txt(dec_text(0))
            &&& s["seek_count"@] == txt(dec_text(0))
            &&& s["avg_processing_time_us"@] == txt(dec_text(0))
        }),
{
    reveal_strlit("parser_type");
    reveal_strlit("mmap_threshold");
    reveal_strlit("max_mmap_size");
    reveal_strlit("mmap_count");
    reveal_strlit("seek_count");
    reveal_strlit("total_bytes_read");
    reveal_strlit("total_processing_time_us");
    reveal_strlit("avg_processing_time_us");
    assert("parser_type"@.len() == 11 && "mmap_threshold"@.len() == 14 && "max_mmap_size"@.len() == 13);
    assert("mmap_count"@.len() == 10 && "seek_count"@.len() == 10 && "total_bytes_read"@.len() == 16);
    assert("total_processing_time_us"@.len() == 24 && "avg_processing_time_us"@.len() == 22);
    assert("mmap_count"@[0] != "seek_count"@[0]);
    let s = adaptive_stats(threshold, max_mmap, 0, 0, 0, 0);
    let keys = set!["parser_type"@, "mmap_threshold"@, "max_mmap_size"@, "mmap_count"@, "seek_count"@,
        "total_bytes_read"@, "total_processing_time_us"@, "avg_processing_time_us"@];
    assert(s.dom() =~= keys);
    let e = Set::<Seq<char>>::empty();
    let k1 = e.insert("parser_type"@);
    let k2 = k1.insert("mmap_threshold"@);
    let k3 = k2.insert("max_mmap_size"@);
    let k4 = k3.insert("mmap_count"@);
    let k5 = k4.insert("seek_count"@);
    let k6 = k5.insert("total_bytes_read"@);
    let k7 = k6.insert("total_processing_time_us"@);
    let k8 = k7.insert("avg_processing_time_us"@);
    assert(k1.len() == 1);
    assert(!k1.contains("mmap_threshold"@));
    assert(k2.len() == 2);
    assert(!k2.contains("max_mmap_size"@));
    assert(k3.len() == 3);
    assert(!k3.contains("mmap_count"@));
    assert(k4.len() == 4);
    assert(!k4.contains("seek_count"@));
    assert(k5.len() == 5);
    assert(!k5.contains("total_bytes_read"@));
    assert(k6.len() == 6);
    assert(!k6.contains("total_processing_time_us"@));
    assert(k7.len() == 7);
    assert(!k7.contains("avg_processing_time_us"@));
    assert(k8.len() == 8);
    assert(k8 =~= keys);
}

} // verus!
