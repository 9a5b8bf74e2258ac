//! A reader that picks its strategy by the file's format and size: the
//! whole file, its first part, or only its EXIF segment; with options that
//! keep only some tags.

use vstd::prelude::*;
use vstd::utf8::encode_utf8;
use crate::adaptive_memory::{exif_signature, io_eof, locate_jpeg, mapped_scan};
use crate::bytes::{read_u16, read_u32, u16_at, u32_at};
use crate::metadata::{txt, PieceModel, TagMap};
use crate::text::{dec_text, starts_with, sub_slice, text, u64_text, views};
use crate::tiff::{sub_ifd_offset, tiff_outcome, TiffParser};
use crate::types::{
    error_message, gps_check_defined, is_gps_tag_name, is_maker_note_tag_name, looks_like_maker_note_tag,
    normal_tag, starts_with_gps, tag_is_wanted_normalized, wanted_normalized_set, wanted_normals, ExifError,
    ParseScope, ReadOptions,
};
use crate::ultra_seek_optimized::vec_capacity;
use crate::video::{video_outcome, video_readable, VideoKind, VideoParser};

verus! {

type M = Map<Seq<char>, Seq<PieceModel>>;

/// The file formats the reader tells apart.
#[derive(Clone, Copy, PartialEq, Eq, Debug)]
pub enum FileFormat {
    Jpeg,
    Tiff,
    Heic,
    Mov,
    Mp4,
}

/// How a file is read.
#[derive(Clone, Copy, PartialEq, Eq, Debug)]
pub enum ParseStrategy {
    /// The whole file is read.
    MemoryMap,
    /// Only the EXIF segment is read.
    SeekOptimized,
    /// The first part of the file is searched, then the EXIF segment read.
    Hybrid,
}

/// Whether bytes 4 to 8 are `ftyp`.
pub open spec fn ftyp_at(d: Seq<u8>) -> bool {
    d.len() >= 8 && d[4] == 0x66 && d[5] == 0x74 && d[6] == 0x79 && d[7] == 0x70
}

/// Whether the brand after `ftyp` is `mp42`, `mp41` or `isom`.
pub open spec fn mp4_brand(d: Seq<u8>) -> bool {
    d.len() >= 12 && ((d[8] == 0x6d && d[9] == 0x70 && d[10] == 0x34 && (d[11] == 0x32 || d[11] == 0x31)) || (d[8]
        == 0x69 && d[9] == 0x73 && d[10] == 0x6f && d[11] == 0x6d))
}

/// The format of a file by its first bytes.
pub open spec fn detect(d: Seq<u8>) -> Result<FileFormat, Seq<char>> {
    if d.len() < 4 {
        Err("Invalid EXIF data: "@ + "File too small"@)
    } else if d[0] == 0xFF && d[1] == 0xD8 {
        Ok(FileFormat::Jpeg)
    } else if (d[0] == 0x49 && d[1] == 0x49) || (d[0] == 0x4D && d[1] == 0x4D) {
        Ok(FileFormat::Tiff)
    } else if ftyp_at(d) {
        if mp4_brand(d) {
            Ok(FileFormat::Mp4)
        } else {
            Ok(FileFormat::Heic)
        }
    } else {
        Err("Invalid EXIF data: "@ + "Unsupported format"@)
    }
}

/// The keys whose normal form matches one of the target fields or their
/// aliases.
pub open spec fn wanted_keys(targets: Seq<Seq<char>>) -> Set<Seq<char>> {
    Set::new(|k: Seq<char>| wanted_normals(targets).contains(normal_tag(k)))
}

/// The map with only the wanted keys, when there are target fields.
pub open spec fn target_filter(m: M, targets: Seq<Seq<char>>) -> M {
    if targets.len() == 0 {
        m
    } else {
        m.restrict(wanted_keys(targets))
    }
}

/// TIFF data read into the cache `c`, then filtered: the result and the
/// cache after.
pub open spec fn tiff_into(payload: Seq<u8>, targets: Seq<Seq<char>>, c: M) -> (Result<M, Seq<char>>, M) {
    let (err, m1) = tiff_outcome(payload, c);
    match err {
        Some(e) => (Err("Invalid EXIF data: "@ + e), m1),
        None => {
            let m2 = target_filter(m1, targets);
            (Ok(m2), m2)
        },
    }
}

/// What reading the whole file `d` into the cache `c` gives, and the cache
/// after.
pub open spec fn bytes_outcome(d: Seq<u8>, targets: Seq<Seq<char>>, c: M) -> (Result<M, Seq<char>>, M) {
    match detect(d) {
        Err(e) => (Err(e), c),
        Ok(FileFormat::Jpeg) => tiff_into(
            match mapped_scan(d, 0) {
                Some(x) => x,
                None => d,
            },
            targets,
            c,
        ),
        Ok(FileFormat::Tiff) => tiff_into(d, targets, c),
        Ok(FileFormat::Mp4) => {
            let (err, m) = video_outcome(d, VideoKind::Mp4, c);
            match err {
                Some(e) => (Err("Invalid EXIF data: "@ + e), m),
                None => (Ok(m), m),
            }
        },
        Ok(_) => {
            let m = c.insert("Format"@, txt("HEIC"@));
            (Ok(m), m)
        },
    }
}

/// Whether reading the whole file `d` can be done: an MP4 file must have
/// a layout the video reader takes.
pub open spec fn bytes_readable(d: Seq<u8>) -> bool {
    detect(d) == Ok::<FileFormat, Seq<char>>(FileFormat::Mp4) ==> d.len() <= isize::MAX && video_readable(
        d,
        VideoKind::Mp4,
    )
}

/// Where the EXIF data of a file is, with its format.
pub open spec fn locate(d: Seq<u8>, max: nat) -> Result<(int, int, FileFormat), Seq<char>> {
    let whole = if d.len() < max { d.len() as int } else { max as int };
    if d.len() < 32 {
        Err(io_eof())
    } else if d[0] == 0xFF && d[1] == 0xD8 {
        match locate_jpeg(d, 2) {
            Ok((o, s)) => Ok((o, s, FileFormat::Jpeg)),
            Err(e) => Err(e),
        }
    } else if (d[0] == 0x49 && d[1] == 0x49) || (d[0] == 0x4D && d[1] == 0x4D) {
        Ok((0, whole, FileFormat::Tiff))
    } else if ftyp_at(d) {
        Ok((0, whole, FileFormat::Heic))
    } else {
        Err("Invalid EXIF data: "@ + "Unsupported file format"@)
    }
}

/// The bytes of the segment at `offset`, at most `max` of them.
pub open spec fn read_at(d: Seq<u8>, offset: int, size: int, max: nat) -> Result<Seq<u8>, Seq<char>> {
    let n = if size < max { size } else { max as int };
    if offset + n > d.len() {
        Err(io_eof())
    } else {
        Ok(d.subrange(offset, offset + n))
    }
}

/// Whether the first directory of TIFF data, or the Exif directory it
/// points to, starts past the data's end (its offsets count from the start
/// of the file, which the data may not reach).
pub open spec fn ifd_out_of_range(e: Seq<u8>) -> bool {
    if e.len() < 8 || !((e[0] == 0x49 && e[1] == 0x49) || (e[0] == 0x4D && e[1] == 0x4D)) {
        false
    } else {
        let little = e[0] == 0x49;
        let ifd0 = u32_at(e, 4, little) as int;
        if ifd0 + 2 > e.len() {
            true
        } else {
            match sub_ifd_offset(e, ifd0, 0x8769, little) {
                Some(o) => o + 2 > e.len(),
                None => false,
            }
        }
    }
}

/// What the reader holds, as plain values.
pub ghost struct OptimalView {
    pub target_fields: Seq<Seq<char>>,
    pub include_maker_notes: bool,
    pub include_gps: bool,
    pub include_interop: bool,
    pub force_exif_segment: bool,
    pub mmap_threshold: usize,
    pub max_exif_size: usize,
    pub avx2_supported: bool,
    pub mmap_count: usize,
    pub seek_count: usize,
    pub hybrid_count: usize,
    pub simd_count: usize,
    pub total_bytes_read: usize,
    pub total_processing_time: u64,
    pub cache: M,
}

/// Whether every tag group is read and nothing is filtered.
pub open spec fn full_parse(v: OptimalView) -> bool {
    v.include_maker_notes && v.include_gps && v.include_interop && v.target_fields.len() == 0
        && !v.force_exif_segment
}

/// The strategy for a file of `size` bytes when everything is read.
pub open spec fn strategy_for(threshold: nat, size: nat) -> ParseStrategy {
    if size <= threshold {
        ParseStrategy::MemoryMap
    } else if size <= threshold * 4 {
        ParseStrategy::Hybrid
    } else {
        ParseStrategy::SeekOptimized
    }
}

/// Whether the first check of a tag name's three bytes can be made for
/// each name up to the first GPS name.
pub open spec fn gps_scan_defined(fields: Seq<Seq<char>>) -> bool {
    forall|i: int|
        0 <= i < fields.len() && (forall|j: int| 0 <= j < i ==> !is_gps_tag_name(encode_utf8(#[trigger] fields[j])))
            ==> gps_check_defined(encode_utf8(#[trigger] fields[i]))
}

/// Whether one of the first `n` fields is a GPS name.
pub open spec fn some_gps(fields: Seq<Seq<char>>, n: int) -> bool {
    exists|j: int| 0 <= j < n && is_gps_tag_name(encode_utf8(#[trigger] fields[j]))
}

/// Whether one of the fields looks like a maker-note name.
pub open spec fn some_maker_note(fields: Seq<Seq<char>>) -> bool {
    exists|j: int| 0 <= j < fields.len() && is_maker_note_tag_name(#[trigger] fields[j])
}

/// A fresh reader's state.
pub open spec fn fresh_view(
    targets: Seq<Seq<char>>,
    maker_notes: bool,
    gps: bool,
    interop: bool,
    force: bool,
    mmap_threshold: usize,
    max_exif_size: usize,
) -> OptimalView {
    OptimalView {
        target_fields: targets,
        include_maker_notes: maker_notes,
        include_gps: gps,
        include_interop: interop,
        force_exif_segment: force,
        mmap_threshold,
        max_exif_size,
        avx2_supported: false,
        mmap_count: 0,
        seek_count: 0,
        hybrid_count: 0,
        simd_count: 0,
        total_bytes_read: 0,
        total_processing_time: 0,
        cache: Map::empty(),
    }
}

/// Reading the whole file: one more mapped file, its bytes counted when
/// the reading succeeds.
pub open spec fn mmap_step(d: Seq<u8>, v: OptimalView) -> (Result<M, Seq<char>>, OptimalView) {
    let (r, c) = bytes_outcome(d, v.target_fields, v.cache);
    let v1 = OptimalView { mmap_count: (v.mmap_count + 1) as usize, cache: c, ..v };
    match r {
        Ok(m) => (Ok(m), OptimalView { total_bytes_read: (v.total_bytes_read + d.len()) as usize, ..v1 }),
        Err(e) => (Err(e), v1),
    }
}

/// Reading only the EXIF segment: one more sought file, the segment's
/// bytes counted; TIFF data whose directories lie past the segment is
/// read from the whole file instead.
pub open spec fn seek_step(d: Seq<u8>, v: OptimalView) -> (Result<M, Seq<char>>, OptimalView) {
    let v1 = OptimalView { seek_count: (v.seek_count + 1) as usize, ..v };
    match locate(d, v.max_exif_size as nat) {
        Err(e) => (Err(e), v1),
        Ok((o, s, f)) => match read_at(d, o, s, v.max_exif_size as nat) {
            Err(e) => (Err(e), v1),
            Ok(seg) => {
                let v2 = OptimalView { total_bytes_read: (v1.total_bytes_read + seg.len()) as usize, ..v1 };
                if f == FileFormat::Tiff && ifd_out_of_range(seg) {
                    mmap_step(d, v2)
                } else {
                    let (r, c) = tiff_into(seg, v.target_fields, v.cache);
                    (r, OptimalView { cache: c, ..v2 })
                }
            },
        },
    }
}

/// The size of the first part of a file searched for EXIF.
pub open spec fn map_size(len: nat, threshold: nat) -> nat {
    if len / 4 < threshold {
        len / 4
    } else {
        threshold
    }
}

/// Searching the first part of the file: one more hybrid file, the part's
/// bytes counted when its EXIF is read; the EXIF segment is read on its
/// own when the part holds none.
pub open spec fn hybrid_step(d: Seq<u8>, v: OptimalView) -> (Result<M, Seq<char>>, OptimalView) {
    let v1 = OptimalView { hybrid_count: (v.hybrid_count + 1) as usize, ..v };
    let n = map_size(d.len(), v.mmap_threshold as nat);
    match mapped_scan(d.subrange(0, n as int), 0) {
        Some(exif) => {
            let (r, c) = tiff_into(exif, v.target_fields, v.cache);
            match r {
                Ok(m) => (Ok(m), OptimalView { cache: c, total_bytes_read: (v1.total_bytes_read + n) as usize, ..v1 }),
                Err(e) => (Err(e), OptimalView { cache: c, ..v1 }),
            }
        },
        None => seek_step(d, v1),
    }
}

/// What reading a file of contents `d` gives, and the reader after: an
/// MP4 file is read whole; a file read in part, or forced to its EXIF
/// segment, only in its segment; else by the strategy for its size.
pub open spec fn file_step(d: Seq<u8>, v: OptimalView) -> (Result<M, Seq<char>>, OptimalView) {
    let v0 = OptimalView { cache: Map::empty(), ..v };
    if d.len() < 32 {
        (Err(io_eof()), v0)
    } else {
        match detect(d) {
            Err(e) => (Err(e), v0),
            Ok(FileFormat::Mp4) => mmap_step(d, v0),
            Ok(_) => {
                let strategy = if v.force_exif_segment || !full_parse(v) {
                    ParseStrategy::SeekOptimized
                } else {
                    strategy_for(v.mmap_threshold as nat, d.len())
                };
                match strategy {
                    ParseStrategy::MemoryMap => mmap_step(d, v0),
                    ParseStrategy::SeekOptimized => seek_step(d, v0),
                    ParseStrategy::Hybrid => hybrid_step(d, v0),
                }
            },
        }
    }
}

/// Whether the reader can take a file of contents `d`: an MP4 layout the
/// video reader takes, a threshold whose fourfold fits, and counters that
/// do not overflow.
pub open spec fn file_readable(d: Seq<u8>, v: OptimalView) -> bool {
    &&& bytes_readable(d)
    &&& (full_parse(v) ==> v.mmap_threshold * 4 <= usize::MAX)
    &&& v.mmap_count < usize::MAX
    &&& v.seek_count < usize::MAX
    &&& v.hybrid_count < usize::MAX
    &&& v.total_bytes_read + d.len() + v.max_exif_size <= usize::MAX
}

/// The reader with the settings of `o`.
pub open spec fn with_options(v: OptimalView, o: ReadOptions) -> OptimalView {
    OptimalView {
        target_fields: match o.wanted_tags {
            Some(w) => views(w@),
            None => Seq::empty(),
        },
        include_maker_notes: o.include_maker_notes,
        include_gps: o.include_gps,
        include_interop: o.include_interop,
        force_exif_segment: o.exif_segment_only,
        ..v
    }
}

/// The reader `after` with the settings of `before`.
pub open spec fn settings_back(after: OptimalView, before: OptimalView) -> OptimalView {
    OptimalView {
        target_fields: before.target_fields,
        include_maker_notes: before.include_maker_notes,
        include_gps: before.include_gps,
        include_interop: before.include_interop,
        force_exif_segment: before.force_exif_segment,
        ..after
    }
}

/// The tag number of the fields that can be asked for one by one.
pub open spec fn field_tag(name: Seq<char>) -> Option<u16> {
    if name == "Make"@ {
        Some(0x010F)
    } else if name == "Model"@ {
        Some(0x0110)
    } else if name == "DateTime"@ {
        Some(0x0132)
    } else if name == "ExposureTime"@ {
        Some(0x829A)
    } else if name == "FNumber"@ {
        Some(0x829D)
    } else if name == "ISO"@ {
        Some(0x8827)
    } else if name == "FocalLength"@ {
        Some(0x920A)
    } else if name == "Flash"@ {
        Some(0x9209)
    } else if name == "WhiteBalance"@ {
        Some(0xA403)
    } else if name == "GPSLatitude"@ {
        Some(0x0002)
    } else if name == "GPSLongitude"@ {
        Some(0x0004)
    } else {
        None
    }
}

/// The statistics map of the reader.
pub open spec fn optimal_stats(v: OptimalView) -> M {
    Map::<Seq<char>, Seq<PieceModel>>::empty()
        .insert("mmap_count"@, txt(dec_text(v.mmap_count as nat)))
        .insert("seek_count"@, txt(dec_text(v.seek_count as nat)))
        .insert("hybrid_count"@, txt(dec_text(v.hybrid_count as nat)))
        .insert("simd_count"@, txt(dec_text(v.simd_count as nat)))
        .insert("total_bytes_read"@, txt(dec_text(v.total_bytes_read as nat)))
        .insert("total_processing_time"@, txt(dec_text(v.total_processing_time as nat)))
        .insert("cache_hit_rate"@, txt("0"@))
        .insert("parser_type"@, txt("OptimalExif"@))
        .insert("avx2_supported"@, txt(if v.avx2_supported { "true"@ } else { "false"@ }))
}

/// Counters of how files were read.
struct OptimalParserStats {
    mmap_count: usize,
    seek_count: usize,
    hybrid_count: usize,
    simd_count: usize,
    total_bytes_read: usize,
    total_processing_time: u64,
}

/// Where the EXIF data of a file is.
struct ExifSegmentInfo {
    offset: usize,
    size: usize,
    format: FileFormat,
}

/// The reader that picks its strategy by format and size.
pub struct OptimalExifParser {
    read_buffer: Vec<u8>,
    max_exif_size: usize,
    metadata_cache: TagMap,
    target_fields: Vec<String>,
    include_maker_notes: bool,
    include_gps: bool,
    include_interop: bool,
    force_exif_segment: bool,
    mmap_threshold: usize,
    avx2_supported: bool,
    stats: OptimalParserStats,
}

impl View for OptimalExifParser {
    type V = OptimalView;

    closed spec fn view(&self) -> OptimalView {
        OptimalView {
            target_fields: views(self.target_fields@),
            include_maker_notes: self.include_maker_notes,
            include_gps: self.include_gps,
            include_interop: self.include_interop,
            force_exif_segment: self.force_exif_segment,
            mmap_threshold: self.mmap_threshold,
            max_exif_size: self.max_exif_size,
            avx2_supported: self.avx2_supported,
            mmap_count: self.stats.mmap_count,
            seek_count: self.stats.seek_count,
            hybrid_count: self.stats.hybrid_count,
            simd_count: self.stats.simd_count,
            total_bytes_read: self.stats.total_bytes_read,
            total_processing_time: self.stats.total_processing_time,
            cache: self.metadata_cache@,
        }
    }
}

impl OptimalExifParser {
    fn make(
        targets: Vec<String>,
        maker_notes: bool,
        gps: bool,
        interop: bool,
        force: bool,
        mmap_threshold: usize,
        max_exif_size: usize,
    ) -> (r: OptimalExifParser)
        ensures
            r@ == fresh_view(views(targets@), maker_notes, gps, interop, force, mmap_threshold, max_exif_size),
    {
        let r = OptimalExifParser {
            read_buffer: Vec::with_capacity(65536),
            max_exif_size,
            metadata_cache: TagMap::new(),
            target_fields: targets,
            include_maker_notes: maker_notes,
            include_gps: gps,
            include_interop: interop,
            force_exif_segment: force,
            mmap_threshold,
            avx2_supported: false,
            stats: OptimalParserStats {
                mmap_count: 0,
                seek_count: 0,
                hybrid_count: 0,
                simd_count: 0,
                total_bytes_read: 0,
                total_processing_time: 0,
            },
        };
        assert(r@ =~= fresh_view(views(targets@), maker_notes, gps, interop, force, mmap_threshold, max_exif_size));
        r
    }

    /// A reader of everything, mapping files up to 8 MiB whole and reading
    /// at most 2 MiB of EXIF.
    pub fn new() -> (r: OptimalExifParser)
        ensures
            r@ == fresh_view(Seq::empty(), true, true, true, false, 8388608, 2097152),
    {
        let r = Self::make(Vec::new(), true, true, true, false, 8388608, 2097152);
        assert(views(Seq::<String>::empty()) =~= Seq::<Seq<char>>::empty());
        r
    }

    /// A reader that keeps only `fields`, reading only the EXIF segment;
    /// maker notes and GPS are read only when a field looks like one of
    /// theirs.
    pub fn with_target_fields(fields: Vec<String>) -> (r: OptimalExifParser)
        requires
            gps_scan_defined(views(fields@)),
        ensures
            r@ == fresh_view(
                views(fields@),
                some_maker_note(views(fields@)),
                some_gps(views(fields@), fields@.len() as int),
                false,
                true,
                8388608,
                2097152,
            ),
    {
        let mut maker_notes = false;
        let mut i: usize = 0;
        while i < fields.len()
            invariant
                i <= fields@.len(),
                maker_notes == exists|j: int| 0 <= j < i && is_maker_note_tag_name(#[trigger] views(fields@)[j]),
            decreases fields.len() - i,
        {
            proof {
                assert(views(fields@)[i as int] == fields@[i as int]@);
            }
            if looks_like_maker_note_tag(fields[i].as_str()) {
                maker_notes = true;
            }
            i = i + 1;
        }
        let mut gps = false;
        let mut k: usize = 0;
        while k < fields.len() && !gps
            invariant
                k <= fields@.len(),
                gps_scan_defined(views(fields@)),
                gps == some_gps(views(fields@), k as int),
            decreases fields.len() - k,
        {
            let f = fields[k].as_str();
            proof {
                assert(views(fields@)[k as int] == f@);
            }
            if starts_with_gps(f) {
                gps = true;
            }
            k = k + 1;
        }
        proof {
            if gps {
                let j = choose|j: int| 0 <= j < k && is_gps_tag_name(encode_utf8(#[trigger] views(fields@)[j]));
                assert(some_gps(views(fields@), fields@.len() as int));
            }
        }
        Self::make(fields, maker_notes, gps, false, true, 8388608, 2097152)
    }

    /// A reader of everything with the given mapping threshold and EXIF
    /// size limit.
    pub fn with_thresholds(mmap_threshold: usize, max_exif_size: usize) -> (r: OptimalExifParser)
        ensures
            r@ == fresh_view(Seq::empty(), true, true, true, false, mmap_threshold, max_exif_size),
    {
        let r = Self::make(Vec::new(), true, true, true, false, mmap_threshold, max_exif_size);
        assert(views(Seq::<String>::empty()) =~= Seq::<Seq<char>>::empty());
        r
    }

    /// Reads a file of contents `data` with the strategy its format, the
    /// options and its size call for.
    pub fn parse_file(&mut self, data: &[u8]) -> (r: Result<TagMap, ExifError>)
        requires
            file_readable(data@, old(self)@),
        ensures
            r matches Ok(m) ==> file_step(data@, old(self)@).0 == Ok::<M, Seq<char>>(m@),
            r matches Err(e) ==> file_step(data@, old(self)@).0 == Err::<M, Seq<char>>(error_message(e)),
            final(self)@ == file_step(data@, old(self)@).1,
    {
        self.parse_file_inner(data)
    }

    /// Whether the reader can take a file of contents `data`: an MP4 file
    /// has a layout the video reader takes, the mapping threshold's fourfold
    /// fits when everything is read, and the counters do not overflow.
    pub fn can_read(&self, data: &[u8]) -> (r: bool)
        ensures
            r == file_readable(data@, self@),
    {
        let video_ok = match self.detect_format(data) {
            Ok(FileFormat::Mp4) => data.len() <= isize::MAX as usize && VideoParser::is_readable(data, VideoKind::Mp4),
            _ => true,
        };
        let threshold_ok = !self.is_full_parse() || self.mmap_threshold <= usize::MAX / 4;
        let counters_ok = self.stats.mmap_count < usize::MAX && self.stats.seek_count < usize::MAX
            && self.stats.hybrid_count < usize::MAX && self.stats.total_bytes_read <= usize::MAX - data.len()
            && self.stats.total_bytes_read + data.len() <= usize::MAX - self.max_exif_size;
        video_ok && threshold_ok && counters_ok
    }

    /// Whether the reader, with the settings of `options`, can take a file
    /// of contents `data`.
    pub fn can_read_with_options(&self, data: &[u8], options: &ReadOptions) -> (r: bool)
        ensures
            r == file_readable(data@, with_options(self@, *options)),
    {
        let video_ok = match self.detect_format(data) {
            Ok(FileFormat::Mp4) => data.len() <= isize::MAX as usize && VideoParser::is_readable(data, VideoKind::Mp4),
            _ => true,
        };
        let no_targets = match &options.wanted_tags {
            Some(w) => w.len() == 0,
            None => true,
        };
        let full = options.include_maker_notes && options.include_gps && options.include_interop && no_targets
            && !options.exif_segment_only;
        proof {
            assert(views(Seq::<String>::empty()) =~= Seq::<Seq<char>>::empty());
        }
        let threshold_ok = !full || self.mmap_threshold <= usize::MAX / 4;
        let counters_ok = self.stats.mmap_count < usize::MAX && self.stats.seek_count < usize::MAX
            && self.stats.hybrid_count < usize::MAX && self.stats.total_bytes_read <= usize::MAX - data.len()
            && self.stats.total_bytes_read + data.len() <= usize::MAX - self.max_exif_size;
        video_ok && threshold_ok && counters_ok
    }

    /// Reads a file with the settings of `options`, then puts the reader's
    /// own settings back.
    pub fn parse_file_with_options(&mut self, data: &[u8], options: &ReadOptions) -> (r: Result<TagMap, ExifError>)
        requires
            file_readable(data@, with_options(old(self)@, *options)),
        ensures
            r matches Ok(m) ==> file_step(data@, with_options(old(self)@, *options)).0 == Ok::<M, Seq<char>>(m@),
            r matches Err(e) ==> file_step(data@, with_options(old(self)@, *options)).0 == Err::<M, Seq<char>>(
                error_message(e),
            ),
            final(self)@ == settings_back(file_step(data@, with_options(old(self)@, *options)).1, old(self)@),
    {
        let saved = self.snapshot_options();
        self.apply_options(options);
        let result = self.parse_file_inner(data);
        self.restore_options(saved);
        result
    }

    /// The settings that options change.
    fn snapshot_options(&self) -> (r: (Vec<String>, bool, bool, bool, bool))
        ensures
            views(r.0@) == self@.target_fields,
            r.1 == self@.include_maker_notes,
            r.2 == self@.include_gps,
            r.3 == self@.include_interop,
            r.4 == self@.force_exif_segment,
    {
        (
            self.target_fields.clone(),
            self.include_maker_notes,
            self.include_gps,
            self.include_interop,
            self.force_exif_segment,
        )
    }

    /// Puts saved settings back.
    fn restore_options(&mut self, saved: (Vec<String>, bool, bool, bool, bool))
        ensures
            final(self)@ == (OptimalView {
                target_fields: views(saved.0@),
                include_maker_notes: saved.1,
                include_gps: saved.2,
                include_interop: saved.3,
                force_exif_segment: saved.4,
                ..old(self)@
            }),
    {
        self.target_fields = saved.0;
        self.include_maker_notes = saved.1;
        self.include_gps = saved.2;
        self.include_interop = saved.3;
        self.force_exif_segment = saved.4;
    }

    /// Takes the settings of `options`.
    fn apply_options(&mut self, options: &ReadOptions)
        ensures
            final(self)@ == with_options(old(self)@, *options),
    {
        self.target_fields = match &options.wanted_tags {
            Some(w) => w.clone(),
            None => Vec::new(),
        };
        self.include_maker_notes = options.include_maker_notes;
        self.include_gps = options.include_gps;
        self.include_interop = options.include_interop;
        self.force_exif_segment = options.exif_segment_only;
        assert(views(Seq::<String>::empty()) =~= Seq::<Seq<char>>::empty());
    }

    /// The tag groups the settings read.
    pub fn parse_scope(&self) -> (s: ParseScope)
        ensures
            s.maker_notes == self@.include_maker_notes,
            s.gps == self@.include_gps,
            s.interop == self@.include_interop,
    {
        ParseScope { maker_notes: self.include_maker_notes, gps: self.include_gps, interop: self.include_interop }
    }

    /// Whether every tag group is read and nothing is filtered.
    fn is_full_parse(&self) -> (r: bool)
        ensures
            r == full_parse(self@),
    {
        self.include_maker_notes && self.include_gps && self.include_interop && self.target_fields.len() == 0
            && !self.force_exif_segment
    }

    fn parse_file_inner(&mut self, data: &[u8]) -> (r: Result<TagMap, ExifError>)
        requires
            file_readable(data@, old(self)@),
        ensures
            r matches Ok(m) ==> file_step(data@, old(self)@).0 == Ok::<M, Seq<char>>(m@),
            r matches Err(e) ==> file_step(data@, old(self)@).0 == Err::<M, Seq<char>>(error_message(e)),
            final(self)@ == file_step(data@, old(self)@).1,
    {
        self.metadata_cache = TagMap::new();
        if data.len() < 32 {
            return Err(ExifError::IoError(text("failed to fill whole buffer")));
        }
        let header = sub_slice(data, 0, 32);
        let format = match self.detect_format(header) {
            Ok(f) => f,
            Err(e) => {
                assert(detect(header@) == detect(data@));
                return Err(e);
            },
        };
        assert(detect(header@) == detect(data@));
        if let FileFormat::Mp4 = format {
            return self.parse_with_memory_map(data);
        }
        let strategy = if self.force_exif_segment || !self.is_full_parse() {
            ParseStrategy::SeekOptimized
        } else {
            self.determine_strategy(data.len())
        };
        match strategy {
            ParseStrategy::MemoryMap => self.parse_with_memory_map(data),
            ParseStrategy::SeekOptimized => self.parse_with_seek_optimization(data),
            ParseStrategy::Hybrid => self.parse_with_hybrid_approach(data),
        }
    }

    /// The strategy for a file of `file_size` bytes when everything is
    /// read.
    pub fn determine_strategy(&self, file_size: usize) -> (r: ParseStrategy)
        requires
            self@.mmap_threshold * 4 <= usize::MAX,
        ensures
            r == strategy_for(self@.mmap_threshold as nat, file_size as nat),
    {
        if file_size <= self.mmap_threshold {
            ParseStrategy::MemoryMap
        } else if file_size <= self.mmap_threshold * 4 {
            ParseStrategy::Hybrid
        } else {
            ParseStrategy::SeekOptimized
        }
    }

    /// Reads the whole file.
    fn parse_with_memory_map(&mut self, data: &[u8]) -> (r: Result<TagMap, ExifError>)
        requires
            bytes_readable(data@),
            old(self)@.mmap_count < usize::MAX,
            old(self)@.total_bytes_read + data@.len() <= usize::MAX,
        ensures
            r matches Ok(m) ==> mmap_step(data@, old(self)@).0 == Ok::<M, Seq<char>>(m@),
            r matches Err(e) ==> mmap_step(data@, old(self)@).0 == Err::<M, Seq<char>>(error_message(e)),
            final(self)@ == mmap_step(data@, old(self)@).1,
    {
        self.stats.mmap_count = self.stats.mmap_count + 1;
        match self.parse_exif_from_bytes(data) {
            Ok(_) => {},
            Err(e) => {
                return Err(e);
            },
        }
        self.stats.total_bytes_read = self.stats.total_bytes_read + data.len();
        Ok(self.metadata_cache.duplicate())
    }

    /// Reads only the EXIF segment.
    fn parse_with_seek_optimization(&mut self, data: &[u8]) -> (r: Result<TagMap, ExifError>)
        requires
            bytes_readable(data@),
            old(self)@.mmap_count < usize::MAX,
            old(self)@.seek_count < usize::MAX,
            old(self)@.total_bytes_read + data@.len() + old(self)@.max_exif_size <= usize::MAX,
        ensures
            r matches Ok(m) ==> seek_step(data@, old(self)@).0 == Ok::<M, Seq<char>>(m@),
            r matches Err(e) ==> seek_step(data@, old(self)@).0 == Err::<M, Seq<char>>(error_message(e)),
            final(self)@ == seek_step(data@, old(self)@).1,
    {
        self.stats.seek_count = self.stats.seek_count + 1;
        let info = match self.locate_exif_segment(data) {
            Ok(i) => i,
            Err(e) => {
                return Err(e);
            },
        };
        let exif_data = match self.read_exif_segment(data, &info) {
            Ok(v) => v,
            Err(e) => {
                return Err(e);
            },
        };
        let tiff = match info.format {
            FileFormat::Tiff => true,
            _ => false,
        };
        if tiff && Self::has_out_of_range_ifd(exif_data.as_slice()) {
            return self.parse_with_memory_map(data);
        }
        match self.parse_exif_data_optimized(exif_data.as_slice()) {
            Ok(()) => Ok(self.metadata_cache.duplicate()),
            Err(e) => Err(e),
        }
    }

    /// Searches the first part of the file for the EXIF, reading the
    /// segment on its own when it is not there.
    fn parse_with_hybrid_approach(&mut self, data: &[u8]) -> (r: Result<TagMap, ExifError>)
        requires
            bytes_readable(data@),
            old(self)@.mmap_count < usize::MAX,
            old(self)@.seek_count < usize::MAX,
            old(self)@.hybrid_count < usize::MAX,
            old(self)@.total_bytes_read + data@.len() + old(self)@.max_exif_size <= usize::MAX,
        ensures
            r matches Ok(m) ==> hybrid_step(data@, old(self)@).0 == Ok::<M, Seq<char>>(m@),
            r matches Err(e) ==> hybrid_step(data@, old(self)@).0 == Err::<M, Seq<char>>(error_message(e)),
            final(self)@ == hybrid_step(data@, old(self)@).1,
    {
        self.stats.hybrid_count = self.stats.hybrid_count + 1;
        let quarter = data.len() / 4;
        let n = if quarter < self.mmap_threshold { quarter } else { self.mmap_threshold };
        let mapped = sub_slice(data, 0, n);
        match self.extract_exif_from_mapped(mapped) {
            Ok(exif_data) => {
                match self.parse_exif_data_optimized(exif_data.as_slice()) {
                    Ok(()) => {},
                    Err(e) => {
                        return Err(e);
                    },
                }
            },
            Err(_) => {
                return self.parse_with_seek_optimization(data);
            },
        }
        self.stats.total_bytes_read = self.stats.total_bytes_read + n;
        Ok(self.metadata_cache.duplicate())
    }

    /// Where the EXIF data of a file is, with its format.
    fn locate_exif_segment(&self, data: &[u8]) -> (r: Result<ExifSegmentInfo, ExifError>)
        ensures
            r matches Ok(info) ==> locate(data@, self@.max_exif_size as nat) == Ok::<(int, int, FileFormat), Seq<char>>(
                (info.offset as int, info.size as int, info.format),
            ),
            r matches Err(e) ==> locate(data@, self@.max_exif_size as nat) == Err::<(int, int, FileFormat), Seq<char>>(
                error_message(e),
            ),
    {
        if data.len() < 32 {
            return Err(ExifError::IoError(text("failed to fill whole buffer")));
        }
        let whole = if data.len() < self.max_exif_size { data.len() } else { self.max_exif_size };
        if data[0] == 0xFF && data[1] == 0xD8 {
            self.locate_jpeg_exif(data)
        } else if (data[0] == 0x49 && data[1] == 0x49) || (data[0] == 0x4D && data[1] == 0x4D) {
            Ok(ExifSegmentInfo { offset: 0, size: whole, format: FileFormat::Tiff })
        } else if data[4] == 0x66 && data[5] == 0x74 && data[6] == 0x79 && data[7] == 0x70 {
            self.locate_heic_exif(whole)
        } else {
            Err(ExifError::invalid("Unsupported file format"))
        }
    }

    /// Walks the JPEG markers to the APP1 segment that holds EXIF.
    fn locate_jpeg_exif(&self, data: &[u8]) -> (r: Result<ExifSegmentInfo, ExifError>)
        ensures
            r matches Ok(info) ==> locate_jpeg(data@, 2) == Ok::<(int, int), Seq<char>>((info.offset as int, info.size as int))
                && info.format == FileFormat::Jpeg,
            r matches Err(e) ==> locate_jpeg(data@, 2) == Err::<(int, int), Seq<char>>(error_message(e)),
    {
        let mut offset: usize = 2;
        while offset < 1048576
            invariant
                locate_jpeg(data@, offset as int) == locate_jpeg(data@, 2),
            decreases 1048576 - offset,
        {
            if offset > data.len() || data.len() - offset < 4 {
                return Err(ExifError::IoError(text("failed to fill whole buffer")));
            }
            if data[offset] != 0xFF {
                return Err(ExifError::invalid("Invalid JPEG marker"));
            }
            let marker = data[offset + 1];
            let segment_size = read_u16(data, offset + 2, false) as usize;
            if marker == 0xE1 {
                if data.len() - offset < 10 {
                    return Err(ExifError::IoError(text("failed to fill whole buffer")));
                }
                let sig: [u8; 6] = [0x45u8, 0x78u8, 0x69u8, 0x66u8, 0u8, 0u8];
                assert(sig@ =~= exif_signature());
                if crate::utils::bytes_equal(sub_slice(data, offset + 4, offset + 10), &sig) {
                    return Ok(
                        ExifSegmentInfo { offset: offset + 10, size: segment_size.wrapping_sub(6), format: FileFormat::Jpeg },
                    );
                }
            }
            if offset + 2 + segment_size >= 1048576 {
                return Err(ExifError::invalid("EXIF segment not found"));
            }
            offset = offset + 2 + segment_size;
        }
        Err(ExifError::invalid("EXIF segment not found"))
    }

    /// A HEIF or QuickTime file is read from its start, up to `size` bytes.
    fn locate_heic_exif(&self, size: usize) -> (r: Result<ExifSegmentInfo, ExifError>)
        ensures
            r matches Ok(info) && info.offset == 0 && info.size == size && info.format == FileFormat::Heic,
    {
        Ok(ExifSegmentInfo { offset: 0, size, format: FileFormat::Heic })
    }

    /// The segment's bytes, at most the EXIF size limit, counted as read.
    fn read_exif_segment(&mut self, data: &[u8], info: &ExifSegmentInfo) -> (r: Result<Vec<u8>, ExifError>)
        requires
            old(self)@.total_bytes_read + old(self)@.max_exif_size <= usize::MAX,
        ensures
            r matches Ok(v) ==> read_at(data@, info.offset as int, info.size as int, old(self)@.max_exif_size as nat)
                == Ok::<Seq<u8>, Seq<char>>(v@),
            r matches Err(e) ==> read_at(data@, info.offset as int, info.size as int, old(self)@.max_exif_size as nat)
                == Err::<Seq<u8>, Seq<char>>(error_message(e)),
            r matches Ok(v) ==> final(self)@ == (OptimalView {
                total_bytes_read: (old(self)@.total_bytes_read + v@.len()) as usize,
                ..old(self)@
            }),
            r is Err ==> final(self)@ == old(self)@,
            r matches Ok(v) ==> v@.len() <= old(self)@.max_exif_size,
    {
        let n = if info.size < self.max_exif_size { info.size } else { self.max_exif_size };
        if info.offset > data.len() || data.len() - info.offset < n {
            return Err(ExifError::IoError(text("failed to fill whole buffer")));
        }
        self.read_buffer = vstd::slice::slice_to_vec(sub_slice(data, info.offset, info.offset + n));
        self.stats.total_bytes_read = self.stats.total_bytes_read + n;
        Ok(self.read_buffer.clone())
    }

    /// Whether the first directory, or the Exif directory it points to,
    /// starts past the end of TIFF data.
    fn has_out_of_range_ifd(e: &[u8]) -> (r: bool)
        ensures
            r == ifd_out_of_range(e@),
    {
        if e.len() < 8 || !((e[0] == 0x49 && e[1] == 0x49) || (e[0] == 0x4D && e[1] == 0x4D)) {
            return false;
        }
        let little = e[0] == 0x49;
        let ifd0 = read_u32(e, 4, little) as usize;
        if ifd0 > e.len() || e.len() - ifd0 < 2 {
            return true;
        }
        match TiffParser::find_sub_ifd_offset(e, ifd0, 0x8769, little, 0) {
            Some(o) => (o as usize) > e.len() || e.len() - (o as usize) < 2,
            None => false,
        }
    }

    /// The EXIF data of the first APP1 segment in `data` that holds it.
    fn extract_exif_from_mapped(&self, data: &[u8]) -> (r: Result<Vec<u8>, ExifError>)
        ensures
            r matches Ok(v) ==> mapped_scan(data@, 0) == Some(v@),
            r is Err ==> mapped_scan(data@, 0) is None,
    {
        let mut i: usize = 0;
        while data.len() >= 10 && i < data.len() - 10
            invariant
                mapped_scan(data@, i as int) == mapped_scan(data@, 0),
            decreases data.len() - i,
        {
            if data[i] == 0xFF && data[i + 1] == 0xE1 && i + 10 < data.len() {
                let length = read_u16(data, i + 2, false) as usize;
                if length <= data.len() - i - 4 && length >= 6 {
                    let sig: [u8; 6] = [0x45u8, 0x78u8, 0x69u8, 0x66u8, 0u8, 0u8];
                    assert(sig@ =~= exif_signature());
                    if crate::utils::bytes_equal(sub_slice(data, i + 4, i + 10), &sig) {
                        return Ok(vstd::slice::slice_to_vec(sub_slice(data, i + 10, i + 4 + length)));
                    }
                }
            }
            i = i + 1;
        }
        Err(ExifError::invalid("EXIF not found in mapped region"))
    }

    /// Reads the whole contents of a file into the cache, by its format,
    /// and gives the cache.
    pub fn parse_exif_from_bytes(&mut self, data: &[u8]) -> (r: Result<TagMap, ExifError>)
        requires
            bytes_readable(data@),
        ensures
            r matches Ok(m) ==> bytes_outcome(data@, old(self)@.target_fields, old(self)@.cache).0 == Ok::<M, Seq<char>>(m@),
            r matches Err(e) ==> bytes_outcome(data@, old(self)@.target_fields, old(self)@.cache).0 == Err::<M, Seq<char>>(
                error_message(e),
            ),
            final(self)@ == (OptimalView {
                cache: bytes_outcome(data@, old(self)@.target_fields, old(self)@.cache).1,
                ..old(self)@
            }),
    {
        let format = match self.detect_format(data) {
            Ok(f) => f,
            Err(e) => {
                return Err(e);
            },
        };
        let outcome = match format {
            FileFormat::Jpeg => self.parse_jpeg_exif(data),
            FileFormat::Tiff => self.parse_tiff_exif(data),
            FileFormat::Heic => {
                self.metadata_cache.insert_str("Format", "HEIC");
                Ok(())
            },
            FileFormat::Mov => {
                assert(false);
                VideoParser::parse_mov_exif(data, &mut self.metadata_cache)
            },
            FileFormat::Mp4 => VideoParser::parse_mp4_exif(data, &mut self.metadata_cache),
        };
        match outcome {
            Ok(()) => Ok(self.metadata_cache.duplicate()),
            Err(e) => Err(e),
        }
    }

    /// Reads TIFF data into the cache with the settings' scope, then keeps
    /// only the target fields.
    fn parse_exif_data_optimized(&mut self, exif_data: &[u8]) -> (r: Result<(), ExifError>)
        ensures
            r matches Ok(()) ==> tiff_into(exif_data@, old(self)@.target_fields, old(self)@.cache).0 == Ok::<M, Seq<char>>(
                final(self)@.cache,
            ),
            r matches Err(e) ==> tiff_into(exif_data@, old(self)@.target_fields, old(self)@.cache).0 == Err::<M, Seq<char>>(
                error_message(e),
            ),
            final(self)@ == (OptimalView {
                cache: tiff_into(exif_data@, old(self)@.target_fields, old(self)@.cache).1,
                ..old(self)@
            }),
    {
        match TiffParser::parse_tiff_exif(exif_data, &mut self.metadata_cache) {
            Ok(()) => {},
            Err(e) => {
                return Err(e);
            },
        }
        self.apply_target_field_filter();
        Ok(())
    }

    /// Keeps only the keys that match a target field or its aliases, when
    /// there are target fields.
    fn apply_target_field_filter(&mut self)
        ensures
            final(self)@ == (OptimalView { cache: target_filter(old(self)@.cache, old(self)@.target_fields), ..old(self)@ }),
    {
        if self.target_fields.len() == 0 {
            return;
        }
        let wanted = wanted_normalized_set(self.target_fields.as_slice());
        let kept = keep_wanted(&self.metadata_cache, wanted.as_slice());
        proof {
            let a = Set::new(|k: Seq<char>| views(wanted@).contains(normal_tag(k)));
            assert forall|k: Seq<char>| a.contains(k) == wanted_keys(views(self.target_fields@)).contains(k) by {
                assert(views(wanted@).contains(normal_tag(k)) == views(wanted@).to_set().contains(normal_tag(k)));
            }
            assert(a =~= wanted_keys(views(self.target_fields@)));
        }
        self.metadata_cache = kept;
    }

    /// Reads JPEG data: the EXIF of its first APP1 segment that holds it,
    /// else the whole data as TIFF.
    fn parse_jpeg_exif(&mut self, data: &[u8]) -> (r: Result<(), ExifError>)
        ensures
            r matches Ok(()) ==> tiff_into(
                match mapped_scan(data@, 0) {
                    Some(x) => x,
                    None => data@,
                },
                old(self)@.target_fields,
                old(self)@.cache,
            ).0 == Ok::<M, Seq<char>>(final(self)@.cache),
            r matches Err(e) ==> tiff_into(
                match mapped_scan(data@, 0) {
                    Some(x) => x,
                    None => data@,
                },
                old(self)@.target_fields,
                old(self)@.cache,
            ).0 == Err::<M, Seq<char>>(error_message(e)),
            final(self)@ == (OptimalView {
                cache: tiff_into(
                    match mapped_scan(data@, 0) {
                        Some(x) => x,
                        None => data@,
                    },
                    old(self)@.target_fields,
                    old(self)@.cache,
                ).1,
                ..old(self)@
            }),
    {
        let payload = match self.extract_exif_from_mapped(data) {
            Ok(exif) => exif,
            Err(_) => vstd::slice::slice_to_vec(data),
        };
        self.parse_exif_data_optimized(payload.as_slice())
    }

    /// Reads TIFF data.
    fn parse_tiff_exif(&mut self, data: &[u8]) -> (r: Result<(), ExifError>)
        ensures
            r matches Ok(()) ==> tiff_into(data@, old(self)@.target_fields, old(self)@.cache).0 == Ok::<M, Seq<char>>(
                final(self)@.cache,
            ),
            r matches Err(e) ==> tiff_into(data@, old(self)@.target_fields, old(self)@.cache).0 == Err::<M, Seq<char>>(
                error_message(e),
            ),
            final(self)@ == (OptimalView {
                cache: tiff_into(data@, old(self)@.target_fields, old(self)@.cache).1,
                ..old(self)@
            }),
    {
        self.parse_exif_data_optimized(data)
    }

    /// The format of a file by its first bytes.
    fn detect_format(&self, data: &[u8]) -> (r: Result<FileFormat, ExifError>)
        ensures
            r matches Ok(f) ==> detect(data@) == Ok::<FileFormat, Seq<char>>(f),
            r matches Err(e) ==> detect(data@) == Err::<FileFormat, Seq<char>>(error_message(e)),
    {
        if data.len() < 4 {
            return Err(ExifError::invalid("File too small"));
        }
        if data[0] == 0xFF && data[1] == 0xD8 {
            Ok(FileFormat::Jpeg)
        } else if (data[0] == 0x49 && data[1] == 0x49) || (data[0] == 0x4D && data[1] == 0x4D) {
            Ok(FileFormat::Tiff)
        } else if data.len() >= 8 && data[4] == 0x66 && data[5] == 0x74 && data[6] == 0x79 && data[7] == 0x70 {
            if data.len() >= 12 && ((data[8] == 0x6d && data[9] == 0x70 && data[10] == 0x34 && (data[11] == 0x32
                || data[11] == 0x31)) || (data[8] == 0x69 && data[9] == 0x73 && data[10] == 0x6f && data[11] == 0x6d)) {
                Ok(FileFormat::Mp4)
            } else {
                Ok(FileFormat::Heic)
            }
        } else {
            Err(ExifError::invalid("Unsupported format"))
        }
    }

    /// The tag number of a field that can be asked for on its own.
    pub fn field_name_to_tag_id(&self, field_name: &str) -> (r: Result<u16, ExifError>)
        ensures
            r matches Ok(t) ==> field_tag(field_name@) == Some(t),
            r matches Err(e) ==> field_tag(field_name@) is None && error_message(e) == "Invalid EXIF data: "@ + "Unknown field: "@
                + field_name@,
    {
        let t: u16 = if crate::text::str_eq(field_name, "Make") {
            0x010F
        } else if crate::text::str_eq(field_name, "Model") {
            0x0110
        } else if crate::text::str_eq(field_name, "DateTime") {
            0x0132
        } else if crate::text::str_eq(field_name, "ExposureTime") {
            0x829A
        } else if crate::text::str_eq(field_name, "FNumber") {
            0x829D
        } else if crate::text::str_eq(field_name, "ISO") {
            0x8827
        } else if crate::text::str_eq(field_name, "FocalLength") {
            0x920A
        } else if crate::text::str_eq(field_name, "Flash") {
            0x9209
        } else if crate::text::str_eq(field_name, "WhiteBalance") {
            0xA403
        } else if crate::text::str_eq(field_name, "GPSLatitude") {
            0x0002
        } else if crate::text::str_eq(field_name, "GPSLongitude") {
            0x0004
        } else {
            let mut msg = text("Unknown field: ");
            crate::text::append_str(&mut msg, field_name);
            return Err(ExifError::InvalidExif(msg));
        };
        Ok(t)
    }

    /// A field on its own: the placeholder text `<field>_value` for a field
    /// with a tag number.
    fn parse_specific_field(&self, exif_data: &[u8], field_name: &str) -> (r: Result<Option<String>, ExifError>)
        ensures
            r matches Ok(v) ==> field_tag(field_name@) is Some && (v matches Some(t) && t@ == field_name@ + "_value"@),
            r is Err ==> field_tag(field_name@) is None,
    {
        let tag_id = match self.field_name_to_tag_id(field_name) {
            Ok(t) => t,
            Err(e) => {
                return Err(e);
            },
        };
        self.parse_tag_from_exif(exif_data, tag_id, field_name)
    }

    /// The placeholder text of a field.
    fn parse_tag_from_exif(&self, _exif_data: &[u8], _tag_id: u16, field_name: &str) -> (r: Result<Option<String>, ExifError>)
        ensures
            r matches Ok(v) && v matches Some(t) && t@ == field_name@ + "_value"@,
    {
        let mut t = text(field_name);
        crate::text::append_str(&mut t, "_value");
        Ok(Some(t))
    }

    /// The counters by name.
    pub fn get_stats(&self) -> (r: TagMap)
        ensures
            r@ == optimal_stats(self@),
    {
        let mut stats = TagMap::new();
        stats.insert_text("mmap_count", u64_text(self.stats.mmap_count as u64));
        stats.insert_text("seek_count", u64_text(self.stats.seek_count as u64));
        stats.insert_text("hybrid_count", u64_text(self.stats.hybrid_count as u64));
        stats.insert_text("simd_count", u64_text(self.stats.simd_count as u64));
        stats.insert_text("total_bytes_read", u64_text(self.stats.total_bytes_read as u64));
        stats.insert_text("total_processing_time", u64_text(self.stats.total_processing_time));
        stats.insert_str("cache_hit_rate", "0");
        stats.insert_str("parser_type", "OptimalExif");
        stats.insert_str("avx2_supported", if self.avx2_supported { "true" } else { "false" });
        stats
    }

    /// Sets the counters back to zero.
    pub fn reset_stats(&mut self)
        ensures
            final(self)@ == (OptimalView {
                mmap_count: 0,
                seek_count: 0,
                hybrid_count: 0,
                simd_count: 0,
                total_bytes_read: 0,
                total_processing_time: 0,
                ..old(self)@
            }),
    {
        self.stats = OptimalParserStats {
            mmap_count: 0,
            seek_count: 0,
            hybrid_count: 0,
            simd_count: 0,
            total_bytes_read: 0,
            total_processing_time: 0,
        };
    }

    /// Adds the time a file took, in microseconds.
    pub fn record_processing_time(&mut self, micros: u64)
        requires
            old(self)@.total_processing_time + micros <= u64::MAX,
        ensures
            final(self)@ == (OptimalView {
                total_processing_time: (old(self)@.total_processing_time + micros) as u64,
                ..old(self)@
            }),
    {
        self.stats.total_processing_time = self.stats.total_processing_time + micros;
    }

    /// Records whether the processor has AVX2, as detected by the caller.
    pub fn set_avx2_supported(&mut self, supported: bool)
        ensures
            final(self)@ == (OptimalView { avx2_supported: supported, ..old(self)@ }),
    {
        self.avx2_supported = supported;
    }

    /// The most EXIF bytes read from a file.
    pub fn max_exif_size(&self) -> (r: usize)
        ensures
            r == self@.max_exif_size,
    {
        self.max_exif_size
    }

    /// The size up to which files are read whole.
    pub fn mmap_threshold(&self) -> (r: usize)
        ensures
            r == self@.mmap_threshold,
    {
        self.mmap_threshold
    }

    /// The fields kept.
    pub fn target_fields(&self) -> (r: &[String])
        ensures
            views(r@) == self@.target_fields,
    {
        self.target_fields.as_slice()
    }
}

impl Default for OptimalExifParser {
    fn default() -> (r: OptimalExifParser)
        ensures
            r@ == fresh_view(Seq::empty(), true, true, true, false, 8388608, 2097152),
    {
        OptimalExifParser::new()
    }
}

/// The results of reading files one after another with one reader (a
/// file that fails gives an empty map), and the reader after.
pub open spec fn batch_run(files: Seq<Seq<u8>>, v: OptimalView) -> (Seq<M>, OptimalView)
    decreases files.len(),
{
    if files.len() == 0 {
        (Seq::empty(), v)
    } else {
        let (r, v1) = file_step(files[0], v);
        let (rest, v2) = batch_run(files.drop_first(), v1);
        (
            seq![
                match r {
                    Ok(m) => m,
                    Err(_) => Map::empty(),
                },
            ] + rest,
            v2,
        )
    }
}

/// Whether each file can be read by the reader as the earlier files left
/// it.
pub open spec fn batch_readable(files: Seq<Seq<u8>>, v: OptimalView) -> bool
    decreases files.len(),
{
    files.len() == 0 || (file_readable(files[0], v) && batch_readable(files.drop_first(), file_step(files[0], v).1))
}

/// A batch reader around one optimal reader.
pub struct OptimalBatchProcessor {
    parser: OptimalExifParser,
    batch_size: usize,
}

impl OptimalBatchProcessor {
    /// The reader's state.
    pub closed spec fn parser_view(&self) -> OptimalView {
        self.parser@
    }

    /// How many files make a batch.
    pub closed spec fn size(&self) -> usize {
        self.batch_size
    }

    /// A batch reader taking `batch_size` files at a time.
    pub fn new(batch_size: usize) -> (r: OptimalBatchProcessor)
        ensures
            r.parser_view() == fresh_view(Seq::empty(), true, true, true, false, 8388608, 2097152),
            r.size() == batch_size,
    {
        OptimalBatchProcessor { parser: OptimalExifParser::new(), batch_size }
    }

    /// Reads the files in batches, one after another; a file that fails
    /// gives an empty map.
    pub fn process_files(&mut self, files: &[Vec<u8>]) -> (r: Result<Vec<TagMap>, ExifError>)
        requires
            old(self).size() > 0,
            batch_readable(files@.map_values(|f: Vec<u8>| f@), old(self).parser_view()),
        ensures
            r matches Ok(v) && v@.len() == files@.len() && forall|i: int|
                0 <= i < files@.len() ==> (#[trigger] v@[i])@ == batch_run(
                    files@.map_values(|f: Vec<u8>| f@),
                    old(self).parser_view(),
                ).0[i],
            final(self).parser_view() == batch_run(files@.map_values(|f: Vec<u8>| f@), old(self).parser_view()).1,
            final(self).size() == old(self).size(),
    {
        let ghost all = files@.map_values(|f: Vec<u8>| f@);
        let ghost v0 = self.parser@;
        let mut results: Vec<TagMap> = Vec::new();
        let mut start: usize = 0;
        proof {
            assert(all.subrange(0, all.len() as int) =~= all);
            let (rest, v2) = batch_run(all, v0);
            assert(results@.map_values(|m: TagMap| m@) + rest =~= rest);
        }
        while start < files.len()
            invariant
                start <= files@.len(),
                all == files@.map_values(|f: Vec<u8>| f@),
                results@.len() == start,
                self.batch_size > 0,
                self.batch_size == old(self).batch_size,
                batch_run(all, v0) == ({
                    let (rest, v2) = batch_run(all.subrange(start as int, all.len() as int), self.parser@);
                    (results@.map_values(|m: TagMap| m@) + rest, v2)
                }),
                batch_readable(all.subrange(start as int, all.len() as int), self.parser@),
            decreases files.len() - start,
        {
            let end = if files.len() - start < self.batch_size { files.len() } else { start + self.batch_size };
            let mut j: usize = start;
            while j < end
                invariant
                    start <= j <= end <= files@.len(),
                    all == files@.map_values(|f: Vec<u8>| f@),
                    results@.len() == j,
                    self.batch_size > 0,
                    self.batch_size == old(self).batch_size,
                    batch_run(all, v0) == ({
                        let (rest, v2) = batch_run(all.subrange(j as int, all.len() as int), self.parser@);
                        (results@.map_values(|m: TagMap| m@) + rest, v2)
                    }),
                    batch_readable(all.subrange(j as int, all.len() as int), self.parser@),
                decreases end - j,
            {
                let ghost tail = all.subrange(j as int, all.len() as int);
                let ghost before = results@.map_values(|m: TagMap| m@);
                proof {
                    assert(tail[0] == files@[j as int]@);
                    assert(tail.drop_first() =~= all.subrange(j + 1, all.len() as int));
                }
                let ghost pv = self.parser@;
                let one = self.parser.parse_file(files[j].as_slice());
                let m = match one {
                    Ok(m) => m,
                    Err(_) => TagMap::new(),
                };
                results.push(m);
                proof {
                    let x = match file_step(tail[0], pv).0 {
                        Ok(x) => x,
                        Err(_) => Map::<Seq<char>, Seq<PieceModel>>::empty(),
                    };
                    assert(m@ == x);
                    assert(results@.map_values(|m: TagMap| m@) =~= before.push(x));
                    let (rest1, v21) = batch_run(tail.drop_first(), self.parser@);
                    assert(batch_run(tail, pv) == (seq![x] + rest1, v21));
                    assert(before.push(x) + rest1 =~= before + (seq![x] + rest1));
                }
                j = j + 1;
            }
            start = end;
        }
        proof {
            assert(all.subrange(files@.len() as int, all.len() as int) =~= Seq::<Seq<u8>>::empty());
            assert(results@.map_values(|m: TagMap| m@) + Seq::<M>::empty() =~= results@.map_values(|m: TagMap| m@));
        }
        Ok(results)
    }

    /// The reader's statistics.
    pub fn get_stats(&self) -> (r: TagMap)
        ensures
            r@ == optimal_stats(self.parser_view()),
    {
        self.parser.get_stats()
    }
}

impl Default for OptimalBatchProcessor {
    fn default() -> (r: OptimalBatchProcessor)
        ensures
            r.parser_view() == fresh_view(Seq::empty(), true, true, true, false, 8388608, 2097152),
            r.size() == 50,
    {
        OptimalBatchProcessor::new(50)
    }
}


/// The map with only the keys whose normal form is in `wanted`.
fn keep_wanted(m: &TagMap, wanted: &[String]) -> (r: TagMap)
    ensures
        r@ == m@.restrict(Set::new(|k: Seq<char>| views(wanted@).contains(normal_tag(k)))),
{
    let ghost keep = Set::new(|k: Seq<char>| views(wanted@).contains(normal_tag(k)));
    let keys = m.keys();
    let mut out = TagMap::new();
    let mut i: usize = 0;
    while i < keys.len()
        invariant
            i <= keys@.len(),
            keys@.len() == m@.len(),
            forall|j: int| 0 <= j < keys@.len() ==> m@.contains_key(#[trigger] keys@[j]@),
            out@ == m@.restrict(views(keys@.subrange(0, i as int)).to_set().intersect(keep)),
        decreases keys.len() - i,
    {
        let k = keys[i].as_str();
        proof {
            let a = views(keys@.subrange(0, i as int));
            assert(views(keys@.subrange(0, i + 1)) =~= a.push(k@));
            a.lemma_push_to_set_commute(k@);
        }
        if tag_is_wanted_normalized(k, wanted) {
            match m.get(k) {
                Some(v) => {
                    let copy = crate::utils::copy_value(v);
                    out.insert(text(k), copy);
                },
                None => {},
            }
        }
        assert(out@ =~= m@.restrict(views(keys@.subrange(0, i + 1)).to_set().intersect(keep)));
        i = i + 1;
    }
    proof {
        assert(keys@.subrange(0, keys@.len() as int) =~= keys@);
        assert forall|k: Seq<char>| m@.contains_key(k) implies views(keys@).to_set().contains(k) by {
            let j = choose|j: int| 0 <= j < keys@.len() && #[trigger] keys@[j]@ == k;
            assert(views(keys@)[j] == k);
        }
        assert(out@ =~= m@.restrict(keep));
    }
    out
}

} // verus!

verus! {

/// With target fields, every tag the reader gives matches one of them or
/// one of their aliases.
pub proof fn law_filtered_keys_are_wanted(payload: Seq<u8>, targets: Seq<Seq<char>>, c: M, m: M, k: Seq<char>)
    requires
        targets.len() > 0,
        tiff_into(payload, targets, c).0 == Ok::<M, Seq<char>>(m),
        m.contains_key(k),
    ensures
        wanted_normals(targets).contains(normal_tag(k)),
{
}

} // verus!
