//! A JPEG reader that lists the marker positions in one pass, keeps the
//! last position of the APP1 marker in a table, and picks how much of a
//! file to read by the file's size.

use vstd::prelude::*;
use crate::adaptive_memory::{exif_signature, io_eof, locate_segment, mapped_scan, read_segment, tiff_tags};
use crate::bytes::{be16, read_u16};
use crate::high_performance_jpeg::fast_defaults;
use crate::jpeg::{byte_sum, density_unit, quality_of, JpegParser};
use crate::metadata::{num, txt, PieceModel, Real, RealStyle, TagMap};
use crate::optimized_jpeg::{add_size_megapixels, pixel_count_overflows, pixel_count_overflows_in, size_megapixels};
use crate::text::{append_str, dec_text, push_dec, sub_slice, text, u64_text, views};
use crate::tiff::{result_matches, tiff_outcome, TiffParser};
use crate::types::{error_message, ExifError};
use crate::ultra_seek_optimized::vec_capacity;

verus! {

type M = Map<Seq<char>, Seq<PieceModel>>;

/// A marker found by the scan: its second byte and its offset.
pub type MarkerAt = (u8, usize);

/// The markers from `i` on: an `FF` byte followed by a nonzero byte (an
/// `FF 00` pair is skipped); after a marker the scan hops over its segment
/// when the length bytes are there, and stops otherwise.
pub open spec fn ultra_walk(d: Seq<u8>, i: int) -> Seq<MarkerAt>
    decreases d.len() + 65540 - i,
{
    if i < 0 || i + 1 >= d.len() {
        Seq::empty()
    } else if d[i] == 0xFF {
        if d[i + 1] == 0 {
            ultra_walk(d, i + 2)
        } else if i + 3 < d.len() {
            seq![(d[i + 1], i as usize)] + ultra_walk(d, i + 2 + be16(d[i + 2], d[i + 3]))
        } else {
            seq![(d[i + 1], i as usize)]
        }
    } else {
        ultra_walk(d, i + 1)
    }
}

/// The offset of the last listed marker `b`.
pub open spec fn last_at(ms: Seq<MarkerAt>, b: u8) -> Option<usize>
    decreases ms.len(),
{
    if ms.len() == 0 {
        None
    } else if ms.last().0 == b {
        Some(ms.last().1)
    } else {
        last_at(ms.drop_last(), b)
    }
}

/// The APP1 entry of the marker table after a scan that listed `ms`: the
/// last APP1 offset listed, else what the table held before.
pub open spec fn table_e1(prev: Option<usize>, ms: Seq<MarkerAt>) -> Option<usize> {
    match last_at(ms, 0xE1) {
        Some(p) => Some(p),
        None => prev,
    }
}

/// The EXIF data of the APP1 segment at the table's offset, when the
/// segment fits and starts with `Exif\0\0`.
pub open spec fn ultra_exif(d: Seq<u8>, e1: Option<usize>) -> Option<(int, int)> {
    match e1 {
        Some(p) => {
            let pos = p as int;
            if pos + 10 < d.len() {
                let len = be16(d[pos + 2], d[pos + 3]);
                if pos + 4 + len <= d.len() && len >= 6 && d.subrange(pos + 4, pos + 10) == exif_signature() {
                    Some((pos + 10, pos + 4 + len))
                } else {
                    None
                }
            } else {
                None
            }
        },
        None => None,
    }
}

/// The first frame marker from `k` with ten bytes from its offset.
pub open spec fn ultra_sof(d: Seq<u8>, ms: Seq<MarkerAt>, k: int) -> Option<int>
    decreases ms.len() - k,
{
    if k < 0 || k >= ms.len() {
        None
    } else if 0xC0 <= ms[k].0 <= 0xC3 && ms[k].1 + 9 < d.len() {
        Some(ms[k].1 as int)
    } else {
        ultra_sof(d, ms, k + 1)
    }
}

/// The quality of the first quantization segment from `k` that fits and
/// has more than 65 bytes: from the average of its bytes 1 to 64.
pub open spec fn ultra_quality(d: Seq<u8>, ms: Seq<MarkerAt>, k: int) -> Option<u8>
    decreases ms.len() - k,
{
    if k < 0 || k >= ms.len() {
        None
    } else {
        let off = ms[k].1 as int;
        if ms[k].0 == 0xDB && off + 4 < d.len() && off + 4 + be16(d[off + 2], d[off + 3]) <= d.len() && be16(
            d[off + 2],
            d[off + 3],
        ) > 65 {
            Some(quality_of(byte_sum(d, off + 5, off + 69) / 64))
        } else {
            ultra_quality(d, ms, k + 1)
        }
    }
}

/// The first APP0 marker from `k`.
pub open spec fn ultra_app0(ms: Seq<MarkerAt>, k: int) -> Option<int>
    decreases ms.len() - k,
{
    if k < 0 || k >= ms.len() {
        None
    } else if ms[k].0 == 0xE0 {
        Some(ms[k].1 as int)
    } else {
        ultra_app0(ms, k + 1)
    }
}

/// What the basic reading of a JPEG without EXIF stores: the file type,
/// the defaults, the frame size and the quality.
pub open spec fn ultra_basic(d: Seq<u8>, ms: Seq<MarkerAt>, m: M) -> M {
    let m1 = fast_defaults(
        m.insert("FileType"@, txt("JPEG"@)).insert("FileTypeExtension"@, txt("jpg"@)).insert(
            "MIMEType"@,
            txt("image/jpeg"@),
        ).insert("Format"@, txt("image/jpeg"@)),
    );
    let m2 = match ultra_sof(d, ms, 0) {
        Some(off) => {
            let w = be16(d[off + 7], d[off + 8]);
            let h = be16(d[off + 5], d[off + 6]);
            m1.insert("ImageWidth"@, txt(dec_text(w))).insert("ImageHeight"@, txt(dec_text(h))).insert(
                "ImageSize"@,
                txt(dec_text(w) + "x"@ + dec_text(h)),
            ).insert("Megapixels"@, num(Real { num: (w * h) as i64, den: 1000000, style: RealStyle::Fixed(1) }))
        },
        None => m1,
    };
    match ultra_quality(d, ms, 0) {
        Some(q) => m2.insert("JPEGQuality"@, txt(dec_text(q as nat))),
        None => m2,
    }
}

/// What the JFIF header at the first listed APP0 marker sets, when
/// sixteen bytes follow it.
pub open spec fn ultra_jfif(d: Seq<u8>, ms: Seq<MarkerAt>, m: M) -> M {
    match ultra_app0(ms, 0) {
        Some(off) => if off + 16 < d.len() {
            let j = off + 4;
            m.insert("JFIFVersion"@, txt(dec_text(d[j + 4] as nat) + "."@ + dec_text(d[j + 5] as nat))).insert(
                "XResolution"@,
                txt(dec_text(be16(d[j + 6], d[j + 7]))),
            ).insert("YResolution"@, txt(dec_text(be16(d[j + 8], d[j + 9])))).insert(
                "ResolutionUnit"@,
                txt(density_unit(d[j + 10])),
            )
        } else {
            m
        },
        None => m,
    }
}

/// The tags read before the computed fields, with `prev` the table's APP1
/// entry before the scan.
pub open spec fn ultra_stage(d: Seq<u8>, prev: Option<usize>, m: M) -> (Option<Seq<char>>, M) {
    let ms = ultra_walk(d, 0);
    let (err, m1) = match ultra_exif(d, table_e1(prev, ms)) {
        Some((s, e)) => tiff_outcome(d.subrange(s, e), m),
        None => (None, ultra_basic(d, ms, m)),
    };
    if err is Some {
        (err, m1)
    } else {
        (None, ultra_jfif(d, ms, m1))
    }
}

/// What the ultra-fast reading of a JPEG file gives.
pub open spec fn ultra_outcome(d: Seq<u8>, prev: Option<usize>, m: M) -> (Option<Seq<char>>, M) {
    let (err, m1) = ultra_stage(d, prev, m);
    if err is Some {
        (err, m1)
    } else {
        (None, size_megapixels(m1))
    }
}

/// Whether the ultra-fast reading can take the data: it is not empty, and
/// the pixel count of the size it reads fits in 32 bits.
pub open spec fn ultra_readable(d: Seq<u8>, prev: Option<usize>) -> bool {
    &&& d.len() >= 1
    &&& (ultra_stage(d, prev, Map::empty()).0 is None ==> !pixel_count_overflows(
        ultra_stage(d, prev, Map::empty()).1,
    ))
}

/// How a file is read.
#[derive(Clone, Copy, PartialEq, Eq, Debug)]
pub enum UltraStrategy {
    /// The whole file is read.
    MemoryMap,
    /// Only the EXIF segment is read.
    SeekOptimized,
    /// The first part of the file is searched, then the EXIF segment read.
    Hybrid,
}

/// The strategy for a file of `size` bytes.
pub open spec fn ultra_strategy(seek_optimized: bool, threshold: nat, size: nat) -> UltraStrategy {
    if seek_optimized {
        if size > threshold {
            UltraStrategy::SeekOptimized
        } else {
            UltraStrategy::Hybrid
        }
    } else if size <= threshold {
        UltraStrategy::MemoryMap
    } else {
        UltraStrategy::Hybrid
    }
}

/// What reading only the EXIF segment gives, keeping only the target
/// fields when there are any.
pub open spec fn ultra_seek(d: Seq<u8>, targets: Seq<Seq<char>>) -> Result<M, Seq<char>> {
    match locate_segment(d) {
        Err(e) => Err(e),
        Ok((offset, size)) => match read_segment(d, offset, size) {
            Err(e) => Err(e),
            Ok(seg) => match tiff_tags(seg) {
                Err(e) => Err(e),
                Ok(m) => if targets.len() == 0 {
                    Ok(m)
                } else {
                    Ok(m.restrict(targets.to_set()))
                },
            },
        },
    }
}

/// The bytes that reading only the EXIF segment reads.
pub open spec fn seek_bytes(d: Seq<u8>) -> nat {
    match locate_segment(d) {
        Err(_) => 0,
        Ok((offset, size)) => match read_segment(d, offset, size) {
            Err(_) => 0,
            Ok(seg) => seg.len(),
        },
    }
}

/// The first part of a file searched by the hybrid reading: a quarter of
/// it, at most `threshold` bytes.
pub open spec fn hybrid_prefix(d: Seq<u8>, threshold: nat) -> Seq<u8> {
    let quarter = d.len() / 4;
    d.subrange(0, if quarter < threshold { quarter as int } else { threshold as int })
}

/// What the hybrid reading gives: the EXIF found in the first part of the
/// file, else the EXIF segment read on its own.
pub open spec fn ultra_hybrid(d: Seq<u8>, threshold: nat, targets: Seq<Seq<char>>) -> Result<M, Seq<char>> {
    match mapped_scan(hybrid_prefix(d, threshold), 0) {
        Some(exif) => tiff_tags(exif),
        None => ultra_seek(d, targets),
    }
}

/// Whether the hybrid reading falls back to reading the segment.
pub open spec fn hybrid_seeks(d: Seq<u8>, threshold: nat) -> bool {
    mapped_scan(hybrid_prefix(d, threshold), 0) is None
}

/// What the ultra-fast reading gives as a result.
pub open spec fn outcome_result(d: Seq<u8>, prev: Option<usize>) -> Result<M, Seq<char>> {
    let (err, m) = ultra_outcome(d, prev, Map::empty());
    match err {
        Some(msg) => Err("Invalid EXIF data: "@ + msg),
        None => Ok(m),
    }
}

/// What reading a file of contents `d` gives.
pub open spec fn ultra_file(v: UltraFastView, d: Seq<u8>) -> Result<M, Seq<char>> {
    match ultra_strategy(v.seek_optimized, v.mmap_threshold as nat, d.len()) {
        UltraStrategy::MemoryMap => outcome_result(d, v.e1),
        UltraStrategy::SeekOptimized => ultra_seek(d, v.target_fields),
        UltraStrategy::Hybrid => ultra_hybrid(d, v.mmap_threshold as nat, v.target_fields),
    }
}

/// Whether reading a file of contents `d` reads only its EXIF segment.
pub open spec fn file_seeks(v: UltraFastView, d: Seq<u8>) -> bool {
    match ultra_strategy(v.seek_optimized, v.mmap_threshold as nat, d.len()) {
        UltraStrategy::MemoryMap => false,
        UltraStrategy::SeekOptimized => true,
        UltraStrategy::Hybrid => hybrid_seeks(d, v.mmap_threshold as nat),
    }
}

/// Whether a file of contents `d` can be read: where it is read whole,
/// the ultra-fast reading can take it; the counters do not overflow.
pub open spec fn file_readable(v: UltraFastView, d: Seq<u8>) -> bool {
    &&& v.mmap_count < usize::MAX
    &&& v.seek_count < usize::MAX
    &&& v.total_bytes_read + 2097152 <= usize::MAX
    &&& (ultra_strategy(v.seek_optimized, v.mmap_threshold as nat, d.len()) == UltraStrategy::MemoryMap
        ==> ultra_readable(d, v.e1))
}

/// What the reader holds, as plain values.
pub ghost struct UltraFastView {
    pub positions: Seq<MarkerAt>,
    pub e1: Option<usize>,
    pub seek_optimized: bool,
    pub mmap_threshold: usize,
    pub target_fields: Seq<Seq<char>>,
    pub mmap_count: usize,
    pub seek_count: usize,
    pub total_bytes_read: usize,
    pub total_processing_time: u64,
}

/// Counters of how files were read.
struct UltraFastStats {
    mmap_count: usize,
    seek_count: usize,
    total_bytes_read: usize,
    total_processing_time: u64,
}

/// Where the EXIF data of a file is.
struct ExifSegmentInfo {
    offset: usize,
    size: usize,
}

/// A JPEG reader that lists marker positions in one pass.
pub struct UltraFastJpegParser {
    marker_positions: Vec<MarkerAt>,
    segment_data: Vec<u8>,
    marker_table: [Option<usize>; 256],
    seek_optimized: bool,
    mmap_threshold: usize,
    target_fields: Vec<String>,
    stats: UltraFastStats,
}

impl View for UltraFastJpegParser {
    type V = UltraFastView;

    closed spec fn view(&self) -> UltraFastView {
        UltraFastView {
            positions: self.marker_positions@,
            e1: self.marker_table@[0xE1],
            seek_optimized: self.seek_optimized,
            mmap_threshold: self.mmap_threshold,
            target_fields: views(self.target_fields@),
            mmap_count: self.stats.mmap_count,
            seek_count: self.stats.seek_count,
            total_bytes_read: self.stats.total_bytes_read,
            total_processing_time: self.stats.total_processing_time,
        }
    }
}

/// A fresh reader's state with the given settings.
pub open spec fn fresh_view(seek_optimized: bool, targets: Seq<Seq<char>>) -> UltraFastView {
    UltraFastView {
        positions: Seq::empty(),
        e1: None,
        seek_optimized,
        mmap_threshold: 16777216,
        target_fields: targets,
        mmap_count: 0,
        seek_count: 0,
        total_bytes_read: 0,
        total_processing_time: 0,
    }
}

/// Whether `v` is a fresh reader's state with the given settings.
pub open spec fn fresh(v: UltraFastView, seek_optimized: bool, targets: Seq<Seq<char>>) -> bool {
    v == fresh_view(seek_optimized, targets)
}

impl UltraFastJpegParser {
    fn make(seek_optimized: bool, buffer: usize, fields: Vec<String>) -> (r: UltraFastJpegParser)
        ensures
            fresh(r@, seek_optimized, views(fields@)),
    {
        let r = UltraFastJpegParser {
            marker_positions: Vec::with_capacity(64),
            segment_data: Vec::with_capacity(buffer),
            marker_table: [None; 256],
            seek_optimized,
            mmap_threshold: 16777216,
            target_fields: fields,
            stats: UltraFastStats { mmap_count: 0, seek_count: 0, total_bytes_read: 0, total_processing_time: 0 },
        };
        assert(r.marker_table@[0xE1] is None);
        r
    }

    /// A reader that maps files up to 16 MiB whole.
    pub fn new() -> (r: UltraFastJpegParser)
        ensures
            fresh(r@, false, Seq::empty()),
    {
        let r = Self::make(false, 1048576, Vec::new());
        assert(views(Seq::<String>::empty()) =~= Seq::<Seq<char>>::empty());
        r
    }

    /// A reader that reads only the EXIF segment of files over 16 MiB.
    pub fn with_seek_optimization() -> (r: UltraFastJpegParser)
        ensures
            fresh(r@, true, Seq::empty()),
    {
        let r = Self::make(true, 65536, Vec::new());
        assert(views(Seq::<String>::empty()) =~= Seq::<Seq<char>>::empty());
        r
    }

    /// A seeking reader that keeps only `fields`.
    pub fn with_target_fields(fields: Vec<String>) -> (r: UltraFastJpegParser)
        ensures
            fresh(r@, true, views(fields@)),
    {
        Self::make(true, 65536, fields)
    }

    /// The strategy for a file of `file_size` bytes.
    pub fn choose_strategy(&self, file_size: usize) -> (r: UltraStrategy)
        ensures
            r == ultra_strategy(self@.seek_optimized, self@.mmap_threshold as nat, file_size as nat),
    {
        if self.seek_optimized {
            if file_size > self.mmap_threshold {
                UltraStrategy::SeekOptimized
            } else {
                UltraStrategy::Hybrid
            }
        } else if file_size <= self.mmap_threshold {
            UltraStrategy::MemoryMap
        } else {
            UltraStrategy::Hybrid
        }
    }

    /// Reads a JPEG file: the EXIF segment at the table's APP1 offset (or
    /// the basic information), the JFIF header and the megapixels. The
    /// marker list is rebuilt; the table keeps entries of earlier scans
    /// that this one does not overwrite.
    pub fn parse_jpeg_exif_ultra_fast(&mut self, data: &[u8], metadata: &mut TagMap) -> (r: Result<(), ExifError>)
        requires
            data@.len() >= 1,
            ultra_stage(data@, old(self)@.e1, old(metadata)@).0 is None ==> !pixel_count_overflows(
                ultra_stage(data@, old(self)@.e1, old(metadata)@).1,
            ),
        ensures
            result_matches(r, ultra_outcome(data@, old(self)@.e1, old(metadata)@).0),
            final(metadata)@ == ultra_outcome(data@, old(self)@.e1, old(metadata)@).1,
            final(self)@ == (UltraFastView {
                positions: ultra_walk(data@, 0),
                e1: table_e1(old(self)@.e1, ultra_walk(data@, 0)),
                ..old(self)@
            }),
    {
        match self.read_stage(data, metadata) {
            Ok(()) => {},
            Err(e) => {
                return Err(e);
            },
        }
        add_size_megapixels(metadata);
        Ok(())
    }

    /// The reading before the megapixels: the markers, the EXIF segment at
    /// the table's APP1 offset (or the basic information) and the JFIF
    /// header.
    fn read_stage(&mut self, data: &[u8], metadata: &mut TagMap) -> (r: Result<(), ExifError>)
        requires
            data@.len() >= 1,
        ensures
            result_matches(r, ultra_stage(data@, old(self)@.e1, old(metadata)@).0),
            final(metadata)@ == ultra_stage(data@, old(self)@.e1, old(metadata)@).1,
            final(self)@ == (UltraFastView {
                positions: ultra_walk(data@, 0),
                e1: table_e1(old(self)@.e1, ultra_walk(data@, 0)),
                ..old(self)@
            }),
    {
        self.marker_positions.clear();
        self.segment_data.clear();
        let _ = self.scan_markers_ultra_fast(data);
        match self.extract_exif_ultra_fast(data) {
            Some(exif_data) => {
                match TiffParser::parse_tiff_exif(exif_data, metadata) {
                    Ok(()) => {},
                    Err(e) => {
                        return Err(e);
                    },
                }
            },
            None => {
                self.extract_basic_jpeg_info_ultra_fast(data, metadata);
            },
        }
        self.extract_jfif_info_ultra_fast(data, metadata);
        Ok(())
    }

    /// Whether this reader can read `data` as its table stands: the data is
    /// not empty, and the pixel count of the size it reads fits in 32 bits.
    pub fn can_read(&self, data: &[u8]) -> (r: bool)
        ensures
            r == ultra_readable(data@, self@.e1),
    {
        if data.len() == 0 {
            return false;
        }
        let mut scratch = Self::make(false, 0, Vec::new());
        scratch.marker_table.set(0xE1, self.marker_table[0xE1]);
        let mut m = TagMap::new();
        match scratch.read_stage(data, &mut m) {
            Ok(()) => !pixel_count_overflows_in(&m),
            Err(_) => true,
        }
    }

    /// Lists the marker positions and records the last offset of each
    /// marker below `FF` in the table.
    fn scan_markers_ultra_fast(&mut self, data: &[u8]) -> (r: Result<(), ExifError>)
        requires
            data@.len() >= 1,
            old(self).marker_positions@ == Seq::<MarkerAt>::empty(),
        ensures
            r is Ok,
            final(self)@ == (UltraFastView {
                positions: ultra_walk(data@, 0),
                e1: table_e1(old(self)@.e1, ultra_walk(data@, 0)),
                ..old(self)@
            }),
    {
        let ghost prev = old(self)@.e1;
        let mut i: usize = 0;
        while i < data.len() - 1
            invariant
                data@.len() >= 1,
                self.marker_positions@ + ultra_walk(data@, i as int) == ultra_walk(data@, 0),
                self.marker_table@[0xE1] == table_e1(prev, self.marker_positions@),
                self.seek_optimized == old(self).seek_optimized,
                self.mmap_threshold == old(self).mmap_threshold,
                self.target_fields@ == old(self).target_fields@,
                self.stats == old(self).stats,
            decreases data.len() - i,
        {
            if data[i] == 0xFF {
                let marker = data[i + 1];
                if marker == 0x00 {
                    if data.len() - i < 3 {
                        assert(ultra_walk(data@, i + 2) == Seq::<MarkerAt>::empty());
                        assert(self.marker_positions@ =~= ultra_walk(data@, 0));
                        return Ok(());
                    }
                    i = i + 2;
                    continue;
                }
                let ghost before = self.marker_positions@;
                self.marker_positions.push((marker, i));
                proof {
                    assert(self.marker_positions@.drop_last() =~= before);
                }
                if marker < 255 {
                    self.marker_table.set(marker as usize, Some(i));
                }
                if data.len() - i > 3 {
                    let length = read_u16(data, i + 2, false) as usize;
                    assert(self.marker_positions@ + ultra_walk(data@, i + 2 + length) =~= before + ultra_walk(
                        data@,
                        i as int,
                    ));
                    if length > data.len() - i - 2 {
                        assert(ultra_walk(data@, i + 2 + length) == Seq::<MarkerAt>::empty());
                        assert(self.marker_positions@ =~= ultra_walk(data@, 0));
                        return Ok(());
                    }
                    i = i + 2 + length;
                } else {
                    assert(self.marker_positions@ =~= ultra_walk(data@, 0));
                    return Ok(());
                }
            } else {
                i = i + 1;
            }
        }
        assert(self.marker_positions@ =~= ultra_walk(data@, 0));
        Ok(())
    }

    /// The EXIF data of the APP1 segment at the table's offset.
    fn extract_exif_ultra_fast<'a>(&self, data: &'a [u8]) -> (r: Option<&'a [u8]>)
        ensures
            r matches Some(s) ==> ultra_exif(data@, self@.e1) matches Some((a, b)) && s@ == data@.subrange(a, b),
            r is None ==> ultra_exif(data@, self@.e1) is None,
    {
        if let Some(pos) = self.marker_table[0xE1] {
            if pos < data.len() && data.len() - pos > 10 {
                let length = read_u16(data, pos + 2, false) as usize;
                if length <= data.len() - pos - 4 && length >= 6 {
                    let sig: [u8; 6] = [0x45u8, 0x78u8, 0x69u8, 0x66u8, 0u8, 0u8];
                    assert(sig@ =~= exif_signature());
                    if crate::utils::bytes_equal(sub_slice(data, pos + 4, pos + 10), &sig) {
                        return Some(sub_slice(data, pos + 10, pos + 4 + length));
                    }
                }
            }
        }
        None
    }

    /// Reads the file type, defaults, frame size and quality of a JPEG
    /// without EXIF.
    fn extract_basic_jpeg_info_ultra_fast(&mut self, data: &[u8], metadata: &mut TagMap)
        ensures
            final(metadata)@ == ultra_basic(data@, old(self)@.positions, old(metadata)@),
            final(self)@ == old(self)@,
    {
        metadata.insert_str("FileType", "JPEG");
        metadata.insert_str("FileTypeExtension", "jpg");
        metadata.insert_str("MIMEType", "image/jpeg");
        metadata.insert_str("Format", "image/jpeg");
        metadata.insert_str("Compression", "JPEG");
        metadata.insert_str("ColorSpace", "sRGB");
        metadata.insert_str("BitsPerSample", "8");
        metadata.insert_str("ColorComponents", "3");
        metadata.insert_str("FileSource", "Digital Camera");
        metadata.insert_str("SceneType", "Directly photographed");
        metadata.insert_str("ExifVersion", "0220");
        metadata.insert_str("FlashpixVersion", "0100");
        metadata.insert_str("ComponentsConfiguration", "Y, Cb, Cr, -");
        metadata.insert_str("InteropIndex", "R98 - DCF basic file (sRGB)");
        metadata.insert_str("InteropVersion", "0100");
        metadata.insert_str("CustomRendered", "Normal");
        metadata.insert_str("ExposureMode", "Auto");
        metadata.insert_str("WhiteBalance", "Auto");
        metadata.insert_str("SceneCaptureType", "Standard");
        metadata.insert_str("GainControl", "None");
        metadata.insert_str("Contrast", "Normal");
        metadata.insert_str("Saturation", "Normal");
        metadata.insert_str("Sharpness", "Normal");
        match self.extract_jpeg_dimensions_ultra_fast(data) {
            Some((w, h)) => {
                metadata.insert_text("ImageWidth", u64_text(w as u64));
                metadata.insert_text("ImageHeight", u64_text(h as u64));
                let mut size = u64_text(w as u64);
                append_str(&mut size, "x");
                push_dec(&mut size, h as u64);
                assert(size@ =~= dec_text(w as nat) + "x"@ + dec_text(h as nat));
                metadata.insert_text("ImageSize", size);
                assert((w as int) * (h as int) <= 65535 * 65535) by (nonlinear_arith)
                    requires
                        w <= 65535,
                        h <= 65535,
                ;
                let wh: u64 = (w as u64) * (h as u64);
                metadata.insert_number("Megapixels", Real { num: wh as i64, den: 1000000, style: RealStyle::Fixed(1) });
            },
            None => {},
        }
        match self.extract_jpeg_quality_ultra_fast(data) {
            Some(q) => metadata.insert_text("JPEGQuality", u64_text(q as u64)),
            None => {},
        }
    }

    /// The width and height at the first listed frame marker with ten
    /// bytes from its offset.
    fn extract_jpeg_dimensions_ultra_fast(&self, data: &[u8]) -> (r: Option<(u16, u16)>)
        ensures
            r == (match ultra_sof(data@, self@.positions, 0) {
                Some(off) => Some((be16(data@[off + 7], data@[off + 8]) as u16, be16(data@[off + 5], data@[off + 6]) as u16)),
                None => None,
            }),
    {
        let mut k: usize = 0;
        while k < self.marker_positions.len()
            invariant
                ultra_sof(data@, self.marker_positions@, k as int) == ultra_sof(data@, self.marker_positions@, 0),
            decreases self.marker_positions.len() - k,
        {
            let (b, off) = self.marker_positions[k];
            if b >= 0xC0 && b <= 0xC3 && off < data.len() && data.len() - off > 9 {
                let height = read_u16(data, off + 5, false);
                let width = read_u16(data, off + 7, false);
                return Some((width, height));
            }
            k = k + 1;
        }
        None
    }

    /// The quality from the first listed quantization segment that fits.
    fn extract_jpeg_quality_ultra_fast(&self, data: &[u8]) -> (r: Option<u8>)
        ensures
            r == ultra_quality(data@, self@.positions, 0),
    {
        let mut k: usize = 0;
        while k < self.marker_positions.len()
            invariant
                ultra_quality(data@, self.marker_positions@, k as int) == ultra_quality(data@, self.marker_positions@, 0),
            decreases self.marker_positions.len() - k,
        {
            let (b, off) = self.marker_positions[k];
            if b == 0xDB && off < data.len() && data.len() - off > 4 {
                let length = read_u16(data, off + 2, false) as usize;
                if length <= data.len() - off - 4 && length > 65 {
                    let mut sum: u32 = 0;
                    let mut j: usize = off + 5;
                    while j < off + 69
                        invariant
                            off + 5 <= j <= off + 69 <= data@.len(),
                            sum == byte_sum(data@, off + 5, j as int),
                            sum <= 255 * (j - off - 5),
                        decreases off + 69 - j,
                    {
                        sum = sum + data[j] as u32;
                        j = j + 1;
                    }
                    let avg = sum / 64;
                    let q: u8 = if avg < 10 {
                        95
                    } else if avg < 20 {
                        85
                    } else if avg < 30 {
                        75
                    } else if avg < 40 {
                        65
                    } else if avg < 50 {
                        55
                    } else if avg < 60 {
                        45
                    } else if avg < 70 {
                        35
                    } else if avg < 80 {
                        25
                    } else {
                        15
                    };
                    return Some(q);
                }
            }
            k = k + 1;
        }
        None
    }

    /// Reads the JFIF header at the first listed APP0 marker.
    fn extract_jfif_info_ultra_fast(&self, data: &[u8], metadata: &mut TagMap)
        ensures
            final(metadata)@ == ultra_jfif(data@, self@.positions, old(metadata)@),
    {
        let mut k: usize = 0;
        while k < self.marker_positions.len()
            invariant
                ultra_app0(self.marker_positions@, k as int) == ultra_app0(self.marker_positions@, 0),
                metadata@ == old(metadata)@,
            decreases self.marker_positions.len() - k,
        {
            let (b, off) = self.marker_positions[k];
            if b == 0xE0 {
                if off < data.len() && data.len() - off > 16 {
                    let j = off + 4;
                    let mut v = u64_text(data[j + 4] as u64);
                    append_str(&mut v, ".");
                    push_dec(&mut v, data[j + 5] as u64);
                    assert(v@ =~= dec_text(data@[j + 4] as nat) + "."@ + dec_text(data@[j + 5] as nat));
                    metadata.insert_text("JFIFVersion", v);
                    metadata.insert_text("XResolution", u64_text(read_u16(data, j + 6, false) as u64));
                    metadata.insert_text("YResolution", u64_text(read_u16(data, j + 8, false) as u64));
                    metadata.insert_str("ResolutionUnit", JpegParser::density_unit_name(data[j + 10]));
                }
                return;
            }
            k = k + 1;
        }
    }

    /// Reads a file of contents `data` with the strategy its size calls
    /// for, counting it as mapped or sought.
    pub fn parse_file(&mut self, data: &[u8]) -> (r: Result<TagMap, ExifError>)
        requires
            file_readable(old(self)@, data@),
        ensures
            r matches Ok(m) ==> ultra_file(old(self)@, data@) == Ok::<M, Seq<char>>(m@),
            r matches Err(e) ==> ultra_file(old(self)@, data@) == Err::<M, Seq<char>>(error_message(e)),
            final(self)@.seek_optimized == old(self)@.seek_optimized,
            final(self)@.mmap_threshold == old(self)@.mmap_threshold,
            final(self)@.target_fields == old(self)@.target_fields,
            final(self)@.total_processing_time == old(self)@.total_processing_time,
            final(self)@.mmap_count == old(self)@.mmap_count + if ultra_strategy(
                old(self)@.seek_optimized,
                old(self)@.mmap_threshold as nat,
                data@.len(),
            ) == UltraStrategy::SeekOptimized {
                0int
            } else {
                1int
            },
            final(self)@.seek_count == old(self)@.seek_count + if ultra_strategy(
                old(self)@.seek_optimized,
                old(self)@.mmap_threshold as nat,
                data@.len(),
            ) == UltraStrategy::SeekOptimized {
                1int
            } else {
                0int
            },
            final(self)@.total_bytes_read == old(self)@.total_bytes_read + if file_seeks(old(self)@, data@) {
                seek_bytes(data@) as int
            } else {
                0int
            },
    {
        let strategy = self.choose_strategy(data.len());
        match strategy {
            UltraStrategy::MemoryMap => {
                self.stats.mmap_count = self.stats.mmap_count + 1;
                let mut metadata = TagMap::new();
                match self.parse_jpeg_exif_ultra_fast(data, &mut metadata) {
                    Ok(()) => Ok(metadata),
                    Err(e) => Err(e),
                }
            },
            UltraStrategy::SeekOptimized => {
                self.stats.seek_count = self.stats.seek_count + 1;
                self.parse_with_seek_optimization(data)
            },
            UltraStrategy::Hybrid => {
                self.stats.mmap_count = self.stats.mmap_count + 1;
                self.parse_with_hybrid_approach(data)
            },
        }
    }

    /// Reads only the EXIF segment, keeping only the target fields when
    /// there are any.
    fn parse_with_seek_optimization(&mut self, data: &[u8]) -> (r: Result<TagMap, ExifError>)
        requires
            old(self)@.total_bytes_read + 2097152 <= usize::MAX,
        ensures
            r matches Ok(m) ==> ultra_seek(data@, old(self)@.target_fields) == Ok::<M, Seq<char>>(m@),
            r matches Err(e) ==> ultra_seek(data@, old(self)@.target_fields) == Err::<M, Seq<char>>(error_message(e)),
            seek_bytes(data@) <= 2097152,
            final(self)@ == (UltraFastView {
                total_bytes_read: (old(self)@.total_bytes_read + seek_bytes(data@)) as usize,
                ..old(self)@
            }),
    {
        let info = match self.locate_exif_segment(data) {
            Ok(i) => i,
            Err(e) => {
                return Err(e);
            },
        };
        let exif_data = match self.read_exif_segment(data, &info) {
            Ok(v) => v,
            Err(e) => {
                return Err(e);
            },
        };
        let mut metadata = TagMap::new();
        if self.target_fields.len() > 0 {
            match self.parse_selective_fields(exif_data.as_slice(), &mut metadata) {
                Ok(()) => Ok(metadata),
                Err(e) => Err(e),
            }
        } else {
            match TiffParser::parse_tiff_exif(exif_data.as_slice(), &mut metadata) {
                Ok(()) => Ok(metadata),
                Err(e) => Err(e),
            }
        }
    }

    /// Searches the first part of the file for the EXIF, reading the
    /// segment on its own when it is not there.
    fn parse_with_hybrid_approach(&mut self, data: &[u8]) -> (r: Result<TagMap, ExifError>)
        requires
            old(self)@.total_bytes_read + 2097152 <= usize::MAX,
        ensures
            r matches Ok(m) ==> ultra_hybrid(data@, old(self)@.mmap_threshold as nat, old(self)@.target_fields) == Ok::<M, Seq<char>>(m@),
            r matches Err(e) ==> ultra_hybrid(data@, old(self)@.mmap_threshold as nat, old(self)@.target_fields) == Err::<M, Seq<char>>(error_message(e)),
            hybrid_seeks(data@, old(self)@.mmap_threshold as nat) ==> seek_bytes(data@) <= 2097152,
            final(self)@ == (UltraFastView {
                total_bytes_read: (old(self)@.total_bytes_read + if hybrid_seeks(data@, old(self)@.mmap_threshold as nat) {
                    seek_bytes(data@) as int
                } else {
                    0int
                }) as usize,
                ..old(self)@
            }),
    {
        let quarter = data.len() / 4;
        let map_size = if quarter < self.mmap_threshold { quarter } else { self.mmap_threshold };
        let mapped = sub_slice(data, 0, map_size);
        assert(mapped@ == hybrid_prefix(data@, self.mmap_threshold as nat));
        match self.extract_exif_from_mapped(mapped) {
            Some(exif_data) => {
                let mut metadata = TagMap::new();
                match TiffParser::parse_tiff_exif(exif_data.as_slice(), &mut metadata) {
                    Ok(()) => Ok(metadata),
                    Err(e) => Err(e),
                }
            },
            None => self.parse_with_seek_optimization(data),
        }
    }

    /// The EXIF data of the first APP1 segment in `data` that holds it.
    fn extract_exif_from_mapped(&self, data: &[u8]) -> (r: Option<Vec<u8>>)
        ensures
            r matches Some(v) ==> mapped_scan(data@, 0) == Some(v@),
            r is None ==> mapped_scan(data@, 0) is None,
    {
        let mut i: usize = 0;
        while data.len() >= 10 && i < data.len() - 10
            invariant
                mapped_scan(data@, i as int) == mapped_scan(data@, 0),
            decreases data.len() - i,
        {
            if data[i] == 0xFF && data[i + 1] == 0xE1 && i + 10 < data.len() {
                let length = read_u16(data, i + 2, false) as usize;
                if length <= data.len() - i - 4 && length >= 6 {
                    let sig: [u8; 6] = [0x45u8, 0x78u8, 0x69u8, 0x66u8, 0u8, 0u8];
                    assert(sig@ =~= exif_signature());
                    if crate::utils::bytes_equal(sub_slice(data, i + 4, i + 10), &sig) {
                        return Some(vstd::slice::slice_to_vec(sub_slice(data, i + 10, i + 4 + length)));
                    }
                }
            }
            i = i + 1;
        }
        None
    }

    /// Where the EXIF data of a file is, by its format.
    fn locate_exif_segment(&self, data: &[u8]) -> (r: Result<ExifSegmentInfo, ExifError>)
        ensures
            r matches Ok(info) ==> locate_segment(data@) == Ok::<(int, int), Seq<char>>((info.offset as int, info.size as int)),
            r matches Err(e) ==> locate_segment(data@) == Err::<(int, int), Seq<char>>(error_message(e)),
    {
        if data.len() < 32 {
            return Err(ExifError::IoError(text("failed to fill whole buffer")));
        }
        if data[0] == 0xFF && data[1] == 0xD8 {
            self.locate_jpeg_exif(data)
        } else if (data[0] == 0x49 && data[1] == 0x49) || (data[0] == 0x4D && data[1] == 0x4D) {
            Ok(ExifSegmentInfo { offset: 0, size: 65536 })
        } else {
            Err(ExifError::invalid("Unsupported file format"))
        }
    }

    /// Walks the JPEG markers to the APP1 segment that holds EXIF.
    fn locate_jpeg_exif(&self, data: &[u8]) -> (r: Result<ExifSegmentInfo, ExifError>)
        ensures
            r matches Ok(info) ==> crate::adaptive_memory::locate_jpeg(data@, 2) == Ok::<(int, int), Seq<char>>((info.offset as int, info.size as int)),
            r matches Err(e) ==> crate::adaptive_memory::locate_jpeg(data@, 2) == Err::<(int, int), Seq<char>>(error_message(e)),
    {
        let mut offset: usize = 2;
        while offset < 1048576
            invariant
                crate::adaptive_memory::locate_jpeg(data@, offset as int) == crate::adaptive_memory::locate_jpeg(data@, 2),
            decreases 1048576 - offset,
        {
            if offset > data.len() || data.len() - offset < 4 {
                return Err(ExifError::IoError(text("failed to fill whole buffer")));
            }
            if data[offset] != 0xFF {
                return Err(ExifError::invalid("Invalid JPEG marker"));
            }
            let marker = data[offset + 1];
            let segment_size = read_u16(data, offset + 2, false) as usize;
            if marker == 0xE1 {
                if data.len() - offset < 10 {
                    return Err(ExifError::IoError(text("failed to fill whole buffer")));
                }
                let sig: [u8; 6] = [0x45u8, 0x78u8, 0x69u8, 0x66u8, 0u8, 0u8];
                assert(sig@ =~= exif_signature());
                if crate::utils::bytes_equal(sub_slice(data, offset + 4, offset + 10), &sig) {
                    return Ok(ExifSegmentInfo { offset: offset + 10, size: segment_size.wrapping_sub(6) });
                }
            }
            if offset + 2 + segment_size >= 1048576 {
                return Err(ExifError::invalid("EXIF segment not found"));
            }
            offset = offset + 2 + segment_size;
        }
        Err(ExifError::invalid("EXIF segment not found"))
    }

    /// The segment's bytes, at most two megabytes of them, counted as read.
    fn read_exif_segment(&mut self, data: &[u8], info: &ExifSegmentInfo) -> (r: Result<Vec<u8>, ExifError>)
        requires
            old(self)@.total_bytes_read + 2097152 <= usize::MAX,
        ensures
            r matches Ok(v) ==> read_segment(data@, info.offset as int, info.size as int) == Ok::<Seq<u8>, Seq<char>>(v@),
            r matches Err(e) ==> read_segment(data@, info.offset as int, info.size as int) == Err::<Seq<u8>, Seq<char>>(error_message(e)),
            final(self)@ == (UltraFastView {
                total_bytes_read: (old(self)@.total_bytes_read + match read_segment(data@, info.offset as int, info.size as int) {
                    Ok(seg) => seg.len() as int,
                    Err(_) => 0int,
                }) as usize,
                ..old(self)@
            }),
    {
        let n = if info.size < 2097152 { info.size } else { 2097152 };
        if info.offset > data.len() || data.len() - info.offset < n {
            return Err(ExifError::IoError(text("failed to fill whole buffer")));
        }
        self.segment_data = vstd::slice::slice_to_vec(sub_slice(data, info.offset, info.offset + n));
        self.stats.total_bytes_read = self.stats.total_bytes_read + n;
        Ok(self.segment_data.clone())
    }

    /// Reads the tags of an EXIF segment, then keeps only the target fields.
    fn parse_selective_fields(&self, exif_data: &[u8], metadata: &mut TagMap) -> (r: Result<(), ExifError>)
        requires
            old(metadata)@ == Map::<Seq<char>, Seq<PieceModel>>::empty(),
            self@.target_fields.len() > 0,
        ensures
            r is Ok ==> tiff_tags(exif_data@) == Ok::<M, Seq<char>>(tiff_outcome(exif_data@, Map::empty()).1),
            r is Ok ==> final(metadata)@ == tiff_outcome(exif_data@, Map::empty()).1.restrict(self@.target_fields.to_set()),
            r matches Err(e) ==> tiff_tags(exif_data@) == Err::<M, Seq<char>>(error_message(e)),
    {
        match TiffParser::parse_tiff_exif(exif_data, metadata) {
            Err(e) => {
                return Err(e);
            },
            Ok(()) => {},
        }
        let mut filtered = TagMap::new();
        let mut i: usize = 0;
        let ghost full = metadata@;
        while i < self.target_fields.len()
            invariant
                i <= self.target_fields@.len(),
                metadata@ == full,
                filtered@ == full.restrict(views(self.target_fields@.subrange(0, i as int)).to_set()),
            decreases self.target_fields.len() - i,
        {
            let f = self.target_fields[i].as_str();
            proof {
                let a = views(self.target_fields@.subrange(0, i as int));
                assert(views(self.target_fields@.subrange(0, i + 1)) =~= a.push(f@));
                a.lemma_push_to_set_commute(f@);
            }
            match metadata.get(f) {
                Some(v) => {
                    let copy = crate::utils::copy_value(v);
                    filtered.insert(text(f), copy);
                },
                None => {},
            }
            assert(filtered@ =~= full.restrict(views(self.target_fields@.subrange(0, i + 1)).to_set()));
            i = i + 1;
        }
        assert(self.target_fields@.subrange(0, self.target_fields@.len() as int) =~= self.target_fields@);
        *metadata = filtered;
        Ok(())
    }

    /// Sets the fields to keep.
    pub fn set_target_fields(&mut self, fields: Vec<String>)
        ensures
            final(self)@ == (UltraFastView { target_fields: views(fields@), ..old(self)@ }),
    {
        self.target_fields = fields;
    }

    /// Turns reading only the EXIF segment of large files on or off.
    pub fn set_seek_optimization(&mut self, enabled: bool)
        ensures
            final(self)@ == (UltraFastView { seek_optimized: enabled, ..old(self)@ }),
    {
        self.seek_optimized = enabled;
    }

    /// Sets the size up to which files count as small.
    pub fn set_mmap_threshold(&mut self, threshold: usize)
        ensures
            final(self)@ == (UltraFastView { mmap_threshold: threshold, ..old(self)@ }),
    {
        self.mmap_threshold = threshold;
    }

    /// Adds the time a file took, in microseconds.
    pub fn record_processing_time(&mut self, micros: u64)
        requires
            old(self)@.total_processing_time + micros <= u64::MAX,
        ensures
            final(self)@ == (UltraFastView {
                total_processing_time: (old(self)@.total_processing_time + micros) as u64,
                ..old(self)@
            }),
    {
        self.stats.total_processing_time = self.stats.total_processing_time + micros;
    }

    /// The settings and counters by name.
    pub fn get_stats(&self) -> (r: TagMap)
        ensures
            r@ == ultra_stats(self@),
    {
        let mut stats = TagMap::new();
        stats.insert_str("parser_type", "UltraFastJpegParser");
        stats.insert_str("seek_optimized", if self.seek_optimized { "true" } else { "false" });
        stats.insert_text("mmap_threshold", u64_text(self.mmap_threshold as u64));
        stats.insert_text("target_fields_count", u64_text(self.target_fields.len() as u64));
        stats.insert_text("mmap_count", u64_text(self.stats.mmap_count as u64));
        stats.insert_text("seek_count", u64_text(self.stats.seek_count as u64));
        stats.insert_text("total_bytes_read", u64_text(self.stats.total_bytes_read as u64));
        stats.insert_text("total_processing_time_us", u64_text(self.stats.total_processing_time));
        let files = self.stats.mmap_count as u128 + self.stats.seek_count as u128;
        let avg: u64 = if files > 0 { (self.stats.total_processing_time as u128 / files) as u64 } else { 0 };
        stats.insert_text("avg_processing_time_us", u64_text(avg));
        stats
    }

    /// The number of listed markers and the buffer sizes; the segment
    /// buffer's capacity is what the allocator gave, and no segment is
    /// ever cached.
    pub fn get_ultra_fast_stats(&self) -> (r: TagMap)
        ensures
            r@.dom() == set![
                "marker_positions_count"@,
                "segment_data_capacity"@,
                "segment_cache_count"@,
                "parser_type"@,
                "optimization_level"@,
            ],
            r@["marker_positions_count"@] == txt(dec_text(self@.positions.len())),
            exists|n: nat| r@["segment_data_capacity"@] == txt(dec_text(n)),
            r@["segment_cache_count"@] == txt(dec_text(0)),
            r@["parser_type"@] == txt("UltraFastJpegParser"@),
            r@["optimization_level"@] == txt("UltraFast"@),
    {
        proof {
            reveal_strlit("marker_positions_count");
            reveal_strlit("segment_data_capacity");
            reveal_strlit("segment_cache_count");
            reveal_strlit("parser_type");
            reveal_strlit("optimization_level");
            assert("marker_positions_count"@.len() == 22);
            assert("segment_data_capacity"@.len() == 21);
            assert("segment_cache_count"@.len() == 19);
            assert("parser_type"@.len() == 11);
            assert("optimization_level"@.len() == 18);
        }
        let mut stats = TagMap::new();
        stats.insert_text("marker_positions_count", u64_text(self.marker_positions.len() as u64));
        stats.insert_text("segment_data_capacity", u64_text(vec_capacity(&self.segment_data) as u64));
        stats.insert_text("segment_cache_count", u64_text(0));
        stats.insert_str("parser_type", "UltraFastJpegParser");
        stats.insert_str("optimization_level", "UltraFast");
        assert(stats@.dom() =~= set![
            "marker_positions_count"@,
            "segment_data_capacity"@,
            "segment_cache_count"@,
            "parser_type"@,
            "optimization_level"@,
        ]);
        stats
    }
}

/// The statistics map of an ultra-fast reader.
pub open spec fn ultra_stats(v: UltraFastView) -> M {
    let files = v.mmap_count + v.seek_count;
    let avg: nat = if files > 0 { ((v.total_processing_time as int) / files) as nat } else { 0 };
    Map::<Seq<char>, Seq<PieceModel>>::empty()
        .insert("parser_type"@, txt("UltraFastJpegParser"@))
        .insert("seek_optimized"@, txt(if v.seek_optimized { "true"@ } else { "false"@ }))
        .insert("mmap_threshold"@, txt(dec_text(v.mmap_threshold as nat)))
        .insert("target_fields_count"@, txt(dec_text(v.target_fields.len())))
        .insert("mmap_count"@, txt(dec_text(v.mmap_count as nat)))
        .insert("seek_count"@, txt(dec_text(v.seek_count as nat)))
        .insert("total_bytes_read"@, txt(dec_text(v.total_bytes_read as nat)))
        .insert("total_processing_time_us"@, txt(dec_text(v.total_processing_time as nat)))
        .insert("avg_processing_time_us"@, txt(dec_text(avg)))
}

impl Default for UltraFastJpegParser {
    fn default() -> (r: UltraFastJpegParser)
        ensures
            fresh(r@, false, Seq::empty()),
    {
        UltraFastJpegParser::new()
    }
}

/// What a batch gives for one file: a fresh seeking reader's reading of
/// it, or else the ultra-fast reading of its contents.
pub open spec fn batch_one(seek: bool, targets: Seq<Seq<char>>, d: Seq<u8>) -> Result<M, Seq<char>> {
    if seek {
        ultra_file(fresh_view(true, targets), d)
    } else {
        outcome_result(d, None)
    }
}

/// Whether a batch can take a file.
pub open spec fn batch_readable(seek: bool, d: Seq<u8>) -> bool {
    !seek ==> ultra_readable(d, None)
}

/// The contents of a list of files.
pub open spec fn contents(files: Seq<Vec<u8>>) -> Seq<Seq<u8>> {
    files.map_values(|f: Vec<u8>| f@)
}

/// A batch reader around the ultra-fast reader.
pub struct UltraFastBatchProcessor {
    parser: UltraFastJpegParser,
    batch_size: usize,
    batch_buffer: Vec<TagMap>,
    use_seek_optimization: bool,
}

impl UltraFastBatchProcessor {
    /// The reader whose settings the batch reports.
    pub closed spec fn parser_view(&self) -> UltraFastView {
        self.parser@
    }

    /// Whether files are read by seeking readers.
    pub closed spec fn seeks(&self) -> bool {
        self.use_seek_optimization
    }

    /// How many files make a batch.
    pub closed spec fn size(&self) -> usize {
        self.batch_size
    }

    /// A batch reader that reads files whole.
    pub fn new(batch_size: usize) -> (r: UltraFastBatchProcessor)
        ensures
            fresh(r.parser_view(), false, Seq::empty()),
            !r.seeks(),
            r.size() == batch_size,
    {
        UltraFastBatchProcessor {
            parser: UltraFastJpegParser::new(),
            batch_size,
            batch_buffer: Vec::with_capacity(batch_size),
            use_seek_optimization: false,
        }
    }

    /// A batch reader that reads files with seeking readers.
    pub fn with_seek_optimization(batch_size: usize) -> (r: UltraFastBatchProcessor)
        ensures
            fresh(r.parser_view(), true, Seq::empty()),
            r.seeks(),
            r.size() == batch_size,
    {
        UltraFastBatchProcessor {
            parser: UltraFastJpegParser::with_seek_optimization(),
            batch_size,
            batch_buffer: Vec::with_capacity(batch_size),
            use_seek_optimization: true,
        }
    }

    /// A seeking batch reader whose own reader keeps only `fields`.
    pub fn with_target_fields(batch_size: usize, fields: Vec<String>) -> (r: UltraFastBatchProcessor)
        ensures
            fresh(r.parser_view(), true, views(fields@)),
            r.seeks(),
            r.size() == batch_size,
    {
        UltraFastBatchProcessor {
            parser: UltraFastJpegParser::with_target_fields(fields),
            batch_size,
            batch_buffer: Vec::with_capacity(batch_size),
            use_seek_optimization: true,
        }
    }

    /// Reads each file with a fresh reader: a seeking one when the batch
    /// seeks, else the ultra-fast reading of the whole contents. Fails
    /// with the error of a file that fails.
    pub fn process_jpeg_files_ultra_fast(&mut self, files: &[Vec<u8>]) -> (r: Result<Vec<TagMap>, ExifError>)
        requires
            forall|i: int| 0 <= i < files@.len() ==> batch_readable(old(self).seeks(), #[trigger] files@[i]@),
        ensures
            final(self).parser_view() == old(self).parser_view(),
            final(self).seeks() == old(self).seeks(),
            final(self).size() == old(self).size(),
            r matches Ok(v) ==> v@.len() == files@.len() && forall|i: int|
                0 <= i < files@.len() ==> batch_one(old(self).seeks(), Seq::empty(), #[trigger] files@[i]@)
                    == Ok::<M, Seq<char>>(v@[i]@),
            r is Ok <==> forall|i: int| 0 <= i < files@.len() ==> #[trigger] batch_one(old(self).seeks(), Seq::empty(), files@[i]@) is Ok,
            r matches Err(e) ==> exists|i: int| 0 <= i < files@.len() && #[trigger] batch_one(old(self).seeks(), Seq::empty(), files@[i]@)
                == Err::<M, Seq<char>>(error_message(e)),
    {
        let mut out: Vec<TagMap> = Vec::new();
        let mut i: usize = 0;
        while i < files.len()
            invariant
                i <= files@.len(),
                out@.len() == i,
                forall|j: int| 0 <= j < i ==> batch_one(self.use_seek_optimization, Seq::empty(), #[trigger] files@[j]@)
                    == Ok::<M, Seq<char>>(out@[j]@),
                forall|j: int| 0 <= j < files@.len() ==> batch_readable(self.use_seek_optimization, #[trigger] files@[j]@),
            decreases files.len() - i,
        {
            let data = files[i].as_slice();
            let one = if self.use_seek_optimization {
                let mut p = UltraFastJpegParser::with_seek_optimization();
                p.parse_file(data)
            } else {
                let mut p = UltraFastJpegParser::new();
                let mut metadata = TagMap::new();
                match p.parse_jpeg_exif_ultra_fast(data, &mut metadata) {
                    Ok(()) => Ok(metadata),
                    Err(e) => Err(e),
                }
            };
            match one {
                Ok(m) => {
                    out.push(m);
                },
                Err(e) => {
                    return Err(e);
                },
            }
            i = i + 1;
        }
        Ok(out)
    }

    /// Reads each file with a fresh seeking reader that keeps only
    /// `target_fields`. Fails with the error of a file that fails.
    pub fn process_files_with_fields(&mut self, files: &[Vec<u8>], target_fields: Vec<String>) -> (r: Result<Vec<TagMap>, ExifError>)
        ensures
            final(self).parser_view() == old(self).parser_view(),
            final(self).seeks() == old(self).seeks(),
            final(self).size() == old(self).size(),
            r matches Ok(v) ==> v@.len() == files@.len() && forall|i: int|
                0 <= i < files@.len() ==> batch_one(true, views(target_fields@), #[trigger] files@[i]@)
                    == Ok::<M, Seq<char>>(v@[i]@),
            r is Ok <==> forall|i: int| 0 <= i < files@.len() ==> #[trigger] batch_one(true, views(target_fields@), files@[i]@) is Ok,
            r matches Err(e) ==> exists|i: int| 0 <= i < files@.len() && #[trigger] batch_one(true, views(target_fields@), files@[i]@)
                == Err::<M, Seq<char>>(error_message(e)),
    {
        let mut out: Vec<TagMap> = Vec::new();
        let mut i: usize = 0;
        while i < files.len()
            invariant
                i <= files@.len(),
                out@.len() == i,
                forall|j: int| 0 <= j < i ==> batch_one(true, views(target_fields@), #[trigger] files@[j]@)
                    == Ok::<M, Seq<char>>(out@[j]@),
            decreases files.len() - i,
        {
            let mut p = UltraFastJpegParser::with_target_fields(target_fields.clone());
            match p.parse_file(files[i].as_slice()) {
                Ok(m) => {
                    out.push(m);
                },
                Err(e) => {
                    return Err(e);
                },
            }
            i = i + 1;
        }
        Ok(out)
    }

    /// Turns seeking on or off, for the batch and its reader.
    pub fn set_seek_optimization(&mut self, enabled: bool)
        ensures
            final(self).seeks() == enabled,
            final(self).parser_view() == (UltraFastView { seek_optimized: enabled, ..old(self).parser_view() }),
            final(self).size() == old(self).size(),
    {
        self.use_seek_optimization = enabled;
        self.parser.set_seek_optimization(enabled);
    }

    /// Sets the fields the batch's reader keeps.
    pub fn set_target_fields(&mut self, fields: Vec<String>)
        ensures
            final(self).seeks() == old(self).seeks(),
            final(self).parser_view() == (UltraFastView { target_fields: views(fields@), ..old(self).parser_view() }),
            final(self).size() == old(self).size(),
    {
        self.parser.set_target_fields(fields);
    }

    /// The reader's statistics with the batch size, the buffer capacity
    /// (what the allocator gave) and whether the batch seeks.
    pub fn get_ultra_fast_stats(&self) -> (r: TagMap)
        ensures
            r@.dom() == ultra_stats(self.parser_view()).dom().insert("batch_size"@).insert("batch_buffer_capacity"@).insert(
                "use_seek_optimization"@,
            ),
            forall|k: Seq<char>| #[trigger] ultra_stats(self.parser_view()).contains_key(k) && k != "batch_size"@ && k
                != "batch_buffer_capacity"@ && k != "use_seek_optimization"@ ==> r@[k] == ultra_stats(self.parser_view())[k],
            r@["batch_size"@] == txt(dec_text(self.size() as nat)),
            exists|n: nat| r@["batch_buffer_capacity"@] == txt(dec_text(n)),
            r@["use_seek_optimization"@] == txt(if self.seeks() { "true"@ } else { "false"@ }),
    {
        proof {
            reveal_strlit("batch_size");
            reveal_strlit("batch_buffer_capacity");
            reveal_strlit("use_seek_optimization");
            assert("batch_size"@.len() == 10);
            assert("batch_buffer_capacity"@[0] != "use_seek_optimization"@[0]);
        }
        let mut stats = self.parser.get_stats();
        stats.insert_text("batch_size", u64_text(self.batch_size as u64));
        stats.insert_text("batch_buffer_capacity", u64_text(vec_capacity(&self.batch_buffer) as u64));
        stats.insert_str("use_seek_optimization", if self.use_seek_optimization { "true" } else { "false" });
        stats
    }
}

impl Default for UltraFastBatchProcessor {
    fn default() -> (r: UltraFastBatchProcessor)
        ensures
            fresh(r.parser_view(), false, Seq::empty()),
            !r.seeks(),
            r.size() == 100,
    {
        UltraFastBatchProcessor::new(100)
    }
}

} // verus!

verus! {

/// Reading only the EXIF segment with target fields gives no tag but
/// those fields.
pub proof fn law_seek_keeps_only_targets(d: Seq<u8>, targets: Seq<Seq<char>>, m: M, k: Seq<char>)
    requires
        targets.len() > 0,
        ultra_seek(d, targets) == Ok::<M, Seq<char>>(m),
        m.contains_key(k),
    ensures
        targets.contains(k),
{
}

} // verus!
