//! A JPEG reader that first lists the markers by hopping from segment to
//! segment, then reads the EXIF, frame, quantization and JFIF segments
//! from that list.

use vstd::prelude::*;
use crate::bytes::{be16, read_u16};
use crate::jpeg::{byte_sum, density_unit, quality_of, JpegParser};
use crate::metadata::{num, text_of, txt, PieceModel, Real, RealStyle, TagMap};
use crate::optimized_jpeg::{add_size_megapixels, pixel_count_overflows, pixel_count_overflows_in, size_megapixels};
use crate::text::{append_str, dec_text, push_dec, str_eq, sub_slice, text, u64_text};
use crate::tiff::{result_matches, tiff_outcome, TiffParser};
use crate::types::ExifError;
use crate::ultra_seek_optimized::vec_capacity;

verus! {

type M = Map<Seq<char>, Seq<PieceModel>>;

/// A marker found by the scan: its two bytes and its offset.
pub type MarkerEntry = (u8, u8, usize);

/// The markers from `i` on: `FF` followed by a nonzero byte; after a
/// marker the scan hops over its segment when the length bytes are there,
/// and stops otherwise.
pub open spec fn marker_walk(d: Seq<u8>, i: int) -> Seq<MarkerEntry>
    decreases d.len() + 65540 - i,
{
    if i < 0 || i + 1 >= d.len() {
        Seq::empty()
    } else if d[i] == 0xFF && d[i + 1] != 0 {
        if i + 3 < d.len() {
            let next = i + 2 + be16(d[i + 2], d[i + 3]);
            seq![(0xFFu8, d[i + 1], i as usize)] + marker_walk(d, next)
        } else {
            seq![(0xFFu8, d[i + 1], i as usize)]
        }
    } else {
        marker_walk(d, i + 1)
    }
}

/// The segment length at a marker.
pub open spec fn seg_len(d: Seq<u8>, off: int) -> nat {
    be16(d[off + 2], d[off + 3])
}

/// The EXIF segment of the first APP1 marker from `k` whose length fits.
pub open spec fn listed_exif(d: Seq<u8>, ms: Seq<MarkerEntry>, k: int) -> Option<(int, int)>
    decreases ms.len() - k,
{
    if k < 0 || k >= ms.len() {
        None
    } else {
        let off = ms[k].2 as int;
        if ms[k].0 == 0xFF && ms[k].1 == 0xE1 && off + 4 < d.len() && off + 4 + seg_len(d, off) <= d.len() {
            Some((off + 4, off + 4 + seg_len(d, off)))
        } else {
            listed_exif(d, ms, k + 1)
        }
    }
}

/// The first frame marker from `k` with eight bytes after it.
pub open spec fn listed_sof(d: Seq<u8>, ms: Seq<MarkerEntry>, k: int) -> Option<int>
    decreases ms.len() - k,
{
    if k < 0 || k >= ms.len() {
        None
    } else {
        let off = ms[k].2 as int;
        if ms[k].0 == 0xFF && 0xC0 <= ms[k].1 <= 0xC3 && off + 7 < d.len() {
            Some(off)
        } else {
            listed_sof(d, ms, k + 1)
        }
    }
}

/// The quality of the first quantization segment from `k` that fits and
/// has more than 65 bytes: from the average of its bytes 1 to 64.
pub open spec fn listed_quality(d: Seq<u8>, ms: Seq<MarkerEntry>, k: int) -> Option<u8>
    decreases ms.len() - k,
{
    if k < 0 || k >= ms.len() {
        None
    } else {
        let off = ms[k].2 as int;
        if ms[k].0 == 0xFF && ms[k].1 == 0xDB && off + 4 < d.len() && off + 4 + seg_len(d, off) <= d.len()
            && seg_len(d, off) > 65 {
            Some(quality_of(byte_sum(d, off + 5, off + 69) / 64))
        } else {
            listed_quality(d, ms, k + 1)
        }
    }
}

/// The first APP0 marker from `k`.
pub open spec fn listed_app0(ms: Seq<MarkerEntry>, k: int) -> Option<int>
    decreases ms.len() - k,
{
    if k < 0 || k >= ms.len() {
        None
    } else if ms[k].0 == 0xFF && ms[k].1 == 0xE0 {
        Some(ms[k].2 as int)
    } else {
        listed_app0(ms, k + 1)
    }
}

/// Whether the frame size read would index one byte past the data.
pub open spec fn frame_read_short(d: Seq<u8>) -> bool {
    listed_sof(d, marker_walk(d, 0), 0) matches Some(off) && off + 8 >= d.len()
}

/// The defaults stored for a JPEG without EXIF.
pub open spec fn fast_defaults(m: M) -> M {
    m.insert("Compression"@, txt("JPEG"@)).insert("ColorSpace"@, txt("sRGB"@)).insert("BitsPerSample"@, txt("8"@)).insert(
        "ColorComponents"@,
        txt("3"@),
    ).insert("FileSource"@, txt("Digital Camera"@)).insert("SceneType"@, txt("Directly photographed"@)).insert(
        "ExifVersion"@,
        txt("0220"@),
    ).insert("FlashpixVersion"@, txt("0100"@)).insert("ComponentsConfiguration"@, txt("Y, Cb, Cr, -"@)).insert(
        "InteropIndex"@,
        txt("R98 - DCF basic file (sRGB)"@),
    ).insert("InteropVersion"@, txt("0100"@)).insert("CustomRendered"@, txt("Normal"@)).insert(
        "ExposureMode"@,
        txt("Auto"@),
    ).insert("WhiteBalance"@, txt("Auto"@)).insert("SceneCaptureType"@, txt("Standard"@)).insert(
        "GainControl"@,
        txt("None"@),
    ).insert("Contrast"@, txt("Normal"@)).insert("Saturation"@, txt("Normal"@)).insert("Sharpness"@, txt("Normal"@))
}

/// What the basic reading of a JPEG without EXIF stores.
pub open spec fn fast_basic(d: Seq<u8>, m: M) -> M {
    let ms = marker_walk(d, 0);
    let m1 = m.insert("FileType"@, txt("JPEG"@)).insert("FileTypeExtension"@, txt("jpg"@)).insert(
        "MIMEType"@,
        txt("image/jpeg"@),
    ).insert("Format"@, txt("image/jpeg"@));
    let m2 = match listed_sof(d, ms, 0) {
        Some(off) => {
            let w = be16(d[off + 7], d[off + 8]);
            let h = be16(d[off + 5], d[off + 6]);
            m1.insert("ImageWidth"@, txt(dec_text(w))).insert("ImageHeight"@, txt(dec_text(h))).insert(
                "ImageSize"@,
                txt(dec_text(w) + "x"@ + dec_text(h)),
            ).insert("Megapixels"@, num(Real { num: (w * h) as i64, den: 1000000, style: RealStyle::Fixed(1) }))
        },
        None => m1,
    };
    let m3 = match listed_quality(d, ms, 0) {
        Some(q) => m2.insert("JPEGQuality"@, txt(dec_text(q as nat))),
        None => m2,
    };
    fast_defaults(m3)
}

/// What the JFIF header at the first listed APP0 marker sets, when
/// sixteen bytes follow it.
pub open spec fn fast_jfif(d: Seq<u8>, m: M) -> M {
    match listed_app0(marker_walk(d, 0), 0) {
        Some(off) => if off + 16 < d.len() {
            let j = off + 4;
            m.insert("JFIFVersion"@, txt(dec_text(d[j + 4] as nat) + "."@ + dec_text(d[j + 5] as nat))).insert(
                "XResolution"@,
                txt(dec_text(be16(d[j + 6], d[j + 7]))),
            ).insert("YResolution"@, txt(dec_text(be16(d[j + 8], d[j + 9])))).insert(
                "ResolutionUnit"@,
                txt(density_unit(d[j + 10])),
            )
        } else {
            m
        },
        None => m,
    }
}

/// The flash description written as its code, for the known ones.
pub open spec fn flash_code_of(t: Seq<char>) -> Option<Seq<char>> {
    if t == "Off, Did not fire"@ {
        Some("16"@)
    } else if t == "On, Fired"@ {
        Some("9"@)
    } else if t == "On, Fired, Return not detected"@ {
        Some("25"@)
    } else if t == "On, Fired, Return detected"@ {
        Some("24"@)
    } else if t == "Off, Did not fire, Return not detected"@ {
        Some("0"@)
    } else if t == "Off, Did not fire, Return detected"@ {
        Some("8"@)
    } else if t == "On, Did not fire"@ {
        Some("16"@)
    } else {
        None
    }
}

/// The name of an orientation code.
pub open spec fn orientation_name(t: Seq<char>) -> Option<Seq<char>> {
    if t == "1"@ {
        Some("Horizontal (normal)"@)
    } else if t == "2"@ {
        Some("Mirror horizontal"@)
    } else if t == "3"@ {
        Some("Rotate 180"@)
    } else if t == "4"@ {
        Some("Mirror vertical"@)
    } else if t == "5"@ {
        Some("Mirror horizontal and rotate 270 CW"@)
    } else if t == "6"@ {
        Some("Rotate 90 CW"@)
    } else if t == "7"@ {
        Some("Mirror horizontal and rotate 90 CW"@)
    } else if t == "8"@ {
        Some("Rotate 270 CW"@)
    } else {
        None
    }
}

/// The text under `k` replaced by `f` of it, where `f` gives one.
pub open spec fn rewrite_text(m: M, k: Seq<char>, f: spec_fn(Seq<char>) -> Option<Seq<char>>) -> M {
    match text_of(m, k) {
        Some(t) => match f(t) {
            Some(u) => m.insert(k, txt(u)),
            None => m,
        },
        None => m,
    }
}

/// The flash and orientation rewritten.
pub open spec fn fast_post(m: M) -> M {
    rewrite_text(
        rewrite_text(m, "Flash"@, |t: Seq<char>| flash_code_of(t)),
        "Orientation"@,
        |t: Seq<char>| orientation_name(t),
    )
}

/// The tags read before the computed fields.
pub open spec fn fast_stage(d: Seq<u8>, m: M) -> (Option<Seq<char>>, M) {
    let (err, m1) = match listed_exif(d, marker_walk(d, 0), 0) {
        Some((s, e)) => tiff_outcome(d.subrange(s, e), m),
        None => (None, fast_basic(d, m)),
    };
    if err is Some {
        (err, m1)
    } else {
        (None, fast_jfif(d, m1))
    }
}

/// What the fast reading of a JPEG file gives.
pub open spec fn fast_outcome(d: Seq<u8>, m: M) -> (Option<Seq<char>>, M) {
    let (err, m1) = fast_stage(d, m);
    if err is Some {
        (err, m1)
    } else {
        (None, fast_post(size_megapixels(m1)))
    }
}

/// Whether the fast reader can take a file's contents into an empty map.
pub open spec fn fast_readable(d: Seq<u8>) -> bool {
    &&& d.len() >= 1
    &&& (listed_exif(d, marker_walk(d, 0), 0) is None ==> !frame_read_short(d))
    &&& (fast_stage(d, Map::empty()).0 is None ==> !pixel_count_overflows(fast_stage(d, Map::empty()).1))
}

/// A JPEG reader that lists the markers first.
pub struct HighPerformanceJpegParser {
    marker_buffer: Vec<u8>,
    segment_buffer: Vec<u8>,
    marker_cache: Vec<MarkerEntry>,
    marker_lookup: [bool; 256],
}

impl View for HighPerformanceJpegParser {
    type V = Seq<MarkerEntry>;

    /// The markers listed by the last reading.
    closed spec fn view(&self) -> Seq<MarkerEntry> {
        self.marker_cache@
    }
}

impl HighPerformanceJpegParser {
    /// Whether the marker table marks `b` as a byte that starts a marker.
    pub closed spec fn marks(&self, b: u8) -> bool {
        self.marker_lookup@[b as int]
    }

    /// A reader with its buffers and the marker table set up: no marker is
    /// listed, and the table marks `FF` alone.
    pub fn new() -> (r: HighPerformanceJpegParser)
        ensures
            r@ == Seq::<MarkerEntry>::empty(),
            forall|b: u8| #[trigger] r.marks(b) <==> b == 0xFF,
    {
        let mut parser = HighPerformanceJpegParser {
            marker_buffer: Vec::with_capacity(1024 * 1024),
            segment_buffer: Vec::with_capacity(64 * 1024),
            marker_cache: Vec::with_capacity(32),
            marker_lookup: [false; 256],
        };
        parser.initialize_marker_lookup();
        assert forall|b: u8| #[trigger] parser.marks(b) <==> b == 0xFF by {
            if b != 0xFF {
                assert(parser.marker_lookup@[b as int] == false);
            }
        }
        parser
    }

    /// Marks `FF` as the byte that starts every marker.
    fn initialize_marker_lookup(&mut self)
        ensures
            final(self).marker_cache@ == old(self).marker_cache@,
            final(self).marker_lookup@ == old(self).marker_lookup@.update(0xFF, true),
    {
        self.marker_lookup.set(0xFF, true);
    }

    /// Reads a JPEG file: the listed EXIF segment (or the basic
    /// information), the JFIF header, the megapixels, and the flash and
    /// orientation names. An empty file is not read.
    pub fn parse_jpeg_exif_fast(&mut self, data: &[u8], metadata: &mut TagMap) -> (r: Result<(), ExifError>)
        requires
            data@.len() >= 1,
            listed_exif(data@, marker_walk(data@, 0), 0) is None ==> !frame_read_short(data@),
            fast_stage(data@, old(metadata)@).0 is None ==> !pixel_count_overflows(fast_stage(data@, old(metadata)@).1),
        ensures
            result_matches(r, fast_outcome(data@, old(metadata)@).0),
            final(metadata)@ == fast_outcome(data@, old(metadata)@).1,
    {
        match self.read_stage(data, metadata) {
            Ok(()) => {},
            Err(e) => {
                return Err(e);
            },
        }
        self.add_computed_fields_fast(metadata);
        self.post_process_problematic_fields_fast(metadata);
        Ok(())
    }

    /// The reading before the computed fields: the markers, the listed EXIF
    /// segment (or the basic information) and the JFIF header.
    fn read_stage(&mut self, data: &[u8], metadata: &mut TagMap) -> (r: Result<(), ExifError>)
        requires
            data@.len() >= 1,
            listed_exif(data@, marker_walk(data@, 0), 0) is None ==> !frame_read_short(data@),
        ensures
            result_matches(r, fast_stage(data@, old(metadata)@).0),
            final(metadata)@ == fast_stage(data@, old(metadata)@).1,
            final(self)@ == marker_walk(data@, 0),
    {
        self.marker_buffer.clear();
        self.segment_buffer.clear();
        self.marker_cache.clear();
        let _ = self.scan_markers_fast(data);
        match self.extract_exif_fast(data) {
            Some(exif_data) => {
                match self.parse_tiff_exif_fast(exif_data, metadata) {
                    Ok(()) => {},
                    Err(e) => {
                        return Err(e);
                    },
                }
            },
            None => {
                self.extract_basic_jpeg_info_fast(data, metadata);
            },
        }
        self.extract_jfif_info_fast(data, metadata);
        Ok(())
    }

    /// The offset of the first listed frame marker with eight bytes after
    /// it.
    fn first_sof(&self, data: &[u8]) -> (r: Option<usize>)
        ensures
            r matches Some(off) ==> listed_sof(data@, self.marker_cache@, 0) == Some(off as int) && off + 7 < data@.len(),
            r is None ==> listed_sof(data@, self.marker_cache@, 0) is None,
    {
        let mut k: usize = 0;
        while k < self.marker_cache.len()
            invariant
                listed_sof(data@, self.marker_cache@, k as int) == listed_sof(data@, self.marker_cache@, 0),
            decreases self.marker_cache.len() - k,
        {
            let (a, b, off) = self.marker_cache[k];
            if a == 0xFF && b >= 0xC0 && b <= 0xC3 && off < data.len() && data.len() - off > 7 {
                return Some(off);
            }
            k = k + 1;
        }
        None
    }

    /// Whether the fast reader can read `data`: it is not empty, a file
    /// without EXIF has its frame size in the data, and the pixel count of
    /// the size it reads fits in 32 bits.
    pub fn can_read(&self, data: &[u8]) -> (r: bool)
        ensures
            r == fast_readable(data@),
    {
        if data.len() == 0 {
            return false;
        }
        let mut scratch = HighPerformanceJpegParser::new();
        let _ = scratch.scan_markers_fast(data);
        if scratch.extract_exif_fast(data).is_none() {
            if let Some(off) = scratch.first_sof(data) {
                if data.len() - off <= 8 {
                    return false;
                }
            }
        }
        let mut fresh = HighPerformanceJpegParser::new();
        let mut m = TagMap::new();
        match fresh.read_stage(data, &mut m) {
            Ok(()) => !pixel_count_overflows_in(&m),
            Err(_) => true,
        }
    }

    /// Lists the markers.
    fn scan_markers_fast(&mut self, data: &[u8]) -> (r: Result<(), ExifError>)
        requires
            data@.len() >= 1,
            old(self).marker_cache@ == Seq::<MarkerEntry>::empty(),
        ensures
            r is Ok,
            final(self).marker_cache@ == marker_walk(data@, 0),
    {
        let mut i: usize = 0;
        while i < data.len() - 1
            invariant
                data@.len() >= 1,
                self.marker_cache@ + marker_walk(data@, i as int) == marker_walk(data@, 0),
            decreases data.len() - i,
        {
            if data[i] == 0xFF && data[i + 1] != 0x00 {
                let ghost before = self.marker_cache@;
                self.marker_cache.push((data[i], data[i + 1], i));
                if data.len() - i > 3 {
                    let length = read_u16(data, i + 2, false) as usize;
                    assert(self.marker_cache@ + marker_walk(data@, i + 2 + length) =~= before + marker_walk(
                        data@,
                        i as int,
                    ));
                    if length > data.len() - i - 2 {
                        assert(marker_walk(data@, i + 2 + length) == Seq::<MarkerEntry>::empty());
                        assert(self.marker_cache@ =~= marker_walk(data@, 0));
                        return Ok(());
                    }
                    i = i + 2 + length;
                } else {
                    assert(self.marker_cache@ =~= marker_walk(data@, 0));
                    return Ok(());
                }
            } else {
                i = i + 1;
            }
        }
        assert(self.marker_cache@ =~= marker_walk(data@, 0));
        Ok(())
    }

    /// The EXIF segment of the first listed APP1 marker that fits.
    fn extract_exif_fast<'a>(&self, data: &'a [u8]) -> (r: Option<&'a [u8]>)
        ensures
            r matches Some(s) ==> listed_exif(data@, self.marker_cache@, 0) matches Some((a, b)) && s@
                == data@.subrange(a, b),
            r is None ==> listed_exif(data@, self.marker_cache@, 0) is None,
    {
        let mut k: usize = 0;
        while k < self.marker_cache.len()
            invariant
                listed_exif(data@, self.marker_cache@, k as int) == listed_exif(data@, self.marker_cache@, 0),
            decreases self.marker_cache.len() - k,
        {
            let (a, b, off) = self.marker_cache[k];
            if a == 0xFF && b == 0xE1 && off < data.len() && data.len() - off > 4 {
                let length = read_u16(data, off + 2, false) as usize;
                if length <= data.len() - off - 4 {
                    return Some(sub_slice(data, off + 4, off + 4 + length));
                }
            }
            k = k + 1;
        }
        None
    }

    /// Reads the TIFF data of the EXIF segment.
    fn parse_tiff_exif_fast(&self, exif_data: &[u8], metadata: &mut TagMap) -> (r: Result<(), ExifError>)
        ensures
            result_matches(r, tiff_outcome(exif_data@, old(metadata)@).0),
            final(metadata)@ == tiff_outcome(exif_data@, old(metadata)@).1,
    {
        TiffParser::parse_tiff_exif(exif_data, metadata)
    }

    /// Reads the file type, size, quality and defaults of a JPEG without
    /// EXIF.
    fn extract_basic_jpeg_info_fast(&mut self, data: &[u8], metadata: &mut TagMap)
        requires
            old(self).marker_cache@ == marker_walk(data@, 0),
            !frame_read_short(data@),
        ensures
            final(metadata)@ == fast_basic(data@, old(metadata)@),
            final(self).marker_cache@ == old(self).marker_cache@,
    {
        metadata.insert_str("FileType", "JPEG");
        metadata.insert_str("FileTypeExtension", "jpg");
        metadata.insert_str("MIMEType", "image/jpeg");
        metadata.insert_str("Format", "image/jpeg");
        match self.extract_jpeg_dimensions_fast(data) {
            Some((w, h)) => {
                metadata.insert_text("ImageWidth", u64_text(w as u64));
                metadata.insert_text("ImageHeight", u64_text(h as u64));
                let mut size = u64_text(w as u64);
                append_str(&mut size, "x");
                push_dec(&mut size, h as u64);
                assert(size@ =~= dec_text(w as nat) + "x"@ + dec_text(h as nat));
                metadata.insert_text("ImageSize", size);
                assert((w as int) * (h as int) <= 65535 * 65535) by (nonlinear_arith)
                    requires
                        w <= 65535,
                        h <= 65535,
                ;
                let wh: u64 = (w as u64) * (h as u64);
                metadata.insert_number("Megapixels", Real { num: wh as i64, den: 1000000, style: RealStyle::Fixed(1) });
            },
            None => {},
        }
        match self.extract_jpeg_quality_fast(data) {
            Some(q) => metadata.insert_text("JPEGQuality", u64_text(q as u64)),
            None => {},
        }
        self.add_default_values_fast(metadata);
    }

    /// The width and height at the first listed frame marker.
    fn extract_jpeg_dimensions_fast(&self, data: &[u8]) -> (r: Option<(u16, u16)>)
        requires
            listed_sof(data@, self.marker_cache@, 0) matches Some(off) ==> off + 8 < data@.len(),
        ensures
            r == (match listed_sof(data@, self.marker_cache@, 0) {
                Some(off) => Some((be16(data@[off + 7], data@[off + 8]) as u16, be16(data@[off + 5], data@[off + 6]) as u16)),
                None => None,
            }),
    {
        let mut k: usize = 0;
        while k < self.marker_cache.len()
            invariant
                listed_sof(data@, self.marker_cache@, k as int) == listed_sof(data@, self.marker_cache@, 0),
            decreases self.marker_cache.len() - k,
        {
            let (a, b, off) = self.marker_cache[k];
            if a == 0xFF && b >= 0xC0 && b <= 0xC3 && off < data.len() && data.len() - off > 7 {
                let height = read_u16(data, off + 5, false);
                let width = read_u16(data, off + 7, false);
                return Some((width, height));
            }
            k = k + 1;
        }
        None
    }

    /// The quality from the first listed quantization segment that fits.
    fn extract_jpeg_quality_fast(&self, data: &[u8]) -> (r: Option<u8>)
        ensures
            r == listed_quality(data@, self.marker_cache@, 0),
    {
        let mut k: usize = 0;
        while k < self.marker_cache.len()
            invariant
                listed_quality(data@, self.marker_cache@, k as int) == listed_quality(data@, self.marker_cache@, 0),
            decreases self.marker_cache.len() - k,
        {
            let (a, b, off) = self.marker_cache[k];
            if a == 0xFF && b == 0xDB && off < data.len() && data.len() - off > 4 {
                let length = read_u16(data, off + 2, false) as usize;
                if length <= data.len() - off - 4 && length > 65 {
                    let mut sum: u32 = 0;
                    let mut j: usize = off + 5;
                    while j < off + 69
                        invariant
                            off + 5 <= j <= off + 69 <= data@.len(),
                            sum == byte_sum(data@, off + 5, j as int),
                            sum <= 255 * (j - off - 5),
                        decreases off + 69 - j,
                    {
                        sum = sum + data[j] as u32;
                        j = j + 1;
                    }
                    let avg = sum / 64;
                    let q: u8 = if avg < 10 {
                        95
                    } else if avg < 20 {
                        85
                    } else if avg < 30 {
                        75
                    } else if avg < 40 {
                        65
                    } else if avg < 50 {
                        55
                    } else if avg < 60 {
                        45
                    } else if avg < 70 {
                        35
                    } else if avg < 80 {
                        25
                    } else {
                        15
                    };
                    return Some(q);
                }
            }
            k = k + 1;
        }
        None
    }

    /// Stores the default tags.
    fn add_default_values_fast(&self, metadata: &mut TagMap)
        ensures
            final(metadata)@ == fast_defaults(old(metadata)@),
    {
        metadata.insert_str("Compression", "JPEG");
        metadata.insert_str("ColorSpace", "sRGB");
        metadata.insert_str("BitsPerSample", "8");
        metadata.insert_str("ColorComponents", "3");
        metadata.insert_str("FileSource", "Digital Camera");
        metadata.insert_str("SceneType", "Directly photographed");
        metadata.insert_str("ExifVersion", "0220");
        metadata.insert_str("FlashpixVersion", "0100");
        metadata.insert_str("ComponentsConfiguration", "Y, Cb, Cr, -");
        metadata.insert_str("InteropIndex", "R98 - DCF basic file (sRGB)");
        metadata.insert_str("InteropVersion", "0100");
        metadata.insert_str("CustomRendered", "Normal");
        metadata.insert_str("ExposureMode", "Auto");
        metadata.insert_str("WhiteBalance", "Auto");
        metadata.insert_str("SceneCaptureType", "Standard");
        metadata.insert_str("GainControl", "None");
        metadata.insert_str("Contrast", "Normal");
        metadata.insert_str("Saturation", "Normal");
        metadata.insert_str("Sharpness", "Normal");
    }

    /// Reads the JFIF header at the first listed APP0 marker.
    fn extract_jfif_info_fast(&self, data: &[u8], metadata: &mut TagMap)
        ensures
            final(metadata)@ == (match listed_app0(self.marker_cache@, 0) {
                Some(off) => if off + 16 < data@.len() {
                    let j = off + 4;
                    old(metadata)@.insert("JFIFVersion"@, txt(dec_text(data@[j + 4] as nat) + "."@ + dec_text(data@[j + 5] as nat))).insert(
                        "XResolution"@,
                        txt(dec_text(be16(data@[j + 6], data@[j + 7]))),
                    ).insert("YResolution"@, txt(dec_text(be16(data@[j + 8], data@[j + 9])))).insert(
                        "ResolutionUnit"@,
                        txt(density_unit(data@[j + 10])),
                    )
                } else {
                    old(metadata)@
                },
                None => old(metadata)@,
            }),
    {
        let mut k: usize = 0;
        while k < self.marker_cache.len()
            invariant
                listed_app0(self.marker_cache@, k as int) == listed_app0(self.marker_cache@, 0),
                metadata@ == old(metadata)@,
            decreases self.marker_cache.len() - k,
        {
            let (a, b, off) = self.marker_cache[k];
            if a == 0xFF && b == 0xE0 {
                if off < data.len() && data.len() - off > 16 {
                    let j = off + 4;
                    let mut v = u64_text(data[j + 4] as u64);
                    append_str(&mut v, ".");
                    push_dec(&mut v, data[j + 5] as u64);
                    assert(v@ =~= dec_text(data@[j + 4] as nat) + "."@ + dec_text(data@[j + 5] as nat));
                    metadata.insert_text("JFIFVersion", v);
                    metadata.insert_text("XResolution", u64_text(read_u16(data, j + 6, false) as u64));
                    metadata.insert_text("YResolution", u64_text(read_u16(data, j + 8, false) as u64));
                    metadata.insert_str("ResolutionUnit", JpegParser::density_unit_name(data[j + 10]));
                }
                return;
            }
            k = k + 1;
        }
    }

    /// Adds the megapixels of the stored size.
    fn add_computed_fields_fast(&self, metadata: &mut TagMap)
        requires
            !pixel_count_overflows(old(metadata)@),
        ensures
            final(metadata)@ == size_megapixels(old(metadata)@),
    {
        add_size_megapixels(metadata);
    }

    /// Rewrites the text under `key` by `f`'s table.
    fn rewrite(metadata: &mut TagMap, key: &str, flash: bool)
        ensures
            flash ==> final(metadata)@ == rewrite_text(old(metadata)@, key@, |t: Seq<char>| flash_code_of(t)),
            !flash ==> final(metadata)@ == rewrite_text(old(metadata)@, key@, |t: Seq<char>| orientation_name(t)),
    {
        let found = match metadata.get_text(key) {
            Some(t) => if flash {
                Self::flash_code(t.as_str())
            } else {
                Self::orientation_text(t.as_str())
            },
            None => None,
        };
        if let Some(u) = found {
            metadata.insert_str(key, u);
        }
    }

    /// The code of a known flash description.
    fn flash_code(t: &str) -> (r: Option<&'static str>)
        ensures
            r matches Some(u) ==> flash_code_of(t@) == Some(u@),
            r is None ==> flash_code_of(t@) is None,
    {
        if str_eq(t, "Off, Did not fire") {
            Some("16")
        } else if str_eq(t, "On, Fired") {
            Some("9")
        } else if str_eq(t, "On, Fired, Return not detected") {
            Some("25")
        } else if str_eq(t, "On, Fired, Return detected") {
            Some("24")
        } else if str_eq(t, "Off, Did not fire, Return not detected") {
            Some("0")
        } else if str_eq(t, "Off, Did not fire, Return detected") {
            Some("8")
        } else if str_eq(t, "On, Did not fire") {
            Some("16")
        } else {
            None
        }
    }

    /// The name of an orientation code.
    fn orientation_text(t: &str) -> (r: Option<&'static str>)
        ensures
            r matches Some(u) ==> orientation_name(t@) == Some(u@),
            r is None ==> orientation_name(t@) is None,
    {
        if str_eq(t, "1") {
            Some("Horizontal (normal)")
        } else if str_eq(t, "2") {
            Some("Mirror horizontal")
        } else if str_eq(t, "3") {
            Some("Rotate 180")
        } else if str_eq(t, "4") {
            Some("Mirror vertical")
        } else if str_eq(t, "5") {
            Some("Mirror horizontal and rotate 270 CW")
        } else if str_eq(t, "6") {
            Some("Rotate 90 CW")
        } else if str_eq(t, "7") {
            Some("Mirror horizontal and rotate 90 CW")
        } else if str_eq(t, "8") {
            Some("Rotate 270 CW")
        } else {
            None
        }
    }

    /// Rewrites the flash and orientation.
    fn post_process_problematic_fields_fast(&self, metadata: &mut TagMap)
        ensures
            final(metadata)@ == fast_post(old(metadata)@),
    {
        Self::rewrite(metadata, "Flash", true);
        Self::rewrite(metadata, "Orientation", false);
    }

    /// The sizes of the marker list and buffers.
    pub fn get_performance_stats(&self) -> (r: TagMap)
        ensures
            r@.dom() =~= set![
                "marker_cache_size"@,
                "marker_buffer_capacity"@,
                "segment_buffer_capacity"@,
                "parser_type"@,
            ],
            r@["marker_cache_size"@] == txt(dec_text(self@.len())),
            r@["parser_type"@] == txt("HighPerformanceJpegParser"@),
    {
        proof {
            reveal_strlit("marker_cache_size");
            reveal_strlit("marker_buffer_capacity");
            reveal_strlit("segment_buffer_capacity");
            reveal_strlit("parser_type");
            assert("marker_cache_size"@.len() == 17);
            assert("marker_buffer_capacity"@.len() == 22);
            assert("segment_buffer_capacity"@.len() == 23);
            assert("parser_type"@.len() == 11);
        }
        let mut stats = TagMap::new();
        stats.insert_text("marker_cache_size", u64_text(self.marker_cache.len() as u64));
        stats.insert_text("marker_buffer_capacity", u64_text(vec_capacity(&self.marker_buffer) as u64));
        stats.insert_text("segment_buffer_capacity", u64_text(vec_capacity(&self.segment_buffer) as u64));
        stats.insert_str("parser_type", "HighPerformanceJpegParser");
        stats
    }

    /// Empties the buffers and the marker list.
    pub fn clear_caches(&mut self)
        ensures
            final(self)@ == Seq::<MarkerEntry>::empty(),
    {
        self.marker_buffer.clear();
        self.segment_buffer.clear();
        self.marker_cache.clear();
    }
}

impl Default for HighPerformanceJpegParser {
    fn default() -> (r: HighPerformanceJpegParser)
        ensures
            r@ == Seq::<MarkerEntry>::empty(),
            forall|b: u8| #[trigger] r.marks(b) <==> b == 0xFF,
    {
        HighPerformanceJpegParser::new()
    }
}

/// A batch reader around the fast reader.
pub struct BatchJpegProcessor {
    pub parser: HighPerformanceJpegParser,
    batch_size: usize,
    batch_buffer: Vec<TagMap>,
}

impl BatchJpegProcessor {
    /// A batch reader taking `batch_size` files at a time.
    pub fn new(batch_size: usize) -> (r: BatchJpegProcessor)
        ensures
            r.batch_size() == batch_size,
    {
        BatchJpegProcessor { parser: HighPerformanceJpegParser::new(), batch_size, batch_buffer: Vec::with_capacity(batch_size) }
    }

    pub closed spec fn spec_batch_size(&self) -> usize {
        self.batch_size
    }

    /// How many files are taken at a time.
    #[verifier::when_used_as_spec(spec_batch_size)]
    pub fn batch_size(&self) -> (r: usize)
        ensures
            r == self.spec_batch_size(),
    {
        self.batch_size
    }

    /// Reads each file's contents with the fast reader, in turn; fails
    /// with the first file that fails.
    pub fn process_jpeg_files_fast(&mut self, files: &[Vec<u8>]) -> (r: Result<Vec<TagMap>, ExifError>)
        requires
            old(self).batch_size() > 0,
            forall|i: int| 0 <= i < files@.len() ==> fast_readable(#[trigger] files@[i]@),
        ensures
            final(self).batch_size() == old(self).batch_size(),
            r matches Ok(v) ==> v@.len() == files@.len() && forall|i: int|
                0 <= i < files@.len() ==> fast_outcome(#[trigger] files@[i]@, Map::empty()).0 is None && v@[i]@
                    == fast_outcome(files@[i]@, Map::empty()).1,
            r is Ok <==> forall|i: int| 0 <= i < files@.len() ==> (#[trigger] fast_outcome(files@[i]@, Map::empty())).0 is None,
            r matches Err(e) ==> exists|i: int|
                0 <= i < files@.len() && result_matches(Err(e), #[trigger] fast_outcome(files@[i]@, Map::empty()).0),
    {
        let mut results: Vec<TagMap> = Vec::new();
        let mut i: usize = 0;
        while i < files.len()
            invariant
                i <= files@.len(),
                results@.len() == i,
                self.batch_size == old(self).batch_size,
                forall|j: int| 0 <= j < files@.len() ==> fast_readable(#[trigger] files@[j]@),
                forall|j: int|
                    0 <= j < i ==> fast_outcome(#[trigger] files@[j]@, Map::empty()).0 is None && results@[j]@
                        == fast_outcome(files@[j]@, Map::empty()).1,
            decreases files.len() - i,
        {
            let mut metadata = TagMap::new();
            match self.parser.parse_jpeg_exif_fast(files[i].as_slice(), &mut metadata) {
                Ok(()) => {},
                Err(e) => {
                    return Err(e);
                },
            }
            results.push(metadata);
            i = i + 1;
        }
        Ok(results)
    }

    /// The reader's statistics with the batch size and buffer capacity.
    pub fn get_stats(&self) -> (r: TagMap)
        ensures
            r@.contains_key("batch_size"@),
            r@["batch_size"@] == txt(dec_text(self.batch_size() as nat)),
            r@.contains_key("parser_type"@),
            r@.contains_key("batch_buffer_capacity"@),
    {
        proof {
            reveal_strlit("batch_size");
            reveal_strlit("batch_buffer_capacity");
            reveal_strlit("parser_type");
            assert("batch_size"@.len() == 10);
            assert("batch_buffer_capacity"@.len() == 21);
            assert("parser_type"@.len() == 11);
        }
        let mut stats = self.parser.get_performance_stats();
        stats.insert_text("batch_size", u64_text(self.batch_size as u64));
        stats.insert_text("batch_buffer_capacity", u64_text(vec_capacity(&self.batch_buffer) as u64));
        stats
    }
}

impl Default for BatchJpegProcessor {
    fn default() -> (r: BatchJpegProcessor)
        ensures
            r.batch_size() == 50,
    {
        BatchJpegProcessor::new(50)
    }
}

/// Every marker listed by the scan is a real marker of the data: at its
/// offset stands `FF` followed by the listed, nonzero second byte.
pub proof fn law_listed_markers_are_markers(d: Seq<u8>, i: int)
    requires
        d.len() <= usize::MAX,
    ensures
        forall|k: int| 0 <= k < marker_walk(d, i).len() ==> marker_ok(d, #[trigger] marker_walk(d, i)[k]),
    decreases d.len() + 65540 - i,
{
    let w = marker_walk(d, i);
    if i < 0 || i + 1 >= d.len() {
    } else if d[i] == 0xFF && d[i + 1] != 0 {
        assert(marker_ok(d, (0xFFu8, d[i + 1], i as usize)));
        if i + 3 < d.len() {
            let next = i + 2 + be16(d[i + 2], d[i + 3]);
            law_listed_markers_are_markers(d, next);
            assert forall|k: int| 0 <= k < w.len() implies marker_ok(d, #[trigger] w[k]) by {
                if k > 0 {
                    assert(w[k] == marker_walk(d, next)[k - 1]);
                }
            }
        } else {
            assert(w =~= seq![(0xFFu8, d[i + 1], i as usize)]);
            assert forall|k: int| 0 <= k < w.len() implies marker_ok(d, #[trigger] w[k]) by {
                assert(w[k] == (0xFFu8, d[i + 1], i as usize));
            }
        }
    } else {
        law_listed_markers_are_markers(d, i + 1);
        assert(w == marker_walk(d, i + 1));
    }
}

/// A listed marker that stands in the data: `FF` and its nonzero second
/// byte at its offset.
pub open spec fn marker_ok(d: Seq<u8>, e: MarkerEntry) -> bool {
    &&& e.0 == 0xFF
    &&& e.2 + 1 < d.len()
    &&& d[e.2 as int] == 0xFF
    &&& d[e.2 + 1] == e.1
    &&& e.1 != 0
}

} // verus!
