//! Choosing a reader by the file's extension: RAW files try the
//! accelerated, then the SIMD, then the format's own reader; HEIF and
//! JPEG files go to their readers; other extensions are refused.

use vstd::prelude::*;
use crate::gpu::GpuExifParser;
use crate::heif::{heif_effect, HeifParser};
use crate::jpeg::{jpeg_outcome, JpegParser};
use crate::metadata::{txt, PieceModel, TagMap};
use crate::raw::{cr2_outcome, dng_outcome, nef_outcome, orf_outcome, RawParser};
use crate::simd_heic::SimdHeicParser;
use crate::simd_jpeg::SimdJpegParser;
use crate::text::{lowercase_text, str_eq, str_lower_text, text};
use crate::types::{error_message, ExifError};

verus! {

type M = Map<Seq<char>, Seq<PieceModel>>;

/// A reader's error message with its kind's prefix.
pub open spec fn invalid_msg(o: Option<Seq<char>>) -> Option<Seq<char>> {
    match o {
        Some(e) => Some("Invalid EXIF data: "@ + e),
        None => None,
    }
}

/// Whether `e` is one of the RAW extensions.
pub open spec fn raw_ext(e: Seq<char>) -> bool {
    e == "cr2"@ || e == "dng"@ || e == "nef"@ || e == "arw"@ || e == "orf"@ || e == "rw2"@ || e == "pef"@ || e
        == "srw"@ || e == "x3f"@ || e == "raw"@
}

/// The format's own reader for a RAW file with the lower-cased extension
/// `e`: the displayed error, if any, and the map after.
pub open spec fn raw_cpu(d: Seq<u8>, e: Seq<char>, m: M) -> (Option<Seq<char>>, M) {
    let x = str_lower_text(e);
    if x == "cr2"@ {
        let (err, m1) = cr2_outcome(d, m);
        (invalid_msg(err), m1)
    } else if x == "dng"@ {
        let (err, m1) = dng_outcome(d, m);
        (invalid_msg(err), m1)
    } else if x == "nef"@ {
        let (err, m1) = nef_outcome(d, m);
        (invalid_msg(err), m1)
    } else if x == "orf"@ {
        let (err, m1) = orf_outcome(d, m);
        (invalid_msg(err), m1)
    } else {
        (Some("Unsupported format: "@ + ("RAW format: "@ + e)), m)
    }
}

/// Reading a RAW file: the accelerated reader, then the SIMD reader (both
/// read it as a JPEG file), then the format's own.
pub open spec fn raw_outcome(d: Seq<u8>, e: Seq<char>, m: M) -> (Option<Seq<char>>, M) {
    let (e1, m1) = jpeg_outcome(d, m);
    if e1 is None {
        (None, m1)
    } else {
        let (e2, m2) = jpeg_outcome(d, m1);
        if e2 is None {
            (None, m2)
        } else {
            raw_cpu(d, e, m2)
        }
    }
}

/// What the reader chosen by the extension `ext` gives: the displayed
/// error, if any, and the map after.
pub open spec fn hybrid_outcome(d: Seq<u8>, ext: Seq<char>, m: M) -> (Option<Seq<char>>, M) {
    let e = str_lower_text(ext);
    if raw_ext(e) {
        raw_outcome(d, e, m)
    } else if e == "heic"@ || e == "heif"@ {
        (None, heif_effect(d, m))
    } else if e == "jpg"@ || e == "jpeg"@ {
        let (err, m1) = jpeg_outcome(d, m);
        (invalid_msg(err), m1)
    } else if e == "png"@ {
        (Some("Unsupported format: "@ + "PNG"@), m)
    } else if e == "bmp"@ {
        (Some("Unsupported format: "@ + "BMP"@), m)
    } else if e == "tiff"@ || e == "tif"@ {
        (Some("Unsupported format: "@ + "TIFF"@), m)
    } else {
        (Some("Unsupported format: "@ + e), m)
    }
}

/// Whether `r` is success when there is no message, else an error with
/// that displayed message.
pub open spec fn shown(r: Result<(), ExifError>, msg: Option<Seq<char>>) -> bool {
    match msg {
        Some(s) => r matches Err(e) && error_message(e) == s,
        None => r is Ok,
    }
}

/// A reader that picks the approach by the file's extension.
pub struct HybridExifParser {
    simd_jpeg_parser: SimdJpegParser,
    simd_heic_parser: SimdHeicParser,
    gpu_parser: GpuExifParser,
    cpu_jpeg_parser: JpegParser,
    cpu_heic_parser: HeifParser,
    cpu_raw_parser: RawParser,
}

impl View for HybridExifParser {
    type V = bool;

    /// Whether the SIMD readers take their AVX2 paths.
    closed spec fn view(&self) -> bool {
        self.simd_jpeg_parser@
    }
}

impl HybridExifParser {
    /// A reader whose SIMD readers take their scalar paths.
    pub fn new() -> (r: HybridExifParser)
        ensures
            r@ == false,
    {
        Self::with_avx2(false)
    }

    /// A reader whose SIMD readers take their AVX2 paths when `supported`
    /// says the processor has AVX2.
    pub fn with_avx2(supported: bool) -> (r: HybridExifParser)
        ensures
            r@ == supported,
    {
        HybridExifParser {
            simd_jpeg_parser: SimdJpegParser::with_avx2(supported),
            simd_heic_parser: SimdHeicParser::with_avx2(supported),
            gpu_parser: GpuExifParser::new(),
            cpu_jpeg_parser: JpegParser,
            cpu_heic_parser: HeifParser,
            cpu_raw_parser: RawParser,
        }
    }

    /// Reads a file with the approach its extension calls for.
    pub fn parse_exif_hybrid(&mut self, data: &[u8], file_extension: &str, metadata: &mut TagMap) -> (r: Result<
        (),
        ExifError,
    >)
        ensures
            shown(r, hybrid_outcome(data@, file_extension@, old(metadata)@).0),
            final(metadata)@ == hybrid_outcome(data@, file_extension@, old(metadata)@).1,
            final(self)@ == old(self)@,
    {
        let ext = lowercase_text(file_extension);
        let e = ext.as_str();
        if str_eq(e, "cr2") || str_eq(e, "dng") || str_eq(e, "nef") || str_eq(e, "arw") || str_eq(e, "orf")
            || str_eq(e, "rw2") || str_eq(e, "pef") || str_eq(e, "srw") || str_eq(e, "x3f") || str_eq(e, "raw") {
            self.parse_raw_optimized(data, e, metadata)
        } else if str_eq(e, "heic") || str_eq(e, "heif") {
            self.parse_heic_optimized(data, metadata)
        } else if str_eq(e, "jpg") || str_eq(e, "jpeg") {
            self.parse_jpeg_optimized(data, metadata)
        } else {
            self.parse_other_formats(data, e, metadata)
        }
    }

    /// Reads a RAW file: the accelerated reader, then the SIMD reader, then
    /// the format's own reader.
    fn parse_raw_optimized(&mut self, data: &[u8], file_extension: &str, metadata: &mut TagMap) -> (r: Result<
        (),
        ExifError,
    >)
        ensures
            shown(r, raw_outcome(data@, file_extension@, old(metadata)@).0),
            final(metadata)@ == raw_outcome(data@, file_extension@, old(metadata)@).1,
            final(self)@ == old(self)@,
    {
        if self.gpu_parser.parse_jpeg_exif_gpu(data, metadata).is_ok() {
            return Ok(());
        }
        if self.simd_jpeg_parser.parse_jpeg_exif_simd(data, metadata).is_ok() {
            return Ok(());
        }
        Self::parse_raw_cpu(data, file_extension, metadata)
    }

    /// Reads a RAW file with the reader of its format.
    fn parse_raw_cpu(data: &[u8], file_extension: &str, metadata: &mut TagMap) -> (r: Result<(), ExifError>)
        ensures
            shown(r, raw_cpu(data@, file_extension@, old(metadata)@).0),
            final(metadata)@ == raw_cpu(data@, file_extension@, old(metadata)@).1,
    {
        let ext = lowercase_text(file_extension);
        let x = ext.as_str();
        if str_eq(x, "cr2") {
            RawParser::parse_cr2_exif(data, metadata)
        } else if str_eq(x, "dng") {
            RawParser::parse_dng_exif(data, metadata)
        } else if str_eq(x, "nef") {
            RawParser::parse_nef_exif(data, metadata)
        } else if str_eq(x, "orf") {
            RawParser::parse_orf_exif(data, metadata)
        } else {
            let mut msg = text("RAW format: ");
            crate::text::append_str(&mut msg, file_extension);
            Err(ExifError::UnsupportedFormat(msg))
        }
    }

    /// Reads a HEIF file: the accelerated reader, then the SIMD reader, then
    /// the HEIF reader.
    fn parse_heic_optimized(&mut self, data: &[u8], metadata: &mut TagMap) -> (r: Result<(), ExifError>)
        ensures
            r is Ok,
            final(metadata)@ == heif_effect(data@, old(metadata)@),
            final(self)@ == old(self)@,
    {
        if self.gpu_parser.parse_heic_exif_gpu(data, metadata).is_ok() {
            return Ok(());
        }
        if self.simd_heic_parser.parse_heic_exif_simd(data, metadata).is_ok() {
            return Ok(());
        }
        HeifParser::parse_heif_exif(data, metadata)
    }

    /// Reads a JPEG file with the JPEG reader.
    fn parse_jpeg_optimized(&mut self, data: &[u8], metadata: &mut TagMap) -> (r: Result<(), ExifError>)
        ensures
            shown(r, invalid_msg(jpeg_outcome(data@, old(metadata)@).0)),
            final(metadata)@ == jpeg_outcome(data@, old(metadata)@).1,
            final(self)@ == old(self)@,
    {
        JpegParser::parse_jpeg_exif(data, metadata)
    }

    /// Refuses the other formats, naming them.
    fn parse_other_formats(&mut self, _data: &[u8], extension: &str, _metadata: &mut TagMap) -> (r: Result<(), ExifError>)
        ensures
            r matches Err(ExifError::UnsupportedFormat(s)) && s@ == (if extension@ == "png"@ {
                "PNG"@
            } else if extension@ == "bmp"@ {
                "BMP"@
            } else if extension@ == "tiff"@ || extension@ == "tif"@ {
                "TIFF"@
            } else {
                extension@
            }),
            final(_metadata)@ == old(_metadata)@,
            final(self)@ == old(self)@,
    {
        if str_eq(extension, "png") {
            Err(ExifError::UnsupportedFormat(text("PNG")))
        } else if str_eq(extension, "bmp") {
            Err(ExifError::UnsupportedFormat(text("BMP")))
        } else if str_eq(extension, "tiff") || str_eq(extension, "tif") {
            Err(ExifError::UnsupportedFormat(text("TIFF")))
        } else {
            Err(ExifError::UnsupportedFormat(text(extension)))
        }
    }

    /// The expected speed-ups, by name.
    pub fn get_performance_stats(&self) -> (r: TagMap)
        ensures
            r@ == Map::<Seq<char>, Seq<PieceModel>>::empty().insert("RAW_SIMD_SPEEDUP"@, txt("1.8-2.0x"@)).insert(
                "HEIC_SIMD_SPEEDUP"@,
                txt("1.8x"@),
            ).insert("JPEG_CPU_OPTIMIZED"@, txt("CPU optimized"@)).insert(
                "HYBRID_APPROACH"@,
                txt("Format-aware selection"@),
            ),
    {
        let mut stats = TagMap::new();
        stats.insert_str("RAW_SIMD_SPEEDUP", "1.8-2.0x");
        stats.insert_str("HEIC_SIMD_SPEEDUP", "1.8x");
        stats.insert_str("JPEG_CPU_OPTIMIZED", "CPU optimized");
        stats.insert_str("HYBRID_APPROACH", "Format-aware selection");
        stats
    }
}

impl Default for HybridExifParser {
    fn default() -> (r: HybridExifParser)
        ensures
            r@ == false,
    {
        HybridExifParser::new()
    }
}

/// A reader that looks at the file size before choosing; every size goes
/// to the extension-based reader.
pub struct PerformanceAwareParser {
    hybrid_parser: HybridExifParser,
    file_size_threshold: usize,
}

impl PerformanceAwareParser {
    /// Whether the SIMD readers take their AVX2 paths.
    pub closed spec fn avx2(&self) -> bool {
        self.hybrid_parser@
    }

    /// The size from which a file counts as large.
    pub closed spec fn threshold(&self) -> usize {
        self.file_size_threshold
    }

    /// A reader with a 10 MiB threshold.
    pub fn new() -> (r: PerformanceAwareParser)
        ensures
            !r.avx2(),
            r.threshold() == 10485760,
    {
        PerformanceAwareParser { hybrid_parser: HybridExifParser::new(), file_size_threshold: 10485760 }
    }

    /// Reads a file with the extension-based reader, whatever its size.
    pub fn parse_with_performance_awareness(&mut self, data: &[u8], file_extension: &str, metadata: &mut TagMap) -> (r:
        Result<(), ExifError>)
        ensures
            shown(r, hybrid_outcome(data@, file_extension@, old(metadata)@).0),
            final(metadata)@ == hybrid_outcome(data@, file_extension@, old(metadata)@).1,
            final(self).avx2() == old(self).avx2(),
            final(self).threshold() == old(self).threshold(),
    {
        self.hybrid_parser.parse_exif_hybrid(data, file_extension, metadata)
    }

    /// Sets the size from which a file counts as large.
    pub fn set_file_size_threshold(&mut self, threshold: usize)
        ensures
            final(self).threshold() == threshold,
            final(self).avx2() == old(self).avx2(),
    {
        self.file_size_threshold = threshold;
    }
}

impl Default for PerformanceAwareParser {
    fn default() -> (r: PerformanceAwareParser)
        ensures
            !r.avx2(),
            r.threshold() == 10485760,
    {
        PerformanceAwareParser::new()
    }
}

} // verus!
