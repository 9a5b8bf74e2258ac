//! A JPEG reader that keeps the largest EXIF segment, reads a short JFIF
//! header and computes megapixels from the image size.

use vstd::prelude::*;
use crate::bytes::{be16, read_u16};
use crate::jpeg::{exif_word_scan, JpegParser};
use crate::metadata::{num, text_of, txt, PieceModel, Real, RealStyle, TagMap};
use crate::text::{append_str, dec_text, parse_unsigned, parse_unsigned_text, push_dec, str_eq, sub_slice, u64_text};
use crate::tiff::{result_matches, tiff_outcome, TiffParser};
use crate::types::ExifError;
use crate::ultra_seek_optimized::vec_capacity;

verus! {

type M = Map<Seq<char>, Seq<PieceModel>>;

/// The EXIF data of the APP1 segment at `i`, as the bounds of the bytes
/// after its first `Exif`, when the segment fits and holds one.
pub open spec fn app1_exif(d: Seq<u8>, i: int) -> Option<(int, int)> {
    if d[i] == 0xFF && d[i + 1] == 0xE1 && i + 4 < d.len() {
        let end = i + 4 + be16(d[i + 2], d[i + 3]);
        if end <= d.len() {
            match exif_word_scan(d, i + 4, end) {
                Some(j) => Some((j + 4, end)),
                None => None,
            }
        } else {
            None
        }
    } else {
        None
    }
}

/// The size of a candidate segment; 0 for none.
pub open spec fn span_len(s: Option<(int, int)>) -> int {
    match s {
        Some((a, b)) => b - a,
        None => 0,
    }
}

/// The largest EXIF data of the APP1 segments from `i` on (the first of
/// equal ones), starting from `best`.
pub open spec fn largest_exif(d: Seq<u8>, i: int, best: Option<(int, int)>) -> Option<(int, int)>
    decreases d.len() - i,
{
    if i < 0 || i + 4 >= d.len() {
        best
    } else {
        let c = app1_exif(d, i);
        let b2 = if c is Some && span_len(c) > span_len(best) { c } else { best };
        largest_exif(d, i + 1, b2)
    }
}

/// The first APP0 marker from `i` whose length fits, and that length.
pub open spec fn fitting_app0(d: Seq<u8>, i: int) -> Option<(int, nat)>
    decreases d.len() - i,
{
    if i < 0 || i + 8 >= d.len() {
        None
    } else if d[i] == 0xFF && d[i + 1] == 0xE0 && i + 8 + be16(d[i + 2], d[i + 3]) <= d.len() {
        Some((i, be16(d[i + 2], d[i + 3])))
    } else {
        fitting_app0(d, i + 1)
    }
}

/// Whether the JFIF header read would index past its own bytes: a length
/// of 1 or 5.
pub open spec fn short_jfif(d: Seq<u8>) -> bool {
    fitting_app0(d, 0) matches Some((_, l)) && (l == 1 || l == 5)
}

/// What the JFIF header of the first fitting APP0 marker sets: the
/// version, and the densities when the length is at least 5.
pub open spec fn short_jfif_effect(d: Seq<u8>, m: M) -> M {
    match fitting_app0(d, 0) {
        Some((i, l)) => {
            let j = i + 4;
            let m1 = if l >= 1 {
                m.insert("JFIFVersion"@, txt(dec_text(d[j + 4] as nat) + "."@ + dec_text(d[j + 5] as nat)))
            } else {
                m
            };
            if l >= 5 {
                m1.insert("XResolution"@, txt(dec_text(be16(d[j + 6], d[j + 7])))).insert(
                    "YResolution"@,
                    txt(dec_text(be16(d[j + 8], d[j + 9]))),
                )
            } else {
                m1
            }
        },
        None => m,
    }
}

/// The image width and height as numbers, when both are stored as
/// decimal text that fits in 32 bits.
pub open spec fn size_numbers(m: M) -> Option<(nat, nat)> {
    match (text_of(m, "ImageWidth"@), text_of(m, "ImageHeight"@)) {
        (Some(tw), Some(th)) => match (parse_unsigned(tw, 0xffff_ffff), parse_unsigned(th, 0xffff_ffff)) {
            (Some(w), Some(h)) => Some((w, h)),
            _ => None,
        },
        _ => None,
    }
}

/// Whether the pixel count of the stored size overflows 32 bits.
pub open spec fn pixel_count_overflows(m: M) -> bool {
    size_numbers(m) matches Some((w, h)) && w * h > 0xffff_ffff
}

/// The megapixels of the stored size.
pub open spec fn size_megapixels(m: M) -> M {
    match size_numbers(m) {
        Some((w, h)) => m.insert("Megapixels"@, num(Real { num: (w * h) as i64, den: 1000000, style: RealStyle::Fixed(1) })),
        None => m,
    }
}

/// The two long flash descriptions rewritten as their codes.
pub open spec fn flash_codes(m: M) -> M {
    match text_of(m, "Flash"@) {
        Some(t) => if t == "Off, Did not fire"@ {
            m.insert("Flash"@, txt("16"@))
        } else if t == "On, Fired"@ {
            m.insert("Flash"@, txt("9"@))
        } else {
            m
        },
        None => m,
    }
}

/// The file type stored for a JPEG without EXIF.
pub open spec fn basic_type(m: M) -> M {
    m.insert("FileType"@, txt("JPEG"@)).insert("FileTypeExtension"@, txt("jpg"@)).insert("MIMEType"@, txt("image/jpeg"@))
}

/// The tags read before the computed fields: the largest EXIF segment (or
/// the file type when there is none) and the JFIF header.
pub open spec fn optimized_stage(d: Seq<u8>, m: M) -> (Option<Seq<char>>, M) {
    let (err, m1) = match largest_exif(d, 0, None) {
        Some((s, e)) => tiff_outcome(d.subrange(s, e), m),
        None => (None, basic_type(m)),
    };
    if err is Some {
        (err, m1)
    } else {
        (None, short_jfif_effect(d, m1))
    }
}

/// What the optimized reading of a JPEG file gives.
pub open spec fn optimized_outcome(d: Seq<u8>, m: M) -> (Option<Seq<char>>, M) {
    let (err, m1) = optimized_stage(d, m);
    if err is Some {
        (err, m1)
    } else {
        (None, flash_codes(size_megapixels(m1)))
    }
}

/// Adds the megapixels of the stored size.
pub(crate) fn add_size_megapixels(metadata: &mut TagMap)
    requires
        !pixel_count_overflows(old(metadata)@),
    ensures
        final(metadata)@ == size_megapixels(old(metadata)@),
{
    if let Some((w, h)) = OptimizedJpegParser::size_of(metadata) {
        let n: u64 = w * h;
        metadata.insert_number("Megapixels", Real { num: n as i64, den: 1000000, style: RealStyle::Fixed(1) });
    }
}

/// Whether the pixel count of the size stored in `metadata` overflows 32
/// bits.
pub fn pixel_count_overflows_in(metadata: &TagMap) -> (r: bool)
    ensures
        r == pixel_count_overflows(metadata@),
{
    match OptimizedJpegParser::size_of(metadata) {
        Some((w, h)) => {
            assert(w * h <= 0xffff_ffffu64 * 0xffff_ffffu64) by (nonlinear_arith)
                requires
                    w <= 0xffff_ffff,
                    h <= 0xffff_ffff,
            ;
            w * h > 0xffff_ffff
        },
        None => false,
    }
}

/// Buffer statistics of the optimized reader.
#[derive(Clone, Copy, Debug)]
pub struct MemoryStats {
    pub buffer_capacity: usize,
    pub metadata_capacity: usize,
}

/// Statistics of a batch reader.
#[derive(Clone, Copy, Debug)]
pub struct BatchStats {
    pub batch_size: usize,
    pub buffer_capacity: usize,
}

/// Whether the optimized reader can take a file's contents into an empty
/// map.
pub open spec fn optimized_readable(d: Seq<u8>) -> bool {
    !short_jfif(d) && (optimized_stage(d, Map::empty()).0 is None ==> !pixel_count_overflows(
        optimized_stage(d, Map::empty()).1,
    ))
}

/// A JPEG reader that reuses its buffer.
pub struct OptimizedJpegParser {
    exif_buffer: Vec<u8>,
}

impl OptimizedJpegParser {
    /// A reader with a one-megabyte buffer.
    pub fn new() -> (r: OptimizedJpegParser) {
        OptimizedJpegParser { exif_buffer: Vec::with_capacity(1024 * 1024) }
    }

    /// Reads a JPEG file: the largest EXIF segment (or the file type), the
    /// JFIF header, the megapixels and the flash codes.
    pub fn parse_jpeg_exif_optimized(&mut self, data: &[u8], metadata: &mut TagMap) -> (r: Result<(), ExifError>)
        requires
            !short_jfif(data@),
            optimized_stage(data@, old(metadata)@).0 is None ==> !pixel_count_overflows(
                optimized_stage(data@, old(metadata)@).1,
            ),
        ensures
            result_matches(r, optimized_outcome(data@, old(metadata)@).0),
            final(metadata)@ == optimized_outcome(data@, old(metadata)@).1,
    {
        match self.read_stage(data, metadata) {
            Ok(()) => {},
            Err(e) => {
                return Err(e);
            },
        }
        self.add_computed_fields_optimized(metadata);
        self.post_process_problematic_fields_optimized(metadata);
        Ok(())
    }

    /// The reading before the computed fields: the largest EXIF segment (or
    /// the file type) and the JFIF header.
    fn read_stage(&mut self, data: &[u8], metadata: &mut TagMap) -> (r: Result<(), ExifError>)
        requires
            !short_jfif(data@),
        ensures
            result_matches(r, optimized_stage(data@, old(metadata)@).0),
            final(metadata)@ == optimized_stage(data@, old(metadata)@).1,
    {
        self.exif_buffer.clear();
        match self.find_jpeg_exif_segment_optimized(data) {
            Some(exif_data) => {
                match TiffParser::parse_tiff_exif(exif_data, metadata) {
                    Ok(()) => {},
                    Err(e) => {
                        return Err(e);
                    },
                }
            },
            None => {
                self.extract_basic_jpeg_info_optimized(data, metadata);
            },
        }
        self.extract_jfif_info_optimized(data, metadata);
        Ok(())
    }

    /// Whether the optimized reader can read `data`: its first fitting JFIF
    /// header is not cut short, and the pixel count of the size it reads
    /// fits in 32 bits.
    pub fn can_read(&self, data: &[u8]) -> (r: bool)
        ensures
            r == optimized_readable(data@),
    {
        match Self::find_fitting_app0(data) {
            Some((_, l)) => {
                if l == 1 || l == 5 {
                    return false;
                }
            },
            None => {},
        }
        let mut scratch = OptimizedJpegParser::new();
        let mut m = TagMap::new();
        match scratch.read_stage(data, &mut m) {
            Ok(()) => !pixel_count_overflows_in(&m),
            Err(_) => true,
        }
    }

    /// The EXIF data of the APP1 segment at `i`.
    fn app1_exif_at(data: &[u8], i: usize) -> (r: Option<(usize, usize)>)
        requires
            i + 4 < data.len(),
        ensures
            r matches Some((a, b)) ==> app1_exif(data@, i as int) == Some((a as int, b as int)) && a <= b <= data@.len(),
            r is None ==> app1_exif(data@, i as int) is None,
    {
        if data[i] == 0xFF && data[i + 1] == 0xE1 {
            let length = read_u16(data, i + 2, false) as usize;
            if length <= data.len() - i - 4 {
                let end = i + 4 + length;
                match JpegParser::exif_word_find(data, i + 4, end) {
                    Some(j) => Some((j + 4, end)),
                    None => None,
                }
            } else {
                None
            }
        } else {
            None
        }
    }

    /// The largest EXIF data among the APP1 segments.
    fn find_jpeg_exif_segment_optimized<'a>(&self, data: &'a [u8]) -> (r: Option<&'a [u8]>)
        ensures
            r matches Some(s) ==> largest_exif(data@, 0, None) matches Some((a, b)) && s@ == data@.subrange(a, b),
            r is None ==> largest_exif(data@, 0, None) is None,
    {
        let mut best: Option<(usize, usize)> = None;
        let mut i: usize = 0;
        while i < data.len() && data.len() - i > 4
            invariant
                best matches Some((a, b)) ==> a <= b <= data@.len(),
                largest_exif(data@, i as int, match best {
                    Some((a, b)) => Some((a as int, b as int)),
                    None => None,
                }) == largest_exif(data@, 0, None),
            decreases data.len() - i,
        {
            match Self::app1_exif_at(data, i) {
                Some((a, b)) => {
                    let size = b - a;
                    let best_size = match best {
                        Some((x, y)) => y - x,
                        None => 0,
                    };
                    if size > best_size {
                        best = Some((a, b));
                    }
                },
                None => {},
            }
            i = i + 1;
        }
        match best {
            Some((a, b)) => Some(sub_slice(data, a, b)),
            None => None,
        }
    }

    /// Stores the file type of a JPEG without EXIF.
    fn extract_basic_jpeg_info_optimized(&mut self, _data: &[u8], metadata: &mut TagMap)
        ensures
            final(metadata)@ == basic_type(old(metadata)@),
    {
        metadata.insert_str("FileType", "JPEG");
        metadata.insert_str("FileTypeExtension", "jpg");
        metadata.insert_str("MIMEType", "image/jpeg");
    }

    /// The first APP0 marker whose length fits.
    fn find_fitting_app0(data: &[u8]) -> (r: Option<(usize, usize)>)
        ensures
            r matches Some((i, l)) ==> fitting_app0(data@, 0) == Some((i as int, l as nat)) && i + 8 + l <= data.len(),
            r is None ==> fitting_app0(data@, 0) is None,
    {
        let mut i: usize = 0;
        while i < data.len() && data.len() - i > 8
            invariant
                fitting_app0(data@, i as int) == fitting_app0(data@, 0),
            decreases data.len() - i,
        {
            if data[i] == 0xFF && data[i + 1] == 0xE0 {
                let length = read_u16(data, i + 2, false) as usize;
                if length <= data.len() - i - 8 {
                    return Some((i, length));
                }
            }
            i = i + 1;
        }
        None
    }

    /// Reads the version and densities of the first fitting JFIF header.
    fn extract_jfif_info_optimized(&mut self, data: &[u8], metadata: &mut TagMap)
        requires
            !short_jfif(data@),
        ensures
            final(metadata)@ == short_jfif_effect(data@, old(metadata)@),
    {
        match Self::find_fitting_app0(data) {
            Some((i, l)) => {
                let j = i + 4;
                if l >= 1 {
                    let mut v = u64_text(data[j + 4] as u64);
                    append_str(&mut v, ".");
                    push_dec(&mut v, data[j + 5] as u64);
                    assert(v@ =~= dec_text(data@[j + 4] as nat) + "."@ + dec_text(data@[j + 5] as nat));
                    metadata.insert_text("JFIFVersion", v);
                }
                if l >= 5 {
                    metadata.insert_text("XResolution", u64_text(read_u16(data, j + 6, false) as u64));
                    metadata.insert_text("YResolution", u64_text(read_u16(data, j + 8, false) as u64));
                }
            },
            None => {},
        }
    }

    /// The stored width and height as numbers.
    fn size_of(metadata: &TagMap) -> (r: Option<(u64, u64)>)
        ensures
            r matches Some((w, h)) ==> size_numbers(metadata@) == Some((w as nat, h as nat)) && w <= 0xffff_ffff
                && h <= 0xffff_ffff,
            r is None ==> size_numbers(metadata@) is None,
    {
        match (metadata.get_text("ImageWidth"), metadata.get_text("ImageHeight")) {
            (Some(tw), Some(th)) => match (
                parse_unsigned_text(tw.as_str(), 0xffff_ffff),
                parse_unsigned_text(th.as_str(), 0xffff_ffff),
            ) {
                (Some(w), Some(h)) => Some((w, h)),
                _ => None,
            },
            _ => None,
        }
    }

    /// Adds the megapixels of the stored size.
    fn add_computed_fields_optimized(&mut self, metadata: &mut TagMap)
        requires
            !pixel_count_overflows(old(metadata)@),
        ensures
            final(metadata)@ == size_megapixels(old(metadata)@),
    {
        add_size_megapixels(metadata);
    }

    /// Rewrites the two long flash descriptions as their codes.
    fn post_process_problematic_fields_optimized(&mut self, metadata: &mut TagMap)
        ensures
            final(metadata)@ == flash_codes(old(metadata)@),
    {
        let code = match metadata.get_text("Flash") {
            Some(t) => if str_eq(t.as_str(), "Off, Did not fire") {
                Some("16")
            } else if str_eq(t.as_str(), "On, Fired") {
                Some("9")
            } else {
                None
            },
            None => None,
        };
        if let Some(c) = code {
            metadata.insert_str("Flash", c);
        }
    }

    /// The buffer statistics; the capacity is what the allocator gave.
    pub fn get_memory_stats(&self) -> (r: MemoryStats)
        ensures
            r.metadata_capacity == 0,
    {
        MemoryStats { buffer_capacity: vec_capacity(&self.exif_buffer), metadata_capacity: 0 }
    }

    /// Empties the buffer.
    pub fn clear_caches(&mut self) {
        self.exif_buffer.clear();
    }
}

impl Default for OptimizedJpegParser {
    fn default() -> (r: OptimizedJpegParser) {
        OptimizedJpegParser::new()
    }
}

/// A batch reader around the optimized reader.
pub struct BatchJpegProcessor {
    pub parser: OptimizedJpegParser,
    batch_size: usize,
    batch_buffer: Vec<TagMap>,
}

impl BatchJpegProcessor {
    /// A batch reader taking `batch_size` files at a time.
    pub fn new(batch_size: usize) -> (r: BatchJpegProcessor)
        ensures
            r.batch_size() == batch_size,
    {
        BatchJpegProcessor { parser: OptimizedJpegParser::new(), batch_size, batch_buffer: Vec::with_capacity(batch_size) }
    }

    pub closed spec fn spec_batch_size(&self) -> usize {
        self.batch_size
    }

    /// How many files are taken at a time.
    #[verifier::when_used_as_spec(spec_batch_size)]
    pub fn batch_size(&self) -> (r: usize)
        ensures
            r == self.spec_batch_size(),
    {
        self.batch_size
    }

    /// Reads each file's contents with the reader, in turn; fails with the
    /// first file that fails.
    pub fn process_jpeg_files(&mut self, files: &[Vec<u8>]) -> (r: Result<Vec<TagMap>, ExifError>)
        requires
            old(self).batch_size() > 0,
            forall|i: int| 0 <= i < files@.len() ==> optimized_readable(#[trigger] files@[i]@),
        ensures
            final(self).batch_size() == old(self).batch_size(),
            r matches Ok(v) ==> v@.len() == files@.len() && forall|i: int|
                0 <= i < files@.len() ==> optimized_outcome(#[trigger] files@[i]@, Map::empty()).0 is None && v@[i]@
                    == optimized_outcome(files@[i]@, Map::empty()).1,
            r is Ok <==> forall|i: int| 0 <= i < files@.len() ==> (#[trigger] optimized_outcome(files@[i]@, Map::empty())).0 is None,
            r matches Err(e) ==> exists|i: int|
                0 <= i < files@.len() && result_matches(Err(e), #[trigger] optimized_outcome(files@[i]@, Map::empty()).0),
    {
        let mut results: Vec<TagMap> = Vec::new();
        let mut i: usize = 0;
        while i < files.len()
            invariant
                i <= files@.len(),
                results@.len() == i,
                self.batch_size == old(self).batch_size,
                forall|j: int| 0 <= j < files@.len() ==> optimized_readable(#[trigger] files@[j]@),
                forall|j: int|
                    0 <= j < i ==> optimized_outcome(#[trigger] files@[j]@, Map::empty()).0 is None && results@[j]@
                        == optimized_outcome(files@[j]@, Map::empty()).1,
            decreases files.len() - i,
        {
            let mut metadata = TagMap::new();
            match self.parser.parse_jpeg_exif_optimized(files[i].as_slice(), &mut metadata) {
                Ok(()) => {},
                Err(e) => {
                    return Err(e);
                },
            }
            results.push(metadata);
            i = i + 1;
        }
        Ok(results)
    }

    /// The batch size and the buffer's capacity.
    pub fn get_stats(&self) -> (r: BatchStats)
        ensures
            r.batch_size == self.batch_size(),
    {
        BatchStats { batch_size: self.batch_size, buffer_capacity: vec_capacity(&self.batch_buffer) }
    }
}

impl Default for BatchJpegProcessor {
    fn default() -> (r: BatchJpegProcessor)
        ensures
            r.batch_size() == 50,
    {
        BatchJpegProcessor::new(50)
    }
}

} // verus!
