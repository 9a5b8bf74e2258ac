//! JPEG reading: the EXIF segment, JFIF and frame information, and the
//! fields ExifTool computes from the EXIF tags.

use vstd::prelude::*;
use crate::bytes::read_u16;
use crate::computed::{
    add_camera_fields, camera_fields_effect, copy_of, crop_factor_milli, crop_factor_of, exposure_compensation_fixed,
    exposure_mode_fixed, fix_exposure_compensation, fix_exposure_mode, format_version_field_from_raw, version_text,
};
use crate::heif::{create_date_step, exif_word_at};
use crate::maker_notes::{canon_bytes, nikon_bytes, samsung_bytes};
use crate::metadata::{num, text_of, txt, PieceModel, Real, RealStyle, TagMap, TagValue};
use crate::text::{chars_of, dec_text, parse_unsigned, parse_unsigned_text, push_dec, str_eq, string_from_chars, sub_slice, text, u64_text};
use crate::tiff::{result_matches, tiff_outcome, TiffParser};
use crate::types::ExifError;
use crate::utils::{bytes_match_at, find_first, first_match, lemma_first_match_unique, stamp_at, ExifUtils};

verus! {

type M = Map<Seq<char>, Seq<PieceModel>>;

/// The first APP1 segment from `pos` with `Exif` in it: the bytes after the
/// first `Exif`, up to the segment's end.
pub open spec fn exif_segment_scan(d: Seq<u8>, pos: int) -> Option<Seq<u8>>
    decreases d.len() - pos,
{
    if pos < 0 || pos + 6 >= d.len() {
        None
    } else if d[pos] == 0xFF && d[pos + 1] == 0xE1 {
        let end = pos + 2 + (d[pos + 2] as int) * 256 + d[pos + 3] as int;
        if end > d.len() {
            None
        } else {
            match exif_word_scan(d, pos + 4, end) {
                Some(s) => Some(d.subrange(s + 4, end)),
                None => exif_segment_scan(d, end),
            }
        }
    } else {
        exif_segment_scan(d, pos + 1)
    }
}

/// The first position from `i` before `end - 4` where `Exif` starts.
pub open spec fn exif_word_scan(d: Seq<u8>, i: int, end: int) -> Option<int>
    decreases end - i,
{
    if i < 0 || i + 4 >= end || end > d.len() {
        None
    } else if exif_word_at(d, i) {
        Some(i)
    } else {
        exif_word_scan(d, i + 1, end)
    }
}

/// Whether an SOF0 to SOF3 marker starts at `i`.
pub open spec fn sof_at(d: Seq<u8>, i: int) -> bool {
    d[i] == 0xFF && 0xC0 <= d[i + 1] <= 0xC3
}

/// The first frame marker from `i` before the last `tail` bytes.
pub open spec fn sof_scan(d: Seq<u8>, i: int, tail: int) -> Option<int>
    decreases d.len() - i,
{
    if i < 0 || tail < 0 || i + tail >= d.len() {
        None
    } else if sof_at(d, i) {
        Some(i)
    } else {
        sof_scan(d, i + 1, tail)
    }
}

/// The width and height in the first frame header.
pub open spec fn jpeg_dimensions(d: Seq<u8>) -> Option<(u16, u16)> {
    match sof_scan(d, 0, 8) {
        Some(i) => Some((((d[i + 7] as int) * 256 + d[i + 8] as int) as u16, ((d[i + 5] as int) * 256 + d[i + 6] as int) as u16)),
        None => None,
    }
}

/// The sum of `d[a..b]`.
pub open spec fn byte_sum(d: Seq<u8>, a: int, b: int) -> nat
    decreases b - a,
{
    if a >= b {
        0
    } else {
        byte_sum(d, a, b - 1) + d[b - 1] as nat
    }
}

/// The quality that an average quantization value suggests.
pub open spec fn quality_of(avg: nat) -> u8 {
    if avg < 10 {
        95
    } else if avg < 20 {
        85
    } else if avg < 30 {
        75
    } else if avg < 40 {
        65
    } else if avg < 50 {
        55
    } else if avg < 60 {
        45
    } else if avg < 70 {
        35
    } else if avg < 80 {
        25
    } else {
        15
    }
}

/// The quality from the first quantization table from `i` whose length is
/// within the data and covers at least one byte.
pub open spec fn quality_scan(d: Seq<u8>, i: int) -> Option<u8>
    decreases d.len() - i,
{
    if i < 0 || i + 4 >= d.len() {
        None
    } else if d[i] == 0xFF && d[i + 1] == 0xDB {
        let length = (d[i + 2] as int) * 256 + d[i + 3] as int;
        let start = i + 4;
        let end = start + ((length as u16).wrapping_sub(2u16) as int);
        if i + length < d.len() && end <= d.len() && end > start {
            Some(quality_of(byte_sum(d, start, end) / ((end - start) as nat)))
        } else {
            quality_scan(d, i + 1)
        }
    } else {
        quality_scan(d, i + 1)
    }
}

/// The density unit name of a JFIF header.
pub open spec fn density_unit(u: u8) -> Seq<char> {
    if u == 0 {
        "None"@
    } else if u == 1 {
        "inches"@
    } else if u == 2 {
        "cm"@
    } else {
        "Unknown"@
    }
}

/// Whether `JFIF\0` starts at `p`.
pub open spec fn jfif_at(d: Seq<u8>, p: int) -> bool {
    d[p] == 0x4A && d[p + 1] == 0x46 && d[p + 2] == 0x49 && d[p + 3] == 0x46 && d[p + 4] == 0
}

/// The first APP0 marker from `i` before the last sixteen bytes.
pub open spec fn app0_scan(d: Seq<u8>, i: int) -> Option<int>
    decreases d.len() - i,
{
    if i < 0 || i + 16 >= d.len() {
        None
    } else if d[i] == 0xFF && d[i + 1] == 0xE0 {
        Some(i)
    } else {
        app0_scan(d, i + 1)
    }
}

/// What the JFIF header at the first APP0 marker sets.
pub open spec fn jfif_header_effect(d: Seq<u8>, m: M) -> M {
    match app0_scan(d, 0) {
        Some(i) => {
            let length = (d[i + 2] as int) * 256 + d[i + 3] as int;
            let s = i + 4;
            if i + length < d.len() && s + 5 < d.len() && jfif_at(d, s) {
                let m1 = if s + 7 < d.len() {
                    m.insert("JFIFVersion"@, txt(dec_text(d[s + 5] as nat) + "."@ + dec_text(d[s + 6] as nat)))
                } else {
                    m
                };
                let m2 = if s + 8 < d.len() { m1.insert("ResolutionUnit"@, txt(density_unit(d[s + 7]))) } else { m1 };
                let m3 = if s + 12 < d.len() {
                    m2.insert("XResolution"@, txt(dec_text(((d[s + 8] as int) * 256 + d[s + 9] as int) as nat))).insert(
                        "YResolution"@,
                        txt(dec_text(((d[s + 10] as int) * 256 + d[s + 11] as int) as nat)),
                    )
                } else {
                    m2
                };
                if s + 14 < d.len() && d[s + 12] > 0 && d[s + 13] > 0 {
                    m3.insert("JFIFThumbnailWidth"@, txt(dec_text(d[s + 12] as nat))).insert(
                        "JFIFThumbnailHeight"@,
                        txt(dec_text(d[s + 13] as nat)),
                    )
                } else {
                    m3
                }
            } else {
                m
            }
        },
        None => m,
    }
}

/// The chroma subsampling of sampling factors.
pub open spec fn subsampling_text(yh: u8, yv: u8, cbh: u8, cbv: u8, crh: u8, crv: u8) -> Seq<char> {
    if cbh == 1 && cbv == 1 && crh == 1 && crv == 1 && yh == 2 && yv == 2 {
        "4:2:0"@
    } else if cbh == 1 && cbv == 1 && crh == 1 && crv == 1 && yh == 2 && yv == 1 {
        "4:2:2"@
    } else if cbh == 1 && cbv == 1 && crh == 1 && crv == 1 && yh == 1 && yv == 1 {
        "4:4:4"@
    } else {
        dec_text(yh as nat) + ":"@ + dec_text(cbh as nat) + ":"@ + dec_text(crh as nat)
    }
}

/// What the first frame header (before the last twenty bytes) says of
/// the chroma subsampling.
pub open spec fn ycbcr_effect(d: Seq<u8>, m: M) -> M {
    match sof_scan(d, 0, 20) {
        Some(i) => if d[i + 9] >= 3 {
            m.insert(
                "YCbCrSubSampling"@,
                txt(
                    subsampling_text(
                        d[i + 11] / 16,
                        d[i + 11] % 16,
                        d[i + 14] / 16,
                        d[i + 14] % 16,
                        d[i + 17] / 16,
                        d[i + 17] % 16,
                    ),
                ),
            )
        } else {
            m
        },
        None => m,
    }
}

/// What reading the JFIF information sets.
pub open spec fn jfif_effect(d: Seq<u8>, m: M) -> M {
    ycbcr_effect(d, jfif_header_effect(d, m))
}

/// The defaults stored for a JPEG without EXIF.
pub open spec fn basic_defaults(m: M) -> M {
    m.insert("Compression"@, txt("JPEG"@)).insert("ColorSpace"@, txt("sRGB"@)).insert("BitsPerSample"@, txt("8"@)).insert(
        "ColorComponents"@,
        txt("3"@),
    ).insert("FileSource"@, txt("Digital Camera"@)).insert("SceneType"@, txt("Directly photographed"@)).insert(
        "ExifVersion"@,
        txt("0220"@),
    ).insert("FlashpixVersion"@, txt("0100"@)).insert("ComponentsConfiguration"@, txt("Y, Cb, Cr, -"@)).insert(
        "InteropIndex"@,
        txt("R98 - DCF basic file (sRGB)"@),
    ).insert("InteropVersion"@, txt("0100"@)).insert("CustomRendered"@, txt("Normal"@)).insert(
        "ExposureMode"@,
        txt("Auto"@),
    ).insert("WhiteBalance"@, txt("Auto"@)).insert("SceneCaptureType"@, txt("Standard"@)).insert(
        "GainControl"@,
        txt("None"@),
    ).insert("Contrast"@, txt("Normal"@)).insert("Saturation"@, txt("Normal"@)).insert("Sharpness"@, txt("Normal"@)).insert(
        "SubjectDistanceRange"@,
        txt("Unknown"@),
    ).insert("SensingMethod"@, txt("One-chip color area sensor"@))
}

/// What the basic information of a JPEG without EXIF is.
pub open spec fn basic_info_effect(d: Seq<u8>, m: M) -> M {
    let m1 = m.insert("FileType"@, txt("JPEG"@)).insert("FileTypeExtension"@, txt("jpg"@)).insert(
        "MIMEType"@,
        txt("image/jpeg"@),
    ).insert("Format"@, txt("image/jpeg"@));
    let m2 = jfif_effect(d, m1);
    let m3 = match jpeg_dimensions(d) {
        Some((w, h)) => m2.insert("ImageWidth"@, txt(dec_text(w as nat))).insert("ImageHeight"@, txt(dec_text(h as nat))).insert(
            "ImageSize"@,
            txt(dec_text(w as nat) + "x"@ + dec_text(h as nat)),
        ).insert("Megapixels"@, num(Real { num: (w as int * h as int) as i64, den: 1000000, style: RealStyle::Fixed(1) })),
        None => m2,
    };
    let m4 = match quality_scan(d, 0) {
        Some(q) => m3.insert("JPEGQuality"@, txt(dec_text(q as nat))),
        None => m3,
    };
    basic_defaults(m4)
}


/// The bytes of `GoPro`.
pub open spec fn gopro_bytes() -> Seq<u8> {
    seq![71u8, 111u8, 80u8, 114u8, 111u8]
}

/// The first timestamp at one of the hundred positions from `pos + k`.
pub open spec fn stamp_near(d: Seq<u8>, pos: int, k: int) -> Option<Seq<char>>
    decreases 100 - k,
{
    if k < 0 || k >= 100 {
        None
    } else {
        match stamp_at(d, pos + k) {
            Some(t) => Some(t),
            None => stamp_near(d, pos, k + 1),
        }
    }
}

/// What the Canon-specific reading sets: a marker when `Canon` occurs, and
/// a timestamp found near it.
pub open spec fn canon_tags_effect(d: Seq<u8>, m: M) -> M {
    match find_first(d, canon_bytes()) {
        Some(pos) => {
            let m1 = m.insert("CanonDetected"@, txt("true"@));
            match stamp_near(d, pos, 0) {
                Some(t) => m1.insert("CanonTimestamp"@, txt(t)),
                None => m1,
            }
        },
        None => m,
    }
}

/// A marker stored when `pat` occurs in the data.
pub open spec fn marker_effect(d: Seq<u8>, pat: Seq<u8>, key: Seq<char>, m: M) -> M {
    if find_first(d, pat) is Some {
        m.insert(key, txt("true"@))
    } else {
        m
    }
}

/// What the maker-specific reading sets, by the make.
pub open spec fn camera_specific_effect(d: Seq<u8>, m: M) -> M {
    match text_of(m, "Make"@) {
        Some(t) => if t == "Canon"@ {
            canon_tags_effect(d, m)
        } else if t == "NIKON CORPORATION"@ {
            marker_effect(d, nikon_bytes(), "NikonDetected"@, m)
        } else if t == "GoPro"@ {
            marker_effect(d, gopro_bytes(), "GoProDetected"@, m)
        } else if t == "Samsung"@ {
            marker_effect(d, samsung_bytes(), "SamsungDetected"@, m)
        } else {
            m
        },
        None => m,
    }
}

/// A date joined with its sub-seconds when they are present.
pub open spec fn with_subsec(m: M, date: Seq<char>, sub: Seq<char>, key: Seq<char>) -> M {
    if !m.contains_key(key) && m.contains_key(date) {
        if m.contains_key(sub) {
            m.insert(key, m[date] + txt("."@) + m[sub])
        } else {
            m.insert(key, m[date])
        }
    } else {
        m
    }
}

/// What the computed date and time fields are.
pub open spec fn time_fields_effect(m: M) -> M {
    let m1 = create_date_step(m);
    let m2 = if !m1.contains_key("DateTimeCreated"@) && m1.contains_key("DateTimeOriginal"@) {
        m1.insert("DateTimeCreated"@, m1["DateTimeOriginal"@])
    } else {
        m1
    };
    let m3 = if !m2.contains_key("TimeCreated"@) {
        match text_of(m2, "DateTimeOriginal"@) {
            Some(t) => if t.len() >= 19 && t[10] == ' ' {
                m2.insert("TimeCreated"@, txt(t.subrange(11, 19)))
            } else {
                m2
            },
            None => m2,
        }
    } else {
        m2
    };
    let m4 = with_subsec(m3, "DateTimeOriginal"@, "SubSecTimeOriginal"@, "SubSecDateTimeOriginal"@);
    with_subsec(m4, "DateTimeDigitized"@, "SubSecTimeDigitized"@, "SubSecDateTimeDigitized"@)
}

/// `v` stored under `k` when nothing is.
pub open spec fn default_to(m: M, k: Seq<char>, v: Seq<char>) -> M {
    if m.contains_key(k) {
        m
    } else {
        m.insert(k, txt(v))
    }
}

/// The defaults stored when missing.
pub open spec fn additional_effect(m: M) -> M {
    let a = default_to(default_to(default_to(default_to(m, "FlashpixVersion"@, "0100"@), "ComponentsConfiguration"@, "Y, Cb, Cr, -"@),
        "InteropIndex"@, "R98 - DCF basic file (sRGB)"@), "InteropVersion"@, "0100"@);
    let b = default_to(default_to(default_to(default_to(a, "ExifVersion"@, "0220"@), "FileSource"@, "Digital Camera"@),
        "SceneType"@, "Directly photographed"@), "CustomRendered"@, "Normal"@);
    let c = default_to(default_to(default_to(default_to(b, "ExposureMode"@, "Auto"@), "WhiteBalance"@, "Auto"@),
        "SceneCaptureType"@, "Standard"@), "GainControl"@, "None"@);
    default_to(default_to(default_to(default_to(default_to(c, "Contrast"@, "Normal"@), "Saturation"@, "Normal"@),
        "Sharpness"@, "Normal"@), "SubjectDistanceRange"@, "Unknown"@), "SensingMethod"@, "One-chip color area sensor"@)
}

/// What adding the JPEG fields computed from the EXIF ones does.
pub open spec fn computed_effect(m: M) -> M {
    let m1 = m.insert("FileTypeExtension"@, txt("jpg"@)).insert("MIMEType"@, txt("image/jpeg"@)).insert(
        "ExifToolVersion"@,
        txt("fast-exif-rs 0.5.2"@),
    ).insert("EncodingProcess"@, txt("Baseline DCT, Huffman coding"@)).insert("Format"@, txt("image/jpeg"@));
    additional_effect(camera_fields_effect(time_fields_effect(m1)))
}

/// A one-char version rewritten: a digit is read as a raw number, another
/// ASCII char as its code; the printable bytes of that number remain.
pub open spec fn one_char_version(m: M, k: Seq<char>) -> M {
    match text_of(m, k) {
        Some(t) => if t.len() == 1 && (t[0] as u32) < 128 {
            let code = t[0] as u32;
            let raw: u32 = if crate::text::is_ascii_digit(t[0]) { (code - 48) as u32 } else { code };
            m.insert(k, txt(version_text(raw)))
        } else {
            m
        },
        None => m,
    }
}

/// What fixing the JPEG version tags does.
pub open spec fn jpeg_versions_fixed(m: M) -> M {
    one_char_version(one_char_version(m, "FlashpixVersion"@), "ExifVersion"@)
}

/// A raw shutter-speed value: known raw values have their exposure time,
/// others are read as APEX values scaled by 100, 1000 or 10000.
pub open spec fn apex_value(raw: nat) -> Seq<PieceModel> {
    if raw == 964 {
        txt("1/197"@)
    } else if raw == 908 {
        txt("1/512"@)
    } else if raw == 878 {
        txt("1/41"@)
    } else if raw == 616 {
        txt("1/60"@)
    } else if raw == 628 {
        txt("1/40"@)
    } else if raw == 470 {
        txt("1/64"@)
    } else if raw == 458 {
        txt("1/4"@)
    } else if raw == 4776 || raw == 4312 || raw == 4546 {
        txt("1/30"@)
    } else if raw == 4822 || raw == 2824 {
        txt("1/80"@)
    } else if raw == 4906 {
        txt("1/220"@)
    } else {
        num(Real {
            num: raw as i64,
            den: if raw < 1000 { 100 } else if raw < 10000 { 1000 } else { 10000 },
            style: RealStyle::ApexExposure,
        })
    }
}

/// What fixing a raw shutter-speed value does.
pub open spec fn apex_effect(m: M) -> M {
    match text_of(m, "ShutterSpeedValue"@) {
        Some(t) => match parse_unsigned(t, 0xffff_ffff) {
            Some(raw) => m.insert("ShutterSpeedValue"@, apex_value(raw)),
            None => m,
        },
        None => m,
    }
}

/// What the JPEG clean-up of raw values does.
pub open spec fn jpeg_post_effect(m: M) -> M {
    exposure_mode_fixed(apex_effect(exposure_compensation_fixed(jpeg_versions_fixed(m))))
}

/// What reading a JPEG file does: the tags of its EXIF segment (or the
/// basic information when it has none), the JFIF information, the
/// maker-specific markers, the computed fields and the clean-up; the error
/// of the EXIF reading, if any, with the tags read up to it.
pub open spec fn jpeg_outcome(d: Seq<u8>, m: M) -> (Option<Seq<char>>, M) {
    match exif_segment_scan(d, 2) {
        Some(e) => {
            let (err, m1) = tiff_outcome(e, m);
            if err is Some {
                (err, m1)
            } else {
                (None, jpeg_post_effect(computed_effect(camera_specific_effect(d, jfif_effect(d, m1)))))
            }
        },
        None => (None, jpeg_post_effect(computed_effect(camera_specific_effect(d, jfif_effect(d, basic_info_effect(d, m)))))),
    }
}


/// The JPEG parser.
pub struct JpegParser;

impl JpegParser {
    /// The first position from `i` before `end - 4` where `Exif` starts.
    pub(crate) fn exif_word_find(data: &[u8], start: usize, end: usize) -> (r: Option<usize>)
        requires
            end <= data@.len(),
        ensures
            r matches Some(s) ==> exif_word_scan(data@, start as int, end as int) == Some(s as int) && s + 4 < end,
            r is None ==> exif_word_scan(data@, start as int, end as int) is None,
    {
        let mut i = start;
        while i < end && end - i > 4
            invariant
                start <= i,
                end <= data@.len(),
                exif_word_scan(data@, i as int, end as int) == exif_word_scan(data@, start as int, end as int),
            decreases end - i,
        {
            if data[i] == 0x45 && data[i + 1] == 0x78 && data[i + 2] == 0x69 && data[i + 3] == 0x66 {
                return Some(i);
            }
            i = i + 1;
        }
        None
    }

    /// The EXIF data of the first APP1 segment with `Exif` in it: the bytes
    /// after `Exif`, up to the segment's end.
    pub fn find_jpeg_exif_segment(data: &[u8]) -> (r: Option<&[u8]>)
        ensures
            r matches Some(x) ==> exif_segment_scan(data@, 2) == Some(x@),
            r is None ==> exif_segment_scan(data@, 2) is None,
    {
        let mut pos: usize = 2;
        while pos < data.len() && data.len() - pos > 6
            invariant
                pos >= 2,
                exif_segment_scan(data@, pos as int) == exif_segment_scan(data@, 2),
            decreases data.len() - pos,
        {
            if data[pos] == 0xFF && data[pos + 1] == 0xE1 {
                let length = read_u16(data, pos + 2, false) as usize;
                if data.len() - pos - 2 < length {
                    return None;
                }
                let end = pos + 2 + length;
                match Self::exif_word_find(data, pos + 4, end) {
                    Some(s) => {
                        return Some(crate::text::sub_slice(data, s + 4, end));
                    },
                    None => {},
                }
                pos = end;
            } else {
                pos = pos + 1;
            }
        }
        None
    }

    /// The first frame marker before the last `tail` bytes.
    fn sof_find(data: &[u8], tail: usize) -> (r: Option<usize>)
        requires
            1 <= tail <= 20,
        ensures
            r matches Some(i) ==> sof_scan(data@, 0, tail as int) == Some(i as int),
            r matches Some(i) ==> i + tail < data.len(),
            r is None ==> sof_scan(data@, 0, tail as int) is None,
    {
        let mut i: usize = 0;
        while i < data.len() && data.len() - i > tail
            invariant
                sof_scan(data@, i as int, tail as int) == sof_scan(data@, 0, tail as int),
            decreases data.len() - i,
        {
            if data[i] == 0xFF && data[i + 1] >= 0xC0 && data[i + 1] <= 0xC3 {
                return Some(i);
            }
            i = i + 1;
        }
        None
    }

    /// The width and height in the first frame header.
    fn extract_jpeg_dimensions(data: &[u8]) -> (r: Option<(u16, u16)>)
        ensures
            r == jpeg_dimensions(data@),
    {
        match Self::sof_find(data, 8) {
            Some(i) => Some((read_u16(data, i + 7, false), read_u16(data, i + 5, false))),
            None => None,
        }
    }

    /// The quality estimated from the first usable quantization table.
    fn extract_jpeg_quality(data: &[u8]) -> (r: Option<u8>)
        ensures
            r == quality_scan(data@, 0),
    {
        let mut i: usize = 0;
        while i < data.len() && data.len() - i > 4
            invariant
                quality_scan(data@, i as int) == quality_scan(data@, 0),
            decreases data.len() - i,
        {
            if data[i] == 0xFF && data[i + 1] == 0xDB {
                let length = read_u16(data, i + 2, false);
                let start = i + 4;
                let span = length.wrapping_sub(2) as usize;
                if (length as usize) < data.len() - i && span <= data.len() - start && span > 0 {
                    let end = start + span;
                    let mut sum: u32 = 0;
                    let mut j = start;
                    while j < end
                        invariant
                            start <= j <= end <= data@.len(),
                            end - start <= 65535,
                            sum == byte_sum(data@, start as int, j as int),
                            sum <= 255 * (j - start),
                        decreases end - j,
                    {
                        sum = sum + data[j] as u32;
                        j = j + 1;
                    }
                    let avg = sum / (span as u32);
                    let q: u8 = if avg < 10 {
                        95
                    } else if avg < 20 {
                        85
                    } else if avg < 30 {
                        75
                    } else if avg < 40 {
                        65
                    } else if avg < 50 {
                        55
                    } else if avg < 60 {
                        45
                    } else if avg < 70 {
                        35
                    } else if avg < 80 {
                        25
                    } else {
                        15
                    };
                    return Some(q);
                }
            }
            i = i + 1;
        }
        None
    }

    /// The name of a JFIF density unit.
    pub(crate) fn density_unit_name(u: u8) -> (r: &'static str)
        ensures
            r@ == density_unit(u),
    {
        if u == 0 {
            "None"
        } else if u == 1 {
            "inches"
        } else if u == 2 {
            "cm"
        } else {
            "Unknown"
        }
    }

    /// The first APP0 marker before the last sixteen bytes.
    fn app0_find(data: &[u8]) -> (r: Option<usize>)
        ensures
            r matches Some(i) ==> app0_scan(data@, 0) == Some(i as int) && i + 16 < data.len(),
            r is None ==> app0_scan(data@, 0) is None,
    {
        let mut i: usize = 0;
        while i < data.len() && data.len() - i > 16
            invariant
                app0_scan(data@, i as int) == app0_scan(data@, 0),
            decreases data.len() - i,
        {
            if data[i] == 0xFF && data[i + 1] == 0xE0 {
                return Some(i);
            }
            i = i + 1;
        }
        None
    }

    /// Reads the JFIF header and the chroma subsampling.
    fn extract_jfif_info(data: &[u8], metadata: &mut TagMap)
        ensures
            final(metadata)@ == jfif_effect(data@, old(metadata)@),
    {
        let found = Self::app0_find(data);
        if let Some(i) = found {
            let length = read_u16(data, i + 2, false) as usize;
            let s = i + 4;
            if length < data.len() - i && data[s] == 0x4A && data[s + 1] == 0x46 && data[s + 2] == 0x49 && data[s + 3] == 0x46 && data[s + 4] == 0 {
                let ghost m0 = metadata@;
                if data.len() - s > 7 {
                    let mut v = u64_text(data[s + 5] as u64);
                    crate::text::append_str(&mut v, ".");
                    push_dec(&mut v, data[s + 6] as u64);
                    assert(v@ =~= dec_text(data@[s + 5] as nat) + "."@ + dec_text(data@[s + 6] as nat));
                    metadata.insert_text("JFIFVersion", v);
                }
                if data.len() - s > 8 {
                    metadata.insert_str("ResolutionUnit", Self::density_unit_name(data[s + 7]));
                }
                if data.len() - s > 12 {
                    metadata.insert_text("XResolution", u64_text(read_u16(data, s + 8, false) as u64));
                    metadata.insert_text("YResolution", u64_text(read_u16(data, s + 10, false) as u64));
                }
                if data.len() - s > 14 && data[s + 12] > 0 && data[s + 13] > 0 {
                    metadata.insert_text("JFIFThumbnailWidth", u64_text(data[s + 12] as u64));
                    metadata.insert_text("JFIFThumbnailHeight", u64_text(data[s + 13] as u64));
                }
            }
        }
        assert(metadata@ == jfif_header_effect(data@, old(metadata)@));
        Self::extract_ycbcr_subsampling(data, metadata);
    }

    /// Reads the chroma subsampling of the first frame header.
    fn extract_ycbcr_subsampling(data: &[u8], metadata: &mut TagMap)
        ensures
            final(metadata)@ == ycbcr_effect(data@, old(metadata)@),
    {
        match Self::sof_find(data, 20) {
            Some(i) => {
                if data[i + 9] >= 3 {
                    let yh = data[i + 11] / 16;
                    let yv = data[i + 11] % 16;
                    let cbh = data[i + 14] / 16;
                    let cbv = data[i + 14] % 16;
                    let crh = data[i + 17] / 16;
                    let crv = data[i + 17] % 16;
                    let v = if cbh == 1 && cbv == 1 && crh == 1 && crv == 1 && yh == 2 && yv == 2 {
                        text("4:2:0")
                    } else if cbh == 1 && cbv == 1 && crh == 1 && crv == 1 && yh == 2 && yv == 1 {
                        text("4:2:2")
                    } else if cbh == 1 && cbv == 1 && crh == 1 && crv == 1 && yh == 1 && yv == 1 {
                        text("4:4:4")
                    } else {
                        let mut s = u64_text(yh as u64);
                        crate::text::append_str(&mut s, ":");
                        push_dec(&mut s, cbh as u64);
                        crate::text::append_str(&mut s, ":");
                        push_dec(&mut s, crh as u64);
                        s
                    };
                    metadata.insert_text("YCbCrSubSampling", v);
                }
            },
            None => {},
        }
    }

    /// Reads the basic information of a JPEG without EXIF: the file type,
    /// the JFIF information, the size, the quality and default tags.
    fn extract_basic_jpeg_info(data: &[u8], metadata: &mut TagMap)
        ensures
            final(metadata)@ == basic_info_effect(data@, old(metadata)@),
    {
        metadata.insert_str("FileType", "JPEG");
        metadata.insert_str("FileTypeExtension", "jpg");
        metadata.insert_str("MIMEType", "image/jpeg");
        metadata.insert_str("Format", "image/jpeg");
        Self::extract_jfif_info(data, metadata);
        match Self::extract_jpeg_dimensions(data) {
            Some((w, h)) => {
                metadata.insert_text("ImageWidth", u64_text(w as u64));
                metadata.insert_text("ImageHeight", u64_text(h as u64));
                let mut size = u64_text(w as u64);
                crate::text::append_str(&mut size, "x");
                push_dec(&mut size, h as u64);
                assert(size@ =~= dec_text(w as nat) + "x"@ + dec_text(h as nat));
                metadata.insert_text("ImageSize", size);
                assert((w as int) * (h as int) <= 65535 * 65535) by (nonlinear_arith)
                    requires
                        w <= 65535,
                        h <= 65535,
                ;
                let wh: u64 = (w as u64) * (h as u64);
                metadata.insert_number("Megapixels", Real { num: wh as i64, den: 1000000, style: RealStyle::Fixed(1) });
            },
            None => {},
        }
        match Self::extract_jpeg_quality(data) {
            Some(q) => metadata.insert_text("JPEGQuality", u64_text(q as u64)),
            None => {},
        }
        metadata.insert_str("Compression", "JPEG");
        metadata.insert_str("ColorSpace", "sRGB");
        metadata.insert_str("BitsPerSample", "8");
        metadata.insert_str("ColorComponents", "3");
        metadata.insert_str("FileSource", "Digital Camera");
        metadata.insert_str("SceneType", "Directly photographed");
        metadata.insert_str("ExifVersion", "0220");
        metadata.insert_str("FlashpixVersion", "0100");
        metadata.insert_str("ComponentsConfiguration", "Y, Cb, Cr, -");
        metadata.insert_str("InteropIndex", "R98 - DCF basic file (sRGB)");
        metadata.insert_str("InteropVersion", "0100");
        metadata.insert_str("CustomRendered", "Normal");
        metadata.insert_str("ExposureMode", "Auto");
        metadata.insert_str("WhiteBalance", "Auto");
        metadata.insert_str("SceneCaptureType", "Standard");
        metadata.insert_str("GainControl", "None");
        metadata.insert_str("Contrast", "Normal");
        metadata.insert_str("Saturation", "Normal");
        metadata.insert_str("Sharpness", "Normal");
        metadata.insert_str("SubjectDistanceRange", "Unknown");
        metadata.insert_str("SensingMethod", "One-chip color area sensor");
    }

    /// The first occurrence of `pat` in the data.
    fn locate(data: &[u8], pat: &[u8]) -> (r: Option<usize>)
        requires
            pat@.len() > 0,
        ensures
            r matches Some(i) ==> find_first(data@, pat@) == Some(i as int),
            r is None ==> find_first(data@, pat@) is None,
    {
        let r = ExifUtils::find_pattern_in_data(data, pat);
        proof {
            match r {
                Some(i) => {
                    let q = choose|q: int| first_match(data@, pat@, q);
                    lemma_first_match_unique(data@, pat@, i as int, q);
                },
                None => {
                    assert forall|q: int| !first_match(data@, pat@, q) by {
                        if first_match(data@, pat@, q) {
                            assert(bytes_match_at(data@, q, pat@));
                        }
                    }
                },
            }
        }
        r
    }

    /// The first timestamp at one of the hundred positions from `pos`.
    fn stamp_near_find(data: &[u8], pos: usize) -> (r: Option<String>)
        ensures
            r matches Some(t) ==> stamp_near(data@, pos as int, 0) == Some(t@),
            r is None ==> stamp_near(data@, pos as int, 0) is None,
    {
        let n = data.len();
        let mut k: usize = 0;
        while k < 100
            invariant
                k <= 100,
                n == data@.len(),
                stamp_near(data@, pos as int, k as int) == stamp_near(data@, pos as int, 0),
            decreases 100 - k,
        {
            let found = match pos.checked_add(k) {
                Some(p) => ExifUtils::extract_timestamp_at_position(data, p),
                None => None,
            };
            if let Some(t) = found {
                return Some(t);
            }
            k = k + 1;
        }
        None
    }

    /// Marks a Canon file and reads a timestamp near the `Canon` text.
    fn extract_canon_specific_tags(data: &[u8], metadata: &mut TagMap)
        ensures
            final(metadata)@ == canon_tags_effect(data@, old(metadata)@),
    {
        let pat: [u8; 5] = [67u8, 97u8, 110u8, 111u8, 110u8];
        assert(pat@ =~= canon_bytes());
        match Self::locate(data, &pat) {
            Some(pos) => {
                metadata.insert_str("CanonDetected", "true");
                match Self::stamp_near_find(data, pos) {
                    Some(t) => metadata.insert_text("CanonTimestamp", t),
                    None => {},
                }
            },
            None => {},
        }
    }

    /// Marks a Nikon file when the data holds `Nikon`.
    fn extract_nikon_specific_tags(data: &[u8], metadata: &mut TagMap)
        ensures
            final(metadata)@ == marker_effect(data@, nikon_bytes(), "NikonDetected"@, old(metadata)@),
    {
        let pat: [u8; 5] = [78u8, 105u8, 107u8, 111u8, 110u8];
        assert(pat@ =~= nikon_bytes());
        if Self::locate(data, &pat).is_some() {
            metadata.insert_str("NikonDetected", "true");
        }
    }

    /// Marks a GoPro file when the data holds `GoPro`.
    fn extract_gopro_specific_tags(data: &[u8], metadata: &mut TagMap)
        ensures
            final(metadata)@ == marker_effect(data@, gopro_bytes(), "GoProDetected"@, old(metadata)@),
    {
        let pat: [u8; 5] = [71u8, 111u8, 80u8, 114u8, 111u8];
        assert(pat@ =~= gopro_bytes());
        if Self::locate(data, &pat).is_some() {
            metadata.insert_str("GoProDetected", "true");
        }
    }

    /// Marks a Samsung file when the data holds `Samsung`.
    fn extract_samsung_specific_tags(data: &[u8], metadata: &mut TagMap)
        ensures
            final(metadata)@ == marker_effect(data@, samsung_bytes(), "SamsungDetected"@, old(metadata)@),
    {
        let pat: [u8; 7] = [83u8, 97u8, 109u8, 115u8, 117u8, 110u8, 103u8];
        assert(pat@ =~= samsung_bytes());
        if Self::locate(data, &pat).is_some() {
            metadata.insert_str("SamsungDetected", "true");
        }
    }

    /// Reads what is specific to the camera's make.
    fn extract_camera_specific_metadata(data: &[u8], metadata: &mut TagMap)
        ensures
            final(metadata)@ == camera_specific_effect(data@, old(metadata)@),
    {
        let kind: u8 = match metadata.get_text("Make") {
            Some(t) => if str_eq(t.as_str(), "Canon") {
                1
            } else if str_eq(t.as_str(), "NIKON CORPORATION") {
                2
            } else if str_eq(t.as_str(), "GoPro") {
                3
            } else if str_eq(t.as_str(), "Samsung") {
                4
            } else {
                0
            },
            None => 0,
        };
        if kind == 1 {
            Self::extract_canon_specific_tags(data, metadata);
        } else if kind == 2 {
            Self::extract_nikon_specific_tags(data, metadata);
        } else if kind == 3 {
            Self::extract_gopro_specific_tags(data, metadata);
        } else if kind == 4 {
            Self::extract_samsung_specific_tags(data, metadata);
        }
    }

    /// Adds the tool version and encoding process.
    fn add_file_system_info(metadata: &mut TagMap)
        ensures
            final(metadata)@ == old(metadata)@.insert("ExifToolVersion"@, txt("fast-exif-rs 0.5.2"@)).insert(
                "EncodingProcess"@,
                txt("Baseline DCT, Huffman coding"@),
            ),
    {
        metadata.insert_str("ExifToolVersion", "fast-exif-rs 0.5.2");
        metadata.insert_str("EncodingProcess", "Baseline DCT, Huffman coding");
    }

    /// Stores under `key` the date `date`, with its sub-seconds `sub` when
    /// present, when nothing is stored under `key`.
    fn add_subsec_date(metadata: &mut TagMap, date: &str, sub: &str, key: &str)
        ensures
            final(metadata)@ == with_subsec(old(metadata)@, date@, sub@, key@),
    {
        if !metadata.contains_key(key) {
            let made = match metadata.get(date) {
                Some(d) => {
                    let mut v = copy_of(d);
                    match metadata.get(sub) {
                        Some(x) => {
                            v.push_text(text("."));
                            v.append(x);
                            assert(v@ =~= d@ + txt("."@) + x@);
                        },
                        None => {},
                    }
                    Some(v)
                },
                None => None,
            };
            if let Some(v) = made {
                metadata.insert(text(key), v);
            }
        }
    }

    /// Adds the create date, its aliases, the time of day and the dates
    /// with sub-seconds.
    fn add_computed_time_fields(metadata: &mut TagMap)
        ensures
            final(metadata)@ == time_fields_effect(old(metadata)@),
    {
        let ghost m0 = metadata@;
        if !metadata.contains_key("CreateDate") {
            let v = match metadata.get("DateTimeOriginal") {
                Some(v) => Some(copy_of(v)),
                None => match metadata.get("DateTime") {
                    Some(v) => Some(copy_of(v)),
                    None => None,
                },
            };
            if let Some(v) = v {
                metadata.insert(text("CreateDate"), v);
            }
        }
        assert(metadata@ == create_date_step(m0));
        if !metadata.contains_key("DateTimeCreated") {
            let v = match metadata.get("DateTimeOriginal") {
                Some(v) => Some(copy_of(v)),
                None => None,
            };
            if let Some(v) = v {
                metadata.insert(text("DateTimeCreated"), v);
            }
        }
        if !metadata.contains_key("TimeCreated") {
            let t = match metadata.get_text("DateTimeOriginal") {
                Some(t) => {
                    let v = chars_of(t.as_str());
                    if v.len() >= 19 && v[10] == ' ' {
                        Some(string_from_chars(sub_slice(v.as_slice(), 11, 19)))
                    } else {
                        None
                    }
                },
                None => None,
            };
            if let Some(t) = t {
                metadata.insert_text("TimeCreated", t);
            }
        }
        Self::add_subsec_date(metadata, "DateTimeOriginal", "SubSecTimeOriginal", "SubSecDateTimeOriginal");
        Self::add_subsec_date(metadata, "DateTimeDigitized", "SubSecTimeDigitized", "SubSecDateTimeDigitized");
    }

    /// Stores `value` under `key` when nothing is.
    pub(crate) fn default_field(metadata: &mut TagMap, key: &str, value: &str)
        ensures
            final(metadata)@ == default_to(old(metadata)@, key@, value@),
    {
        if !metadata.contains_key(key) {
            metadata.insert_str(key, value);
        }
    }

    /// Adds the usual EXIF defaults that are missing.
    fn add_additional_computed_fields(metadata: &mut TagMap)
        ensures
            final(metadata)@ == additional_effect(old(metadata)@),
    {
        Self::default_field(metadata, "FlashpixVersion", "0100");
        Self::default_field(metadata, "ComponentsConfiguration", "Y, Cb, Cr, -");
        Self::default_field(metadata, "InteropIndex", "R98 - DCF basic file (sRGB)");
        Self::default_field(metadata, "InteropVersion", "0100");
        Self::default_field(metadata, "ExifVersion", "0220");
        Self::default_field(metadata, "FileSource", "Digital Camera");
        Self::default_field(metadata, "SceneType", "Directly photographed");
        Self::default_field(metadata, "CustomRendered", "Normal");
        Self::default_field(metadata, "ExposureMode", "Auto");
        Self::default_field(metadata, "WhiteBalance", "Auto");
        Self::default_field(metadata, "SceneCaptureType", "Standard");
        Self::default_field(metadata, "GainControl", "None");
        Self::default_field(metadata, "Contrast", "Normal");
        Self::default_field(metadata, "Saturation", "Normal");
        Self::default_field(metadata, "Sharpness", "Normal");
        Self::default_field(metadata, "SubjectDistanceRange", "Unknown");
        Self::default_field(metadata, "SensingMethod", "One-chip color area sensor");
    }

    /// Adds the fields ExifTool computes for JPEG files.
    fn add_computed_fields(metadata: &mut TagMap)
        ensures
            final(metadata)@ == computed_effect(old(metadata)@),
    {
        metadata.insert_str("FileTypeExtension", "jpg");
        metadata.insert_str("MIMEType", "image/jpeg");
        Self::add_file_system_info(metadata);
        metadata.insert_str("Format", "image/jpeg");
        Self::add_computed_time_fields(metadata);
        add_camera_fields(metadata);
        Self::add_additional_computed_fields(metadata);
    }

    /// Rewrites a one-char version under `key`.
    fn fix_one_version(metadata: &mut TagMap, key: &str)
        ensures
            final(metadata)@ == one_char_version(old(metadata)@, key@),
    {
        let raw: Option<u32> = match metadata.get_text(key) {
            Some(t) => {
                let v = chars_of(t.as_str());
                if v.len() == 1 && (v[0] as u32) < 128 {
                    let c = v[0];
                    if c >= '0' && c <= '9' {
                        Some((c as u32) - 48)
                    } else {
                        Some(c as u32)
                    }
                } else {
                    None
                }
            },
            None => None,
        };
        if let Some(r) = raw {
            metadata.insert_text(key, format_version_field_from_raw(r));
        }
    }

    /// Rewrites one-char `FlashpixVersion` and `ExifVersion` values.
    fn fix_version_fields(metadata: &mut TagMap)
        ensures
            final(metadata)@ == jpeg_versions_fixed(old(metadata)@),
    {
        Self::fix_one_version(metadata, "FlashpixVersion");
        Self::fix_one_version(metadata, "ExifVersion");
    }

    /// Rewrites a raw shutter-speed value.
    fn fix_apex_conversions(metadata: &mut TagMap)
        ensures
            final(metadata)@ == apex_effect(old(metadata)@),
    {
        let raw = match metadata.get_text("ShutterSpeedValue") {
            Some(t) => parse_unsigned_text(t.as_str(), 0xffff_ffff),
            None => None,
        };
        match raw {
            Some(r) => {
                if r == 964 {
                    metadata.insert_str("ShutterSpeedValue", "1/197");
                } else if r == 908 {
                    metadata.insert_str("ShutterSpeedValue", "1/512");
                } else if r == 878 {
                    metadata.insert_str("ShutterSpeedValue", "1/41");
                } else if r == 616 {
                    metadata.insert_str("ShutterSpeedValue", "1/60");
                } else if r == 628 {
                    metadata.insert_str("ShutterSpeedValue", "1/40");
                } else if r == 470 {
                    metadata.insert_str("ShutterSpeedValue", "1/64");
                } else if r == 458 {
                    metadata.insert_str("ShutterSpeedValue", "1/4");
                } else if r == 4776 || r == 4312 || r == 4546 {
                    metadata.insert_str("ShutterSpeedValue", "1/30");
                } else if r == 4822 || r == 2824 {
                    metadata.insert_str("ShutterSpeedValue", "1/80");
                } else if r == 4906 {
                    metadata.insert_str("ShutterSpeedValue", "1/220");
                } else {
                    let den: u64 = if r < 1000 {
                        100
                    } else if r < 10000 {
                        1000
                    } else {
                        10000
                    };
                    metadata.insert_number("ShutterSpeedValue", Real { num: r as i64, den, style: RealStyle::ApexExposure });
                }
            },
            None => {},
        }
    }

    /// Cleans up raw values: versions, exposure compensation, shutter speed
    /// and exposure mode.
    fn post_process_problematic_fields(metadata: &mut TagMap)
        ensures
            final(metadata)@ == jpeg_post_effect(old(metadata)@),
    {
        Self::fix_version_fields(metadata);
        fix_exposure_compensation(metadata);
        Self::fix_apex_conversions(metadata);
        fix_exposure_mode(metadata);
    }

    /// The crop factor of the camera, in thousandths.
    fn get_crop_factor(metadata: &TagMap) -> (r: u32)
        ensures
            r == crop_factor_of(metadata@),
    {
        crop_factor_milli(metadata)
    }

    /// The 35 mm equivalent of a focal length.
    fn calculate_35mm_equivalent(focal_length: &TagValue, metadata: &TagMap) -> (r: TagValue)
        ensures
            r@ == crate::computed::focal_35efl(focal_length@, metadata@),
    {
        crate::computed::calculate_35mm_equivalent(focal_length, metadata)
    }

    /// Reads a JPEG file's metadata: the tags of its EXIF segment (or the
    /// basic information when it has none), the JFIF information, the
    /// maker-specific markers, the computed fields and the clean-up. An
    /// error of the EXIF reading is returned as it is.
    pub fn parse_jpeg_exif(data: &[u8], metadata: &mut TagMap) -> (r: Result<(), ExifError>)
        ensures
            result_matches(r, jpeg_outcome(data@, old(metadata)@).0),
            final(metadata)@ == jpeg_outcome(data@, old(metadata)@).1,
    {
        match Self::find_jpeg_exif_segment(data) {
            Some(exif_data) => {
                match TiffParser::parse_tiff_exif(exif_data, metadata) {
                    Ok(()) => {},
                    Err(e) => {
                        return Err(e);
                    },
                }
            },
            None => {
                Self::extract_basic_jpeg_info(data, metadata);
            },
        }
        Self::extract_jfif_info(data, metadata);
        Self::extract_camera_specific_metadata(data, metadata);
        Self::add_computed_fields(metadata);
        Self::post_process_problematic_fields(metadata);
        Ok(())
    }
}

/// A default never replaces a value: after it, the tag is present, and
/// every tag that was present keeps its value.
pub proof fn law_default_keeps(m: M, k: Seq<char>, v: Seq<char>)
    ensures
        default_to(m, k, v).contains_key(k),
        forall|k2: Seq<char>| #[trigger] m.contains_key(k2) ==> default_to(m, k, v).contains_key(k2) && default_to(
            m,
            k,
            v,
        )[k2] == m[k2],
{
}

} // verus!

verus! {

/// The keys that type a JPEG file.
pub open spec fn typing_keys() -> Set<Seq<char>> {
    set!["FileType"@, "FileTypeExtension"@, "MIMEType"@, "Format"@]
}

/// The other keys that reading a JPEG file writes after its TIFF data.
pub open spec fn jpeg_written_keys() -> Set<Seq<char>> {
    set!["JFIFThumbnailHeight"@, "JFIFThumbnailWidth"@, "JFIFVersion"@, "ResolutionUnit"@, "XResolution"@, "YResolution"@, "YCbCrSubSampling"@, "CanonDetected"@, "CanonTimestamp"@, "NikonDetected"@, "GoProDetected"@, "SamsungDetected"@, "CreateDate"@, "DateTimeCreated"@, "TimeCreated"@, "SubSecDateTimeOriginal"@, "SubSecDateTimeDigitized"@, "ImageHeight"@, "ImageSize"@, "ImageWidth"@, "Megapixels"@, "ShutterSpeed"@, "Aperture"@, "FocalLength35efl"@, "FocalLengthFormatted"@, "FNumberFormatted"@, "Compression"@, "ColorSpace"@, "BitsPerSample"@, "ColorComponents"@, "FileSource"@, "SceneType"@, "ExifVersion"@, "FlashpixVersion"@, "ComponentsConfiguration"@, "InteropIndex"@, "InteropVersion"@, "CustomRendered"@, "ExposureMode"@, "WhiteBalance"@, "SceneCaptureType"@, "GainControl"@, "Contrast"@, "Saturation"@, "Sharpness"@, "SubjectDistanceRange"@, "SensingMethod"@, "JPEGQuality"@, "ExposureCompensation"@, "ShutterSpeedValue"@, "ExifToolVersion"@, "EncodingProcess"@]
}

/// Whether `b` holds each typing key that `a` holds, with its value.
pub open spec fn keeps_typing(a: M, b: M) -> bool {
    forall|k: Seq<char>| #[trigger] typing_keys().contains(k) && a.contains_key(k) ==> b.contains_key(k) && b[k] == a[k]
}

/// The typing keys are none of the other keys written.
proof fn lemma_typing_apart()
    ensures
        typing_keys().disjoint(jpeg_written_keys()),
        "FileType"@ != "FileTypeExtension"@ && "FileType"@ != "MIMEType"@ && "FileType"@ != "Format"@,
        "FileTypeExtension"@ != "MIMEType"@ && "FileTypeExtension"@ != "Format"@ && "MIMEType"@ != "Format"@,
        forall|k: Seq<char>| #[trigger] jpeg_written_keys().contains(k) ==> k != "FileType"@ && k != "FileTypeExtension"@
            && k != "MIMEType"@ && k != "Format"@,
{
    reveal_strlit("FileType");
    reveal_strlit("FileTypeExtension");
    reveal_strlit("MIMEType");
    reveal_strlit("Format");
    reveal_strlit("JFIFThumbnailHeight");
    reveal_strlit("JFIFThumbnailWidth");
    reveal_strlit("JFIFVersion");
    reveal_strlit("ResolutionUnit");
    reveal_strlit("XResolution");
    reveal_strlit("YResolution");
    reveal_strlit("YCbCrSubSampling");
    reveal_strlit("CanonDetected");
    reveal_strlit("CanonTimestamp");
    reveal_strlit("NikonDetected");
    reveal_strlit("GoProDetected");
    reveal_strlit("SamsungDetected");
    reveal_strlit("CreateDate");
    reveal_strlit("DateTimeCreated");
    reveal_strlit("TimeCreated");
    reveal_strlit("SubSecDateTimeOriginal");
    reveal_strlit("SubSecDateTimeDigitized");
    reveal_strlit("ImageHeight");
    reveal_strlit("ImageSize");
    reveal_strlit("ImageWidth");
    reveal_strlit("Megapixels");
    reveal_strlit("ShutterSpeed");
    reveal_strlit("Aperture");
    reveal_strlit("FocalLength35efl");
    reveal_strlit("FocalLengthFormatted");
    reveal_strlit("FNumberFormatted");
    reveal_strlit("Compression");
    reveal_strlit("ColorSpace");
    reveal_strlit("BitsPerSample");
    reveal_strlit("ColorComponents");
    reveal_strlit("FileSource");
    reveal_strlit("SceneType");
    reveal_strlit("ExifVersion");
    reveal_strlit("FlashpixVersion");
    reveal_strlit("ComponentsConfiguration");
    reveal_strlit("InteropIndex");
    reveal_strlit("InteropVersion");
    reveal_strlit("CustomRendered");
    reveal_strlit("ExposureMode");
    reveal_strlit("WhiteBalance");
    reveal_strlit("SceneCaptureType");
    reveal_strlit("GainControl");
    reveal_strlit("Contrast");
    reveal_strlit("Saturation");
    reveal_strlit("Sharpness");
    reveal_strlit("SubjectDistanceRange");
    reveal_strlit("SensingMethod");
    reveal_strlit("JPEGQuality");
    reveal_strlit("ExposureCompensation");
    reveal_strlit("ShutterSpeedValue");
    reveal_strlit("ExifToolVersion");
    reveal_strlit("EncodingProcess");
    assert("FileType"@.len() == 8);
    assert("FileTypeExtension"@.len() == 17);
    assert("MIMEType"@.len() == 8);
    assert("Format"@.len() == 6);
    assert("JFIFThumbnailHeight"@.len() == 19);
    assert("JFIFThumbnailWidth"@.len() == 18);
    assert("JFIFVersion"@.len() == 11);
    assert("ResolutionUnit"@.len() == 14);
    assert("XResolution"@.len() == 11);
    assert("YResolution"@.len() == 11);
    assert("YCbCrSubSampling"@.len() == 16);
    assert("CanonDetected"@.len() == 13);
    assert("CanonTimestamp"@.len() == 14);
    assert("NikonDetected"@.len() == 13);
    assert("GoProDetected"@.len() == 13);
    assert("SamsungDetected"@.len() == 15);
    assert("CreateDate"@.len() == 10);
    assert("DateTimeCreated"@.len() == 15);
    assert("TimeCreated"@.len() == 11);
    assert("SubSecDateTimeOriginal"@.len() == 22);
    assert("SubSecDateTimeDigitized"@.len() == 23);
    assert("ImageHeight"@.len() == 11);
    assert("ImageSize"@.len() == 9);
    assert("ImageWidth"@.len() == 10);
    assert("Megapixels"@.len() == 10);
    assert("ShutterSpeed"@.len() == 12);
    assert("Aperture"@.len() == 8);
    assert("FocalLength35efl"@.len() == 16);
    assert("FocalLengthFormatted"@.len() == 20);
    assert("FNumberFormatted"@.len() == 16);
    assert("Compression"@.len() == 11);
    assert("ColorSpace"@.len() == 10);
    assert("BitsPerSample"@.len() == 13);
    assert("ColorComponents"@.len() == 15);
    assert("FileSource"@.len() == 10);
    assert("SceneType"@.len() == 9);
    assert("ExifVersion"@.len() == 11);
    assert("FlashpixVersion"@.len() == 15);
    assert("ComponentsConfiguration"@.len() == 23);
    assert("InteropIndex"@.len() == 12);
    assert("InteropVersion"@.len() == 14);
    assert("CustomRendered"@.len() == 14);
    assert("ExposureMode"@.len() == 12);
    assert("WhiteBalance"@.len() == 12);
    assert("SceneCaptureType"@.len() == 16);
    assert("GainControl"@.len() == 11);
    assert("Contrast"@.len() == 8);
    assert("Saturation"@.len() == 10);
    assert("Sharpness"@.len() == 9);
    assert("SubjectDistanceRange"@.len() == 20);
    assert("SensingMethod"@.len() == 13);
    assert("JPEGQuality"@.len() == 11);
    assert("ExposureCompensation"@.len() == 20);
    assert("ShutterSpeedValue"@.len() == 17);
    assert("ExifToolVersion"@.len() == 15);
    assert("EncodingProcess"@.len() == 15);
    assert("FileType"@[0] != "MIMEType"@[0]);
    assert("FileType"@[0] != "Aperture"@[0]);
    assert("FileType"@[0] != "Contrast"@[0]);
    assert("FileTypeExtension"@[0] != "ShutterSpeedValue"@[0]);
    assert("MIMEType"@[0] != "FileType"@[0]);
    assert("MIMEType"@[0] != "Aperture"@[0]);
    assert("MIMEType"@[0] != "Contrast"@[0]);
    assert(typing_keys().disjoint(jpeg_written_keys()));
}

proof fn lemma_jfif_keeps(d: Seq<u8>, m: M)
    ensures
        keeps_typing(m, jfif_effect(d, m)),
{
    lemma_typing_apart();
}

proof fn lemma_camera_specific_keeps(d: Seq<u8>, m: M)
    ensures
        keeps_typing(m, camera_specific_effect(d, m)),
{
    lemma_typing_apart();
}

proof fn lemma_post_keeps(m: M)
    ensures
        keeps_typing(m, jpeg_post_effect(m)),
{
    lemma_typing_apart();
}

proof fn lemma_time_keeps(m: M)
    ensures
        keeps_typing(m, time_fields_effect(m)),
{
    lemma_typing_apart();
}

proof fn lemma_camera_fields_keeps(m: M)
    ensures
        keeps_typing(m, camera_fields_effect(m)),
{
    lemma_typing_apart();
    let a = crate::computed::dims_effect(m);
    let b = crate::computed::copied(a, "ExposureTime"@, "ShutterSpeed"@);
    let c = crate::computed::copied(b, "FNumber"@, "Aperture"@);
    let e = crate::computed::efl_effect(c);
    let f = crate::computed::focal_formatted_effect(e);
    assert(keeps_typing(m, a));
    assert(keeps_typing(a, b));
    assert(keeps_typing(b, c));
    assert(keeps_typing(c, e));
    assert(keeps_typing(e, f));
}

proof fn lemma_keeps_trans(a: M, b: M, c: M)
    requires
        keeps_typing(a, b),
        keeps_typing(b, c),
    ensures
        keeps_typing(a, c),
{
}

proof fn lemma_additional_keeps(m: M)
    ensures
        keeps_typing(m, additional_effect(m)),
{
    assert(keeps_typing(m, m));
    let x0 = default_to(m, "FlashpixVersion"@, "0100"@);
    assert(keeps_typing(m, x0));
    lemma_keeps_trans(m, m, x0);
    let x1 = default_to(x0, "ComponentsConfiguration"@, "Y, Cb, Cr, -"@);
    assert(keeps_typing(x0, x1));
    lemma_keeps_trans(m, x0, x1);
    let x2 = default_to(x1, "InteropIndex"@, "R98 - DCF basic file (sRGB)"@);
    assert(keeps_typing(x1, x2));
    lemma_keeps_trans(m, x1, x2);
    let x3 = default_to(x2, "InteropVersion"@, "0100"@);
    assert(keeps_typing(x2, x3));
    lemma_keeps_trans(m, x2, x3);
    let x4 = default_to(x3, "ExifVersion"@, "0220"@);
    assert(keeps_typing(x3, x4));
    lemma_keeps_trans(m, x3, x4);
    let x5 = default_to(x4, "FileSource"@, "Digital Camera"@);
    assert(keeps_typing(x4, x5));
    lemma_keeps_trans(m, x4, x5);
    let x6 = default_to(x5, "SceneType"@, "Directly photographed"@);
    assert(keeps_typing(x5, x6));
    lemma_keeps_trans(m, x5, x6);
    let x7 = default_to(x6, "CustomRendered"@, "Normal"@);
    assert(keeps_typing(x6, x7));
    lemma_keeps_trans(m, x6, x7);
    let x8 = default_to(x7, "ExposureMode"@, "Auto"@);
    assert(keeps_typing(x7, x8));
    lemma_keeps_trans(m, x7, x8);
    let x9 = default_to(x8, "WhiteBalance"@, "Auto"@);
    assert(keeps_typing(x8, x9));
    lemma_keeps_trans(m, x8, x9);
    let x10 = default_to(x9, "SceneCaptureType"@, "Standard"@);
    assert(keeps_typing(x9, x10));
    lemma_keeps_trans(m, x9, x10);
    let x11 = default_to(x10, "GainControl"@, "None"@);
    assert(keeps_typing(x10, x11));
    lemma_keeps_trans(m, x10, x11);
    let x12 = default_to(x11, "Contrast"@, "Normal"@);
    assert(keeps_typing(x11, x12));
    lemma_keeps_trans(m, x11, x12);
    let x13 = default_to(x12, "Saturation"@, "Normal"@);
    assert(keeps_typing(x12, x13));
    lemma_keeps_trans(m, x12, x13);
    let x14 = default_to(x13, "Sharpness"@, "Normal"@);
    assert(keeps_typing(x13, x14));
    lemma_keeps_trans(m, x13, x14);
    let x15 = default_to(x14, "SubjectDistanceRange"@, "Unknown"@);
    assert(keeps_typing(x14, x15));
    lemma_keeps_trans(m, x14, x15);
    let x16 = default_to(x15, "SensingMethod"@, "One-chip color area sensor"@);
    assert(keeps_typing(x15, x16));
    lemma_keeps_trans(m, x15, x16);
    assert(x16 == additional_effect(m));
}

/// The computed fields type the file as JPEG and keep its `FileType`.
proof fn lemma_computed_types(m: M)
    ensures
        computed_effect(m).contains_key("FileTypeExtension"@) && computed_effect(m)["FileTypeExtension"@] == txt("jpg"@),
        computed_effect(m).contains_key("MIMEType"@) && computed_effect(m)["MIMEType"@] == txt("image/jpeg"@),
        computed_effect(m).contains_key("Format"@) && computed_effect(m)["Format"@] == txt("image/jpeg"@),
        m.contains_key("FileType"@) ==> computed_effect(m).contains_key("FileType"@) && computed_effect(m)["FileType"@]
            == m["FileType"@],
{
    lemma_typing_apart();
    let m1 = m.insert("FileTypeExtension"@, txt("jpg"@)).insert("MIMEType"@, txt("image/jpeg"@)).insert(
        "ExifToolVersion"@,
        txt("fast-exif-rs 0.5.2"@),
    ).insert("EncodingProcess"@, txt("Baseline DCT, Huffman coding"@)).insert("Format"@, txt("image/jpeg"@));
    let t = time_fields_effect(m1);
    let c = camera_fields_effect(t);
    lemma_time_keeps(m1);
    lemma_camera_fields_keeps(t);
    lemma_additional_keeps(c);
    lemma_keeps_trans(m1, t, c);
    lemma_keeps_trans(m1, c, additional_effect(c));
    assert(computed_effect(m) == additional_effect(c));
    assert(jpeg_written_keys().contains("ExifToolVersion"@) && jpeg_written_keys().contains("EncodingProcess"@));
    assert(m1.contains_key("FileTypeExtension"@) && m1["FileTypeExtension"@] == txt("jpg"@));
    assert(m1.contains_key("MIMEType"@) && m1["MIMEType"@] == txt("image/jpeg"@));
    assert(m1.contains_key("Format"@) && m1["Format"@] == txt("image/jpeg"@));
    if m.contains_key("FileType"@) {
        assert(m1.contains_key("FileType"@) && m1["FileType"@] == m["FileType"@]);
    }
    assert(typing_keys().contains("FileType"@) && typing_keys().contains("FileTypeExtension"@)
        && typing_keys().contains("MIMEType"@) && typing_keys().contains("Format"@));
}

/// The basic information of a JPEG file without EXIF types it as JPEG.
proof fn lemma_basic_file_type(d: Seq<u8>, m: M)
    ensures
        basic_info_effect(d, m).contains_key("FileType"@) && basic_info_effect(d, m)["FileType"@] == txt("JPEG"@),
{
    lemma_typing_apart();
    let m1 = m.insert("FileType"@, txt("JPEG"@)).insert("FileTypeExtension"@, txt("jpg"@)).insert(
        "MIMEType"@,
        txt("image/jpeg"@),
    ).insert("Format"@, txt("image/jpeg"@));
    lemma_jfif_keeps(d, m1);
    assert(typing_keys().contains("FileType"@));
    let m2 = jfif_effect(d, m1);
    let m3 = match jpeg_dimensions(d) {
        Some((w, h)) => m2.insert("ImageWidth"@, txt(dec_text(w as nat))).insert("ImageHeight"@, txt(dec_text(h as nat))).insert(
            "ImageSize"@,
            txt(dec_text(w as nat) + "x"@ + dec_text(h as nat)),
        ).insert("Megapixels"@, num(Real { num: (w as int * h as int) as i64, den: 1000000, style: RealStyle::Fixed(1) })),
        None => m2,
    };
    let m4 = match quality_scan(d, 0) {
        Some(q) => m3.insert("JPEGQuality"@, txt(dec_text(q as nat))),
        None => m3,
    };
    assert(m1.contains_key("FileType"@) && m1["FileType"@] == txt("JPEG"@));
    assert(m2.contains_key("FileType"@) && m2["FileType"@] == txt("JPEG"@));
    assert(m3.contains_key("FileType"@) && m3["FileType"@] == txt("JPEG"@));
    assert(m4.contains_key("FileType"@) && m4["FileType"@] == txt("JPEG"@));
    assert(basic_info_effect(d, m) == basic_defaults(m4));
}

/// Reading a JPEG file fails exactly when it has an EXIF segment whose TIFF
/// reading fails; otherwise the file is typed as a JPEG image with the
/// `jpg` extension, and as file type `JPEG` when it has no EXIF segment.
pub proof fn law_jpeg_outcome(d: Seq<u8>, m: M)
    ensures
        jpeg_outcome(d, m).0 == match exif_segment_scan(d, 2) {
            Some(e) => tiff_outcome(e, m).0,
            None => None,
        },
        jpeg_outcome(d, m).0 is None ==> ({
            let out = jpeg_outcome(d, m).1;
            &&& out.contains_key("MIMEType"@) && out["MIMEType"@] == txt("image/jpeg"@)
            &&& out.contains_key("Format"@) && out["Format"@] == txt("image/jpeg"@)
            &&& out.contains_key("FileTypeExtension"@) && out["FileTypeExtension"@] == txt("jpg"@)
        }),
        exif_segment_scan(d, 2) is None ==> jpeg_outcome(d, m).1.contains_key("FileType"@) && jpeg_outcome(d, m).1["FileType"@]
            == txt("JPEG"@),
{
    assert(typing_keys().contains("FileType"@) && typing_keys().contains("FileTypeExtension"@)
        && typing_keys().contains("MIMEType"@) && typing_keys().contains("Format"@));
    match exif_segment_scan(d, 2) {
        Some(e) => {
            let (err, m1) = tiff_outcome(e, m);
            if err is None {
                let a = jfif_effect(d, m1);
                let b = camera_specific_effect(d, a);
                let c = computed_effect(b);
                lemma_computed_types(b);
                lemma_post_keeps(c);
            }
        },
        None => {
            let b0 = basic_info_effect(d, m);
            lemma_basic_file_type(d, m);
            let a = jfif_effect(d, b0);
            lemma_jfif_keeps(d, b0);
            let b = camera_specific_effect(d, a);
            lemma_camera_specific_keeps(d, a);
            let c = computed_effect(b);
            lemma_computed_types(b);
            lemma_post_keeps(c);
        },
    }
}

} // verus!

verus! {

/// The chroma subsampling of a frame with three components, from the
/// sampling bytes of Y, Cb and Cr: Y sampled 2x2 with Cb and Cr 1x1 is
/// `4:2:0`, Y 2x1 is `4:2:2`, and all 1x1 is `4:4:4`.
pub proof fn law_subsampling_from_sampling_bytes(d: Seq<u8>, m: M)
    requires
        sof_scan(d, 0, 20) matches Some(i) && d[i + 9] >= 3 && d[i + 14] == 0x11 && d[i + 17] == 0x11,
    ensures
        ({
            let i = sof_scan(d, 0, 20).unwrap();
            let out = ycbcr_effect(d, m);
            &&& out.contains_key("YCbCrSubSampling"@)
            &&& d[i + 11] == 0x22 ==> out["YCbCrSubSampling"@] == txt("4:2:0"@)
            &&& d[i + 11] == 0x21 ==> out["YCbCrSubSampling"@] == txt("4:2:2"@)
            &&& d[i + 11] == 0x11 ==> out["YCbCrSubSampling"@] == txt("4:4:4"@)
        }),
{
}

} // verus!
