//! TIFF-structured EXIF: the header, image file directories and tag values.

use vstd::prelude::*;
use crate::bytes::{read_u16, read_u32, u16_at, u32_at};
use crate::maker_notes::{maker_note_effect, MakerNoteParser};
use crate::metadata::{num, txt, PieceModel, Real, RealStyle, TagMap};
use crate::text::{dec_text, hex_text, push_hex, text, u64_text, utf8_text};
use crate::types::ExifError;
use crate::utils::{read_text_at, text_at};
use vstd::utf8::{decode_utf8, valid_utf8};

verus! {

/// The ExifTool name of a standard TIFF/EXIF tag.
pub open spec fn tiff_tag_name(tag_id: u16) -> Seq<char> {
    match tag_id {
        0x010E => "ImageDescription"@,
        0x010F => "Make"@,
        0x0110 => "Model"@,
        0x0112 => "Orientation"@,
        0x011A => "XResolution"@,
        0x011B => "YResolution"@,
        0x0128 => "ResolutionUnit"@,
        0x0131 => "Software"@,
        0x0132 => "DateTime"@,
        0x9003 => "DateTimeOriginal"@,
        0x9004 => "DateTimeDigitized"@,
        0x829A => "ExposureTime"@,
        0x829D => "FNumber"@,
        0x8822 => "ExposureProgram"@,
        0x8827 => "ISO"@,
        0x9201 => "ShutterSpeedValue"@,
        0x9202 => "ApertureValue"@,
        0x9203 => "BrightnessValue"@,
        0x9204 => "ExposureCompensation"@,
        0x9205 => "MaxApertureValue"@,
        0x9206 => "SubjectDistance"@,
        0x9207 => "MeteringMode"@,
        0x9208 => "LightSource"@,
        0x9209 => "Flash"@,
        0x920A => "FocalLength"@,
        0x9290 => "SubSecTime"@,
        0x9291 => "SubSecTimeOriginal"@,
        0x9292 => "SubSecTimeDigitized"@,
        0x013E => "WhitePoint"@,
        0x013F => "PrimaryChromaticities"@,
        0x0211 => "YCbCrCoefficients"@,
        0x0213 => "YCbCrPositioning"@,
        0x0214 => "ReferenceBlackWhite"@,
        0x8298 => "Copyright"@,
        0x8769 => "ExifIFD"@,
        0x8825 => "GPSInfo"@,
        0xA000 => "FlashpixVersion"@,
        0xA001 => "ColorSpace"@,
        0xA002 => "PixelXDimension"@,
        0xA003 => "PixelYDimension"@,
        0xA004 => "RelatedSoundFile"@,
        0xA005 => "InteroperabilityIFD"@,
        0xA20E => "FocalPlaneXResolution"@,
        0xA20F => "FocalPlaneYResolution"@,
        0xA210 => "FocalPlaneResolutionUnit"@,
        0xA217 => "SensingMethod"@,
        0xA300 => "FileSource"@,
        0xA301 => "SceneType"@,
        0xA302 => "CFAPattern"@,
        0xA401 => "CustomRendered"@,
        0xA402 => "ExposureMode"@,
        0xA403 => "WhiteBalance"@,
        0xA404 => "DigitalZoomRatio"@,
        0xA405 => "FocalLengthIn35mmFilm"@,
        0xA406 => "SceneCaptureType"@,
        0xA407 => "GainControl"@,
        0xA408 => "Contrast"@,
        0xA409 => "Saturation"@,
        0xA40A => "Sharpness"@,
        0xA40B => "DeviceSettingDescription"@,
        0xA40C => "SubjectDistanceRange"@,
        0xA420 => "ImageUniqueID"@,
        0xA430 => "CameraOwnerName"@,
        0xA431 => "BodySerialNumber"@,
        0xA432 => "LensSpecification"@,
        0xA433 => "LensMake"@,
        0xA434 => "LensModel"@,
        0xA435 => "LensSerialNumber"@,
        0x927C => "MakerNote"@,
        _ => "UnknownTag_"@ + hex_text(tag_id as nat, 4, true),
    }
}

/// The ExifTool name of a standard TIFF/EXIF tag.
pub fn tag_name_text(tag_id: u16) -> (r: String)
    ensures
        r@ == tiff_tag_name(tag_id),
{
    let name: &str = match tag_id {
        0x010E => "ImageDescription",
        0x010F => "Make",
        0x0110 => "Model",
        0x0112 => "Orientation",
        0x011A => "XResolution",
        0x011B => "YResolution",
        0x0128 => "ResolutionUnit",
        0x0131 => "Software",
        0x0132 => "DateTime",
        0x9003 => "DateTimeOriginal",
        0x9004 => "DateTimeDigitized",
        0x829A => "ExposureTime",
        0x829D => "FNumber",
        0x8822 => "ExposureProgram",
        0x8827 => "ISO",
        0x9201 => "ShutterSpeedValue",
        0x9202 => "ApertureValue",
        0x9203 => "BrightnessValue",
        0x9204 => "ExposureCompensation",
        0x9205 => "MaxApertureValue",
        0x9206 => "SubjectDistance",
        0x9207 => "MeteringMode",
        0x9208 => "LightSource",
        0x9209 => "Flash",
        0x920A => "FocalLength",
        0x9290 => "SubSecTime",
        0x9291 => "SubSecTimeOriginal",
        0x9292 => "SubSecTimeDigitized",
        0x013E => "WhitePoint",
        0x013F => "PrimaryChromaticities",
        0x0211 => "YCbCrCoefficients",
        0x0213 => "YCbCrPositioning",
        0x0214 => "ReferenceBlackWhite",
        0x8298 => "Copyright",
        0x8769 => "ExifIFD",
        0x8825 => "GPSInfo",
        0xA000 => "FlashpixVersion",
        0xA001 => "ColorSpace",
        0xA002 => "PixelXDimension",
        0xA003 => "PixelYDimension",
        0xA004 => "RelatedSoundFile",
        0xA005 => "InteroperabilityIFD",
        0xA20E => "FocalPlaneXResolution",
        0xA20F => "FocalPlaneYResolution",
        0xA210 => "FocalPlaneResolutionUnit",
        0xA217 => "SensingMethod",
        0xA300 => "FileSource",
        0xA301 => "SceneType",
        0xA302 => "CFAPattern",
        0xA401 => "CustomRendered",
        0xA402 => "ExposureMode",
        0xA403 => "WhiteBalance",
        0xA404 => "DigitalZoomRatio",
        0xA405 => "FocalLengthIn35mmFilm",
        0xA406 => "SceneCaptureType",
        0xA407 => "GainControl",
        0xA408 => "Contrast",
        0xA409 => "Saturation",
        0xA40A => "Sharpness",
        0xA40B => "DeviceSettingDescription",
        0xA40C => "SubjectDistanceRange",
        0xA420 => "ImageUniqueID",
        0xA430 => "CameraOwnerName",
        0xA431 => "BodySerialNumber",
        0xA432 => "LensSpecification",
        0xA433 => "LensMake",
        0xA434 => "LensModel",
        0xA435 => "LensSerialNumber",
        0x927C => "MakerNote",
        _ => {
            let mut s = text("UnknownTag_");
            push_hex(&mut s, tag_id as u64, 4, true);
            return s;
        },
    };
    text(name)
}
/// How a SHORT value of a few tags is shown.
pub open spec fn special_field_text(tag_id: u16, value: u16) -> Seq<char> {
    if tag_id == 0x0112 {
        match value {
            1 => "Horizontal (normal)"@,
            2 => "Mirror horizontal"@,
            3 => "Rotate 180"@,
            4 => "Mirror vertical"@,
            5 => "Mirror horizontal and rotate 270 CW"@,
            6 => "Rotate 90 CW"@,
            7 => "Mirror horizontal and rotate 90 CW"@,
            8 => "Rotate 270 CW"@,
            _ => dec_text(value as nat),
        }
    } else if tag_id == 0x0128 {
        match value {
            1 => "None"@,
            2 => "inches"@,
            3 => "cm"@,
            _ => dec_text(value as nat),
        }
    } else if tag_id == 0x0213 {
        match value {
            1 => "Centered"@,
            2 => "Co-sited"@,
            _ => dec_text(value as nat),
        }
    } else {
        dec_text(value as nat)
    }
}

/// Euclid's greatest common divisor.
pub open spec fn gcd_spec(a: nat, b: nat) -> nat
    decreases b,
{
    if b == 0 {
        a
    } else {
        gcd_spec(b, a % b)
    }
}

type M = Map<Seq<char>, Seq<PieceModel>>;

/// The four bytes of a 32-bit value, least significant first.
pub open spec fn le_bytes32(v: u32) -> Seq<u8> {
    seq![(v % 256) as u8, ((v / 256) % 256) as u8, ((v / 65536) % 256) as u8, (v / 16777216) as u8]
}

/// What a text-valued entry adds: the text, trailing NULs removed, when its
/// bytes are valid UTF-8.
pub open spec fn text_effect(name: Seq<char>, bytes: Seq<u8>, m: M) -> M {
    if valid_utf8(bytes) {
        m.insert(name, txt(crate::text::trim_end_nul(decode_utf8(bytes))))
    } else {
        m
    }
}

/// What a value stored elsewhere adds: its text when in the buffer.
pub open spec fn far_text_effect(name: Seq<char>, data: Seq<u8>, off: int, count: int, m: M) -> M {
    match text_at(data, off, count) {
        Some(t) => m.insert(name, txt(t)),
        None => m,
    }
}

/// What one tag value adds to the map.
pub open spec fn tag_value_effect(
    data: Seq<u8>,
    tag_id: u16,
    data_type: u16,
    count: u32,
    vo: u32,
    little: bool,
    ts: int,
    m: M,
) -> M {
    let name = tiff_tag_name(tag_id);
    if data_type == 1 {
        if count <= 4 {
            let v = if little { vo % 256 } else { vo / 16777216 };
            m.insert(name, txt(dec_text(v as nat)))
        } else {
            far_text_effect(name, data, ts + vo, count as int, m)
        }
    } else if data_type == 2 {
        if count <= 4 {
            text_effect(name, le_bytes32(vo), m)
        } else {
            far_text_effect(name, data, ts + vo, count as int, m)
        }
    } else if data_type == 3 {
        if count == 1 {
            let v = if little { vo % 65536 } else { vo / 65536 };
            m.insert(name, txt(special_field_text(tag_id, v as u16)))
        } else {
            m
        }
    } else if data_type == 4 {
        if count == 1 {
            m.insert(name, txt(dec_text(vo as nat)))
        } else {
            m
        }
    } else if data_type == 5 {
        let off = ts + vo;
        if count == 1 && off + 8 <= data.len() {
            let n = u32_at(data, off, little);
            let d = u32_at(data, off + 4, little);
            if tag_id == 0x011A || tag_id == 0x011B || d == 0 {
                m.insert(name, txt(dec_text(n)))
            } else if tag_id == 0x829A {
                m.insert(name, num(Real { num: n as i64, den: d as u64, style: RealStyle::ExposureTime }))
            } else if tag_id == 0x829D {
                m.insert(name, num(Real { num: n as i64, den: d as u64, style: RealStyle::Fixed(1) }))
            } else {
                m.insert(name, num(Real { num: n as i64, den: d as u64, style: RealStyle::Fixed(6) }))
            }
        } else {
            m
        }
    } else {
        m.insert(name, txt(dec_text(vo as nat)))
    }
}

/// What the 12-byte directory entry at `e` adds.
pub open spec fn entry_effect(data: Seq<u8>, e: int, little: bool, ts: int, m: M) -> M {
    tag_value_effect(
        data,
        u16_at(data, e, little) as u16,
        u16_at(data, e + 2, little) as u16,
        u32_at(data, e + 4, little) as u32,
        u32_at(data, e + 8, little) as u32,
        little,
        ts,
        m,
    )
}

/// What the first `n` entries of the directory at `offset` add; entries
/// that run past the end are skipped.
pub open spec fn ifd_entries_effect(data: Seq<u8>, offset: int, little: bool, ts: int, n: nat, m: M) -> M
    decreases n,
{
    if n == 0 {
        m
    } else {
        let m1 = ifd_entries_effect(data, offset, little, ts, (n - 1) as nat, m);
        let e = offset + 2 + (n - 1) * 12;
        if e + 12 > data.len() {
            m1
        } else {
            entry_effect(data, e, little, ts, m1)
        }
    }
}

/// The value of the first in-buffer entry from index `i` on, among the
/// directory's `count` entries, whose tag is `target`.
pub open spec fn sub_ifd_scan(data: Seq<u8>, ifd: int, target: u16, little: bool, i: int, count: int) -> Option<u32>
    decreases count - i,
{
    if i >= count {
        None
    } else {
        let e = ifd + 2 + i * 12;
        if e + 12 <= data.len() && u16_at(data, e, little) == target {
            Some(u32_at(data, e + 8, little) as u32)
        } else {
            sub_ifd_scan(data, ifd, target, little, i + 1, count)
        }
    }
}

/// The value of the first entry with tag `target` in the directory at `ifd`.
pub open spec fn sub_ifd_offset(data: Seq<u8>, ifd: int, target: u16, little: bool) -> Option<u32> {
    if ifd + 2 > data.len() {
        None
    } else {
        sub_ifd_scan(data, ifd, target, little, 0, u16_at(data, ifd, little) as int)
    }
}

/// Why the directory at `offset` cannot be read, if it cannot.
pub open spec fn ifd_error(data: Seq<u8>, offset: int, little: bool) -> Option<Seq<char>> {
    if offset + 2 > data.len() {
        Some("IFD header incomplete"@)
    } else if u16_at(data, offset, little) == 0 || u16_at(data, offset, little) > 1000 {
        Some("Invalid IFD entry count"@)
    } else {
        None
    }
}

/// What a readable directory adds: its entries, then its maker note.
pub open spec fn ifd_effect(data: Seq<u8>, offset: int, little: bool, ts: int, m: M) -> M {
    let m1 = ifd_entries_effect(data, offset, little, ts, u16_at(data, offset, little), m);
    match sub_ifd_offset(data, offset, 0x927C, little) {
        Some(o) => maker_note_effect(data, ts + o, m1),
        None => m1,
    }
}

/// Whether the bytes at `i` are `II` or `MM`.
pub open spec fn is_order_mark(data: Seq<u8>, i: int) -> bool {
    (data[i] == 73 && data[i + 1] == 73) || (data[i] == 77 && data[i + 1] == 77)
}

/// The first position before `len - 8` that holds a byte-order mark, from
/// `i` on, or 0.
pub open spec fn header_scan(data: Seq<u8>, i: int) -> int
    decreases data.len() - 8 - i,
{
    if i >= data.len() - 8 {
        0
    } else if is_order_mark(data, i) {
        i
    } else {
        header_scan(data, i + 1)
    }
}

/// The outcome of reading TIFF-structured EXIF: the error message, if any,
/// and the map at the end. A failure in the Exif sub-directory keeps what
/// the first directory added.
pub open spec fn tiff_outcome(data: Seq<u8>, m: M) -> (Option<Seq<char>>, M) {
    if data.len() < 8 {
        (Some("TIFF header too small"@), m)
    } else {
        let ts = header_scan(data, 0);
        if !is_order_mark(data, ts) {
            (Some("Invalid TIFF byte order"@), m)
        } else {
            let little = data[ts] == 73;
            if u16_at(data, ts + 2, little) != 42 {
                (Some("Invalid TIFF version"@), m)
            } else {
                let ifd0 = ts + u32_at(data, ts + 4, little);
                match ifd_error(data, ifd0, little) {
                    Some(e) => (Some(e), m),
                    None => {
                        let m1 = ifd_effect(data, ifd0, little, ts, m);
                        match sub_ifd_offset(data, ifd0, 0x8769, little) {
                            Some(o) => match ifd_error(data, ts + o, little) {
                                Some(e) => (Some(e), m1),
                                None => (None, ifd_effect(data, ts + o, little, ts, m1)),
                            },
                            None => (None, m1),
                        }
                    },
                }
            }
        }
    }
}

/// Whether `r` is an error with message `msg`, or success when there is none.
pub open spec fn result_matches(r: Result<(), ExifError>, msg: Option<Seq<char>>) -> bool {
    match msg {
        Some(s) => r matches Err(ExifError::InvalidExif(e)) && e@ == s,
        None => r is Ok,
    }
}

/// `base + off` when it fits in a `usize`.
fn add_offset(base: usize, off: u32) -> (r: Option<usize>)
    ensures
        r matches Some(x) ==> x == base + off,
        r is None ==> base + off > usize::MAX,
{
    base.checked_add(off as usize)
}

/// TIFF-based EXIF parser.
pub struct TiffParser;

impl TiffParser {
    /// Parse TIFF-based EXIF data: IFD0, then the Exif sub-IFD.
    pub fn parse_tiff_exif(data: &[u8], metadata: &mut TagMap) -> (r: Result<(), ExifError>)
        ensures
            result_matches(r, tiff_outcome(data@, old(metadata)@).0),
            final(metadata)@ == tiff_outcome(data@, old(metadata)@).1,
    {
        if data.len() < 8 {
            return Err(ExifError::invalid("TIFF header too small"));
        }
        let mut tiff_start: usize = 0;
        let mut i: usize = 0;
        while i < data.len() - 8
            invariant
                data@.len() >= 8,
                i <= data@.len() - 8,
                tiff_start == 0,
                header_scan(data@, 0) == header_scan(data@, i as int),
            decreases data.len() - 8 - i,
        {
            if (data[i] == 73 && data[i + 1] == 73) || (data[i] == 77 && data[i + 1] == 77) {
                tiff_start = i;
                break;
            }
            i = i + 1;
        }
        assert(tiff_start == header_scan(data@, 0));
        let is_little_endian = data[tiff_start] == 73 && data[tiff_start + 1] == 73;
        let is_big_endian = data[tiff_start] == 77 && data[tiff_start + 1] == 77;
        if !is_little_endian && !is_big_endian {
            return Err(ExifError::invalid("Invalid TIFF byte order"));
        }
        let version = read_u16(data, tiff_start + 2, is_little_endian);
        if version != 42 {
            return Err(ExifError::invalid("Invalid TIFF version"));
        }
        let ifd_offset = read_u32(data, tiff_start + 4, is_little_endian);
        let ifd0 = match add_offset(tiff_start, ifd_offset) {
            Some(x) => x,
            None => return Err(ExifError::invalid("IFD header incomplete")),
        };
        Self::parse_ifd(data, ifd0, is_little_endian, tiff_start, metadata)?;
        if let Some(exif_ifd_offset) = Self::find_sub_ifd_offset(data, ifd0, 0x8769, is_little_endian, tiff_start) {
            let e = match add_offset(tiff_start, exif_ifd_offset) {
                Some(x) => x,
                None => return Err(ExifError::invalid("IFD header incomplete")),
            };
            Self::parse_ifd(data, e, is_little_endian, tiff_start, metadata)?;
        }
        Ok(())
    }

    /// Parse an Image File Directory, then its maker note if present.
    fn parse_ifd(data: &[u8], offset: usize, is_little_endian: bool, tiff_start: usize, metadata: &mut TagMap) -> (r: Result<(), ExifError>)
        ensures
            result_matches(r, ifd_error(data@, offset as int, is_little_endian)),
            r is Ok ==> final(metadata)@ == ifd_effect(data@, offset as int, is_little_endian, tiff_start as int, old(metadata)@),
            r is Err ==> final(metadata)@ == old(metadata)@,
    {
        if offset > data.len() || data.len() - offset < 2 {
            return Err(ExifError::invalid("IFD header incomplete"));
        }
        let entry_count = read_u16(data, offset, is_little_endian);
        if entry_count == 0 || entry_count > 1000 {
            return Err(ExifError::invalid("Invalid IFD entry count"));
        }
        let ghost m0 = metadata@;
        let mut i: u16 = 0;
        while i < entry_count
            invariant
                i <= entry_count <= 1000,
                offset + 2 <= data@.len(),
                entry_count == u16_at(data@, offset as int, is_little_endian),
                metadata@ == ifd_entries_effect(data@, offset as int, is_little_endian, tiff_start as int, i as nat, m0),
            decreases entry_count - i,
        {
            let rel: usize = (i as usize) * 12;
            let room: usize = data.len() - (offset + 2);
            if rel <= room && room - rel >= 12 {
                let entry_offset: usize = offset + 2 + rel;
                Self::parse_ifd_entry(data, entry_offset, is_little_endian, tiff_start, metadata)?;
            }
            i = i + 1;
        }
        if let Some(maker_note_offset) = Self::find_sub_ifd_offset(data, offset, 0x927C, is_little_endian, tiff_start) {
            if let Some(at) = add_offset(tiff_start, maker_note_offset) {
                MakerNoteParser::parse_maker_note(data, at, 0, metadata);
            }
        }
        Ok(())
    }

    /// Parse a single 12-byte directory entry.
    fn parse_ifd_entry(data: &[u8], offset: usize, is_little_endian: bool, tiff_start: usize, metadata: &mut TagMap) -> (r: Result<(), ExifError>)
        requires
            offset + 12 <= data.len(),
        ensures
            r is Ok,
            final(metadata)@ == entry_effect(data@, offset as int, is_little_endian, tiff_start as int, old(metadata)@),
    {
        let tag_id = read_u16(data, offset, is_little_endian);
        let data_type = read_u16(data, offset + 2, is_little_endian);
        let count = read_u32(data, offset + 4, is_little_endian);
        let value_offset = read_u32(data, offset + 8, is_little_endian);
        Self::parse_tag_value(data, tag_id, data_type, count, value_offset, is_little_endian, tiff_start, metadata)
    }

    /// Parse a tag value by its type and count.
    fn parse_tag_value(
        data: &[u8],
        tag_id: u16,
        data_type: u16,
        count: u32,
        value_offset: u32,
        is_little_endian: bool,
        tiff_start: usize,
        metadata: &mut TagMap,
    ) -> (r: Result<(), ExifError>)
        ensures
            r is Ok,
            final(metadata)@ == tag_value_effect(data@, tag_id, data_type, count, value_offset, is_little_endian, tiff_start as int, old(metadata)@),
    {
        assert(data.len() == data@.len());
        let tag_name = tag_name_text(tag_id);
        let name = tag_name.as_str();
        if data_type == 1 {
            if count <= 4 {
                let v: u32 = if is_little_endian { value_offset % 256 } else { value_offset / 16777216 };
                metadata.insert_text(name, u64_text(v as u64));
            } else {
                Self::insert_far_text(data, name, tiff_start, value_offset, count, metadata);
            }
        } else if data_type == 2 {
            if count <= 4 {
                let bytes: [u8; 4] = [
                    (value_offset % 256) as u8,
                    ((value_offset / 256) % 256) as u8,
                    ((value_offset / 65536) % 256) as u8,
                    (value_offset / 16777216) as u8,
                ];
                assert(bytes@ =~= le_bytes32(value_offset));
                if let Some(s) = utf8_text(&bytes) {
                    metadata.insert_text(name, crate::text::trim_nul_end(s.as_str()));
                }
            } else {
                Self::insert_far_text(data, name, tiff_start, value_offset, count, metadata);
            }
        } else if data_type == 3 {
            if count == 1 {
                let v: u32 = if is_little_endian { value_offset % 65536 } else { value_offset / 65536 };
                metadata.insert_text(name, Self::format_special_field(tag_id, v as u16));
            }
        } else if data_type == 4 {
            if count == 1 {
                metadata.insert_text(name, u64_text(value_offset as u64));
            }
        } else if data_type == 5 {
            if count == 1 {
                if let Some(off) = add_offset(tiff_start, value_offset) {
                    if off <= data.len() && data.len() - off >= 8 {
                        let numerator = read_u32(data, off, is_little_endian);
                        let denominator = read_u32(data, off + 4, is_little_endian);
                        if tag_id == 0x011A || tag_id == 0x011B || denominator == 0 {
                            metadata.insert_text(name, u64_text(numerator as u64));
                        } else {
                            let style = if tag_id == 0x829A {
                                RealStyle::ExposureTime
                            } else if tag_id == 0x829D {
                                RealStyle::Fixed(1)
                            } else {
                                RealStyle::Fixed(6)
                            };
                            metadata.insert_number(name, Real { num: numerator as i64, den: denominator as u64, style });
                        }
                    }
                }
            }
        } else {
            metadata.insert_text(name, u64_text(value_offset as u64));
        }
        Ok(())
    }

    /// Store the text of `count` bytes at `tiff_start + value_offset`.
    fn insert_far_text(data: &[u8], name: &str, tiff_start: usize, value_offset: u32, count: u32, metadata: &mut TagMap)
        ensures
            final(metadata)@ == far_text_effect(name@, data@, tiff_start + value_offset, count as int, old(metadata)@),
    {
        assert(data.len() == data@.len());
        if let Some(off) = add_offset(tiff_start, value_offset) {
            if let Some(t) = read_text_at(data, off, count as usize) {
                metadata.insert_text(name, t);
            }
        }
    }

    /// Greatest common divisor (Euclid).
    pub fn gcd(x: u32, y: u32) -> (r: u32)
        ensures
            r == gcd_spec(x as nat, y as nat),
    {
        let mut a = x;
        let mut b = y;
        while b != 0
            invariant
                gcd_spec(a as nat, b as nat) == gcd_spec(x as nat, y as nat),
            decreases b,
        {
            let temp = b;
            b = a % b;
            a = temp;
        }
        a
    }

    /// Format special field values to match exiftool output.
    pub fn format_special_field(tag_id: u16, value: u16) -> (r: String)
        ensures
            r@ == special_field_text(tag_id, value),
    {
        let s: &str = if tag_id == 0x0112 {
            match value {
                1 => "Horizontal (normal)",
                2 => "Mirror horizontal",
                3 => "Rotate 180",
                4 => "Mirror vertical",
                5 => "Mirror horizontal and rotate 270 CW",
                6 => "Rotate 90 CW",
                7 => "Mirror horizontal and rotate 90 CW",
                8 => "Rotate 270 CW",
                _ => return u64_text(value as u64),
            }
        } else if tag_id == 0x0128 {
            match value {
                1 => "None",
                2 => "inches",
                3 => "cm",
                _ => return u64_text(value as u64),
            }
        } else if tag_id == 0x0213 {
            match value {
                1 => "Centered",
                2 => "Co-sited",
                _ => return u64_text(value as u64),
            }
        } else {
            return u64_text(value as u64);
        };
        text(s)
    }

    /// Get the human-readable tag name.
    pub fn get_tag_name(tag_id: u16) -> (r: String)
        ensures
            r@ == tiff_tag_name(tag_id),
    {
        tag_name_text(tag_id)
    }

    /// Find the value of the first entry with tag `target_tag` in the
    /// directory at `ifd_offset`.
    pub(crate) fn find_sub_ifd_offset(data: &[u8], ifd_offset: usize, target_tag: u16, is_little_endian: bool, _tiff_start: usize) -> (r: Option<u32>)
        ensures
            r == sub_ifd_offset(data@, ifd_offset as int, target_tag, is_little_endian),
    {
        if ifd_offset > data.len() || data.len() - ifd_offset < 2 {
            return None;
        }
        let entry_count = read_u16(data, ifd_offset, is_little_endian);
        let mut i: u16 = 0;
        while i < entry_count
            invariant
                i <= entry_count,
                ifd_offset + 2 <= data@.len(),
                entry_count == u16_at(data@, ifd_offset as int, is_little_endian),
                sub_ifd_offset(data@, ifd_offset as int, target_tag, is_little_endian)
                    == sub_ifd_scan(data@, ifd_offset as int, target_tag, is_little_endian, i as int, entry_count as int),
            decreases entry_count - i,
        {
            let rel: usize = (i as usize) * 12;
            let room: usize = data.len() - (ifd_offset + 2);
            if rel <= room && room - rel >= 12 {
                let entry_offset: usize = ifd_offset + 2 + rel;
                let tag_id = read_u16(data, entry_offset, is_little_endian);
                if tag_id == target_tag {
                    return Some(read_u32(data, entry_offset + 8, is_little_endian));
                }
            }
            i = i + 1;
        }
        None
    }
}

} // verus!

verus! {

/// A TIFF block whose header is at its start and whose first directory
/// holds one RATIONAL entry (count 1, not a resolution, sub-directory or
/// maker-note tag) with its eight value bytes in the block: reading it
/// stores under the tag's name one number whose numerator is the first
/// 32-bit value at the entry's offset and whose denominator is the second.
pub proof fn law_rational_reads_numerator_then_denominator(data: Seq<u8>, m: M)
    requires
        data.len() > 8,
        (data[0] == 73 && data[1] == 73) || (data[0] == 77 && data[1] == 77),
        u16_at(data, 2, data[0] == 73) == 42,
        ({
            let little = data[0] == 73;
            let ifd = u32_at(data, 4, little) as int;
            let e = ifd + 2;
            let tag = u16_at(data, e, little);
            let vo = u32_at(data, e + 8, little) as int;
            &&& e + 12 <= data.len()
            &&& u16_at(data, ifd, little) == 1
            &&& u16_at(data, e + 2, little) == 5
            &&& u32_at(data, e + 4, little) == 1
            &&& tag != 0x011A && tag != 0x011B && tag != 0x8769 && tag != 0x927C
            &&& vo + 8 <= data.len()
            &&& u32_at(data, vo + 4, little) != 0
        }),
    ensures
        ({
            let little = data[0] == 73;
            let ifd = u32_at(data, 4, little) as int;
            let e = ifd + 2;
            let vo = u32_at(data, e + 8, little) as int;
            let (err, out) = tiff_outcome(data, m);
            let v = out[tiff_tag_name(u16_at(data, e, little) as u16)];
            &&& err is None
            &&& out.contains_key(tiff_tag_name(u16_at(data, e, little) as u16))
            &&& v.len() == 1
            &&& v[0] matches PieceModel::Number(r) && r.num == u32_at(data, vo, little) && r.den == u32_at(data, vo + 4, little)
        }),
{
    let little = data[0] == 73;
    let ifd = u32_at(data, 4, little) as int;
    let e = ifd + 2;
    assert(is_order_mark(data, 0));
    assert(header_scan(data, 0) == 0);
    assert(ifd_entries_effect(data, ifd, little, 0, 1, m) == entry_effect(data, e, little, 0, m)) by {
        assert(ifd_entries_effect(data, ifd, little, 0, 0, m) == m);
    }
    assert(sub_ifd_scan(data, ifd, 0x927C, little, 1, 1) is None);
    assert(sub_ifd_scan(data, ifd, 0x8769, little, 1, 1) is None);
    assert(sub_ifd_offset(data, ifd, 0x927C, little) is None);
    assert(sub_ifd_offset(data, ifd, 0x8769, little) is None);
}

} // verus!
