//! Byte-level helpers and field validation rules shared by the parsers.

use vstd::prelude::*;
use vstd::string::StringSliceAdditionalSpecFns;
use vstd::utf8::{decode_utf8, encode_utf8, valid_utf8};
use crate::bytes::{be32, be64, read_u32, read_u64_be_at};
use crate::metadata::{TagMap, txt};
use crate::text::{
    all_digits, chars_of, contains_text, dec_text, is_ascii_digit, one_of, text_contains, parse_unsigned, parse_unsigned_text,
    push_dec, str_eq, str_views, sub_slice, text, trim, trim_end_nul, trim_nul_end, trim_text,
    utf8_text,
};
use crate::types::ExifError;
use crate::nikon_mov::{first_utc_second, last_utc_second, utc_datetime, utc_datetime_text};

verus! {

/// Whether `r` is an `InvalidExif` error with the message `msg`.
pub open spec fn fails_with(r: Result<(), ExifError>, msg: Seq<char>) -> bool {
    r matches Err(ExifError::InvalidExif(m)) && m@ == msg
}

/// An `InvalidExif` error whose message is `prefix` followed by `value`.
pub fn invalid_value(prefix: &str, value: &str) -> (e: ExifError)
    ensures
        e matches ExifError::InvalidExif(m) && m@ == prefix@ + value@,
{
    let mut m = text(prefix);
    m.append(value);
    ExifError::InvalidExif(m)
}

/// Whether `b[p..p+n]` equals `pat`.
pub open spec fn bytes_match_at(b: Seq<u8>, p: int, pat: Seq<u8>) -> bool {
    0 <= p && p + pat.len() <= b.len() && b.subrange(p, p + pat.len()) == pat
}

/// The first position where `pat` occurs in `b`.
pub open spec fn first_match(b: Seq<u8>, pat: Seq<u8>, i: int) -> bool {
    bytes_match_at(b, i, pat) && forall|j: int| 0 <= j < i ==> !#[trigger] bytes_match_at(b, j, pat)
}

/// What recording Unix times of the 2020s found in `data` does: the last
/// 4-byte window that reads, little-endian, as such a time is stored under
/// `UnixTimestamp_LE` as its UTC date, and likewise big-endian under
/// `UnixTimestamp_BE`.
pub open spec fn unix_stamps_effect(data: Seq<u8>, m: Map<Seq<char>, Seq<crate::metadata::PieceModel>>) -> Map<Seq<char>, Seq<crate::metadata::PieceModel>> {
    let n = if data.len() >= 3 { data.len() - 3 } else { 0 };
    let m1 = match last_stamp(data, n, true) {
        Some(v) => m.insert("UnixTimestamp_LE"@, txt(utc_datetime_text(v as i64))),
        None => m,
    };
    match last_stamp(data, n, false) {
        Some(v) => m1.insert("UnixTimestamp_BE"@, txt(utc_datetime_text(v as i64))),
        None => m1,
    }
}

/// The 4-byte window at `i`, read little- or big-endian.
pub open spec fn window_value(b: Seq<u8>, i: int, little: bool) -> nat {
    if little {
        be32(b[i + 3], b[i + 2], b[i + 1], b[i])
    } else {
        be32(b[i], b[i + 1], b[i + 2], b[i + 3])
    }
}

/// The value of the last window before `k` that is a Unix time of the
/// 2020s.
pub open spec fn last_stamp(b: Seq<u8>, k: int, little: bool) -> Option<u32>
    decreases k,
{
    if k <= 0 {
        None
    } else if in_unix_window(window_value(b, k - 1, little)) {
        Some(window_value(b, k - 1, little) as u32)
    } else {
        last_stamp(b, k - 1, little)
    }
}

/// The position of the first occurrence of `pat` in `b`.
pub open spec fn find_first(b: Seq<u8>, pat: Seq<u8>) -> Option<int> {
    if exists|i: int| first_match(b, pat, i) {
        Some(choose|i: int| first_match(b, pat, i))
    } else {
        None
    }
}

/// The `YYYY:MM:DD HH:MM:SS` text at `p`, when the bytes there have that
/// shape.
pub open spec fn stamp_at(b: Seq<u8>, p: int) -> Option<Seq<char>> {
    if 0 <= p && p + 19 <= b.len() && stamp_digits(b.subrange(p, p + 19)) && valid_utf8(b.subrange(p, p + 19)) {
        Some(decode_utf8(b.subrange(p, p + 19)))
    } else {
        None
    }
}

/// There is at most one first occurrence.
pub proof fn lemma_first_match_unique(b: Seq<u8>, pat: Seq<u8>, i: int, j: int)
    requires
        first_match(b, pat, i),
        first_match(b, pat, j),
    ensures
        i == j,
{
    if i < j {
        assert(!bytes_match_at(b, i, pat));
    } else if j < i {
        assert(!bytes_match_at(b, j, pat));
    }
}

/// Whether bytes `p..p+n` of `b` are ASCII digits.
pub open spec fn digits_at(b: Seq<u8>, p: int, n: int) -> bool {
    forall|i: int| p <= i < p + n ==> 48 <= #[trigger] b[i] <= 57
}

/// Where the fields of a `YYYY:MM:DD HH:MM:SS` stamp are all digits.
pub open spec fn stamp_digits(w: Seq<u8>) -> bool {
    digits_at(w, 0, 4) && digits_at(w, 5, 2) && digits_at(w, 8, 2) && digits_at(w, 11, 2)
        && digits_at(w, 14, 2) && digits_at(w, 17, 2)
}

/// The lowest and highest 32-bit values taken for Unix times of the 2020s.
pub open spec fn in_unix_window(v: nat) -> bool {
    1577836800 <= v && v <= 1893456000
}

/// The fields kept when copying between images.
pub open spec fn high_priority_fields() -> Seq<Seq<char>> {
    seq![
        "DateTime"@, "DateTimeOriginal"@, "DateTimeDigitized"@, "SubSecTime"@,
        "SubSecTimeOriginal"@, "SubSecTimeDigitized"@, "OffsetTime"@, "OffsetTimeOriginal"@,
        "OffsetTimeDigitized"@, "Make"@, "Model"@, "Software"@, "BodySerialNumber"@,
        "LensMake"@, "LensModel"@, "LensSerialNumber"@, "ExposureTime"@, "FNumber"@,
        "ISOSpeedRatings"@, "FocalLength"@, "ExposureProgram"@, "ExposureMode"@,
        "ExposureBiasValue"@, "MeteringMode"@, "Flash"@, "WhiteBalance"@, "Orientation"@,
        "XResolution"@, "YResolution"@, "ResolutionUnit"@, "PixelXDimension"@,
        "PixelYDimension"@, "ColorSpace"@, "ShutterSpeedValue"@, "ApertureValue"@,
        "MaxApertureValue"@, "LightSource"@, "SubjectDistance"@, "SubjectDistanceRange"@,
        "DigitalZoomRatio"@, "FocalLengthIn35mmFilm"@, "SceneCaptureType"@, "GainControl"@,
        "Contrast"@, "Saturation"@, "Sharpness"@, "Artist"@, "Copyright"@,
        "ImageDescription"@,
    ]
}

/// The full list of standard field names.
pub open spec fn comprehensive_fields() -> Seq<Seq<char>> {
    seq![
        "ImageDescription"@, "Make"@, "Model"@, "Orientation"@, "XResolution"@,
        "YResolution"@, "ResolutionUnit"@, "Software"@, "DateTime"@, "Artist"@,
        "WhitePoint"@, "PrimaryChromaticities"@, "YCbCrCoefficients"@, "YCbCrSubSampling"@,
        "YCbCrPositioning"@, "ReferenceBlackWhite"@, "Copyright"@, "ExposureTime"@,
        "FNumber"@, "ExposureProgram"@, "SpectralSensitivity"@, "ISOSpeedRatings"@, "OECF"@,
        "ExifVersion"@, "DateTimeOriginal"@, "DateTimeDigitized"@,
        "ComponentsConfiguration"@, "CompressedBitsPerPixel"@, "BrightnessValue"@,
        "ExposureBiasValue"@, "MaxApertureValue"@, "SubjectDistance"@, "MeteringMode"@,
        "LightSource"@, "Flash"@, "FocalLength"@, "SubjectArea"@, "MakerNote"@,
        "UserComment"@, "SubSecTime"@, "SubSecTimeOriginal"@, "SubSecTimeDigitized"@,
        "FlashpixVersion"@, "ColorSpace"@, "PixelXDimension"@, "PixelYDimension"@,
        "RelatedSoundFile"@, "InteropIndex"@, "InteropVersion"@, "RelatedImageFileFormat"@,
        "RelatedImageWidth"@, "RelatedImageLength"@, "ExposureIndex"@, "SensingMethod"@,
        "FileSource"@, "SceneType"@, "CFAPattern"@, "CustomRendered"@, "ExposureMode"@,
        "WhiteBalance"@, "DigitalZoomRatio"@, "FocalLengthIn35mmFilm"@,
        "SceneCaptureType"@, "GainControl"@, "Contrast"@, "Saturation"@, "Sharpness"@,
        "DeviceSettingDescription"@, "SubjectDistanceRange"@, "ImageUniqueID"@,
        "CameraOwnerName"@, "BodySerialNumber"@, "LensSpecification"@, "LensMake"@,
        "LensModel"@, "LensSerialNumber"@, "GPSVersionID"@, "GPSLatitudeRef"@,
        "GPSLatitude"@, "GPSLongitudeRef"@, "GPSLongitude"@, "GPSAltitudeRef"@,
        "GPSAltitude"@, "GPSTimeStamp"@, "GPSSatellites"@, "GPSStatus"@, "GPSMeasureMode"@,
        "GPSDOP"@, "GPSSpeedRef"@, "GPSSpeed"@, "GPSTrackRef"@, "GPSTrack"@,
        "GPSImgDirectionRef"@, "GPSImgDirection"@, "GPSMapDatum"@, "GPSDestLatitudeRef"@,
        "GPSDestLatitude"@, "GPSDestLongitudeRef"@, "GPSDestLongitude"@,
        "GPSDestBearingRef"@, "GPSDestBearing"@, "GPSDestDistanceRef"@, "GPSDestDistance"@,
        "GPSProcessingMethod"@, "GPSAreaInformation"@, "GPSDateStamp"@, "GPSDifferential"@,
        "OffsetTime"@, "OffsetTimeOriginal"@, "OffsetTimeDigitized"@, "ShutterSpeedValue"@,
        "ApertureValue"@,
    ]
}

/// Common utility functions for EXIF processing.
pub struct ExifUtils;

impl ExifUtils {
    /// Read a 32-bit big-endian integer from data at position.
    pub fn read_u32_be(data: &[u8], pos: usize) -> (r: Result<u32, ExifError>)
        ensures
            r is Ok <==> pos + 4 <= data@.len(),
            r matches Ok(v) ==> v == be32(data@[pos as int], data@[pos + 1], data@[pos + 2], data@[pos + 3]),
            r is Err ==> (r matches Err(ExifError::InvalidExif(m)) && m@ == "Insufficient data for u32 read"@),
    {
        if pos > data.len() || data.len() - pos < 4 {
            return Err(ExifError::invalid("Insufficient data for u32 read"));
        }
        Ok(read_u32(data, pos, false))
    }

    /// Read a 64-bit big-endian integer from data at position.
    pub fn read_u64_be(data: &[u8], pos: usize) -> (r: Result<u64, ExifError>)
        ensures
            r is Ok <==> pos + 8 <= data@.len(),
            r matches Ok(v) ==> v == be64(data@, pos as int),
            r is Err ==> (r matches Err(ExifError::InvalidExif(m)) && m@ == "Insufficient data for u64 read"@),
    {
        if pos > data.len() || data.len() - pos < 8 {
            return Err(ExifError::invalid("Insufficient data for u64 read"));
        }
        Ok(read_u64_be_at(data, pos))
    }

    /// Find a pattern in data and return its first position.
    pub fn find_pattern_in_data(data: &[u8], pattern: &[u8]) -> (r: Option<usize>)
        requires
            pattern@.len() > 0,
        ensures
            r matches Some(i) ==> first_match(data@, pattern@, i as int),
            r is None ==> forall|j: int| !#[trigger] bytes_match_at(data@, j, pattern@),
    {
        if pattern.len() > data.len() {
            return None;
        }
        let mut i: usize = 0;
        while i <= data.len() - pattern.len()
            invariant
                pattern@.len() <= data@.len(),
                i <= data@.len() - pattern@.len() + 1,
                forall|j: int| 0 <= j < i ==> !#[trigger] bytes_match_at(data@, j, pattern@),
            decreases data.len() - i,
        {
            let mut k: usize = 0;
            let mut same = true;
            while k < pattern.len()
                invariant
                    k <= pattern@.len(),
                    i + pattern@.len() <= data@.len(),
                    same <==> forall|m: int| 0 <= m < k ==> data@[i + m] == pattern@[m],
                decreases pattern.len() - k,
            {
                if data[i + k] != pattern[k] {
                    same = false;
                }
                k = k + 1;
            }
            if same {
                assert(data@.subrange(i as int, i + pattern@.len()) =~= pattern@);
                return Some(i);
            }
            assert(!bytes_match_at(data@, i as int, pattern@)) by {
                let m = choose|m: int| 0 <= m < pattern@.len() && data@[i + m] != pattern@[m];
                assert(data@.subrange(i as int, i + pattern@.len())[m] != pattern@[m]);
            }
            i = i + 1;
        }
        None
    }

    /// Format a Unix timestamp as an EXIF date and time
    /// (`YYYY:MM:DD HH:MM:SS`, UTC); nothing for a time outside the years
    /// -262143 to 262142, which have no date in chrono.
    pub fn format_timestamp(timestamp: i64) -> (r: Option<String>)
        ensures
            r is Some <==> first_utc_second() <= timestamp <= last_utc_second(),
            r matches Some(s) ==> s@ == utc_datetime_text(timestamp),
    {
        utc_datetime(timestamp)
    }

    /// Extract a `YYYY:MM:DD HH:MM:SS` timestamp at a specific position.
    /// Only the digit fields are checked; the separators may be anything.
    pub fn extract_timestamp_at_position(data: &[u8], pos: usize) -> (r: Option<String>)
        ensures
            r is Some <==> (pos + 19 <= data@.len() && stamp_digits(data@.subrange(pos as int, pos + 19))
                && valid_utf8(data@.subrange(pos as int, pos + 19))),
            r matches Some(s) ==> s@ == decode_utf8(data@.subrange(pos as int, pos + 19)),
    {
        if pos > data.len() || data.len() - pos < 19 {
            return None;
        }
        let w = sub_slice(data, pos, pos + 19);
        if Self::is_digit_string(sub_slice(w, 0, 4)) && Self::is_digit_string(sub_slice(w, 5, 7))
            && Self::is_digit_string(sub_slice(w, 8, 10)) && Self::is_digit_string(sub_slice(w, 11, 13))
            && Self::is_digit_string(sub_slice(w, 14, 16)) && Self::is_digit_string(sub_slice(w, 17, 19)) {
            proof {
                assert forall|i: int| 0 <= i < 4 implies 48 <= #[trigger] w@[i] <= 57 by {
                    assert(w@.subrange(0, 4)[i] == w@[i]);
                }
                assert forall|i: int| 5 <= i < 7 implies 48 <= #[trigger] w@[i] <= 57 by {
                    assert(w@.subrange(5, 7)[i - 5] == w@[i]);
                }
                assert forall|i: int| 8 <= i < 10 implies 48 <= #[trigger] w@[i] <= 57 by {
                    assert(w@.subrange(8, 10)[i - 8] == w@[i]);
                }
                assert forall|i: int| 11 <= i < 13 implies 48 <= #[trigger] w@[i] <= 57 by {
                    assert(w@.subrange(11, 13)[i - 11] == w@[i]);
                }
                assert forall|i: int| 14 <= i < 16 implies 48 <= #[trigger] w@[i] <= 57 by {
                    assert(w@.subrange(14, 16)[i - 14] == w@[i]);
                }
                assert forall|i: int| 17 <= i < 19 implies 48 <= #[trigger] w@[i] <= 57 by {
                    assert(w@.subrange(17, 19)[i - 17] == w@[i]);
                }
            }
            return utf8_text(w);
        }
        proof {
            if stamp_digits(w@) {
                assert forall|i: int| 0 <= i < 4 implies 48 <= #[trigger] w@.subrange(0, 4)[i] <= 57 by {
                    assert(w@.subrange(0, 4)[i] == w@[i]);
                }
                assert forall|i: int| 0 <= i < 2 implies 48 <= #[trigger] w@.subrange(5, 7)[i] <= 57 by {
                    assert(w@.subrange(5, 7)[i] == w@[i + 5]);
                }
                assert forall|i: int| 0 <= i < 2 implies 48 <= #[trigger] w@.subrange(8, 10)[i] <= 57 by {
                    assert(w@.subrange(8, 10)[i] == w@[i + 8]);
                }
                assert forall|i: int| 0 <= i < 2 implies 48 <= #[trigger] w@.subrange(11, 13)[i] <= 57 by {
                    assert(w@.subrange(11, 13)[i] == w@[i + 11]);
                }
                assert forall|i: int| 0 <= i < 2 implies 48 <= #[trigger] w@.subrange(14, 16)[i] <= 57 by {
                    assert(w@.subrange(14, 16)[i] == w@[i + 14]);
                }
                assert forall|i: int| 0 <= i < 2 implies 48 <= #[trigger] w@.subrange(17, 19)[i] <= 57 by {
                    assert(w@.subrange(17, 19)[i] == w@[i + 17]);
                }
            }
        }
        None
    }

    /// Check if a byte slice contains only ASCII digits.
    pub fn is_digit_string(bytes: &[u8]) -> (r: bool)
        ensures
            r == forall|i: int| 0 <= i < bytes@.len() ==> 48 <= #[trigger] bytes@[i] <= 57,
    {
        let mut i: usize = 0;
        while i < bytes.len()
            invariant
                i <= bytes@.len(),
                forall|j: int| 0 <= j < i ==> 48 <= #[trigger] bytes@[j] <= 57,
            decreases bytes.len() - i,
        {
            if bytes[i] < 48 || bytes[i] > 57 {
                return false;
            }
            i = i + 1;
        }
        true
    }

    /// Record whether some 4-byte window, read either way, is a Unix time
    /// of the 2020s (under `UnixTimestamp_LE` and `UnixTimestamp_BE`).
    pub fn extract_unix_timestamps(data: &[u8], metadata: &mut TagMap)
        ensures
            final(metadata)@ == unix_stamps_effect(data@, old(metadata)@),
    {
        let n: usize = if data.len() >= 3 { data.len() - 3 } else { 0 };
        let mut le: Option<u32> = None;
        let mut be: Option<u32> = None;
        let mut i: usize = 0;
        while i < n
            invariant
                i <= n,
                n == if data@.len() >= 3 { data@.len() - 3 } else { 0 },
                le == last_stamp(data@, i as int, true),
                be == last_stamp(data@, i as int, false),
            decreases n - i,
        {
            let l = read_u32(data, i, true);
            let b = read_u32(data, i, false);
            if 1577836800 <= l && l <= 1893456000 {
                le = Some(l);
            }
            if 1577836800 <= b && b <= 1893456000 {
                be = Some(b);
            }
            i = i + 1;
        }
        if let Some(v) = le {
            if let Some(formatted) = Self::format_timestamp(v as i64) {
                metadata.insert_text("UnixTimestamp_LE", formatted);
            }
        }
        if let Some(v) = be {
            if let Some(formatted) = Self::format_timestamp(v as i64) {
                metadata.insert_text("UnixTimestamp_BE", formatted);
            }
        }
    }

    /// Checks a field's value by the field's kind: date and time layouts,
    /// integer ranges, the names of enumerated settings and length limits,
    /// on the value without surrounding whitespace. Where the value must
    /// also read as a decimal number, the rule it must pass is given back
    /// for the host, which reads numbers in floating point.
    pub fn validate_field_value(field_name: &str, value: &str) -> (r: Result<Option<FieldRule>, ExifError>)
        ensures
            check_matches(r, field_check(field_name@, value@)),
    {
        let cleaned = trim_text(value);
        let c = cleaned.as_str();
        let chars = chars_of(c);
        if chars.len() == 0 {
            return Err(invalid_value("Empty value for field: ", field_name));
        }
        let rule = field_rule(field_name);
        let needs_decimal = match rule {
            FieldRule::ExposureTime | FieldRule::FNumber | FieldRule::FocalLength | FieldRule::Resolution
            | FieldRule::GpsCoordinate | FieldRule::DigitalZoomRatio | FieldRule::Rational => true,
            _ => false,
        };
        assert(needs_decimal == rule_needs_decimal(rule));
        assert(c@ == trim(value@));
        let bytes = c.as_bytes();
        let nb = bytes.len();
        let n = c.len();
        assert(bytes@.len() == encode_utf8(c@).len());
        assert(nb as nat == encode_utf8(c@).len());
        assert(n as nat == encode_utf8(c@).len());
        if needs_decimal {
            let in_degrees = match rule {
                FieldRule::GpsCoordinate => text_contains(c, "deg") && text_contains(c, "'") && text_contains(c, "\""),
                _ => false,
            };
            if in_degrees {
                return Ok(None);
            }
            return Ok(Some(rule));
        }
        match check_integer_rule(rule, c) {
            Ok(()) => Ok(None),
            Err(e) => Err(e),
        }
    }

    /// Get high-priority EXIF fields for copying between images.
    pub fn get_high_priority_fields() -> (r: Vec<&'static str>)
        ensures
            str_views(r@) == high_priority_fields(),
    {
        let a: [&'static str; 49] = [
            "DateTime", "DateTimeOriginal", "DateTimeDigitized", "SubSecTime",
            "SubSecTimeOriginal", "SubSecTimeDigitized", "OffsetTime", "OffsetTimeOriginal",
            "OffsetTimeDigitized", "Make", "Model", "Software", "BodySerialNumber", "LensMake",
            "LensModel", "LensSerialNumber", "ExposureTime", "FNumber", "ISOSpeedRatings",
            "FocalLength", "ExposureProgram", "ExposureMode", "ExposureBiasValue",
            "MeteringMode", "Flash", "WhiteBalance", "Orientation", "XResolution",
            "YResolution", "ResolutionUnit", "PixelXDimension", "PixelYDimension", "ColorSpace",
            "ShutterSpeedValue", "ApertureValue", "MaxApertureValue", "LightSource",
            "SubjectDistance", "SubjectDistanceRange", "DigitalZoomRatio",
            "FocalLengthIn35mmFilm", "SceneCaptureType", "GainControl", "Contrast",
            "Saturation", "Sharpness", "Artist", "Copyright", "ImageDescription",
        ];
        let v = vstd::slice::slice_to_vec(&a);
        assert(str_views(v@) =~= high_priority_fields());
        v
    }

    /// Get comprehensive EXIF field list.
    pub fn get_comprehensive_fields() -> (r: Vec<&'static str>)
        ensures
            str_views(r@) == comprehensive_fields(),
    {
        let a: [&'static str; 112] = [
            "ImageDescription", "Make", "Model", "Orientation", "XResolution", "YResolution",
            "ResolutionUnit", "Software", "DateTime", "Artist", "WhitePoint",
            "PrimaryChromaticities", "YCbCrCoefficients", "YCbCrSubSampling", "YCbCrPositioning",
            "ReferenceBlackWhite", "Copyright", "ExposureTime", "FNumber", "ExposureProgram",
            "SpectralSensitivity", "ISOSpeedRatings", "OECF", "ExifVersion", "DateTimeOriginal",
            "DateTimeDigitized", "ComponentsConfiguration", "CompressedBitsPerPixel",
            "BrightnessValue", "ExposureBiasValue", "MaxApertureValue", "SubjectDistance",
            "MeteringMode", "LightSource", "Flash", "FocalLength", "SubjectArea", "MakerNote",
            "UserComment", "SubSecTime", "SubSecTimeOriginal", "SubSecTimeDigitized",
            "FlashpixVersion", "ColorSpace", "PixelXDimension", "PixelYDimension",
            "RelatedSoundFile", "InteropIndex", "InteropVersion", "RelatedImageFileFormat",
            "RelatedImageWidth", "RelatedImageLength", "ExposureIndex", "SensingMethod",
            "FileSource", "SceneType", "CFAPattern", "CustomRendered", "ExposureMode",
            "WhiteBalance", "DigitalZoomRatio", "FocalLengthIn35mmFilm", "SceneCaptureType",
            "GainControl", "Contrast", "Saturation", "Sharpness", "DeviceSettingDescription",
            "SubjectDistanceRange", "ImageUniqueID", "CameraOwnerName", "BodySerialNumber",
            "LensSpecification", "LensMake", "LensModel", "LensSerialNumber", "GPSVersionID",
            "GPSLatitudeRef", "GPSLatitude", "GPSLongitudeRef", "GPSLongitude",
            "GPSAltitudeRef", "GPSAltitude", "GPSTimeStamp", "GPSSatellites", "GPSStatus",
            "GPSMeasureMode", "GPSDOP", "GPSSpeedRef", "GPSSpeed", "GPSTrackRef", "GPSTrack",
            "GPSImgDirectionRef", "GPSImgDirection", "GPSMapDatum", "GPSDestLatitudeRef",
            "GPSDestLatitude", "GPSDestLongitudeRef", "GPSDestLongitude", "GPSDestBearingRef",
            "GPSDestBearing", "GPSDestDistanceRef", "GPSDestDistance", "GPSProcessingMethod",
            "GPSAreaInformation", "GPSDateStamp", "GPSDifferential", "OffsetTime",
            "OffsetTimeOriginal", "OffsetTimeDigitized", "ShutterSpeedValue", "ApertureValue",
        ];
        let v = vstd::slice::slice_to_vec(&a);
        assert(str_views(v@) =~= comprehensive_fields());
        v
    }

    /// Filter metadata to only include high-priority fields.
    pub fn filter_high_priority_fields(metadata: &TagMap) -> (r: TagMap)
        ensures
            r@ == metadata@.restrict(high_priority_fields().to_set()),
    {
        let fields = Self::get_high_priority_fields();
        let mut filtered = TagMap::new();
        let mut i: usize = 0;
        while i < fields.len()
            invariant
                i <= fields@.len(),
                str_views(fields@) == high_priority_fields(),
                filtered@ == metadata@.restrict(str_views(fields@).subrange(0, i as int).to_set()),
            decreases fields.len() - i,
        {
            let f = fields[i];
            let ghost before = filtered@;
            assert(str_views(fields@)[i as int] == f@);
            assert(str_views(fields@).subrange(0, i + 1) =~= str_views(fields@).subrange(0, i as int).push(f@));
            proof {
                str_views(fields@).subrange(0, i as int).lemma_push_to_set_commute(f@);
            }
            assert(str_views(fields@).subrange(0, i + 1).to_set() =~= str_views(fields@).subrange(0, i as int).to_set().insert(f@));
            match metadata.get(f) {
                Some(v) => {
                    let copy = copy_value(v);
                    filtered.insert(text(f), copy);
                    assert(filtered@ =~= metadata@.restrict(str_views(fields@).subrange(0, i + 1).to_set()));
                },
                None => {
                    assert(filtered@ =~= metadata@.restrict(str_views(fields@).subrange(0, i + 1).to_set()));
                },
            }
            i = i + 1;
        }
        assert(str_views(fields@).subrange(0, fields@.len() as int) =~= high_priority_fields());
        filtered
    }

    /// Check if a field is high-priority.
    pub fn is_high_priority_field(field_name: &str) -> (r: bool)
        ensures
            r == high_priority_fields().contains(field_name@),
    {
        let fields = Self::get_high_priority_fields();
        one_of(field_name, fields.as_slice())
    }
}

/// Whether two byte strings are equal.
pub fn bytes_equal(a: &[u8], b: &[u8]) -> (r: bool)
    ensures
        r == (a@ == b@),
{
    if a.len() != b.len() {
        return false;
    }
    let mut i: usize = 0;
    while i < a.len()
        invariant
            i <= a@.len(),
            a@.len() == b@.len(),
            forall|j: int| 0 <= j < i ==> a@[j] == b@[j],
        decreases a.len() - i,
    {
        if a[i] != b[i] {
            return false;
        }
        i = i + 1;
    }
    assert(a@ =~= b@);
    true
}

/// A copy of a tag value.
pub fn copy_value(v: &crate::metadata::TagValue) -> (r: crate::metadata::TagValue)
    ensures
        r@ == v@,
{
    let mut pieces: Vec<crate::metadata::Piece> = Vec::new();
    let mut i: usize = 0;
    while i < v.pieces.len()
        invariant
            i <= v.pieces@.len(),
            pieces@.map_values(|p: crate::metadata::Piece| p.model()) == v@.subrange(0, i as int),
        decreases v.pieces.len() - i,
    {
        let p = match &v.pieces[i] {
            crate::metadata::Piece::Text(s) => crate::metadata::Piece::Text(s.clone()),
            crate::metadata::Piece::Number(r) => crate::metadata::Piece::Number(*r),
        };
        let ghost before = pieces@;
        pieces.push(p);
        assert(pieces@.map_values(|p: crate::metadata::Piece| p.model()) =~= v@.subrange(0, i + 1));
        i = i + 1;
    }
    let r = crate::metadata::TagValue { pieces };
    assert(r@ =~= v@);
    r
}

/// The text of `count` bytes at `off`, decoded as UTF-8 with trailing NULs
/// removed; `None` when they run past the end or are not valid UTF-8.
pub open spec fn text_at(b: Seq<u8>, off: int, count: int) -> Option<Seq<char>> {
    if 0 <= off && 0 <= count && off + count <= b.len() && valid_utf8(b.subrange(off, off + count)) {
        Some(trim_end_nul(decode_utf8(b.subrange(off, off + count))))
    } else {
        None
    }
}

/// The text of `count` bytes at `off` (see `text_at`).
pub fn read_text_at(b: &[u8], off: usize, count: usize) -> (r: Option<String>)
    ensures
        r matches Some(s) ==> text_at(b@, off as int, count as int) == Some(s@),
        r is None ==> text_at(b@, off as int, count as int) is None,
{
    if off > b.len() || count > b.len() - off {
        return None;
    }
    match utf8_text(sub_slice(b, off, off + count)) {
        Some(s) => Some(trim_nul_end(s.as_str())),
        None => None,
    }
}

/// Whether `pat` occurs somewhere in `b`.
pub open spec fn bytes_contain(b: Seq<u8>, pat: Seq<u8>) -> bool {
    exists|i: int| #[trigger] bytes_match_at(b, i, pat)
}

/// Whether `pat` occurs somewhere in `data`.
pub fn contains_bytes(data: &[u8], pat: &[u8]) -> (r: bool)
    requires
        pat@.len() > 0,
    ensures
        r == bytes_contain(data@, pat@),
{
    match ExifUtils::find_pattern_in_data(data, pat) {
        Some(i) => {
            assert(bytes_match_at(data@, i as int, pat@));
            true
        },
        None => false,
    }
}

/// Which check a field's value gets.
#[derive(Clone, Copy, PartialEq, Eq, Debug)]
pub enum FieldRule {
    DateTime,
    SubSecTime,
    OffsetTime,
    ExposureTime,
    FNumber,
    Iso,
    FocalLength,
    Orientation,
    Resolution,
    ResolutionUnit,
    GpsCoordinate,
    GpsRef,
    GpsAltitudeRef,
    Version,
    ColorSpace,
    Flash,
    WhiteBalance,
    SceneCaptureType,
    MeteringMode,
    LightSource,
    ExposureProgram,
    ExposureMode,
    ImageAdjustment,
    GainControl,
    SubjectDistanceRange,
    SensingMethod,
    FileSource,
    SceneType,
    CustomRendered,
    DigitalZoomRatio,
    FocalLength35mm,
    PixelDimension,
    Ascii,
    Rational,
    Undefined,
    Generic,
}

/// ASCII-valued fields.
pub open spec fn ascii_fields() -> Seq<Seq<char>> {
    seq![
        "Make"@, "Model"@, "Software"@, "Artist"@, "Copyright"@, "ImageDescription"@,
        "BodySerialNumber"@, "LensMake"@, "LensModel"@, "LensSerialNumber"@,
        "CameraOwnerName"@, "ImageUniqueID"@, "RelatedSoundFile"@, "GPSMapDatum"@,
        "GPSProcessingMethod"@, "GPSAreaInformation"@, "GPSDateStamp"@, "GPSStatus"@,
        "GPSMeasureMode"@, "GPSSatellites"@, "GPSDestLatitudeRef"@, "GPSDestLongitudeRef"@,
        "GPSDestBearingRef"@, "GPSDestDistanceRef"@, "GPSImgDirectionRef"@, "GPSTrackRef"@,
        "GPSSpeedRef"@, "InteropIndex"@, "RelatedImageFileFormat"@,
    ]
}

/// Rational-valued fields.
pub open spec fn rational_fields() -> Seq<Seq<char>> {
    seq![
        "MaxApertureValue"@, "SubjectDistance"@, "BrightnessValue"@, "ExposureBiasValue"@,
        "ShutterSpeedValue"@, "ApertureValue"@, "CompressedBitsPerPixel"@, "GPSTimeStamp"@,
        "GPSDOP"@, "GPSSpeed"@, "GPSTrack"@, "GPSImgDirection"@, "GPSDestLatitude"@,
        "GPSDestLongitude"@, "GPSDestBearing"@, "GPSDestDistance"@, "GPSAltitude"@,
        "WhitePoint"@, "PrimaryChromaticities"@, "YCbCrCoefficients"@,
        "ReferenceBlackWhite"@, "LensSpecification"@, "ExposureIndex"@,
    ]
}

/// Undefined-type fields.
pub open spec fn undefined_fields() -> Seq<Seq<char>> {
    seq![
        "MakerNote"@, "UserComment"@, "OECF"@, "ComponentsConfiguration"@, "CFAPattern"@,
        "DeviceSettingDescription"@, "InteropVersion"@,
    ]
}

/// The check that the field `f` gets.
pub open spec fn rule_of(f: Seq<char>) -> FieldRule {
    if seq!["DateTime"@, "DateTimeOriginal"@, "DateTimeDigitized"@].contains(f) {
        FieldRule::DateTime
    } else if seq!["SubSecTime"@, "SubSecTimeOriginal"@, "SubSecTimeDigitized"@].contains(f) {
        FieldRule::SubSecTime
    } else if seq!["OffsetTime"@, "OffsetTimeOriginal"@, "OffsetTimeDigitized"@].contains(f) {
        FieldRule::OffsetTime
    } else if f == "ExposureTime"@ {
        FieldRule::ExposureTime
    } else if f == "FNumber"@ {
        FieldRule::FNumber
    } else if f == "ISOSpeedRatings"@ {
        FieldRule::Iso
    } else if f == "FocalLength"@ {
        FieldRule::FocalLength
    } else if f == "Orientation"@ {
        FieldRule::Orientation
    } else if f == "XResolution"@ || f == "YResolution"@ {
        FieldRule::Resolution
    } else if f == "ResolutionUnit"@ {
        FieldRule::ResolutionUnit
    } else if f == "GPSLatitude"@ || f == "GPSLongitude"@ {
        FieldRule::GpsCoordinate
    } else if f == "GPSLatitudeRef"@ || f == "GPSLongitudeRef"@ {
        FieldRule::GpsRef
    } else if f == "GPSAltitudeRef"@ {
        FieldRule::GpsAltitudeRef
    } else if f == "ExifVersion"@ || f == "FlashpixVersion"@ {
        FieldRule::Version
    } else if f == "ColorSpace"@ {
        FieldRule::ColorSpace
    } else if f == "Flash"@ {
        FieldRule::Flash
    } else if f == "WhiteBalance"@ {
        FieldRule::WhiteBalance
    } else if f == "SceneCaptureType"@ {
        FieldRule::SceneCaptureType
    } else if f == "MeteringMode"@ {
        FieldRule::MeteringMode
    } else if f == "LightSource"@ {
        FieldRule::LightSource
    } else if f == "ExposureProgram"@ {
        FieldRule::ExposureProgram
    } else if f == "ExposureMode"@ {
        FieldRule::ExposureMode
    } else if seq!["Contrast"@, "Saturation"@, "Sharpness"@].contains(f) {
        FieldRule::ImageAdjustment
    } else if f == "GainControl"@ {
        FieldRule::GainControl
    } else if f == "SubjectDistanceRange"@ {
        FieldRule::SubjectDistanceRange
    } else if f == "SensingMethod"@ {
        FieldRule::SensingMethod
    } else if f == "FileSource"@ {
        FieldRule::FileSource
    } else if f == "SceneType"@ {
        FieldRule::SceneType
    } else if f == "CustomRendered"@ {
        FieldRule::CustomRendered
    } else if f == "DigitalZoomRatio"@ {
        FieldRule::DigitalZoomRatio
    } else if f == "FocalLengthIn35mmFilm"@ {
        FieldRule::FocalLength35mm
    } else if f == "PixelXDimension"@ || f == "PixelYDimension"@ {
        FieldRule::PixelDimension
    } else if ascii_fields().contains(f) {
        FieldRule::Ascii
    } else if rational_fields().contains(f) {
        FieldRule::Rational
    } else if undefined_fields().contains(f) {
        FieldRule::Undefined
    } else {
        FieldRule::Generic
    }
}

/// The check that the field `field_name` gets.
pub fn field_rule(field_name: &str) -> (r: FieldRule)
    ensures
        r == rule_of(field_name@),
{
    let f = field_name;
    let dt: [&str; 3] = ["DateTime", "DateTimeOriginal", "DateTimeDigitized"];
    assert(str_views(dt@) =~= seq!["DateTime"@, "DateTimeOriginal"@, "DateTimeDigitized"@]);
    let ss: [&str; 3] = ["SubSecTime", "SubSecTimeOriginal", "SubSecTimeDigitized"];
    assert(str_views(ss@) =~= seq!["SubSecTime"@, "SubSecTimeOriginal"@, "SubSecTimeDigitized"@]);
    let ot: [&str; 3] = ["OffsetTime", "OffsetTimeOriginal", "OffsetTimeDigitized"];
    assert(str_views(ot@) =~= seq!["OffsetTime"@, "OffsetTimeOriginal"@, "OffsetTimeDigitized"@]);
    let adj: [&str; 3] = ["Contrast", "Saturation", "Sharpness"];
    assert(str_views(adj@) =~= seq!["Contrast"@, "Saturation"@, "Sharpness"@]);
    let asc: [&str; 29] = [
        "Make", "Model", "Software", "Artist", "Copyright", "ImageDescription",
        "BodySerialNumber", "LensMake", "LensModel", "LensSerialNumber", "CameraOwnerName",
        "ImageUniqueID", "RelatedSoundFile", "GPSMapDatum", "GPSProcessingMethod",
        "GPSAreaInformation", "GPSDateStamp", "GPSStatus", "GPSMeasureMode", "GPSSatellites",
        "GPSDestLatitudeRef", "GPSDestLongitudeRef", "GPSDestBearingRef", "GPSDestDistanceRef",
        "GPSImgDirectionRef", "GPSTrackRef", "GPSSpeedRef", "InteropIndex",
        "RelatedImageFileFormat",
    ];
    assert(str_views(asc@) =~= ascii_fields());
    let rat: [&str; 23] = [
        "MaxApertureValue", "SubjectDistance", "BrightnessValue", "ExposureBiasValue",
        "ShutterSpeedValue", "ApertureValue", "CompressedBitsPerPixel", "GPSTimeStamp",
        "GPSDOP", "GPSSpeed", "GPSTrack", "GPSImgDirection", "GPSDestLatitude",
        "GPSDestLongitude", "GPSDestBearing", "GPSDestDistance", "GPSAltitude", "WhitePoint",
        "PrimaryChromaticities", "YCbCrCoefficients", "ReferenceBlackWhite",
        "LensSpecification", "ExposureIndex",
    ];
    assert(str_views(rat@) =~= rational_fields());
    let und: [&str; 7] = [
        "MakerNote", "UserComment", "OECF", "ComponentsConfiguration", "CFAPattern",
        "DeviceSettingDescription", "InteropVersion",
    ];
    assert(str_views(und@) =~= undefined_fields());
    if one_of(f, &dt) {
        FieldRule::DateTime
    } else if one_of(f, &ss) {
        FieldRule::SubSecTime
    } else if one_of(f, &ot) {
        FieldRule::OffsetTime
    } else if str_eq(f, "ExposureTime") {
        FieldRule::ExposureTime
    } else if str_eq(f, "FNumber") {
        FieldRule::FNumber
    } else if str_eq(f, "ISOSpeedRatings") {
        FieldRule::Iso
    } else if str_eq(f, "FocalLength") {
        FieldRule::FocalLength
    } else if str_eq(f, "Orientation") {
        FieldRule::Orientation
    } else if str_eq(f, "XResolution") || str_eq(f, "YResolution") {
        FieldRule::Resolution
    } else if str_eq(f, "ResolutionUnit") {
        FieldRule::ResolutionUnit
    } else if str_eq(f, "GPSLatitude") || str_eq(f, "GPSLongitude") {
        FieldRule::GpsCoordinate
    } else if str_eq(f, "GPSLatitudeRef") || str_eq(f, "GPSLongitudeRef") {
        FieldRule::GpsRef
    } else if str_eq(f, "GPSAltitudeRef") {
        FieldRule::GpsAltitudeRef
    } else if str_eq(f, "ExifVersion") || str_eq(f, "FlashpixVersion") {
        FieldRule::Version
    } else if str_eq(f, "ColorSpace") {
        FieldRule::ColorSpace
    } else if str_eq(f, "Flash") {
        FieldRule::Flash
    } else if str_eq(f, "WhiteBalance") {
        FieldRule::WhiteBalance
    } else if str_eq(f, "SceneCaptureType") {
        FieldRule::SceneCaptureType
    } else if str_eq(f, "MeteringMode") {
        FieldRule::MeteringMode
    } else if str_eq(f, "LightSource") {
        FieldRule::LightSource
    } else if str_eq(f, "ExposureProgram") {
        FieldRule::ExposureProgram
    } else if str_eq(f, "ExposureMode") {
        FieldRule::ExposureMode
    } else if one_of(f, &adj) {
        FieldRule::ImageAdjustment
    } else if str_eq(f, "GainControl") {
        FieldRule::GainControl
    } else if str_eq(f, "SubjectDistanceRange") {
        FieldRule::SubjectDistanceRange
    } else if str_eq(f, "SensingMethod") {
        FieldRule::SensingMethod
    } else if str_eq(f, "FileSource") {
        FieldRule::FileSource
    } else if str_eq(f, "SceneType") {
        FieldRule::SceneType
    } else if str_eq(f, "CustomRendered") {
        FieldRule::CustomRendered
    } else if str_eq(f, "DigitalZoomRatio") {
        FieldRule::DigitalZoomRatio
    } else if str_eq(f, "FocalLengthIn35mmFilm") {
        FieldRule::FocalLength35mm
    } else if str_eq(f, "PixelXDimension") || str_eq(f, "PixelYDimension") {
        FieldRule::PixelDimension
    } else if one_of(f, &asc) {
        FieldRule::Ascii
    } else if one_of(f, &rat) {
        FieldRule::Rational
    } else if one_of(f, &und) {
        FieldRule::Undefined
    } else {
        FieldRule::Generic
    }
}

/// The rules whose check reads a decimal number, which the host makes.
pub open spec fn rule_needs_decimal(r: FieldRule) -> bool {
    r == FieldRule::ExposureTime || r == FieldRule::FNumber || r == FieldRule::FocalLength
        || r == FieldRule::Resolution || r == FieldRule::GpsCoordinate || r
        == FieldRule::DigitalZoomRatio || r == FieldRule::Rational
}

/// What the check of a value that needs no decimal number gives.
pub open spec fn integer_rule_ok(r: FieldRule, v: Seq<char>, bytes_len: nat) -> bool {
    match r {
        FieldRule::DateTime => datetime_shape(v, bytes_len),
        FieldRule::SubSecTime => bytes_len <= 6 && all_digits(v),
        FieldRule::OffsetTime => v.len() > 0 && (v[0] == '+' || v[0] == '-'),
        FieldRule::Iso => parse_unsigned(v, 4294967295) matches Some(n) && n != 0,
        FieldRule::Orientation => parse_unsigned(v, 255) matches Some(n) && 1 <= n <= 8,
        FieldRule::ResolutionUnit => parse_unsigned(v, 255) matches Some(n) && 1 <= n <= 3,
        FieldRule::GpsRef => gps_ref_values().contains(v),
        FieldRule::GpsAltitudeRef => gps_altitude_ref_values().contains(v),
        FieldRule::Version => bytes_len == 4 && all_digits(v),
        FieldRule::ColorSpace => color_space_values().contains(v),
        FieldRule::Flash => parse_unsigned(v, 65535) is Some,
        FieldRule::WhiteBalance => white_balance_values().contains(v),
        FieldRule::SceneCaptureType => scene_capture_type_values().contains(v),
        FieldRule::MeteringMode => parse_unsigned(v, 65535) is Some,
        FieldRule::LightSource => parse_unsigned(v, 65535) is Some,
        FieldRule::ExposureProgram => parse_unsigned(v, 255) is Some,
        FieldRule::ExposureMode => exposure_mode_values().contains(v),
        FieldRule::ImageAdjustment => image_adjustment_values().contains(v),
        FieldRule::GainControl => gain_control_values().contains(v),
        FieldRule::SubjectDistanceRange => subject_distance_range_values().contains(v),
        FieldRule::SensingMethod => parse_unsigned(v, 255) is Some,
        FieldRule::FileSource => file_source_values().contains(v),
        FieldRule::SceneType => scene_type_values().contains(v),
        FieldRule::CustomRendered => custom_rendered_values().contains(v),
        FieldRule::FocalLength35mm => parse_unsigned(v, 65535) matches Some(n) && n >= 1,
        FieldRule::PixelDimension => parse_unsigned(v, 4294967295) matches Some(n) && n >= 1,
        FieldRule::Ascii => bytes_len <= 255,
        FieldRule::Undefined => bytes_len <= 65535,
        FieldRule::Generic => bytes_len <= 1000,
        _ => true,
    }
}

/// The `YYYY:MM:DD HH:MM:SS` shape: 19 bytes with the separators in place.
pub open spec fn datetime_shape(v: Seq<char>, bytes_len: nat) -> bool {
    bytes_len == 19 && v.len() > 16 && v[4] == ':' && v[7] == ':' && v[10] == ' ' && v[13] == ':'
        && v[16] == ':'
}

/// A date and time: `YYYY:MM:DD HH:MM:SS` by its separators.
pub fn validate_datetime_format(value: &str) -> (r: Result<(), ExifError>)
    ensures
        r is Ok <==> datetime_shape(value@, value.len() as nat),
        r is Err ==> fails_with(r, "Invalid datetime format: "@ + value@),
{
    let v = chars_of(value);
    if value.len() != 19 || v.len() <= 16 || v[4] != ':' || v[7] != ':' || v[10] != ' '
        || v[13] != ':' || v[16] != ':' {
        return Err(invalid_value("Invalid datetime format: ", value));
    }
    Ok(())
}

/// Sub-second digits: at most six bytes, all digits.
pub fn validate_subsec_time_format(value: &str) -> (r: Result<(), ExifError>)
    ensures
        r is Ok <==> (value.len() <= 6 && all_digits(value@)),
        r is Err ==> fails_with(r, "Invalid subsec time format: "@ + value@),
{
    if value.len() > 6 || !all_digit_chars(value) {
        return Err(invalid_value("Invalid subsec time format: ", value));
    }
    Ok(())
}

/// Whether every char of `s` is an ASCII digit.
pub fn all_digit_chars(s: &str) -> (r: bool)
    ensures
        r == all_digits(s@),
{
    let v = chars_of(s);
    let mut i: usize = 0;
    while i < v.len()
        invariant
            i <= v@.len(),
            forall|j: int| 0 <= j < i ==> is_ascii_digit(#[trigger] v@[j]),
        decreases v.len() - i,
    {
        if !('0' <= v[i] && v[i] <= '9') {
            return false;
        }
        i = i + 1;
    }
    true
}

/// A time offset: starts with `+` or `-`.
pub fn validate_offset_time_format(value: &str) -> (r: Result<(), ExifError>)
    ensures
        r is Ok <==> (value@.len() > 0 && (value@[0] == '+' || value@[0] == '-')),
        r is Err ==> fails_with(r, "Invalid offset time format: "@ + value@),
{
    let v = chars_of(value);
    if v.len() == 0 || (v[0] != '+' && v[0] != '-') {
        return Err(invalid_value("Invalid offset time format: ", value));
    }
    Ok(())
}

/// An ISO speed: a nonzero 32-bit unsigned integer.
pub fn validate_iso_format(value: &str) -> (r: Result<(), ExifError>)
    ensures
        r is Ok <==> (parse_unsigned(value@, 4294967295) matches Some(n) && n != 0),
        parse_unsigned(value@, 4294967295) is None ==> fails_with(r, "Invalid ISO value: "@ + value@),
        parse_unsigned(value@, 4294967295) == Some(0nat) ==> fails_with(r, "ISO cannot be zero"@),
{
    match parse_unsigned_text(value, 4294967295) {
        Some(n) => {
            if n == 0 {
                Err(ExifError::invalid("ISO cannot be zero"))
            } else {
                Ok(())
            }
        },
        None => Err(invalid_value("Invalid ISO value: ", value)),
    }
}

/// A version: four bytes, all digits.
pub fn validate_version_format(value: &str) -> (r: Result<(), ExifError>)
    ensures
        r is Ok <==> (value.len() == 4 && all_digits(value@)),
        r is Err ==> fails_with(r, "Invalid version format: "@ + value@),
{
    if value.len() == 4 && all_digit_chars(value) {
        Ok(())
    } else {
        Err(invalid_value("Invalid version format: ", value))
    }
}

/// The message of a value that fails the check of `r` (which reads no
/// decimal number), with `n` the value's length in bytes; nothing when the
/// value passes.
pub open spec fn rule_error(r: FieldRule, v: Seq<char>, n: nat) -> Option<Seq<char>> {
    if integer_rule_ok(r, v, n) {
        None
    } else {
        Some(
            match r {
                FieldRule::DateTime => "Invalid datetime format: "@ + v,
                FieldRule::SubSecTime => "Invalid subsec time format: "@ + v,
                FieldRule::OffsetTime => "Invalid offset time format: "@ + v,
                FieldRule::Iso => if parse_unsigned(v, 4294967295) is None {
                    "Invalid ISO value: "@ + v
                } else {
                    "ISO cannot be zero"@
                },
                FieldRule::Orientation => if parse_unsigned(v, 255) is None {
                    "Invalid orientation format: "@ + v
                } else {
                    "Invalid orientation value: "@ + v
                },
                FieldRule::ResolutionUnit => if parse_unsigned(v, 255) is None {
                    "Invalid resolution unit format: "@ + v
                } else {
                    "Invalid resolution unit: "@ + v
                },
                FieldRule::GpsRef => "Invalid GPS reference: "@ + v,
                FieldRule::GpsAltitudeRef => "Invalid GPS altitude reference: "@ + v,
                FieldRule::Version => "Invalid version format: "@ + v,
                FieldRule::ColorSpace => "Invalid color space: "@ + v,
                FieldRule::Flash => "Invalid flash value: "@ + v,
                FieldRule::WhiteBalance => "Invalid white balance: "@ + v,
                FieldRule::SceneCaptureType => "Invalid scene capture type: "@ + v,
                FieldRule::MeteringMode => "Invalid metering mode: "@ + v,
                FieldRule::LightSource => "Invalid light source: "@ + v,
                FieldRule::ExposureProgram => "Invalid exposure program: "@ + v,
                FieldRule::ExposureMode => "Invalid exposure mode: "@ + v,
                FieldRule::ImageAdjustment => "Invalid image adjustment value: "@ + v,
                FieldRule::GainControl => "Invalid gain control: "@ + v,
                FieldRule::SubjectDistanceRange => "Invalid subject distance range: "@ + v,
                FieldRule::SensingMethod => "Invalid sensing method: "@ + v,
                FieldRule::FileSource => "Invalid file source: "@ + v,
                FieldRule::SceneType => "Invalid scene type: "@ + v,
                FieldRule::CustomRendered => "Invalid custom rendered: "@ + v,
                FieldRule::FocalLength35mm => if parse_unsigned(v, 65535) is None {
                    "Invalid 35mm focal length: "@ + v
                } else {
                    "35mm focal length cannot be zero: "@ + v
                },
                FieldRule::PixelDimension => if parse_unsigned(v, 4294967295) is None {
                    "Invalid pixel dimension: "@ + v
                } else {
                    "Pixel dimension cannot be zero: "@ + v
                },
                FieldRule::Ascii => "ASCII field too long: "@ + dec_text(n),
                FieldRule::Undefined => "Undefined field too long: "@ + dec_text(n),
                _ => "Field value too long: "@ + dec_text(n),
            },
        )
    }
}

/// What checking a field's value gives, on the value without surrounding
/// whitespace: the error message, or success with the decimal-number rule
/// that the value must also pass (none where no number is read; a GPS
/// coordinate written in degrees, minutes and seconds needs none).
pub open spec fn field_check(f: Seq<char>, value: Seq<char>) -> Result<Option<FieldRule>, Seq<char>> {
    let v = trim(value);
    let r = rule_of(f);
    if v.len() == 0 {
        Err("Empty value for field: "@ + f)
    } else if rule_needs_decimal(r) {
        if r == FieldRule::GpsCoordinate && contains_text(v, "deg"@) && contains_text(v, "'"@) && contains_text(
            v,
            "\""@,
        ) {
            Ok(None)
        } else {
            Ok(Some(r))
        }
    } else {
        match rule_error(r, v, encode_utf8(v).len()) {
            Some(msg) => Err(msg),
            None => Ok(None),
        }
    }
}

/// The display of a check's error message.
pub open spec fn check_matches(r: Result<Option<FieldRule>, ExifError>, c: Result<Option<FieldRule>, Seq<char>>) -> bool {
    match c {
        Ok(x) => r == Ok::<Option<FieldRule>, ExifError>(x),
        Err(msg) => r matches Err(ExifError::InvalidExif(m)) && m@ == msg,
    }
}

/// The check of a trimmed, non-empty value by a rule that reads no decimal
/// number.
fn check_integer_rule(rule: FieldRule, c: &str) -> (r: Result<(), ExifError>)
    requires
        !rule_needs_decimal(rule),
    ensures
        match rule_error(rule, c@, c.len() as nat) {
            None => r is Ok,
            Some(msg) => fails_with(r, msg),
        },
{
    match rule {
        FieldRule::DateTime => validate_datetime_format(c),
        FieldRule::SubSecTime => validate_subsec_time_format(c),
        FieldRule::OffsetTime => validate_offset_time_format(c),
        FieldRule::Iso => validate_iso_format(c),
        FieldRule::Orientation => validate_orientation_format(c),
        FieldRule::ResolutionUnit => validate_resolution_unit_format(c),
        FieldRule::GpsRef => validate_gps_ref_format(c),
        FieldRule::GpsAltitudeRef => validate_gps_altitude_ref_format(c),
        FieldRule::Version => validate_version_format(c),
        FieldRule::ColorSpace => validate_color_space_format(c),
        FieldRule::Flash => validate_flash_format(c),
        FieldRule::WhiteBalance => validate_white_balance_format(c),
        FieldRule::SceneCaptureType => validate_scene_capture_type_format(c),
        FieldRule::MeteringMode => validate_metering_mode_format(c),
        FieldRule::LightSource => validate_light_source_format(c),
        FieldRule::ExposureProgram => validate_exposure_program_format(c),
        FieldRule::ExposureMode => validate_exposure_mode_format(c),
        FieldRule::ImageAdjustment => validate_image_adjustment_format(c),
        FieldRule::GainControl => validate_gain_control_format(c),
        FieldRule::SubjectDistanceRange => validate_subject_distance_range_format(c),
        FieldRule::SensingMethod => validate_sensing_method_format(c),
        FieldRule::FileSource => validate_file_source_format(c),
        FieldRule::SceneType => validate_scene_type_format(c),
        FieldRule::CustomRendered => validate_custom_rendered_format(c),
        FieldRule::FocalLength35mm => validate_focal_length_35mm_format(c),
        FieldRule::PixelDimension => validate_pixel_dimension_format(c),
        FieldRule::Ascii => validate_ascii_field_format(c),
        FieldRule::Undefined => validate_undefined_field_format(c),
        _ => validate_generic_field_format(c),
    }
}

/// The values accepted for a GPS latitude or longitude reference.
pub open spec fn gps_ref_values() -> Seq<Seq<char>> {
    seq!["North"@, "South"@, "East"@, "West"@, "N"@, "S"@, "E"@, "W"@]
}

/// A GPS latitude or longitude reference: one of the listed values.
pub fn validate_gps_ref_format(value: &str) -> (r: Result<(), ExifError>)
    ensures
        r is Ok <==> gps_ref_values().contains(value@),
        r is Err ==> fails_with(r, "Invalid GPS reference: "@ + value@),
{
    let options: [&str; 8] = ["North", "South", "East", "West", "N", "S", "E", "W"];
    assert(str_views(options@) =~= gps_ref_values());
    if one_of(value, &options) {
        Ok(())
    } else {
        Err(invalid_value("Invalid GPS reference: ", value))
    }
}

/// The values accepted for a GPS altitude reference.
pub open spec fn gps_altitude_ref_values() -> Seq<Seq<char>> {
    seq!["0"@, "1"@]
}

/// A GPS altitude reference: one of the listed values.
pub fn validate_gps_altitude_ref_format(value: &str) -> (r: Result<(), ExifError>)
    ensures
        r is Ok <==> gps_altitude_ref_values().contains(value@),
        r is Err ==> fails_with(r, "Invalid GPS altitude reference: "@ + value@),
{
    let options: [&str; 2] = ["0", "1"];
    assert(str_views(options@) =~= gps_altitude_ref_values());
    if one_of(value, &options) {
        Ok(())
    } else {
        Err(invalid_value("Invalid GPS altitude reference: ", value))
    }
}

/// The values accepted for a color space.
pub open spec fn color_space_values() -> Seq<Seq<char>> {
    seq!["1"@, "65535"@, "sRGB"@, "Uncalibrated"@]
}

/// A color space: one of the listed values.
pub fn validate_color_space_format(value: &str) -> (r: Result<(), ExifError>)
    ensures
        r is Ok <==> color_space_values().contains(value@),
        r is Err ==> fails_with(r, "Invalid color space: "@ + value@),
{
    let options: [&str; 4] = ["1", "65535", "sRGB", "Uncalibrated"];
    assert(str_views(options@) =~= color_space_values());
    if one_of(value, &options) {
        Ok(())
    } else {
        Err(invalid_value("Invalid color space: ", value))
    }
}

/// The values accepted for a white balance.
pub open spec fn white_balance_values() -> Seq<Seq<char>> {
    seq!["0"@, "1"@, "Auto"@, "Manual"@]
}

/// A white balance: one of the listed values.
pub fn validate_white_balance_format(value: &str) -> (r: Result<(), ExifError>)
    ensures
        r is Ok <==> white_balance_values().contains(value@),
        r is Err ==> fails_with(r, "Invalid white balance: "@ + value@),
{
    let options: [&str; 4] = ["0", "1", "Auto", "Manual"];
    assert(str_views(options@) =~= white_balance_values());
    if one_of(value, &options) {
        Ok(())
    } else {
        Err(invalid_value("Invalid white balance: ", value))
    }
}

/// The values accepted for a scene capture type.
pub open spec fn scene_capture_type_values() -> Seq<Seq<char>> {
    seq!["0"@, "1"@, "2"@, "3"@, "Standard"@, "Landscape"@, "Portrait"@, "Night"@]
}

/// A scene capture type: one of the listed values.
pub fn validate_scene_capture_type_format(value: &str) -> (r: Result<(), ExifError>)
    ensures
        r is Ok <==> scene_capture_type_values().contains(value@),
        r is Err ==> fails_with(r, "Invalid scene capture type: "@ + value@),
{
    let options: [&str; 8] = ["0", "1", "2", "3", "Standard", "Landscape", "Portrait", "Night"];
    assert(str_views(options@) =~= scene_capture_type_values());
    if one_of(value, &options) {
        Ok(())
    } else {
        Err(invalid_value("Invalid scene capture type: ", value))
    }
}

/// The values accepted for an exposure mode.
pub open spec fn exposure_mode_values() -> Seq<Seq<char>> {
    seq!["0"@, "1"@, "2"@, "Auto"@, "Manual"@, "Auto bracket"@]
}

/// An exposure mode: one of the listed values.
pub fn validate_exposure_mode_format(value: &str) -> (r: Result<(), ExifError>)
    ensures
        r is Ok <==> exposure_mode_values().contains(value@),
        r is Err ==> fails_with(r, "Invalid exposure mode: "@ + value@),
{
    let options: [&str; 6] = ["0", "1", "2", "Auto", "Manual", "Auto bracket"];
    assert(str_views(options@) =~= exposure_mode_values());
    if one_of(value, &options) {
        Ok(())
    } else {
        Err(invalid_value("Invalid exposure mode: ", value))
    }
}

/// The values accepted for a contrast, saturation or sharpness setting.
pub open spec fn image_adjustment_values() -> Seq<Seq<char>> {
    seq!["0"@, "1"@, "2"@, "Normal"@, "Low"@, "High"@]
}

/// A contrast, saturation or sharpness setting: one of the listed values.
pub fn validate_image_adjustment_format(value: &str) -> (r: Result<(), ExifError>)
    ensures
        r is Ok <==> image_adjustment_values().contains(value@),
        r is Err ==> fails_with(r, "Invalid image adjustment value: "@ + value@),
{
    let options: [&str; 6] = ["0", "1", "2", "Normal", "Low", "High"];
    assert(str_views(options@) =~= image_adjustment_values());
    if one_of(value, &options) {
        Ok(())
    } else {
        Err(invalid_value("Invalid image adjustment value: ", value))
    }
}

/// The values accepted for a gain control.
pub open spec fn gain_control_values() -> Seq<Seq<char>> {
    seq!["0"@, "1"@, "2"@, "3"@, "4"@, "None"@, "Low gain up"@, "High gain up"@, "Low gain down"@, "High gain down"@]
}

/// A gain control: one of the listed values.
pub fn validate_gain_control_format(value: &str) -> (r: Result<(), ExifError>)
    ensures
        r is Ok <==> gain_control_values().contains(value@),
        r is Err ==> fails_with(r, "Invalid gain control: "@ + value@),
{
    let options: [&str; 10] = ["0", "1", "2", "3", "4", "None", "Low gain up", "High gain up", "Low gain down", "High gain down"];
    assert(str_views(options@) =~= gain_control_values());
    if one_of(value, &options) {
        Ok(())
    } else {
        Err(invalid_value("Invalid gain control: ", value))
    }
}

/// The values accepted for a subject distance range.
pub open spec fn subject_distance_range_values() -> Seq<Seq<char>> {
    seq!["0"@, "1"@, "2"@, "3"@, "Unknown"@, "Macro"@, "Close"@, "Distant"@]
}

/// A subject distance range: one of the listed values.
pub fn validate_subject_distance_range_format(value: &str) -> (r: Result<(), ExifError>)
    ensures
        r is Ok <==> subject_distance_range_values().contains(value@),
        r is Err ==> fails_with(r, "Invalid subject distance range: "@ + value@),
{
    let options: [&str; 8] = ["0", "1", "2", "3", "Unknown", "Macro", "Close", "Distant"];
    assert(str_views(options@) =~= subject_distance_range_values());
    if one_of(value, &options) {
        Ok(())
    } else {
        Err(invalid_value("Invalid subject distance range: ", value))
    }
}

/// The values accepted for a file source.
pub open spec fn file_source_values() -> Seq<Seq<char>> {
    seq!["3"@, "Digital Camera"@]
}

/// A file source: one of the listed values.
pub fn validate_file_source_format(value: &str) -> (r: Result<(), ExifError>)
    ensures
        r is Ok <==> file_source_values().contains(value@),
        r is Err ==> fails_with(r, "Invalid file source: "@ + value@),
{
    let options: [&str; 2] = ["3", "Digital Camera"];
    assert(str_views(options@) =~= file_source_values());
    if one_of(value, &options) {
        Ok(())
    } else {
        Err(invalid_value("Invalid file source: ", value))
    }
}

/// The values accepted for a scene type.
pub open spec fn scene_type_values() -> Seq<Seq<char>> {
    seq!["1"@, "Directly photographed"@]
}

/// A scene type: one of the listed values.
pub fn validate_scene_type_format(value: &str) -> (r: Result<(), ExifError>)
    ensures
        r is Ok <==> scene_type_values().contains(value@),
        r is Err ==> fails_with(r, "Invalid scene type: "@ + value@),
{
    let options: [&str; 2] = ["1", "Directly photographed"];
    assert(str_views(options@) =~= scene_type_values());
    if one_of(value, &options) {
        Ok(())
    } else {
        Err(invalid_value("Invalid scene type: ", value))
    }
}

/// The values accepted for a custom rendered flag.
pub open spec fn custom_rendered_values() -> Seq<Seq<char>> {
    seq!["0"@, "1"@, "Normal"@, "Custom"@]
}

/// A custom rendered flag: one of the listed values.
pub fn validate_custom_rendered_format(value: &str) -> (r: Result<(), ExifError>)
    ensures
        r is Ok <==> custom_rendered_values().contains(value@),
        r is Err ==> fails_with(r, "Invalid custom rendered: "@ + value@),
{
    let options: [&str; 4] = ["0", "1", "Normal", "Custom"];
    assert(str_views(options@) =~= custom_rendered_values());
    if one_of(value, &options) {
        Ok(())
    } else {
        Err(invalid_value("Invalid custom rendered: ", value))
    }
}

/// A flash value: a 16-bit unsigned integer.
pub fn validate_flash_format(value: &str) -> (r: Result<(), ExifError>)
    ensures
        r is Ok <==> parse_unsigned(value@, 65535) is Some,
        r is Err ==> fails_with(r, "Invalid flash value: "@ + value@),
{
    match parse_unsigned_text(value, 65535) {
        Some(_) => Ok(()),
        None => Err(invalid_value("Invalid flash value: ", value)),
    }
}

/// A metering mode: a 16-bit unsigned integer.
pub fn validate_metering_mode_format(value: &str) -> (r: Result<(), ExifError>)
    ensures
        r is Ok <==> parse_unsigned(value@, 65535) is Some,
        r is Err ==> fails_with(r, "Invalid metering mode: "@ + value@),
{
    match parse_unsigned_text(value, 65535) {
        Some(_) => Ok(()),
        None => Err(invalid_value("Invalid metering mode: ", value)),
    }
}

/// A light source: a 16-bit unsigned integer.
pub fn validate_light_source_format(value: &str) -> (r: Result<(), ExifError>)
    ensures
        r is Ok <==> parse_unsigned(value@, 65535) is Some,
        r is Err ==> fails_with(r, "Invalid light source: "@ + value@),
{
    match parse_unsigned_text(value, 65535) {
        Some(_) => Ok(()),
        None => Err(invalid_value("Invalid light source: ", value)),
    }
}

/// An exposure program: an 8-bit unsigned integer.
pub fn validate_exposure_program_format(value: &str) -> (r: Result<(), ExifError>)
    ensures
        r is Ok <==> parse_unsigned(value@, 255) is Some,
        r is Err ==> fails_with(r, "Invalid exposure program: "@ + value@),
{
    match parse_unsigned_text(value, 255) {
        Some(_) => Ok(()),
        None => Err(invalid_value("Invalid exposure program: ", value)),
    }
}

/// A sensing method: an 8-bit unsigned integer.
pub fn validate_sensing_method_format(value: &str) -> (r: Result<(), ExifError>)
    ensures
        r is Ok <==> parse_unsigned(value@, 255) is Some,
        r is Err ==> fails_with(r, "Invalid sensing method: "@ + value@),
{
    match parse_unsigned_text(value, 255) {
        Some(_) => Ok(()),
        None => Err(invalid_value("Invalid sensing method: ", value)),
    }
}

/// An orientation: 1 to 8.
pub fn validate_orientation_format(value: &str) -> (r: Result<(), ExifError>)
    ensures
        r is Ok <==> (parse_unsigned(value@, 255) matches Some(n) && 1 <= n && n <= 8),
        parse_unsigned(value@, 255) is None ==> fails_with(r, "Invalid orientation format: "@ + value@),
        (parse_unsigned(value@, 255) matches Some(n) && !(1 <= n && n <= 8)) ==> fails_with(r, "Invalid orientation value: "@ + value@),
{
    match parse_unsigned_text(value, 255) {
        Some(n) => {
            if 1 <= n && n <= 8 {
                Ok(())
            } else {
                Err(invalid_value("Invalid orientation value: ", value))
            }
        },
        None => Err(invalid_value("Invalid orientation format: ", value)),
    }
}

/// A resolution unit: 1 to 3.
pub fn validate_resolution_unit_format(value: &str) -> (r: Result<(), ExifError>)
    ensures
        r is Ok <==> (parse_unsigned(value@, 255) matches Some(n) && 1 <= n && n <= 3),
        parse_unsigned(value@, 255) is None ==> fails_with(r, "Invalid resolution unit format: "@ + value@),
        (parse_unsigned(value@, 255) matches Some(n) && !(1 <= n && n <= 3)) ==> fails_with(r, "Invalid resolution unit: "@ + value@),
{
    match parse_unsigned_text(value, 255) {
        Some(n) => {
            if 1 <= n && n <= 3 {
                Ok(())
            } else {
                Err(invalid_value("Invalid resolution unit: ", value))
            }
        },
        None => Err(invalid_value("Invalid resolution unit format: ", value)),
    }
}

/// A 35mm focal length: a nonzero 16-bit unsigned integer.
pub fn validate_focal_length_35mm_format(value: &str) -> (r: Result<(), ExifError>)
    ensures
        r is Ok <==> (parse_unsigned(value@, 65535) matches Some(n) && n >= 1),
        parse_unsigned(value@, 65535) is None ==> fails_with(r, "Invalid 35mm focal length: "@ + value@),
        (parse_unsigned(value@, 65535) matches Some(n) && !(n >= 1)) ==> fails_with(r, "35mm focal length cannot be zero: "@ + value@),
{
    match parse_unsigned_text(value, 65535) {
        Some(n) => {
            if n >= 1 {
                Ok(())
            } else {
                Err(invalid_value("35mm focal length cannot be zero: ", value))
            }
        },
        None => Err(invalid_value("Invalid 35mm focal length: ", value)),
    }
}

/// A pixel dimension: a nonzero 32-bit unsigned integer.
pub fn validate_pixel_dimension_format(value: &str) -> (r: Result<(), ExifError>)
    ensures
        r is Ok <==> (parse_unsigned(value@, 4294967295) matches Some(n) && n >= 1),
        parse_unsigned(value@, 4294967295) is None ==> fails_with(r, "Invalid pixel dimension: "@ + value@),
        (parse_unsigned(value@, 4294967295) matches Some(n) && !(n >= 1)) ==> fails_with(r, "Pixel dimension cannot be zero: "@ + value@),
{
    match parse_unsigned_text(value, 4294967295) {
        Some(n) => {
            if n >= 1 {
                Ok(())
            } else {
                Err(invalid_value("Pixel dimension cannot be zero: ", value))
            }
        },
        None => Err(invalid_value("Invalid pixel dimension: ", value)),
    }
}

/// An ASCII field: at most 255 bytes.
pub fn validate_ascii_field_format(value: &str) -> (r: Result<(), ExifError>)
    ensures
        r is Ok <==> value.len() <= 255,
        r is Err ==> fails_with(r, "ASCII field too long: "@ + dec_text(value.len() as nat)),
{
    let n = value.len();
    if n > 255 {
        let mut m = text("ASCII field too long: ");
        push_dec(&mut m, n as u64);
        Err(ExifError::InvalidExif(m))
    } else {
        Ok(())
    }
}

/// An undefined-type field: at most 65535 bytes.
pub fn validate_undefined_field_format(value: &str) -> (r: Result<(), ExifError>)
    ensures
        r is Ok <==> value.len() <= 65535,
        r is Err ==> fails_with(r, "Undefined field too long: "@ + dec_text(value.len() as nat)),
{
    let n = value.len();
    if n > 65535 {
        let mut m = text("Undefined field too long: ");
        push_dec(&mut m, n as u64);
        Err(ExifError::InvalidExif(m))
    } else {
        Ok(())
    }
}

/// Any other field: at most 1000 bytes.
pub fn validate_generic_field_format(value: &str) -> (r: Result<(), ExifError>)
    ensures
        r is Ok <==> value.len() <= 1000,
        r is Err ==> fails_with(r, "Field value too long: "@ + dec_text(value.len() as nat)),
{
    let n = value.len();
    if n > 1000 {
        let mut m = text("Field value too long: ");
        push_dec(&mut m, n as u64);
        Err(ExifError::InvalidExif(m))
    } else {
        Ok(())
    }
}
/// The place of a name in the list of fields kept when copying, or 49
/// for a name not in it.
pub open spec fn high_priority_place(s: Seq<char>) -> int {
    if s == "DateTime"@ {
        0
    } else if s == "DateTimeOriginal"@ {
        1
    } else if s == "DateTimeDigitized"@ {
        2
    } else if s == "SubSecTime"@ {
        3
    } else if s == "SubSecTimeOriginal"@ {
        4
    } else if s == "SubSecTimeDigitized"@ {
        5
    } else if s == "OffsetTime"@ {
        6
    } else if s == "OffsetTimeOriginal"@ {
        7
    } else if s == "OffsetTimeDigitized"@ {
        8
    } else if s == "Make"@ {
        9
    } else if s == "Model"@ {
        10
    } else if s == "Software"@ {
        11
    } else if s == "BodySerialNumber"@ {
        12
    } else if s == "LensMake"@ {
        13
    } else if s == "LensModel"@ {
        14
    } else if s == "LensSerialNumber"@ {
        15
    } else if s == "ExposureTime"@ {
        16
    } else if s == "FNumber"@ {
        17
    } else if s == "ISOSpeedRatings"@ {
        18
    } else if s == "FocalLength"@ {
        19
    } else if s == "ExposureProgram"@ {
        20
    } else if s == "ExposureMode"@ {
        21
    } else if s == "ExposureBiasValue"@ {
        22
    } else if s == "MeteringMode"@ {
        23
    } else if s == "Flash"@ {
        24
    } else if s == "WhiteBalance"@ {
        25
    } else if s == "Orientation"@ {
        26
    } else if s == "XResolution"@ {
        27
    } else if s == "YResolution"@ {
        28
    } else if s == "ResolutionUnit"@ {
        29
    } else if s == "PixelXDimension"@ {
        30
    } else if s == "PixelYDimension"@ {
        31
    } else if s == "ColorSpace"@ {
        32
    } else if s == "ShutterSpeedValue"@ {
        33
    } else if s == "ApertureValue"@ {
        34
    } else if s == "MaxApertureValue"@ {
        35
    } else if s == "LightSource"@ {
        36
    } else if s == "SubjectDistance"@ {
        37
    } else if s == "SubjectDistanceRange"@ {
        38
    } else if s == "DigitalZoomRatio"@ {
        39
    } else if s == "FocalLengthIn35mmFilm"@ {
        40
    } else if s == "SceneCaptureType"@ {
        41
    } else if s == "GainControl"@ {
        42
    } else if s == "Contrast"@ {
        43
    } else if s == "Saturation"@ {
        44
    } else if s == "Sharpness"@ {
        45
    } else if s == "Artist"@ {
        46
    } else if s == "Copyright"@ {
        47
    } else if s == "ImageDescription"@ {
        48
    } else {
        49
    }
}
/// The fields kept when copying between images: 49 names, none twice,
/// starting with `DateTime` and holding `DateTimeOriginal`.
pub proof fn law_high_priority_list()
    ensures
        high_priority_fields().len() == 49,
        high_priority_fields()[0] == "DateTime"@,
        high_priority_fields().contains("DateTimeOriginal"@),
        high_priority_fields().no_duplicates(),
{
    reveal_strlit("DateTime");
    reveal_strlit("DateTimeOriginal");
    reveal_strlit("DateTimeDigitized");
    reveal_strlit("SubSecTime");
    reveal_strlit("SubSecTimeOriginal");
    reveal_strlit("SubSecTimeDigitized");
    reveal_strlit("OffsetTime");
    reveal_strlit("OffsetTimeOriginal");
    reveal_strlit("OffsetTimeDigitized");
    reveal_strlit("Make");
    reveal_strlit("Model");
    reveal_strlit("Software");
    reveal_strlit("BodySerialNumber");
    reveal_strlit("LensMake");
    reveal_strlit("LensModel");
    reveal_strlit("LensSerialNumber");
    reveal_strlit("ExposureTime");
    reveal_strlit("FNumber");
    reveal_strlit("ISOSpeedRatings");
    reveal_strlit("FocalLength");
    reveal_strlit("ExposureProgram");
    reveal_strlit("ExposureMode");
    reveal_strlit("ExposureBiasValue");
    reveal_strlit("MeteringMode");
    reveal_strlit("Flash");
    reveal_strlit("WhiteBalance");
    reveal_strlit("Orientation");
    reveal_strlit("XResolution");
    reveal_strlit("YResolution");
    reveal_strlit("ResolutionUnit");
    reveal_strlit("PixelXDimension");
    reveal_strlit("PixelYDimension");
    reveal_strlit("ColorSpace");
    reveal_strlit("ShutterSpeedValue");
    reveal_strlit("ApertureValue");
    reveal_strlit("MaxApertureValue");
    reveal_strlit("LightSource");
    reveal_strlit("SubjectDistance");
    reveal_strlit("SubjectDistanceRange");
    reveal_strlit("DigitalZoomRatio");
    reveal_strlit("FocalLengthIn35mmFilm");
    reveal_strlit("SceneCaptureType");
    reveal_strlit("GainControl");
    reveal_strlit("Contrast");
    reveal_strlit("Saturation");
    reveal_strlit("Sharpness");
    reveal_strlit("Artist");
    reveal_strlit("Copyright");
    reveal_strlit("ImageDescription");
    let h = high_priority_fields();
    assert(h[1] == "DateTimeOriginal"@);
    assert("DateTime"@.len() == 8);
    assert("DateTimeOriginal"@.len() == 16);
    assert("DateTimeDigitized"@.len() == 17);
    assert("SubSecTime"@.len() == 10);
    assert("SubSecTimeOriginal"@.len() == 18);
    assert("SubSecTimeDigitized"@.len() == 19);
    assert("OffsetTime"@.len() == 10);
    assert("OffsetTimeOriginal"@.len() == 18);
    assert("OffsetTimeDigitized"@.len() == 19);
    assert("Make"@.len() == 4);
    assert("Model"@.len() == 5);
    assert("Software"@.len() == 8);
    assert("BodySerialNumber"@.len() == 16);
    assert("LensMake"@.len() == 8);
    assert("LensModel"@.len() == 9);
    assert("LensSerialNumber"@.len() == 16);
    assert("ExposureTime"@.len() == 12);
    assert("FNumber"@.len() == 7);
    assert("ISOSpeedRatings"@.len() == 15);
    assert("FocalLength"@.len() == 11);
    assert("ExposureProgram"@.len() == 15);
    assert("ExposureMode"@.len() == 12);
    assert("ExposureBiasValue"@.len() == 17);
    assert("MeteringMode"@.len() == 12);
    assert("Flash"@.len() == 5);
    assert("WhiteBalance"@.len() == 12);
    assert("Orientation"@.len() == 11);
    assert("XResolution"@.len() == 11);
    assert("YResolution"@.len() == 11);
    assert("ResolutionUnit"@.len() == 14);
    assert("PixelXDimension"@.len() == 15);
    assert("PixelYDimension"@.len() == 15);
    assert("ColorSpace"@.len() == 10);
    assert("ShutterSpeedValue"@.len() == 17);
    assert("ApertureValue"@.len() == 13);
    assert("MaxApertureValue"@.len() == 16);
    assert("LightSource"@.len() == 11);
    assert("SubjectDistance"@.len() == 15);
    assert("SubjectDistanceRange"@.len() == 20);
    assert("DigitalZoomRatio"@.len() == 16);
    assert("FocalLengthIn35mmFilm"@.len() == 21);
    assert("SceneCaptureType"@.len() == 16);
    assert("GainControl"@.len() == 11);
    assert("Contrast"@.len() == 8);
    assert("Saturation"@.len() == 10);
    assert("Sharpness"@.len() == 9);
    assert("Artist"@.len() == 6);
    assert("Copyright"@.len() == 9);
    assert("ImageDescription"@.len() == 16);
    assert("DateTime"@[0] != "Software"@[0]);
    assert("DateTime"@[0] != "LensMake"@[0]);
    assert("DateTime"@[0] != "Contrast"@[0]);
    assert("DateTimeOriginal"@[0] != "BodySerialNumber"@[0]);
    assert("DateTimeOriginal"@[0] != "LensSerialNumber"@[0]);
    assert("DateTimeOriginal"@[0] != "MaxApertureValue"@[0]);
    assert("DateTimeOriginal"@[1] != "DigitalZoomRatio"@[1]);
    assert("DateTimeOriginal"@[0] != "SceneCaptureType"@[0]);
    assert("DateTimeOriginal"@[0] != "ImageDescription"@[0]);
    assert("DateTimeDigitized"@[0] != "ExposureBiasValue"@[0]);
    assert("DateTimeDigitized"@[0] != "ShutterSpeedValue"@[0]);
    assert("SubSecTime"@[0] != "OffsetTime"@[0]);
    assert("SubSecTime"@[0] != "ColorSpace"@[0]);
    assert("SubSecTime"@[1] != "Saturation"@[1]);
    assert("SubSecTimeOriginal"@[0] != "OffsetTimeOriginal"@[0]);
    assert("SubSecTimeDigitized"@[0] != "OffsetTimeDigitized"@[0]);
    assert("OffsetTime"@[0] != "ColorSpace"@[0]);
    assert("OffsetTime"@[0] != "Saturation"@[0]);
    assert("Model"@[0] != "Flash"@[0]);
    assert("Software"@[0] != "LensMake"@[0]);
    assert("Software"@[0] != "Contrast"@[0]);
    assert("BodySerialNumber"@[0] != "LensSerialNumber"@[0]);
    assert("BodySerialNumber"@[0] != "MaxApertureValue"@[0]);
    assert("BodySerialNumber"@[0] != "DigitalZoomRatio"@[0]);
    assert("BodySerialNumber"@[0] != "SceneCaptureType"@[0]);
    assert("BodySerialNumber"@[0] != "ImageDescription"@[0]);
    assert("LensMake"@[0] != "Contrast"@[0]);
    assert("LensModel"@[0] != "Sharpness"@[0]);
    assert("LensModel"@[0] != "Copyright"@[0]);
    assert("LensSerialNumber"@[0] != "MaxApertureValue"@[0]);
    assert("LensSerialNumber"@[0] != "DigitalZoomRatio"@[0]);
    assert("LensSerialNumber"@[0] != "SceneCaptureType"@[0]);
    assert("LensSerialNumber"@[0] != "ImageDescription"@[0]);
    assert("ExposureTime"@[8] != "ExposureMode"@[8]);
    assert("ExposureTime"@[0] != "MeteringMode"@[0]);
    assert("ExposureTime"@[0] != "WhiteBalance"@[0]);
    assert("ISOSpeedRatings"@[0] != "ExposureProgram"@[0]);
    assert("ISOSpeedRatings"@[0] != "PixelXDimension"@[0]);
    assert("ISOSpeedRatings"@[0] != "PixelYDimension"@[0]);
    assert("ISOSpeedRatings"@[0] != "SubjectDistance"@[0]);
    assert("FocalLength"@[0] != "Orientation"@[0]);
    assert("FocalLength"@[0] != "XResolution"@[0]);
    assert("FocalLength"@[0] != "YResolution"@[0]);
    assert("FocalLength"@[0] != "LightSource"@[0]);
    assert("FocalLength"@[0] != "GainControl"@[0]);
    assert("ExposureProgram"@[0] != "PixelXDimension"@[0]);
    assert("ExposureProgram"@[0] != "PixelYDimension"@[0]);
    assert("ExposureProgram"@[0] != "SubjectDistance"@[0]);
    assert("ExposureMode"@[0] != "MeteringMode"@[0]);
    assert("ExposureMode"@[0] != "WhiteBalance"@[0]);
    assert("ExposureBiasValue"@[0] != "ShutterSpeedValue"@[0]);
    assert("MeteringMode"@[0] != "WhiteBalance"@[0]);
    assert("Orientation"@[0] != "XResolution"@[0]);
    assert("Orientation"@[0] != "YResolution"@[0]);
    assert("Orientation"@[0] != "LightSource"@[0]);
    assert("Orientation"@[0] != "GainControl"@[0]);
    assert("XResolution"@[0] != "YResolution"@[0]);
    assert("XResolution"@[0] != "LightSource"@[0]);
    assert("XResolution"@[0] != "GainControl"@[0]);
    assert("YResolution"@[0] != "LightSource"@[0]);
    assert("YResolution"@[0] != "GainControl"@[0]);
    assert("PixelXDimension"@[5] != "PixelYDimension"@[5]);
    assert("PixelXDimension"@[0] != "SubjectDistance"@[0]);
    assert("PixelYDimension"@[0] != "SubjectDistance"@[0]);
    assert("ColorSpace"@[0] != "Saturation"@[0]);
    assert("MaxApertureValue"@[0] != "DigitalZoomRatio"@[0]);
    assert("MaxApertureValue"@[0] != "SceneCaptureType"@[0]);
    assert("MaxApertureValue"@[0] != "ImageDescription"@[0]);
    assert("LightSource"@[0] != "GainControl"@[0]);
    assert("DigitalZoomRatio"@[0] != "SceneCaptureType"@[0]);
    assert("DigitalZoomRatio"@[0] != "ImageDescription"@[0]);
    assert("SceneCaptureType"@[0] != "ImageDescription"@[0]);
    assert("Sharpness"@[0] != "Copyright"@[0]);
    assert forall|i: int| 0 <= i < 49 implies #[trigger] high_priority_place(h[i]) == i by {
        if i == 0 {
            assert(high_priority_place(h[0]) == 0);
        } else if i == 1 {
            assert(high_priority_place(h[1]) == 1);
        } else if i == 2 {
            assert(high_priority_place(h[2]) == 2);
        } else if i == 3 {
            assert(high_priority_place(h[3]) == 3);
        } else if i == 4 {
            assert(high_priority_place(h[4]) == 4);
        } else if i == 5 {
            assert(high_priority_place(h[5]) == 5);
        } else if i == 6 {
            assert(high_priority_place(h[6]) == 6);
        } else if i == 7 {
            assert(high_priority_place(h[7]) == 7);
        } else if i == 8 {
            assert(high_priority_place(h[8]) == 8);
        } else if i == 9 {
            assert(high_priority_place(h[9]) == 9);
        } else if i == 10 {
            assert(high_priority_place(h[10]) == 10);
        } else if i == 11 {
            assert(high_priority_place(h[11]) == 11);
        } else if i == 12 {
            assert(high_priority_place(h[12]) == 12);
        } else if i == 13 {
            assert(high_priority_place(h[13]) == 13);
        } else if i == 14 {
            assert(high_priority_place(h[14]) == 14);
        } else if i == 15 {
            assert(high_priority_place(h[15]) == 15);
        } else if i == 16 {
            assert(high_priority_place(h[16]) == 16);
        } else if i == 17 {
            assert(high_priority_place(h[17]) == 17);
        } else if i == 18 {
            assert(high_priority_place(h[18]) == 18);
        } else if i == 19 {
            assert(high_priority_place(h[19]) == 19);
        } else if i == 20 {
            assert(high_priority_place(h[20]) == 20);
        } else if i == 21 {
            assert(high_priority_place(h[21]) == 21);
        } else if i == 22 {
            assert(high_priority_place(h[22]) == 22);
        } else if i == 23 {
            assert(high_priority_place(h[23]) == 23);
        } else if i == 24 {
            assert(high_priority_place(h[24]) == 24);
        } else if i == 25 {
            assert(high_priority_place(h[25]) == 25);
        } else if i == 26 {
            assert(high_priority_place(h[26]) == 26);
        } else if i == 27 {
            assert(high_priority_place(h[27]) == 27);
        } else if i == 28 {
            assert(high_priority_place(h[28]) == 28);
        } else if i == 29 {
            assert(high_priority_place(h[29]) == 29);
        } else if i == 30 {
            assert(high_priority_place(h[30]) == 30);
        } else if i == 31 {
            assert(high_priority_place(h[31]) == 31);
        } else if i == 32 {
            assert(high_priority_place(h[32]) == 32);
        } else if i == 33 {
            assert(high_priority_place(h[33]) == 33);
        } else if i == 34 {
            assert(high_priority_place(h[34]) == 34);
        } else if i == 35 {
            assert(high_priority_place(h[35]) == 35);
        } else if i == 36 {
            assert(high_priority_place(h[36]) == 36);
        } else if i == 37 {
            assert(high_priority_place(h[37]) == 37);
        } else if i == 38 {
            assert(high_priority_place(h[38]) == 38);
        } else if i == 39 {
            assert(high_priority_place(h[39]) == 39);
        } else if i == 40 {
            assert(high_priority_place(h[40]) == 40);
        } else if i == 41 {
            assert(high_priority_place(h[41]) == 41);
        } else if i == 42 {
            assert(high_priority_place(h[42]) == 42);
        } else if i == 43 {
            assert(high_priority_place(h[43]) == 43);
        } else if i == 44 {
            assert(high_priority_place(h[44]) == 44);
        } else if i == 45 {
            assert(high_priority_place(h[45]) == 45);
        } else if i == 46 {
            assert(high_priority_place(h[46]) == 46);
        } else if i == 47 {
            assert(high_priority_place(h[47]) == 47);
        } else if i == 48 {
            assert(high_priority_place(h[48]) == 48);
        }
    }
    assert forall|i: int, j: int| 0 <= i < h.len() && 0 <= j < h.len() && i != j implies h[i] != h[j] by {
        assert(high_priority_place(h[i]) == i);
        assert(high_priority_place(h[j]) == j);
    }
}

/// Every field kept when copying between images is one of the standard
/// fields.
pub proof fn law_high_priority_in_comprehensive()
    ensures
        forall|i: int| 0 <= i < high_priority_fields().len() ==> comprehensive_fields().contains(#[trigger] high_priority_fields()[i]),
{
    let h = high_priority_fields();
    let c = comprehensive_fields();
    assert(h.len() == 49);
    assert forall|i: int| 0 <= i < h.len() implies c.contains(#[trigger] h[i]) by {
        if i == 0 {
            assert(c[8] == h[0]);
        }
        if i == 1 {
            assert(c[24] == h[1]);
        }
        if i == 2 {
            assert(c[25] == h[2]);
        }
        if i == 3 {
            assert(c[39] == h[3]);
        }
        if i == 4 {
            assert(c[40] == h[4]);
        }
        if i == 5 {
            assert(c[41] == h[5]);
        }
        if i == 6 {
            assert(c[107] == h[6]);
        }
        if i == 7 {
            assert(c[108] == h[7]);
        }
        if i == 8 {
            assert(c[109] == h[8]);
        }
        if i == 9 {
            assert(c[1] == h[9]);
        }
        if i == 10 {
            assert(c[2] == h[10]);
        }
        if i == 11 {
            assert(c[7] == h[11]);
        }
        if i == 12 {
            assert(c[71] == h[12]);
        }
        if i == 13 {
            assert(c[73] == h[13]);
        }
        if i == 14 {
            assert(c[74] == h[14]);
        }
        if i == 15 {
            assert(c[75] == h[15]);
        }
        if i == 16 {
            assert(c[17] == h[16]);
        }
        if i == 17 {
            assert(c[18] == h[17]);
        }
        if i == 18 {
            assert(c[21] == h[18]);
        }
        if i == 19 {
            assert(c[35] == h[19]);
        }
        if i == 20 {
            assert(c[19] == h[20]);
        }
        if i == 21 {
            assert(c[58] == h[21]);
        }
        if i == 22 {
            assert(c[29] == h[22]);
        }
        if i == 23 {
            assert(c[32] == h[23]);
        }
        if i == 24 {
            assert(c[34] == h[24]);
        }
        if i == 25 {
            assert(c[59] == h[25]);
        }
        if i == 26 {
            assert(c[3] == h[26]);
        }
        if i == 27 {
            assert(c[4] == h[27]);
        }
        if i == 28 {
            assert(c[5] == h[28]);
        }
        if i == 29 {
            assert(c[6] == h[29]);
        }
        if i == 30 {
            assert(c[44] == h[30]);
        }
        if i == 31 {
            assert(c[45] == h[31]);
        }
        if i == 32 {
            assert(c[43] == h[32]);
        }
        if i == 33 {
            assert(c[110] == h[33]);
        }
        if i == 34 {
            assert(c[111] == h[34]);
        }
        if i == 35 {
            assert(c[30] == h[35]);
        }
        if i == 36 {
            assert(c[33] == h[36]);
        }
        if i == 37 {
            assert(c[31] == h[37]);
        }
        if i == 38 {
            assert(c[68] == h[38]);
        }
        if i == 39 {
            assert(c[60] == h[39]);
        }
        if i == 40 {
            assert(c[61] == h[40]);
        }
        if i == 41 {
            assert(c[62] == h[41]);
        }
        if i == 42 {
            assert(c[63] == h[42]);
        }
        if i == 43 {
            assert(c[64] == h[43]);
        }
        if i == 44 {
            assert(c[65] == h[44]);
        }
        if i == 45 {
            assert(c[66] == h[45]);
        }
        if i == 46 {
            assert(c[9] == h[46]);
        }
        if i == 47 {
            assert(c[16] == h[47]);
        }
        if i == 48 {
            assert(c[0] == h[48]);
        }
    }
}

} // verus!
