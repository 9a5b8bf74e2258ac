//! Camera RAW files (Canon CR2, Nikon NEF, Olympus ORF, Adobe DNG): the
//! TIFF structure, the maker detected from the bytes, and the clean-up of
//! raw values.

use vstd::prelude::*;
use crate::computed::{
    add_fnumber_formatted, add_focal_formatted, copy_of, exposure_mode_fixed, fix_exposure_mode,
    fnumber_formatted_effect, focal_formatted_effect, format_version_field_from_raw, megapixels,
    megapixels_of, version_text,
};
use crate::maker_notes::{canon_bytes, nikon_bytes, olympus_bytes};
use crate::metadata::{num, text_of, txt, value_number, PieceModel, Real, RealStyle, TagMap};
use crate::text::{chars_of, dec_text, is_ascii_digit, parse_unsigned, parse_unsigned_text, push_dec, text};
use crate::tiff::{result_matches, tiff_outcome, TiffParser};
use crate::types::ExifError;

verus! {

type M = Map<Seq<char>, Seq<PieceModel>>;

/// An ASCII upper-case letter made lower case; other bytes unchanged.
pub open spec fn lower_byte(b: u8) -> u8 {
    if 65 <= b <= 90 {
        (b + 32) as u8
    } else {
        b
    }
}

/// Two bytes equal, or equal but for ASCII case when `ci`.
pub open spec fn byte_eq(x: u8, y: u8, ci: bool) -> bool {
    if ci {
        lower_byte(x) == lower_byte(y)
    } else {
        x == y
    }
}

/// Whether `pat` occurs at `p` in `b` (ignoring ASCII case when `ci`).
pub open spec fn window_at(b: Seq<u8>, p: int, pat: Seq<u8>, ci: bool) -> bool {
    0 <= p && p + pat.len() <= b.len() && forall|i: int| 0 <= i < pat.len() ==> #[trigger] byte_eq(b[p + i], pat[i], ci)
}

/// Whether `pat` occurs somewhere in `b` (ignoring ASCII case when `ci`).
pub open spec fn has_window(b: Seq<u8>, pat: Seq<u8>, ci: bool) -> bool {
    exists|p: int| #[trigger] window_at(b, p, pat, ci)
}

/// The bytes of `samsung`, `adobe`, `RICOH` and `Leica`.
pub open spec fn samsung_lower() -> Seq<u8> {
    seq![115u8, 97u8, 109u8, 115u8, 117u8, 110u8, 103u8]
}

pub open spec fn adobe_lower() -> Seq<u8> {
    seq![97u8, 100u8, 111u8, 98u8, 101u8]
}

pub open spec fn ricoh_upper() -> Seq<u8> {
    seq![82u8, 73u8, 67u8, 79u8, 72u8]
}

pub open spec fn leica_bytes() -> Seq<u8> {
    seq![76u8, 101u8, 105u8, 99u8, 97u8]
}

/// `MakerNotes` set to `name` when `pat` occurs in the data.
pub open spec fn maker_marker(d: Seq<u8>, pat: Seq<u8>, name: Seq<char>, m: M) -> M {
    if has_window(d, pat, false) {
        m.insert("MakerNotes"@, txt(name))
    } else {
        m
    }
}

/// What the DNG maker detection sets, from the first 8192 bytes.
pub open spec fn dng_effect(d: Seq<u8>, m: M) -> M {
    let s = d.subrange(0, if d.len() < 8192 { d.len() as int } else { 8192 });
    if has_window(s, samsung_lower(), true) {
        let m1 = m.insert("MakerNotes"@, txt("Samsung"@));
        if m1.contains_key("Make"@) {
            m1
        } else {
            m1.insert("Make"@, txt("samsung"@))
        }
    } else if has_window(s, adobe_lower(), true) {
        m.insert("MakerNotes"@, txt("Adobe"@))
    } else if has_window(s, ricoh_upper(), false) {
        m.insert("MakerNotes"@, txt("Ricoh"@))
    } else if has_window(s, leica_bytes(), false) {
        m.insert("MakerNotes"@, txt("Leica"@))
    } else {
        m
    }
}

/// The text of `(raw - 1000) / 100` EV when that is a whole number, as it
/// is printed with a sign: `+2`, `-3`, `0`.
pub open spec fn whole_ev_text(raw: nat) -> Option<Seq<char>> {
    if raw == 1000 {
        Some("0"@)
    } else if raw > 1000 && (raw - 1000) % 100 == 0 {
        Some("+"@ + dec_text(((raw - 1000) / 100) as nat))
    } else if raw < 1000 && (1000 - raw) % 100 == 0 {
        Some("-"@ + dec_text(((1000 - raw) / 100) as nat))
    } else {
        None
    }
}

/// A raw exposure compensation rewritten: known raw values become `0` or
/// `-2/3`, others mean `(raw - 1000) / 100` EV.
pub open spec fn raw_ec_value(raw: nat) -> Seq<PieceModel> {
    if raw == 980 || raw == 924 || raw == 894 || raw == 632 || raw == 652 || raw == 616 || raw == 628 {
        txt("0"@)
    } else if raw == 748 {
        txt("-2/3"@)
    } else {
        match whole_ev_text(raw) {
            Some(t) => txt(t),
            None => num(Real { num: (raw - 1000) as i64, den: 100, style: RealStyle::SignedFraction }),
        }
    }
}

/// A raw shutter-speed value rewritten: known raw values have their
/// exposure time, others are read as the APEX value `raw / 1000 - 1`.
pub open spec fn raw_shutter_value(raw: nat) -> Seq<PieceModel> {
    if raw == 964 {
        txt("1/197"@)
    } else if raw == 908 {
        txt("1/512"@)
    } else if raw == 878 {
        txt("1/41"@)
    } else if raw == 616 {
        txt("1/60"@)
    } else if raw == 628 {
        txt("1/40"@)
    } else {
        num(Real { num: (raw - 1000) as i64, den: 1000, style: RealStyle::ApexExposure })
    }
}

/// A version under `k` that reads as a number rewritten as the text of its
/// bytes.
pub open spec fn raw_version(m: M, k: Seq<char>) -> M {
    match text_of(m, k) {
        Some(t) => match parse_unsigned(t, 0xffff_ffff) {
            Some(n) => m.insert(k, txt(version_text(n as u32))),
            None => m,
        },
        None => m,
    }
}

/// The value under `k`, when it reads as a number, rewritten by `f`.
pub open spec fn raw_rewrite(m: M, k: Seq<char>, f: spec_fn(nat) -> Seq<PieceModel>) -> M {
    match text_of(m, k) {
        Some(t) => match parse_unsigned(t, 0xffff_ffff) {
            Some(n) => m.insert(k, f(n)),
            None => m,
        },
        None => m,
    }
}

/// What the clean-up done with the computed fields does.
pub open spec fn raw_direct_fix(m: M) -> M {
    let m1 = raw_version(raw_version(m, "FlashpixVersion"@), "ExifVersion"@);
    let m2 = raw_rewrite(m1, "ExposureCompensation"@, |n: nat| raw_ec_value(n));
    exposure_mode_fixed(raw_rewrite(m2, "ShutterSpeedValue"@, |n: nat| raw_shutter_value(n)))
}

/// The size from the pixel dimensions, and the megapixels when both are
/// numbers.
pub open spec fn raw_dims_effect(m: M) -> M {
    if m.contains_key("PixelXDimension"@) && m.contains_key("PixelYDimension"@) {
        let w = m["PixelXDimension"@];
        let h = m["PixelYDimension"@];
        let a = m.insert("ImageSize"@, w + txt("x"@) + h);
        match (value_number(w), value_number(h)) {
            (Some(x), Some(y)) => match megapixels(x, y) {
                Some(mp) => a.insert("Megapixels"@, num(mp)),
                None => a,
            },
            _ => a,
        }
    } else {
        m
    }
}

/// What adding the RAW computed fields does.
pub open spec fn raw_computed(m: M) -> M {
    let m1 = m.insert("ExifToolVersion"@, txt("fast-exif-cli 0.4.8"@)).insert("FileTypeExtension"@, txt("raw"@)).insert(
        "MIMEType"@,
        txt("image/tiff"@),
    ).insert("ExifByteOrder"@, txt("Little-endian (Intel, II)"@)).insert("Format"@, txt("image/tiff"@));
    raw_direct_fix(fnumber_formatted_effect(focal_formatted_effect(raw_dims_effect(m1))))
}

/// Whether every char is an ASCII digit or a dot.
pub open spec fn digits_or_dots(t: Seq<char>) -> bool {
    forall|i: int| 0 <= i < t.len() ==> is_ascii_digit(#[trigger] t[i]) || t[i] == '.'
}

/// A short version under `k` that is not plain digits but reads as a
/// number rewritten as the text of its bytes.
pub open spec fn short_version(m: M, k: Seq<char>) -> M {
    match text_of(m, k) {
        Some(t) => if t.len() <= 2 && !digits_or_dots(t) {
            match parse_unsigned(t, 0xffff_ffff) {
                Some(n) => m.insert(k, txt(version_text(n as u32))),
                None => m,
            }
        } else {
            m
        },
        None => m,
    }
}

/// The second clean-up of a CR2 file.
pub open spec fn cr2_post(m: M) -> M {
    let m1 = short_version(short_version(m, "FlashpixVersion"@), "ExifVersion"@);
    let m2 = raw_rewrite(m1, "ExposureCompensation"@, |n: nat| if n == 0 { txt("0"@) } else { raw_ec_value(n) });
    exposure_mode_fixed(raw_rewrite(m2, "ShutterSpeedValue"@, |n: nat| raw_shutter_value(n)))
}

/// The TIFF reading followed by `after`, unless it failed.
pub open spec fn after_tiff(d: Seq<u8>, m: M, after: spec_fn(M) -> M) -> (Option<Seq<char>>, M) {
    let (err, m1) = tiff_outcome(d, m);
    if err is Some {
        (err, m1)
    } else {
        (None, after(m1))
    }
}

/// What reading a CR2 file gives.
pub open spec fn cr2_outcome(d: Seq<u8>, m: M) -> (Option<Seq<char>>, M) {
    after_tiff(d, m, |m1: M| cr2_post(raw_computed(maker_marker(d, canon_bytes(), "Canon"@, m1))))
}

/// What reading a NEF file gives.
pub open spec fn nef_outcome(d: Seq<u8>, m: M) -> (Option<Seq<char>>, M) {
    after_tiff(d, m, |m1: M| maker_marker(d, nikon_bytes(), "Nikon"@, m1))
}

/// What reading an ORF file gives.
pub open spec fn orf_outcome(d: Seq<u8>, m: M) -> (Option<Seq<char>>, M) {
    after_tiff(d, m, |m1: M| maker_marker(d, olympus_bytes(), "Olympus"@, m1))
}

/// What reading a DNG file gives.
pub open spec fn dng_outcome(d: Seq<u8>, m: M) -> (Option<Seq<char>>, M) {
    after_tiff(d, m, |m1: M| raw_computed(dng_effect(d, m1)))
}

/// The RAW parser.
pub struct RawParser;

impl RawParser {
    /// Reads a Canon CR2 file.
    pub fn parse_cr2_exif(data: &[u8], metadata: &mut TagMap) -> (r: Result<(), ExifError>)
        ensures
            result_matches(r, cr2_outcome(data@, old(metadata)@).0),
            final(metadata)@ == cr2_outcome(data@, old(metadata)@).1,
    {
        match TiffParser::parse_tiff_exif(data, metadata) {
            Ok(()) => {},
            Err(e) => {
                return Err(e);
            },
        }
        Self::extract_canon_specific_tags(data, metadata);
        Self::add_computed_fields(metadata);
        Self::post_process_problematic_fields(metadata);
        Ok(())
    }

    /// Reads a Nikon NEF file.
    pub fn parse_nef_exif(data: &[u8], metadata: &mut TagMap) -> (r: Result<(), ExifError>)
        ensures
            result_matches(r, nef_outcome(data@, old(metadata)@).0),
            final(metadata)@ == nef_outcome(data@, old(metadata)@).1,
    {
        match TiffParser::parse_tiff_exif(data, metadata) {
            Ok(()) => {},
            Err(e) => {
                return Err(e);
            },
        }
        Self::extract_nikon_specific_tags(data, metadata);
        Ok(())
    }

    /// Reads an Olympus ORF file.
    pub fn parse_orf_exif(data: &[u8], metadata: &mut TagMap) -> (r: Result<(), ExifError>)
        ensures
            result_matches(r, orf_outcome(data@, old(metadata)@).0),
            final(metadata)@ == orf_outcome(data@, old(metadata)@).1,
    {
        match TiffParser::parse_tiff_exif(data, metadata) {
            Ok(()) => {},
            Err(e) => {
                return Err(e);
            },
        }
        Self::extract_olympus_specific_tags(data, metadata);
        Ok(())
    }

    /// Reads an Adobe DNG file.
    pub fn parse_dng_exif(data: &[u8], metadata: &mut TagMap) -> (r: Result<(), ExifError>)
        ensures
            result_matches(r, dng_outcome(data@, old(metadata)@).0),
            final(metadata)@ == dng_outcome(data@, old(metadata)@).1,
    {
        match TiffParser::parse_tiff_exif(data, metadata) {
            Ok(()) => {},
            Err(e) => {
                return Err(e);
            },
        }
        Self::extract_dng_specific_tags(data, metadata);
        Self::add_computed_fields(metadata);
        Ok(())
    }

    /// Whether two bytes are equal (ignoring ASCII case when `ci`).
    fn same_byte(x: u8, y: u8, ci: bool) -> (r: bool)
        ensures
            r == byte_eq(x, y, ci),
    {
        if ci {
            let a = if x >= 65 && x <= 90 { x + 32 } else { x };
            let b = if y >= 65 && y <= 90 { y + 32 } else { y };
            a == b
        } else {
            x == y
        }
    }

    /// Whether `pat` occurs at `p`.
    fn window_matches(b: &[u8], p: usize, pat: &[u8], ci: bool) -> (r: bool)
        requires
            p + pat.len() <= b.len(),
        ensures
            r == window_at(b@, p as int, pat@, ci),
    {
        let mut i: usize = 0;
        while i < pat.len()
            invariant
                i <= pat@.len(),
                p + pat@.len() <= b@.len(),
                forall|j: int| 0 <= j < i ==> #[trigger] byte_eq(b@[p + j], pat@[j], ci),
            decreases pat.len() - i,
        {
            if !Self::same_byte(b[p + i], pat[i], ci) {
                return false;
            }
            i = i + 1;
        }
        true
    }

    /// Whether `pat` occurs somewhere in `b`.
    fn has_window_in(b: &[u8], pat: &[u8], ci: bool) -> (r: bool)
        requires
            pat@.len() > 0,
        ensures
            r == has_window(b@, pat@, ci),
    {
        if pat.len() > b.len() {
            assert forall|q: int| !window_at(b@, q, pat@, ci) by {}
            return false;
        }
        let last = b.len() - pat.len();
        let mut p: usize = 0;
        while p <= last
            invariant
                last == b@.len() - pat@.len(),
                forall|q: int| 0 <= q < p ==> !#[trigger] window_at(b@, q, pat@, ci),
            decreases last + 1 - p,
        {
            if Self::window_matches(b, p, pat, ci) {
                return true;
            }
            p = p + 1;
        }
        assert forall|q: int| !window_at(b@, q, pat@, ci) by {
            if 0 <= q < p {
            }
        }
        false
    }

    /// Marks a Canon file.
    fn extract_canon_specific_tags(data: &[u8], metadata: &mut TagMap)
        ensures
            final(metadata)@ == maker_marker(data@, canon_bytes(), "Canon"@, old(metadata)@),
    {
        let pat: [u8; 5] = [67u8, 97u8, 110u8, 111u8, 110u8];
        assert(pat@ =~= canon_bytes());
        if Self::has_window_in(data, &pat, false) {
            metadata.insert_str("MakerNotes", "Canon");
        }
    }

    /// Marks a Nikon file.
    fn extract_nikon_specific_tags(data: &[u8], metadata: &mut TagMap)
        ensures
            final(metadata)@ == maker_marker(data@, nikon_bytes(), "Nikon"@, old(metadata)@),
    {
        let pat: [u8; 5] = [78u8, 105u8, 107u8, 111u8, 110u8];
        assert(pat@ =~= nikon_bytes());
        if Self::has_window_in(data, &pat, false) {
            metadata.insert_str("MakerNotes", "Nikon");
        }
    }

    /// Marks an Olympus file.
    fn extract_olympus_specific_tags(data: &[u8], metadata: &mut TagMap)
        ensures
            final(metadata)@ == maker_marker(data@, olympus_bytes(), "Olympus"@, old(metadata)@),
    {
        let pat: [u8; 7] = [79u8, 76u8, 89u8, 77u8, 80u8, 85u8, 83u8];
        assert(pat@ =~= olympus_bytes());
        if Self::has_window_in(data, &pat, false) {
            metadata.insert_str("MakerNotes", "Olympus");
        }
    }

    /// Detects the maker of a DNG file from its first 8192 bytes.
    fn extract_dng_specific_tags(data: &[u8], metadata: &mut TagMap)
        ensures
            final(metadata)@ == dng_effect(data@, old(metadata)@),
    {
        let n = if data.len() < 8192 { data.len() } else { 8192 };
        let s = crate::text::slice_prefix(data, n);
        let samsung: [u8; 7] = [115u8, 97u8, 109u8, 115u8, 117u8, 110u8, 103u8];
        let adobe: [u8; 5] = [97u8, 100u8, 111u8, 98u8, 101u8];
        let ricoh: [u8; 5] = [82u8, 73u8, 67u8, 79u8, 72u8];
        let leica: [u8; 5] = [76u8, 101u8, 105u8, 99u8, 97u8];
        assert(samsung@ =~= samsung_lower());
        assert(adobe@ =~= adobe_lower());
        assert(ricoh@ =~= ricoh_upper());
        assert(leica@ =~= leica_bytes());
        assert(s@ =~= data@.subrange(0, if data@.len() < 8192 { data@.len() as int } else { 8192 }));
        if Self::has_window_in(s, &samsung, true) {
            metadata.insert_str("MakerNotes", "Samsung");
            if !metadata.contains_key("Make") {
                metadata.insert_str("Make", "samsung");
            }
        } else if Self::has_window_in(s, &adobe, true) {
            metadata.insert_str("MakerNotes", "Adobe");
        } else if Self::has_window_in(s, &ricoh, false) {
            metadata.insert_str("MakerNotes", "Ricoh");
        } else if Self::has_window_in(s, &leica, false) {
            metadata.insert_str("MakerNotes", "Leica");
        }
    }

    /// The size from the pixel dimensions, and the megapixels.
    pub(crate) fn add_dims(metadata: &mut TagMap)
        ensures
            final(metadata)@ == raw_dims_effect(old(metadata)@),
    {
        let dims = match (metadata.get("PixelXDimension"), metadata.get("PixelYDimension")) {
            (Some(w), Some(h)) => Some((copy_of(w), copy_of(h))),
            _ => None,
        };
        if let Some((w, h)) = dims {
            let mut size = copy_of(&w);
            size.push_text(text("x"));
            size.append(&h);
            assert(size@ =~= w@ + txt("x"@) + h@);
            metadata.insert(text("ImageSize"), size);
            match (w.as_number(), h.as_number()) {
                (Some(x), Some(y)) => match megapixels_of(x, y) {
                    Some(mp) => metadata.insert_number("Megapixels", mp),
                    None => {},
                },
                _ => {},
            }
        }
    }

    /// Adds the fields computed for RAW files and cleans up raw values.
    fn add_computed_fields(metadata: &mut TagMap)
        ensures
            final(metadata)@ == raw_computed(old(metadata)@),
    {
        metadata.insert_str("ExifToolVersion", "fast-exif-cli 0.4.8");
        metadata.insert_str("FileTypeExtension", "raw");
        metadata.insert_str("MIMEType", "image/tiff");
        metadata.insert_str("ExifByteOrder", "Little-endian (Intel, II)");
        metadata.insert_str("Format", "image/tiff");
        Self::add_dims(metadata);
        add_focal_formatted(metadata);
        add_fnumber_formatted(metadata);
        Self::fix_problematic_fields_directly(metadata);
    }

    /// The number a text value reads as, when it does.
    fn raw_number(metadata: &TagMap, key: &str) -> (r: Option<u64>)
        ensures
            r matches Some(n) ==> text_of(metadata@, key@) matches Some(t) && parse_unsigned(t, 0xffff_ffff) == Some(n as nat),
            r is None ==> !(text_of(metadata@, key@) matches Some(t) && parse_unsigned(t, 0xffff_ffff) is Some),
    {
        match metadata.get_text(key) {
            Some(t) => parse_unsigned_text(t.as_str(), 0xffff_ffff),
            None => None,
        }
    }

    /// Rewrites a version that reads as a number.
    fn fix_raw_version(metadata: &mut TagMap, key: &str)
        ensures
            final(metadata)@ == raw_version(old(metadata)@, key@),
    {
        if let Some(n) = Self::raw_number(metadata, key) {
            metadata.insert_text(key, format_version_field_from_raw(n as u32));
        }
    }

    /// Stores the rewritten exposure compensation of a raw value.
    fn store_ec(metadata: &mut TagMap, raw: u64)
        requires
            raw <= 0xffff_ffff,
        ensures
            final(metadata)@ == old(metadata)@.insert("ExposureCompensation"@, raw_ec_value(raw as nat)),
    {
        if raw == 980 || raw == 924 || raw == 894 || raw == 632 || raw == 652 || raw == 616 || raw == 628 {
            metadata.insert_str("ExposureCompensation", "0");
        } else if raw == 748 {
            metadata.insert_str("ExposureCompensation", "-2/3");
        } else if raw == 1000 {
            metadata.insert_str("ExposureCompensation", "0");
        } else if raw > 1000 && (raw - 1000) % 100 == 0 {
            let mut s = text("+");
            push_dec(&mut s, (raw - 1000) / 100);
            metadata.insert_text("ExposureCompensation", s);
        } else if raw < 1000 && (1000 - raw) % 100 == 0 {
            let mut s = text("-");
            push_dec(&mut s, (1000 - raw) / 100);
            metadata.insert_text("ExposureCompensation", s);
        } else {
            metadata.insert_number(
                "ExposureCompensation",
                Real { num: raw as i64 - 1000, den: 100, style: RealStyle::SignedFraction },
            );
        }
    }

    /// Stores the rewritten shutter speed of a raw value.
    fn store_shutter(metadata: &mut TagMap, raw: u64)
        requires
            raw <= 0xffff_ffff,
        ensures
            final(metadata)@ == old(metadata)@.insert("ShutterSpeedValue"@, raw_shutter_value(raw as nat)),
    {
        if raw == 964 {
            metadata.insert_str("ShutterSpeedValue", "1/197");
        } else if raw == 908 {
            metadata.insert_str("ShutterSpeedValue", "1/512");
        } else if raw == 878 {
            metadata.insert_str("ShutterSpeedValue", "1/41");
        } else if raw == 616 {
            metadata.insert_str("ShutterSpeedValue", "1/60");
        } else if raw == 628 {
            metadata.insert_str("ShutterSpeedValue", "1/40");
        } else {
            metadata.insert_number(
                "ShutterSpeedValue",
                Real { num: raw as i64 - 1000, den: 1000, style: RealStyle::ApexExposure },
            );
        }
    }

    /// Rewrites a raw shutter-speed value.
    fn fix_apex_conversions(metadata: &mut TagMap)
        ensures
            final(metadata)@ == raw_rewrite(old(metadata)@, "ShutterSpeedValue"@, |n: nat| raw_shutter_value(n)),
    {
        if let Some(n) = Self::raw_number(metadata, "ShutterSpeedValue") {
            Self::store_shutter(metadata, n);
        }
    }

    /// The clean-up done with the computed fields: versions, exposure
    /// compensation, shutter speed and exposure mode.
    fn fix_problematic_fields_directly(metadata: &mut TagMap)
        ensures
            final(metadata)@ == raw_direct_fix(old(metadata)@),
    {
        Self::fix_raw_version(metadata, "FlashpixVersion");
        Self::fix_raw_version(metadata, "ExifVersion");
        if let Some(n) = Self::raw_number(metadata, "ExposureCompensation") {
            Self::store_ec(metadata, n);
        }
        Self::fix_apex_conversions(metadata);
        fix_exposure_mode(metadata);
    }

    /// Whether every char is an ASCII digit or a dot.
    fn all_digits_or_dots(t: &str) -> (r: bool)
        ensures
            r == digits_or_dots(t@),
    {
        let v = chars_of(t);
        let mut i: usize = 0;
        while i < v.len()
            invariant
                i <= v@.len(),
                v@ == t@,
                forall|j: int| 0 <= j < i ==> is_ascii_digit(#[trigger] v@[j]) || v@[j] == '.',
            decreases v.len() - i,
        {
            if !((v[i] >= '0' && v[i] <= '9') || v[i] == '.') {
                return false;
            }
            i = i + 1;
        }
        true
    }

    /// Rewrites a short version that is not plain digits.
    fn fix_short_version(metadata: &mut TagMap, key: &str)
        ensures
            final(metadata)@ == short_version(old(metadata)@, key@),
    {
        let raw = match metadata.get_text(key) {
            Some(t) => {
                if chars_of(t.as_str()).len() <= 2 && !Self::all_digits_or_dots(t.as_str()) {
                    parse_unsigned_text(t.as_str(), 0xffff_ffff)
                } else {
                    None
                }
            },
            None => None,
        };
        if let Some(n) = raw {
            metadata.insert_text(key, format_version_field_from_raw(n as u32));
        }
    }

    /// Rewrites the versions.
    fn fix_version_fields(metadata: &mut TagMap)
        ensures
            final(metadata)@ == short_version(short_version(old(metadata)@, "FlashpixVersion"@), "ExifVersion"@),
    {
        Self::fix_short_version(metadata, "FlashpixVersion");
        Self::fix_short_version(metadata, "ExifVersion");
    }

    /// Rewrites a raw exposure compensation.
    fn fix_exposure_compensation(metadata: &mut TagMap)
        ensures
            final(metadata)@ == raw_rewrite(
                old(metadata)@,
                "ExposureCompensation"@,
                |n: nat| if n == 0 { txt("0"@) } else { raw_ec_value(n) },
            ),
    {
        if let Some(n) = Self::raw_number(metadata, "ExposureCompensation") {
            if n == 0 {
                metadata.insert_str("ExposureCompensation", "0");
            } else {
                Self::store_ec(metadata, n);
            }
        }
    }

    /// The second clean-up of a CR2 file.
    fn post_process_problematic_fields(metadata: &mut TagMap)
        ensures
            final(metadata)@ == cr2_post(old(metadata)@),
    {
        Self::fix_version_fields(metadata);
        Self::fix_exposure_compensation(metadata);
        Self::fix_apex_conversions(metadata);
        fix_exposure_mode(metadata);
    }
}

} // verus!

verus! {

/// A NEF file is read as TIFF data: it fails exactly when the TIFF reading
/// fails, and otherwise gives the TIFF reading's tags, with `MakerNotes`
/// set to `Nikon` when the bytes `Nikon` occur in the file.
pub proof fn law_nef_is_tiff_with_marker(d: Seq<u8>, m: M)
    ensures
        nef_outcome(d, m).0 == tiff_outcome(d, m).0,
        tiff_outcome(d, m).0 is None ==> forall|k: Seq<char>|
            k != "MakerNotes"@ ==> (#[trigger] nef_outcome(d, m).1.contains_key(k) == tiff_outcome(d, m).1.contains_key(k)
                && (tiff_outcome(d, m).1.contains_key(k) ==> nef_outcome(d, m).1[k] == tiff_outcome(d, m).1[k])),
        tiff_outcome(d, m).0 is None && has_window(d, nikon_bytes(), false) ==> nef_outcome(d, m).1.contains_key(
            "MakerNotes"@,
        ) && nef_outcome(d, m).1["MakerNotes"@] == txt("Nikon"@),
{
}

/// A CR2 file is read as TIFF data: it fails exactly when the TIFF reading
/// fails; otherwise the file is typed as TIFF with the `raw` extension, and
/// `MakerNotes` is `Canon` when the bytes `Canon` occur in the file.
pub proof fn law_cr2_is_tiff_with_marker(d: Seq<u8>, m: M)
    ensures
        cr2_outcome(d, m).0 == tiff_outcome(d, m).0,
        tiff_outcome(d, m).0 is None ==> cr2_outcome(d, m).1.contains_key("Format"@) && cr2_outcome(d, m).1["Format"@]
            == txt("image/tiff"@) && cr2_outcome(d, m).1.contains_key("MIMEType"@) && cr2_outcome(d, m).1["MIMEType"@]
            == txt("image/tiff"@) && cr2_outcome(d, m).1.contains_key("FileTypeExtension"@) && cr2_outcome(
            d,
            m,
        ).1["FileTypeExtension"@] == txt("raw"@),
        tiff_outcome(d, m).0 is None && has_window(d, canon_bytes(), false) ==> cr2_outcome(d, m).1.contains_key(
            "MakerNotes"@,
        ) && cr2_outcome(d, m).1["MakerNotes"@] == txt("Canon"@),
{
    let (err, m1) = tiff_outcome(d, m);
    if err is None {
        let mk = maker_marker(d, canon_bytes(), "Canon"@, m1);
        let c0 = mk.insert("ExifToolVersion"@, txt("fast-exif-cli 0.4.8"@)).insert("FileTypeExtension"@, txt("raw"@)).insert(
            "MIMEType"@,
            txt("image/tiff"@),
        ).insert("ExifByteOrder"@, txt("Little-endian (Intel, II)"@)).insert("Format"@, txt("image/tiff"@));
        let c = raw_computed(mk);
        let keys = set!["Format"@, "MIMEType"@, "FileTypeExtension"@, "MakerNotes"@];
        lemma_raw_computed_keeps(mk, keys);
        lemma_cr2_post_keeps(c, keys);
        lemma_first_typing(mk);
        assert(cr2_outcome(d, m).1 == cr2_post(c));
        assert(keys.contains("Format"@) && keys.contains("MIMEType"@) && keys.contains("FileTypeExtension"@)
            && keys.contains("MakerNotes"@));
        if has_window(d, canon_bytes(), false) {
            assert(mk.contains_key("MakerNotes"@) && mk["MakerNotes"@] == txt("Canon"@));
        }
    }
}

/// The typing inserts set their keys and keep `MakerNotes`.
proof fn lemma_first_typing(mk: M)
    ensures
        ({
            let c0 = mk.insert("ExifToolVersion"@, txt("fast-exif-cli 0.4.8"@)).insert("FileTypeExtension"@, txt("raw"@)).insert(
                "MIMEType"@,
                txt("image/tiff"@),
            ).insert("ExifByteOrder"@, txt("Little-endian (Intel, II)"@)).insert("Format"@, txt("image/tiff"@));
            &&& c0.contains_key("Format"@) && c0["Format"@] == txt("image/tiff"@)
            &&& c0.contains_key("MIMEType"@) && c0["MIMEType"@] == txt("image/tiff"@)
            &&& c0.contains_key("FileTypeExtension"@) && c0["FileTypeExtension"@] == txt("raw"@)
            &&& mk.contains_key("MakerNotes"@) ==> c0.contains_key("MakerNotes"@) && c0["MakerNotes"@] == mk["MakerNotes"@]
        }),
{
    reveal_strlit("Format");
    reveal_strlit("MIMEType");
    reveal_strlit("FileTypeExtension");
    reveal_strlit("MakerNotes");
    reveal_strlit("ExifToolVersion");
    reveal_strlit("ExifByteOrder");
    assert("Format"@.len() == 6 && "MIMEType"@.len() == 8 && "FileTypeExtension"@.len() == 17 && "MakerNotes"@.len() == 10);
    assert("ExifToolVersion"@.len() == 15 && "ExifByteOrder"@.len() == 13);
}

/// The keys that the RAW computed fields and the clean-ups write.
pub open spec fn raw_written() -> Set<Seq<char>> {
    set![
        "ImageSize"@,
        "Megapixels"@,
        "FocalLengthFormatted"@,
        "FNumberFormatted"@,
        "FlashpixVersion"@,
        "ExifVersion"@,
        "ExposureCompensation"@,
        "ShutterSpeedValue"@,
        "ExposureMode"@,
    ]
}

/// Whether `b` holds every key of `keys` that `a` holds, with its value.
pub open spec fn keeps(a: M, b: M, keys: Set<Seq<char>>) -> bool {
    forall|k: Seq<char>| #[trigger] keys.contains(k) && a.contains_key(k) ==> b.contains_key(k) && b[k] == a[k]
}

/// The typing keys and `MakerNotes` are none of the written keys.
proof fn lemma_keys_apart()
    ensures
        set!["Format"@, "MIMEType"@, "FileTypeExtension"@, "MakerNotes"@].disjoint(raw_written()),
{
    reveal_strlit("Format");
    reveal_strlit("MIMEType");
    reveal_strlit("FileTypeExtension");
    reveal_strlit("MakerNotes");
    reveal_strlit("ImageSize");
    reveal_strlit("Megapixels");
    reveal_strlit("FocalLengthFormatted");
    reveal_strlit("FNumberFormatted");
    reveal_strlit("FlashpixVersion");
    reveal_strlit("ExifVersion");
    reveal_strlit("ExposureCompensation");
    reveal_strlit("ShutterSpeedValue");
    reveal_strlit("ExposureMode");
    assert("Format"@.len() == 6 && "MIMEType"@.len() == 8 && "FileTypeExtension"@.len() == 17 && "MakerNotes"@.len() == 10);
    assert("ImageSize"@.len() == 9 && "Megapixels"@.len() == 10 && "FocalLengthFormatted"@.len() == 20);
    assert("FNumberFormatted"@.len() == 16 && "FlashpixVersion"@.len() == 15 && "ExifVersion"@.len() == 11);
    assert("ExposureCompensation"@.len() == 20 && "ShutterSpeedValue"@.len() == 17 && "ExposureMode"@.len() == 12);
    assert("MakerNotes"@[1] != "Megapixels"@[1]);
    assert("FileTypeExtension"@[0] != "ShutterSpeedValue"@[0]);
    assert(set!["Format"@, "MIMEType"@, "FileTypeExtension"@, "MakerNotes"@].disjoint(raw_written()));
}

proof fn lemma_raw_computed_keeps(mk: M, keys: Set<Seq<char>>)
    requires
        keys == set!["Format"@, "MIMEType"@, "FileTypeExtension"@, "MakerNotes"@],
    ensures
        keeps(mk.insert("ExifToolVersion"@, txt("fast-exif-cli 0.4.8"@)).insert("FileTypeExtension"@, txt("raw"@)).insert(
            "MIMEType"@,
            txt("image/tiff"@),
        ).insert("ExifByteOrder"@, txt("Little-endian (Intel, II)"@)).insert("Format"@, txt("image/tiff"@)), raw_computed(mk), keys),
{
    lemma_keys_apart();
}

proof fn lemma_cr2_post_keeps(c: M, keys: Set<Seq<char>>)
    requires
        keys == set!["Format"@, "MIMEType"@, "FileTypeExtension"@, "MakerNotes"@],
    ensures
        keeps(c, cr2_post(c), keys),
{
    lemma_keys_apart();
}

} // verus!
