//! Fields computed from other fields, shared by the image parsers: crop
//! factors, 35 mm equivalents, image size, and fixes of raw values.

use vstd::prelude::*;
use crate::text::{all_ascii, lower_text, lowercase_text, str_lower_text};
use crate::metadata::{
    num, text_of, txt, value_is_blank, value_number, PieceModel, Real, RealStyle, TagMap, TagValue,
};
use crate::text::{contains_text, text, text_contains};

verus! {

type M = Map<Seq<char>, Seq<PieceModel>>;

/// The lower-cased text stored under `k`, or nothing.
pub open spec fn lowered(m: M, k: Seq<char>) -> Seq<char> {
    match text_of(m, k) {
        Some(t) => str_lower_text(t),
        None => Seq::empty(),
    }
}

/// A camera's crop factor in thousandths, from its lower-cased make and
/// model.
pub open spec fn crop_milli(make: Seq<char>, model: Seq<char>) -> nat {
    if contains_text(make, "canon"@) && contains_text(model, "digital rebel xsi"@) {
        1617
    } else if contains_text(make, "canon"@) && contains_text(model, "70d"@) {
        1577
    } else if contains_text(make, "canon"@) && (contains_text(model, "rebel"@) || contains_text(model, "eos"@)
        || contains_text(model, "powershot"@)) {
        1600
    } else if contains_text(make, "nikon"@) && (contains_text(model, "d"@) || contains_text(model, "z"@)) {
        1500
    } else if contains_text(make, "sony"@) {
        1500
    } else if contains_text(make, "samsung"@) && (contains_text(model, "sm-g970u"@) || contains_text(model, "sm-"@)) {
        7600
    } else if contains_text(make, "fujifilm"@) {
        1500
    } else if contains_text(make, "panasonic"@) || contains_text(make, "olympus"@) {
        2000
    } else if contains_text(make, "pentax"@) || contains_text(make, "sigma"@) {
        1500
    } else if contains_text(make, "leica"@) {
        if contains_text(model, "m"@) && !contains_text(model, "m4/3"@) {
            1000
        } else {
            1500
        }
    } else if contains_text(make, "hasselblad"@) {
        if contains_text(model, "x1d"@) || contains_text(model, "907x"@) {
            790
        } else {
            1000
        }
    } else if contains_text(make, "phase one"@) {
        790
    } else if contains_text(make, "ricoh"@) || contains_text(make, "kodak"@) {
        1500
    } else if contains_text(make, "casio"@) || contains_text(make, "hp"@) {
        5600
    } else if contains_text(make, "apple"@) || contains_text(make, "google"@) || contains_text(make, "oneplus"@)
        || contains_text(make, "xiaomi"@) || contains_text(make, "huawei"@) {
        7200
    } else if contains_text(make, "lge"@) || contains_text(make, "lg"@) {
        if contains_text(model, "nexus"@) {
            7200
        } else {
            5600
        }
    } else if contains_text(make, "motorola"@) || contains_text(make, "htc"@) || contains_text(make, "blackberry"@)
        || contains_text(make, "nokia"@) {
        7200
    } else {
        1000
    }
}

/// The ASCII lower case of the text stored under `k`, or nothing.
pub open spec fn ascii_lowered(m: M, k: Seq<char>) -> Seq<char> {
    match text_of(m, k) {
        Some(t) => lower_text(t),
        None => Seq::empty(),
    }
}

/// Whether the make and model, where stored as text, are ASCII.
pub open spec fn ascii_names(m: M) -> bool {
    (text_of(m, "Make"@) matches Some(t) ==> all_ascii(t)) && (text_of(m, "Model"@) matches Some(t) ==> all_ascii(t))
}

/// The crop factor, in thousandths, of the camera a tag map names.
pub open spec fn crop_factor_of(m: M) -> nat {
    crop_milli(lowered(m, "Make"@), lowered(m, "Model"@))
}

/// The crop factor of a camera in thousandths, from its lower-cased make
/// and model.
pub fn crop_milli_of(make: &str, model: &str) -> (r: u32)
    ensures
        r == crop_milli(make@, model@),
{
    if text_contains(make, "canon") && text_contains(model, "digital rebel xsi") {
        1617
    } else if text_contains(make, "canon") && text_contains(model, "70d") {
        1577
    } else if text_contains(make, "canon") && (text_contains(model, "rebel") || text_contains(model, "eos")
        || text_contains(model, "powershot")) {
        1600
    } else if text_contains(make, "nikon") && (text_contains(model, "d") || text_contains(model, "z")) {
        1500
    } else if text_contains(make, "sony") {
        1500
    } else if text_contains(make, "samsung") && (text_contains(model, "sm-g970u") || text_contains(model, "sm-")) {
        7600
    } else if text_contains(make, "fujifilm") {
        1500
    } else if text_contains(make, "panasonic") || text_contains(make, "olympus") {
        2000
    } else if text_contains(make, "pentax") || text_contains(make, "sigma") {
        1500
    } else if text_contains(make, "leica") {
        if text_contains(model, "m") && !text_contains(model, "m4/3") {
            1000
        } else {
            1500
        }
    } else if text_contains(make, "hasselblad") {
        if text_contains(model, "x1d") || text_contains(model, "907x") {
            790
        } else {
            1000
        }
    } else if text_contains(make, "phase one") {
        790
    } else if text_contains(make, "ricoh") || text_contains(make, "kodak") {
        1500
    } else if text_contains(make, "casio") || text_contains(make, "hp") {
        5600
    } else if text_contains(make, "apple") || text_contains(make, "google") || text_contains(make, "oneplus")
        || text_contains(make, "xiaomi") || text_contains(make, "huawei") {
        7200
    } else if text_contains(make, "lge") || text_contains(make, "lg") {
        if text_contains(model, "nexus") {
            7200
        } else {
            5600
        }
    } else if text_contains(make, "motorola") || text_contains(make, "htc") || text_contains(make, "blackberry")
        || text_contains(make, "nokia") {
        7200
    } else {
        1000
    }
}

/// The lower-cased text stored under `key`, or an empty text.
fn lowered_text(metadata: &TagMap, key: &str) -> (r: String)
    ensures
        r@ == lowered(metadata@, key@),
        (text_of(metadata@, key@) matches Some(t) ==> all_ascii(t)) ==> r@ == ascii_lowered(metadata@, key@),
{
    match metadata.get_text(key) {
        Some(t) => lowercase_text(t.as_str()),
        None => String::new(),
    }
}

/// The crop factor, in thousandths, of the camera that `metadata` names.
pub fn crop_factor_milli(metadata: &TagMap) -> (r: u32)
    ensures
        r == crop_factor_of(metadata@),
        ascii_names(metadata@) ==> r == crop_milli(ascii_lowered(metadata@, "Make"@), ascii_lowered(metadata@, "Model"@)),
{
    let make = lowered_text(metadata, "Make");
    let model = lowered_text(metadata, "Model");
    crop_milli_of(make.as_str(), model.as_str())
}

/// The focal length a value stands for: its number, also when followed by
/// ` mm`.
pub open spec fn focal_number(v: Seq<PieceModel>) -> Option<Real> {
    if v.len() == 2 && v[1] == PieceModel::Text(" mm"@) {
        value_number(v.subrange(0, 1))
    } else {
        value_number(v)
    }
}

/// `r` scaled by `milli / 1000`, printed with one decimal, when it fits.
pub open spec fn scaled(r: Real, milli: nat) -> Option<Real> {
    let n = r.num * milli;
    let d = r.den * 1000;
    if i64::MIN <= n <= i64::MAX && d <= u64::MAX {
        Some(Real { num: n as i64, den: d as u64, style: RealStyle::Fixed(1) })
    } else {
        None
    }
}

/// The 35 mm equivalent of a focal length: the focal length followed by
/// `(35 mm equivalent: X mm)`, or the focal length itself when it is not a
/// nonzero number.
pub open spec fn focal_35efl(focal: Seq<PieceModel>, m: M) -> Seq<PieceModel> {
    match focal_number(focal) {
        Some(r) => if r.num != 0 {
            match scaled(r, crop_factor_of(m)) {
                Some(e) => focal + txt(" (35 mm equivalent: "@) + num(e) + txt(" mm)"@),
                None => focal,
            }
        } else {
            focal
        },
        None => focal,
    }
}

/// A copy of a value.
pub fn copy_of(v: &TagValue) -> (r: TagValue)
    ensures
        r@ == v@,
{
    let mut r = TagValue::empty();
    r.append(v);
    assert(r@ =~= v@);
    r
}

/// The focal length that a value stands for.
fn focal_value_number(v: &TagValue) -> (r: Option<Real>)
    ensures
        r == focal_number(v@),
{
    if v.pieces.len() == 2 {
        assert(v@[1] == v.pieces@[1].model());
        let is_mm = match &v.pieces[1] {
            Piece::Text(t) => crate::text::str_eq(t.as_str(), " mm"),
            Piece::Number(_) => false,
        };
        if is_mm {
            let mut first = TagValue::empty();
            assert(v@[0] == v.pieces@[0].model());
            match &v.pieces[0] {
                Piece::Text(t) => first.push_text(t.clone()),
                Piece::Number(n) => first.push_number(*n),
            }
            assert(first@ =~= v@.subrange(0, 1));
            return first.as_number();
        }
    }
    v.as_number()
}

/// `r` scaled by `milli / 1000`, printed with one decimal, when it fits.
fn scale_real(r: Real, milli: u32) -> (s: Option<Real>)
    ensures
        s == scaled(r, milli as nat),
{
    let n = r.num.checked_mul(milli as i64);
    let d = r.den.checked_mul(1000);
    match (n, d) {
        (Some(n), Some(d)) => Some(Real { num: n, den: d, style: RealStyle::Fixed(1) }),
        _ => None,
    }
}

/// The 35 mm equivalent of a focal length.
pub fn calculate_35mm_equivalent(focal_length: &TagValue, metadata: &TagMap) -> (r: TagValue)
    ensures
        r@ == focal_35efl(focal_length@, metadata@),
{
    let mut out = copy_of(focal_length);
    match focal_value_number(focal_length) {
        Some(f) => {
            if f.num != 0 {
                let crop = crop_factor_milli(metadata);
                match scale_real(f, crop) {
                    Some(e) => {
                        out.push_text(text(" (35 mm equivalent: "));
                        out.push_number(e);
                        out.push_text(text(" mm)"));
                        assert(out@ =~= focal_length@ + txt(" (35 mm equivalent: "@) + num(e) + txt(" mm)"@));
                    },
                    None => {},
                }
            }
        },
        None => {},
    }
    out
}

use crate::metadata::Piece;

/// The text of a raw version number: its four little-endian bytes, the
/// printable ones only.
pub open spec fn version_text(value: u32) -> Seq<char> {
    version_chars(seq![(value % 256) as u8, ((value / 256) % 256) as u8, ((value / 65536) % 256) as u8, (value / 16777216) as u8])
}

/// The printable ASCII bytes of `b` as chars.
pub open spec fn version_chars(b: Seq<u8>) -> Seq<char>
    decreases b.len(),
{
    if b.len() == 0 {
        Seq::empty()
    } else {
        let rest = version_chars(b.drop_last());
        if 32 <= b.last() <= 126 {
            rest.push(b.last() as char)
        } else {
            rest
        }
    }
}

/// The text of a raw version number.
pub fn format_version_field_from_raw(value: u32) -> (r: String)
    ensures
        r@ == version_text(value),
{
    let bytes: [u8; 4] = [(value % 256) as u8, ((value / 256) % 256) as u8, ((value / 65536) % 256) as u8, (value / 16777216) as u8];
    let ghost b = seq![(value % 256) as u8, ((value / 256) % 256) as u8, ((value / 65536) % 256) as u8, (value / 16777216) as u8];
    assert(bytes@ =~= b);
    let mut result = String::new();
    let mut i: usize = 0;
    while i < 4
        invariant
            i <= 4,
            bytes@ == b,
            result@ == version_chars(b.subrange(0, i as int)),
        decreases 4 - i,
    {
        let byte = bytes[i];
        assert(b.subrange(0, i + 1).drop_last() =~= b.subrange(0, i as int));
        if byte != 0 && byte >= 32 && byte <= 126 {
            crate::text::push_char(&mut result, byte as char);
        }
        i = i + 1;
    }
    assert(b.subrange(0, 4) =~= b);
    result
}

/// What fixing the exposure mode does: `Auto Exposure` becomes `Auto`,
/// `Manual Exposure` becomes `Manual`.
pub open spec fn exposure_mode_fixed(m: M) -> M {
    if text_of(m, "ExposureMode"@) == Some("Auto Exposure"@) {
        m.insert("ExposureMode"@, txt("Auto"@))
    } else if text_of(m, "ExposureMode"@) == Some("Manual Exposure"@) {
        m.insert("ExposureMode"@, txt("Manual"@))
    } else {
        m
    }
}

/// Rewrites the long exposure-mode names to the short ones.
pub fn fix_exposure_mode(metadata: &mut TagMap)
    ensures
        final(metadata)@ == exposure_mode_fixed(old(metadata)@),
{
    let (auto, manual) = match metadata.get_text("ExposureMode") {
        Some(v) => (crate::text::str_eq(v.as_str(), "Auto Exposure"), crate::text::str_eq(v.as_str(), "Manual Exposure")),
        None => (false, false),
    };
    if auto {
        metadata.insert_str("ExposureMode", "Auto");
    } else if manual {
        metadata.insert_str("ExposureMode", "Manual");
    }
}

/// A raw exposure compensation read as an unsigned number: its value
/// rewritten (known raw values become `0` or `-2/3`, values above 1000 mean
/// `(raw - 1000) / 100` EV), or `None` to leave it.
pub open spec fn compensation_fixed(raw: nat) -> Option<Seq<PieceModel>> {
    if raw == 0 || raw == 980 || raw == 924 || raw == 894 || raw == 632 || raw == 652 || raw == 616 || raw == 628 {
        Some(txt("0"@))
    } else if raw == 748 {
        Some(txt("-2/3"@))
    } else if raw > 1000 {
        Some(num(Real { num: (raw - 1000) as i64, den: 100, style: RealStyle::SignedFraction }))
    } else {
        None
    }
}

/// What fixing the exposure compensation does to a tag map.
pub open spec fn exposure_compensation_fixed(m: M) -> M {
    match text_of(m, "ExposureCompensation"@) {
        Some(t) => match crate::text::parse_unsigned(t, 0xffff_ffff) {
            Some(raw) => match compensation_fixed(raw) {
                Some(v) => m.insert("ExposureCompensation"@, v),
                None => m.insert("ExposureCompensation"@, txt(t)),
            },
            None => m,
        },
        None => m,
    }
}

/// Rewrites a raw exposure compensation as EV.
pub fn fix_exposure_compensation(metadata: &mut TagMap)
    ensures
        final(metadata)@ == exposure_compensation_fixed(old(metadata)@),
{
    let raw = match metadata.get_text("ExposureCompensation") {
        Some(t) => match crate::text::parse_unsigned_text(t.as_str(), 0xffff_ffff) {
            Some(r) => Some((r, t.clone())),
            None => None,
        },
        None => None,
    };
    match raw {
        Some((r, t)) => {
            if r == 0 || r == 980 || r == 924 || r == 894 || r == 632 || r == 652 || r == 616 || r == 628 {
                metadata.insert_str("ExposureCompensation", "0");
            } else if r == 748 {
                metadata.insert_str("ExposureCompensation", "-2/3");
            } else if r > 1000 {
                metadata.insert_number("ExposureCompensation", Real { num: (r - 1000) as i64, den: 100, style: RealStyle::SignedFraction });
            } else {
                metadata.insert_text("ExposureCompensation", t);
            }
        },
        None => {},
    }
}

/// The pixel count of an image in megapixels, printed with one decimal,
/// when the product fits.
pub open spec fn megapixels(w: Real, h: Real) -> Option<Real> {
    let n = w.num * h.num;
    let d = w.den * h.den * 1000000;
    if i64::MIN <= n <= i64::MAX && d <= u64::MAX {
        Some(Real { num: n as i64, den: d as u64, style: RealStyle::Fixed(1) })
    } else {
        None
    }
}

/// What the image size fields computed from the pixel dimensions are.
pub open spec fn dims_effect(m: M) -> M {
    if m.contains_key("PixelXDimension"@) && m.contains_key("PixelYDimension"@) {
        let w = m["PixelXDimension"@];
        let h = m["PixelYDimension"@];
        let a = m.insert("ImageSize"@, w + txt("x"@) + h).insert("ImageWidth"@, w).insert("ImageHeight"@, h);
        match (value_number(w), value_number(h)) {
            (Some(x), Some(y)) => match megapixels(x, y) {
                Some(mp) => a.insert("Megapixels"@, num(mp)),
                None => a,
            },
            _ => a,
        }
    } else {
        m
    }
}

/// The value under `from` also stored under `to`, when present.
pub open spec fn copied(m: M, from: Seq<char>, to: Seq<char>) -> M {
    if m.contains_key(from) {
        m.insert(to, m[from])
    } else {
        m
    }
}

/// The 35 mm equivalent focal length stored, when there is a focal length.
pub open spec fn efl_effect(m: M) -> M {
    if m.contains_key("FocalLength"@) {
        m.insert("FocalLength35efl"@, focal_35efl(m["FocalLength"@], m))
    } else {
        m
    }
}

/// The focal length with one decimal and `mm`, when it is a number.
pub open spec fn focal_formatted_effect(m: M) -> M {
    if m.contains_key("FocalLength"@) {
        match value_number(m["FocalLength"@]) {
            Some(r) => m.insert(
                "FocalLengthFormatted"@,
                num(Real { num: r.num, den: r.den, style: RealStyle::Fixed(1) }) + txt(" mm"@),
            ),
            None => m,
        }
    } else {
        m
    }
}

/// The f-number as `f/` with one decimal, when it is a number.
pub open spec fn fnumber_formatted_effect(m: M) -> M {
    if m.contains_key("FNumber"@) {
        match value_number(m["FNumber"@]) {
            Some(r) => m.insert(
                "FNumberFormatted"@,
                txt("f/"@) + num(Real { num: r.num, den: r.den, style: RealStyle::Fixed(1) }),
            ),
            None => m,
        }
    } else {
        m
    }
}

/// What the image-size and camera fields computed from the EXIF ones are:
/// the size from the pixel dimensions, the shutter speed and aperture, the
/// 35 mm equivalent, and the formatted focal length and f-number.
pub open spec fn camera_fields_effect(m: M) -> M {
    fnumber_formatted_effect(
        focal_formatted_effect(
            efl_effect(copied(copied(dims_effect(m), "ExposureTime"@, "ShutterSpeed"@), "FNumber"@, "Aperture"@)),
        ),
    )
}

/// The pixel count in megapixels, when the product fits.
pub(crate) fn megapixels_of(w: Real, h: Real) -> (r: Option<Real>)
    ensures
        r == megapixels(w, h),
{
    let n = w.num.checked_mul(h.num);
    let d = match w.den.checked_mul(h.den) {
        Some(x) => x.checked_mul(1000000),
        None => None,
    };
    proof {
        assert(w.den * h.den * 1000000 == (w.den * h.den) * 1000000);
        if w.den * h.den > u64::MAX {
            assert(w.den * h.den * 1000000 > u64::MAX) by (nonlinear_arith)
                requires
                    w.den * h.den > u64::MAX,
            ;
        }
    }
    match (n, d) {
        (Some(n), Some(d)) => Some(Real { num: n, den: d, style: RealStyle::Fixed(1) }),
        _ => None,
    }
}

/// Adds the image-size and camera fields computed from the EXIF ones.
pub fn add_camera_fields(metadata: &mut TagMap)
    ensures
        final(metadata)@ == camera_fields_effect(old(metadata)@),
{
    let ghost m0 = metadata@;
    let dims = match (metadata.get("PixelXDimension"), metadata.get("PixelYDimension")) {
        (Some(w), Some(h)) => Some((copy_of(w), copy_of(h))),
        _ => None,
    };
    if let Some((w, h)) = dims {
        let mut size = copy_of(&w);
        size.push_text(text("x"));
        size.append(&h);
        assert(size@ =~= w@ + txt("x"@) + h@);
        let wn = w.as_number();
        let hn = h.as_number();
        metadata.insert(text("ImageSize"), size);
        metadata.insert(text("ImageWidth"), copy_of(&w));
        metadata.insert(text("ImageHeight"), copy_of(&h));
        match (wn, hn) {
            (Some(x), Some(y)) => match megapixels_of(x, y) {
                Some(mp) => metadata.insert_number("Megapixels", mp),
                None => {},
            },
            _ => {},
        }
    }
    assert(metadata@ == dims_effect(m0));
    let ghost m1 = metadata@;
    let exposure = match metadata.get("ExposureTime") {
        Some(v) => Some(copy_of(v)),
        None => None,
    };
    if let Some(v) = exposure {
        metadata.insert(text("ShutterSpeed"), v);
    }
    assert(metadata@ == copied(m1, "ExposureTime"@, "ShutterSpeed"@));
    let ghost m2 = metadata@;
    let fnumber = match metadata.get("FNumber") {
        Some(v) => Some(copy_of(v)),
        None => None,
    };
    if let Some(v) = fnumber {
        metadata.insert(text("Aperture"), v);
    }
    assert(metadata@ == copied(m2, "FNumber"@, "Aperture"@));
    let ghost m3 = metadata@;
    let efl = match metadata.get("FocalLength") {
        Some(v) => Some(calculate_35mm_equivalent(v, metadata)),
        None => None,
    };
    if let Some(v) = efl {
        metadata.insert(text("FocalLength35efl"), v);
    }
    assert(metadata@ == efl_effect(m3));
    add_focal_formatted(metadata);
    add_fnumber_formatted(metadata);
}

/// Adds the focal length with one decimal and `mm`.
pub(crate) fn add_focal_formatted(metadata: &mut TagMap)
    ensures
        final(metadata)@ == focal_formatted_effect(old(metadata)@),
{
    let focal = match metadata.get("FocalLength") {
        Some(v) => v.as_number(),
        None => None,
    };
    if let Some(r) = focal {
        let mut v = TagValue::number(Real { num: r.num, den: r.den, style: RealStyle::Fixed(1) });
        v.push_text(text(" mm"));
        assert(v@ =~= num(Real { num: r.num, den: r.den, style: RealStyle::Fixed(1) }) + txt(" mm"@));
        metadata.insert(text("FocalLengthFormatted"), v);
    }
}

/// Adds the f-number as `f/` with one decimal.
pub(crate) fn add_fnumber_formatted(metadata: &mut TagMap)
    ensures
        final(metadata)@ == fnumber_formatted_effect(old(metadata)@),
{
    let fnum = match metadata.get("FNumber") {
        Some(v) => v.as_number(),
        None => None,
    };
    if let Some(r) = fnum {
        let mut v = TagValue::text(text("f/"));
        v.push_number(Real { num: r.num, den: r.den, style: RealStyle::Fixed(1) });
        assert(v@ =~= txt("f/"@) + num(Real { num: r.num, den: r.den, style: RealStyle::Fixed(1) }));
        metadata.insert(text("FNumberFormatted"), v);
    }
}

/// Whether a version value is missing or prints as nothing.
pub open spec fn version_missing(m: M, k: Seq<char>) -> bool {
    !m.contains_key(k) || value_is_blank(m[k])
}

} // verus!
