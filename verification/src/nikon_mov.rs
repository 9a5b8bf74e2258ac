//! Nikon QuickTime metadata (`NCTG` inside `udta/NCDT`), and the QuickTime
//! atoms around it.
//!
//! Z-series cameras store exposure, lens, and maker-note tags in this
//! big-endian record list instead of a TIFF EXIF IFD. Record layout matches
//! ExifTool `ProcessNikonMOV`: u32 tag, u16 TIFF format, u16 count, then
//! `count * format_size` bytes.

use vstd::prelude::*;
use crate::bytes::{
    as_i16, as_i32, be16, be32, be64, u16_at, u32_at, read_i16, read_i32, read_u16, read_u32, read_u64_be_at,
};
use crate::metadata::{num, txt, PieceModel, Real, RealStyle, TagMap, TagValue};
use crate::text::{
    all_digits, append_str, ascii_lower, hex_text, push_hex, ascii_upper, chars_of, dec_text, i64_text,
    is_ascii_digit, is_white, is_white_char, latin1, latin1_text, push_char, push_dec,
    lower_text, parse_unsigned, parse_unsigned_text, signed_dec_text, starts_with, sub_slice,
    text, text_starts_with, to_ascii_lower, trim, trim_text, u64_text, utf8_lossy, utf8_lossy_text,
    views,
};
use crate::types::ExifError;

verus! {

type M = Map<Seq<char>, Seq<PieceModel>>;

/// Seconds between the QuickTime epoch (1904) and the Unix epoch (1970).
pub const QT_EPOCH_OFFSET: i64 = 2_082_844_800;

/// The `%Y:%m:%d %H:%M:%S` text of a UTC time given in Unix seconds, as
/// chrono formats it.
pub uninterp spec fn utc_datetime_text(unix: i64) -> Seq<char>;

/// The first Unix second that chrono has a date for: the start of its
/// first year, -262143.
pub open spec fn first_utc_second() -> int {
    -8_334_601_228_800
}

/// The last Unix second that chrono has a date for: the end of its last
/// year, 262142.
pub open spec fn last_utc_second() -> int {
    8_210_266_876_799
}

/// The UTC date and time of `unix` seconds as `YYYY:MM:DD HH:MM:SS`
/// (chrono `DateTime::from_timestamp`, then `format`). chrono has a date for
/// exactly the seconds from the start of its first year to the end of its
/// last, and nothing outside them; the text is named by
/// `utc_datetime_text`.
#[verifier::external_body]
pub(crate) fn utc_datetime(unix: i64) -> (r: Option<String>)
    ensures
        r is Some <==> first_utc_second() <= unix <= last_utc_second(),
        r matches Some(s) ==> s@ == utc_datetime_text(unix),
{
    chrono::DateTime::from_timestamp(unix, 0).map(|dt| dt.format("%Y:%m:%d %H:%M:%S").to_string())
}

/// The four bytes at `p` as a big-endian number (an atom type code).
pub open spec fn code_at(d: Seq<u8>, p: int) -> nat {
    be32(d[p], d[p + 1], d[p + 2], d[p + 3])
}

pub open spec fn is_container_code(c: nat) -> bool {
    c == 0x6d6f6f76 || c == 0x7472616b || c == 0x6d646961 || c == 0x6d696e66 || c == 0x7374626c
        || c == 0x75647461 || c == 0x65647473 || c == 0x64696e66 || c == 0x4e434454 || c
        == 0x6d657461
}

pub open spec fn is_leaf_code(c: nat) -> bool {
    c == 0x66747970 || c == 0x6d766864 || c == 0x746b6864 || c == 0x6d646864 || c == 0x73747364
        || c == 0x4e435447
}

/// Atoms that hold other atoms: moov, trak, mdia, minf, stbl, udta, edts,
/// dinf, NCDT, meta.
pub fn is_container(typ: u32) -> (r: bool)
    ensures
        r == is_container_code(typ as nat),
{
    typ == 0x6d6f6f76 || typ == 0x7472616b || typ == 0x6d646961 || typ == 0x6d696e66 || typ
        == 0x7374626c || typ == 0x75647461 || typ == 0x65647473 || typ == 0x64696e66 || typ
        == 0x4e434454 || typ == 0x6d657461
}

/// Atoms whose payload is read: ftyp, mvhd, tkhd, mdhd, stsd, NCTG.
pub fn is_leaf(typ: u32) -> (r: bool)
    ensures
        r == is_leaf_code(typ as nat),
{
    typ == 0x66747970 || typ == 0x6d766864 || typ == 0x746b6864 || typ == 0x6d646864 || typ
        == 0x73747364 || typ == 0x4e435447
}

/// What storing a QuickTime date (seconds since 1904) under `key` does: the
/// date, when it falls after the Unix epoch.
pub open spec fn qt_date_effect(m: M, key: Seq<char>, qt: u32) -> M {
    let unix = qt - 2_082_844_800;
    if unix <= 0 {
        m
    } else {
        m.insert(key, txt(utc_datetime_text(unix as i64)))
    }
}

/// Stores a QuickTime date under `key`.
fn insert_qt_date(metadata: &mut TagMap, key: &str, qt_seconds: u32)
    ensures
        final(metadata)@ == qt_date_effect(old(metadata)@, key@, qt_seconds),
{
    let unix: i64 = qt_seconds as i64 - QT_EPOCH_OFFSET;
    if unix <= 0 {
        return;
    }
    if let Some(s) = utc_datetime(unix) {
        metadata.insert_text(key, s);
    }
}

/// The integer part of a 16.16 fixed-point value.
pub fn fixed_16_16(v: u32) -> (r: u32)
    ensures
        r == v / 65536,
{
    v / 65536
}

/// The size and header length of the atom whose header is `hdr` (of which
/// `n` bytes were read), with `remaining` bytes left in its parent.
pub open spec fn atom_size_spec(hdr: Seq<u8>, n: int, remaining: u64) -> Option<(u64, u64)> {
    let size32 = be32(hdr[0], hdr[1], hdr[2], hdr[3]);
    if size32 == 1 {
        if n < 16 {
            None
        } else {
            Some((be64(hdr, 8) as u64, 16))
        }
    } else if size32 == 0 {
        Some((remaining, 8))
    } else {
        Some((size32 as u64, 8))
    }
}

/// The size and header length of an atom from its header: a 32-bit size,
/// or 1 for a 64-bit size after the type, or 0 for "to the end".
pub fn atom_size(hdr: &[u8], n: usize, remaining: u64) -> (r: Result<(u64, u64), ExifError>)
    requires
        hdr@.len() >= 16,
    ensures
        r matches Ok(v) ==> atom_size_spec(hdr@, n as int, remaining) == Some(v),
        r is Err ==> atom_size_spec(hdr@, n as int, remaining) is None && (r matches Err(
            ExifError::InvalidExif(m),
        ) && m@ == "Truncated extended QuickTime atom"@),
{
    let size32 = read_u32(hdr, 0, false);
    if size32 == 1 {
        if n < 16 {
            return Err(ExifError::invalid("Truncated extended QuickTime atom"));
        }
        Ok((read_u64_be_at(hdr, 8), 16))
    } else if size32 == 0 {
        Ok((remaining, 8))
    } else {
        Ok((size32 as u64, 8))
    }
}

/// The major brand's name.
pub open spec fn major_brand_text(b: Seq<u8>) -> Seq<char> {
    let c = code_at(b, 0);
    if c == 0x71742020 {
        "Apple QuickTime (.MOV/QT)"@
    } else if c == 0x6d703431 || c == 0x6d703432 || c == 0x69736f6d {
        "MP4 Base Media v1"@
    } else {
        latin1(b)
    }
}

/// The name of a major brand (four bytes).
fn major_brand_name(brand: &[u8]) -> (r: String)
    requires
        brand@.len() == 4,
    ensures
        r@ == major_brand_text(brand@),
{
    let c = read_u32(brand, 0, false);
    if c == 0x71742020 {
        text("Apple QuickTime (.MOV/QT)")
    } else if c == 0x6d703431 || c == 0x6d703432 || c == 0x69736f6d {
        text("MP4 Base Media v1")
    } else {
        latin1_text(brand)
    }
}

/// The decimal value of a two-char run, or 0 when it is not all digits.
pub open spec fn two_digit_or_zero(s: Seq<char>) -> nat {
    match crate::text::parse_unsigned(s, 4294967295) {
        Some(n) => n,
        None => 0,
    }
}

/// The minor version `YYYY.M.R` read from its eight lower-case hex digits:
/// the first four as they are, the next two and the last two as decimal
/// numbers (0 when they hold a hex letter).
pub open spec fn minor_version_text(minor: u32) -> Seq<char> {
    let hex = crate::text::hex_text(minor as nat, 8, false);
    hex.subrange(0, 4) + "."@ + dec_text(two_digit_or_zero(hex.subrange(4, 6))) + "."@ + dec_text(
        two_digit_or_zero(hex.subrange(6, 8)),
    )
}

/// Formats the `ftyp` minor version.
fn format_minor_version(minor: u32) -> (r: String)
    ensures
        r@ == minor_version_text(minor),
{
    let mut hex = String::new();
    crate::text::push_hex(&mut hex, minor as u64, 8, false);
    let h = crate::text::chars_of(hex.as_str());
    proof {
        crate::text::lemma_hex_text_len(minor as nat, 8, false);
    }
    let year = crate::text::string_from_chars(sub_slice(&h, 0, 4));
    let month_s = crate::text::string_from_chars(sub_slice(&h, 4, 6));
    let rev_s = crate::text::string_from_chars(sub_slice(&h, 6, 8));
    let month = match crate::text::parse_unsigned_text(month_s.as_str(), 4294967295) {
        Some(n) => n,
        None => 0,
    };
    let rev = match crate::text::parse_unsigned_text(rev_s.as_str(), 4294967295) {
        Some(n) => n,
        None => 0,
    };
    let mut out = year;
    append_str(&mut out, ".");
    push_dec(&mut out, month);
    append_str(&mut out, ".");
    push_dec(&mut out, rev);
    out
}

/// The compatible brands after the eight-byte `ftyp` header, the first `n`
/// of them, joined by `, `.
pub open spec fn brand_list(p: Seq<u8>, n: nat) -> Seq<char>
    decreases n,
{
    if n == 0 {
        Seq::empty()
    } else if n == 1 {
        utf8_lossy(p.subrange(8, 12))
    } else {
        brand_list(p, (n - 1) as nat) + ", "@ + utf8_lossy(
            p.subrange(8 + 4 * (n - 1), 8 + 4 * (n as int)),
        )
    }
}

/// What an `ftyp` atom adds: the major brand, the minor version, and the
/// compatible brands when there are any.
pub open spec fn ftyp_effect(p: Seq<u8>, m: M) -> M {
    if p.len() < 8 {
        m
    } else {
        let m1 = m.insert("MajorBrand"@, txt(major_brand_text(p.subrange(0, 4)))).insert(
            "MinorVersion"@,
            txt(minor_version_text(be32(p[4], p[5], p[6], p[7]) as u32)),
        );
        let n = ((p.len() - 8) / 4) as nat;
        if n == 0 {
            m1
        } else {
            m1.insert("CompatibleBrands"@, txt(brand_list(p, n)))
        }
    }
}

/// Parses an `ftyp` atom.
fn parse_ftyp(payload: &[u8], metadata: &mut TagMap)
    ensures
        final(metadata)@ == ftyp_effect(payload@, old(metadata)@),
{
    if payload.len() < 8 {
        return;
    }
    metadata.insert_text("MajorBrand", major_brand_name(sub_slice(payload, 0, 4)));
    let minor = read_u32(payload, 4, false);
    metadata.insert_text("MinorVersion", format_minor_version(minor));
    let mut brands = String::new();
    let mut n: usize = 0;
    let mut i: usize = 8;
    while payload.len() - i >= 4
        invariant
            i == 8 + 4 * n,
            i <= payload@.len(),
            brands@ == brand_list(payload@, n as nat),
        decreases payload.len() - i,
    {
        if n > 0 {
            append_str(&mut brands, ", ");
        }
        let b = utf8_lossy_text(sub_slice(payload, i, i + 4));
        append_str(&mut brands, b.as_str());
        assert(brands@ =~= brand_list(payload@, (n + 1) as nat));
        i = i + 4;
        n = n + 1;
    }
    assert(n == (payload@.len() - 8) / 4);
    if n > 0 {
        metadata.insert_text("CompatibleBrands", brands);
    }
}

/// A duration of `d / scale` seconds printed with two decimals and ` s`.
pub open spec fn seconds_value(d: u32, scale: u32) -> Seq<PieceModel> {
    seq![
        PieceModel::Number(Real { num: d as i64, den: scale as u64, style: RealStyle::Fixed(2) }),
        PieceModel::Text(" s"@),
    ]
}

/// A value printing `d / scale` seconds.
fn seconds(d: u32, scale: u32) -> (v: TagValue)
    ensures
        v@ == seconds_value(d, scale),
{
    let mut v = TagValue::number(Real { num: d as i64, den: scale as u64, style: RealStyle::Fixed(2) });
    v.push_text(text(" s"));
    assert(v@ =~= seconds_value(d, scale));
    v
}

/// What an `mvhd` atom adds.
pub open spec fn mvhd_effect(p: Seq<u8>, m: M) -> M {
    if p.len() < 20 || p[0] != 0 {
        m
    } else {
        let create = be32(p[4], p[5], p[6], p[7]) as u32;
        let modify = be32(p[8], p[9], p[10], p[11]) as u32;
        let scale = be32(p[12], p[13], p[14], p[15]) as u32;
        let duration = be32(p[16], p[17], p[18], p[19]) as u32;
        let m1 = qt_date_effect(m, "ModifyDate"@, modify);
        let m2 = if !m1.contains_key("CreateDate"@) {
            qt_date_effect(m1, "CreateDate"@, create)
        } else {
            m1
        };
        if scale > 0 {
            m2.insert("TimeScale"@, txt(dec_text(scale as nat))).insert(
                "Duration"@,
                seconds_value(duration, scale),
            ).insert("MediaDuration"@, seconds_value(duration, scale)).insert(
                "TrackDuration"@,
                seconds_value(duration, scale),
            )
        } else {
            m2
        }
    }
}

/// Parses a movie header (`mvhd`, version 0).
fn parse_mvhd(payload: &[u8], metadata: &mut TagMap)
    ensures
        final(metadata)@ == mvhd_effect(payload@, old(metadata)@),
{
    if payload.len() < 20 {
        return;
    }
    let version = payload[0];
    if version == 0 {
        let create = read_u32(payload, 4, false);
        let modify = read_u32(payload, 8, false);
        let scale = read_u32(payload, 12, false);
        let duration = read_u32(payload, 16, false);
        insert_qt_date(metadata, "ModifyDate", modify);
        // Movie header creation is UTC. Nikon NCTG CreateDate (local)
        // overwrites this later when it is present.
        if !metadata.contains_key("CreateDate") {
            insert_qt_date(metadata, "CreateDate", create);
        }
        if scale > 0 {
            metadata.insert_text("TimeScale", u64_text(scale as u64));
            metadata.insert(text("Duration"), seconds(duration, scale));
            metadata.insert(text("MediaDuration"), seconds(duration, scale));
            metadata.insert(text("TrackDuration"), seconds(duration, scale));
        }
    }
}

/// `WxH`.
pub open spec fn size_text(w: nat, h: nat) -> Seq<char> {
    dec_text(w) + "x"@ + dec_text(h)
}

/// Formats `WxH`.
fn size_string(w: u64, h: u64) -> (r: String)
    ensures
        r@ == size_text(w as nat, h as nat),
{
    let mut s = u64_text(w);
    append_str(&mut s, "x");
    push_dec(&mut s, h);
    s
}

/// What a `tkhd` atom adds.
pub open spec fn tkhd_effect(p: Seq<u8>, m: M) -> M {
    if p.len() < 84 || p[0] != 0 {
        m
    } else {
        let m1 = qt_date_effect(
            qt_date_effect(m, "TrackCreateDate"@, be32(p[4], p[5], p[6], p[7]) as u32),
            "TrackModifyDate"@,
            be32(p[8], p[9], p[10], p[11]) as u32,
        );
        let w = be32(p[76], p[77], p[78], p[79]) / 65536;
        let h = be32(p[80], p[81], p[82], p[83]) / 65536;
        if w > 0 && h > 0 {
            m1.insert("ImageWidth"@, txt(dec_text(w))).insert("ImageHeight"@, txt(dec_text(h))).insert(
                "ImageSize"@,
                txt(size_text(w, h)),
            ).insert("SourceImageWidth"@, txt(dec_text(w))).insert(
                "SourceImageHeight"@,
                txt(dec_text(h)),
            )
        } else {
            m1
        }
    }
}

/// Parses a track header (`tkhd`, version 0).
fn parse_tkhd(payload: &[u8], metadata: &mut TagMap)
    ensures
        final(metadata)@ == tkhd_effect(payload@, old(metadata)@),
{
    if payload.len() == 0 || payload[0] != 0 || payload.len() < 84 {
        return;
    }
    let create = read_u32(payload, 4, false);
    let modify = read_u32(payload, 8, false);
    insert_qt_date(metadata, "TrackCreateDate", create);
    insert_qt_date(metadata, "TrackModifyDate", modify);
    let width = fixed_16_16(read_u32(payload, 76, false));
    let height = fixed_16_16(read_u32(payload, 80, false));
    if width > 0 && height > 0 {
        metadata.insert_text("ImageWidth", u64_text(width as u64));
        metadata.insert_text("ImageHeight", u64_text(height as u64));
        metadata.insert_text("ImageSize", size_string(width as u64, height as u64));
        metadata.insert_text("SourceImageWidth", u64_text(width as u64));
        metadata.insert_text("SourceImageHeight", u64_text(height as u64));
    }
}

/// What an `mdhd` atom adds.
pub open spec fn mdhd_effect(p: Seq<u8>, m: M) -> M {
    if p.len() < 20 || p[0] != 0 {
        m
    } else {
        let m1 = qt_date_effect(
            qt_date_effect(m, "MediaCreateDate"@, be32(p[4], p[5], p[6], p[7]) as u32),
            "MediaModifyDate"@,
            be32(p[8], p[9], p[10], p[11]) as u32,
        );
        let scale = be32(p[12], p[13], p[14], p[15]);
        if scale > 0 {
            m1.insert("MediaTimeScale"@, txt(dec_text(scale)))
        } else {
            m1
        }
    }
}

/// Parses a media header (`mdhd`, version 0).
fn parse_mdhd(payload: &[u8], metadata: &mut TagMap)
    ensures
        final(metadata)@ == mdhd_effect(payload@, old(metadata)@),
{
    if payload.len() == 0 || payload[0] != 0 || payload.len() < 20 {
        return;
    }
    let create = read_u32(payload, 4, false);
    let modify = read_u32(payload, 8, false);
    let scale = read_u32(payload, 12, false);
    insert_qt_date(metadata, "MediaCreateDate", create);
    insert_qt_date(metadata, "MediaModifyDate", modify);
    if scale > 0 {
        metadata.insert_text("MediaTimeScale", u64_text(scale as u64));
    }
}

/// The name of an `nclc` color parameter.
pub open spec fn color_param_text(v: u16) -> Seq<char> {
    if v == 1 {
        "BT.709"@
    } else if v == 6 {
        "SMPTE 170M"@
    } else {
        "Unknown"@
    }
}

/// The name of an `nclc` color parameter.
fn color_param_name(v: u16) -> (r: &'static str)
    ensures
        r@ == color_param_text(v),
{
    if v == 1 {
        "BT.709"
    } else if v == 6 {
        "SMPTE 170M"
    } else {
        "Unknown"
    }
}

/// What a `colr` box adds (only `nclc` color parameters are read).
pub open spec fn colr_effect(p: Seq<u8>, m: M) -> M {
    if p.len() < 10 || code_at(p, 0) != 0x6e636c63 {
        m
    } else {
        m.insert("ColorProfiles"@, txt("nclc"@)).insert(
            "ColorPrimaries"@,
            txt(color_param_text(be16(p[4], p[5]) as u16)),
        ).insert("TransferCharacteristics"@, txt(color_param_text(be16(p[6], p[7]) as u16))).insert(
            "MatrixCoefficients"@,
            txt(color_param_text(be16(p[8], p[9]) as u16)),
        )
    }
}

/// Parses a `colr` box.
fn parse_colr(payload: &[u8], metadata: &mut TagMap)
    ensures
        final(metadata)@ == colr_effect(payload@, old(metadata)@),
{
    if payload.len() < 10 || read_u32(payload, 0, false) != 0x6e636c63 {
        return;
    }
    metadata.insert_str("ColorProfiles", "nclc");
    let primaries = read_u16(payload, 4, false);
    let transfer = read_u16(payload, 6, false);
    let matrix = read_u16(payload, 8, false);
    metadata.insert_str("ColorPrimaries", color_param_name(primaries));
    metadata.insert_str("TransferCharacteristics", color_param_name(transfer));
    metadata.insert_str("MatrixCoefficients", color_param_name(matrix));
}

/// The payload bounds of the first box of type `code`, scanning byte by
/// byte from `pos`, whose size fits.
pub open spec fn typed_box_scan(d: Seq<u8>, code: nat, pos: int) -> Option<(int, int)>
    decreases d.len() - pos,
{
    if pos < 0 || pos + 8 > d.len() {
        None
    } else if code_at(d, pos + 4) == code && code_at(d, pos) >= 8 && pos + code_at(d, pos) <= d.len() {
        Some((pos + 8, pos + code_at(d, pos)))
    } else {
        typed_box_scan(d, code, pos + 1)
    }
}

/// The payload of the first box of type `typ` inside `data`. Sample entries
/// mix a fixed header with nested boxes, so this scans for the type instead
/// of walking boxes.
fn find_typed_box(data: &[u8], typ: u32) -> (r: Option<&[u8]>)
    ensures
        r matches Some(s) ==> (typed_box_scan(data@, typ as nat, 0) matches Some((a, b)) && s@
            == data@.subrange(a, b)),
        r is None ==> typed_box_scan(data@, typ as nat, 0) is None,
{
    let mut pos: usize = 0;
    while data.len() - pos >= 8
        invariant
            pos <= data@.len(),
            typed_box_scan(data@, typ as nat, 0) == typed_box_scan(data@, typ as nat, pos as int),
        decreases data.len() - pos,
    {
        if read_u32(data, pos + 4, false) == typ {
            let size = read_u32(data, pos, false) as usize;
            if size >= 8 && size <= data.len() - pos {
                return Some(sub_slice(data, pos + 8, pos + size));
            }
        }
        pos = pos + 1;
    }
    None
}

/// Whether every byte is a visible ASCII char or a space.
pub open spec fn graphic_or_space(b: Seq<u8>) -> bool {
    forall|i: int| 0 <= i < b.len() ==> (0x21 <= #[trigger] b[i] <= 0x7e || b[i] == 0x20)
}

/// What one sample entry of `stsd`, at `pos` with `size` bytes, adds.
pub open spec fn stsd_entry_effect(p: Seq<u8>, pos: int, size: int, m: M) -> M {
    let codec = p.subrange(pos + 4, pos + 8);
    let m1 = if graphic_or_space(codec) {
        m.insert("CompressorID"@, txt(latin1(codec))).insert("VideoCodec"@, txt(latin1(codec)))
    } else {
        m
    };
    let m2 = if size >= 36 {
        let w = be16(p[pos + 32], p[pos + 33]);
        let h = be16(p[pos + 34], p[pos + 35]);
        if w > 0 && h > 0 && !m1.contains_key("ImageWidth"@) {
            m1.insert("ImageWidth"@, txt(dec_text(w))).insert("ImageHeight"@, txt(dec_text(h))).insert(
                "ImageSize"@,
                txt(size_text(w, h)),
            )
        } else {
            m1
        }
    } else {
        m1
    };
    let m3 = if size >= 86 {
        let depth = be16(p[pos + 82], p[pos + 83]);
        let ma = if depth > 0 && depth < 128 {
            m2.insert("BitDepth"@, txt(dec_text(depth)))
        } else {
            m2
        };
        let x = be32(p[pos + 36], p[pos + 37], p[pos + 38], p[pos + 39]) / 65536;
        let y = be32(p[pos + 40], p[pos + 41], p[pos + 42], p[pos + 43]) / 65536;
        let mb = if x > 0 {
            ma.insert("XResolution"@, txt(dec_text(x)))
        } else {
            ma
        };
        if y > 0 {
            mb.insert("YResolution"@, txt(dec_text(y)))
        } else {
            mb
        }
    } else {
        m2
    };
    let entry = p.subrange(pos, pos + size);
    match typed_box_scan(entry, 0x636f6c72, 0) {
        Some((a, b)) => colr_effect(entry.subrange(a, b), m3),
        None => m3,
    }
}

/// What the sample entries of `stsd` from `pos` on add, at most `k` more.
pub open spec fn stsd_entries(p: Seq<u8>, pos: int, k: nat, m: M) -> M
    decreases k,
{
    if k == 0 || pos + 8 > p.len() {
        m
    } else {
        let size = code_at(p, pos) as int;
        if size < 8 || pos + size > p.len() {
            m
        } else {
            stsd_entries(p, pos + size, (k - 1) as nat, stsd_entry_effect(p, pos, size, m))
        }
    }
}

/// What an `stsd` atom adds.
pub open spec fn stsd_effect(p: Seq<u8>, m: M) -> M {
    if p.len() < 8 {
        m
    } else {
        stsd_entries(p, 8, code_at(p, 4), m)
    }
}

/// Parses a sample description (`stsd`): codec, frame size, depth and
/// resolution of each entry, and its `colr` box.
fn parse_stsd(payload: &[u8], metadata: &mut TagMap)
    ensures
        final(metadata)@ == stsd_effect(payload@, old(metadata)@),
{
    if payload.len() < 8 {
        return;
    }
    let count = read_u32(payload, 4, false);
    let mut pos: usize = 8;
    let mut k: u32 = 0;
    let ghost m0 = metadata@;
    while k < count
        invariant
            k <= count,
            8 <= pos <= payload@.len(),
            count == code_at(payload@, 4),
            stsd_entries(payload@, 8, count as nat, m0) == stsd_entries(
                payload@,
                pos as int,
                (count - k) as nat,
                metadata@,
            ),
        decreases count - k,
    {
        if payload.len() - pos < 8 {
            break;
        }
        let size = read_u32(payload, pos, false) as usize;
        if size < 8 || size > payload.len() - pos {
            break;
        }
        parse_stsd_entry(payload, pos, size, metadata);
        pos = pos + size;
        k = k + 1;
    }
}

/// Reads one `stsd` sample entry.
fn parse_stsd_entry(payload: &[u8], pos: usize, size: usize, metadata: &mut TagMap)
    requires
        size >= 8,
        pos + size <= payload.len(),
    ensures
        final(metadata)@ == stsd_entry_effect(payload@, pos as int, size as int, old(metadata)@),
{
    let codec_bytes = sub_slice(payload, pos + 4, pos + 8);
    let mut graphic = true;
    let mut j: usize = 0;
    while j < 4
        invariant
            j <= 4,
            codec_bytes@.len() == 4,
            graphic == forall|i: int| 0 <= i < j ==> (0x21 <= #[trigger] codec_bytes@[i] <= 0x7e || codec_bytes@[i] == 0x20),
        decreases 4 - j,
    {
        let b = codec_bytes[j];
        if !((0x21 <= b && b <= 0x7e) || b == 0x20) {
            graphic = false;
        }
        j = j + 1;
    }
    if graphic {
        metadata.insert_text("CompressorID", latin1_text(codec_bytes));
        metadata.insert_text("VideoCodec", latin1_text(codec_bytes));
    }
    if size >= 36 {
        let width = read_u16(payload, pos + 32, false);
        let height = read_u16(payload, pos + 34, false);
        if width > 0 && height > 0 && !metadata.contains_key("ImageWidth") {
            metadata.insert_text("ImageWidth", u64_text(width as u64));
            metadata.insert_text("ImageHeight", u64_text(height as u64));
            metadata.insert_text("ImageSize", size_string(width as u64, height as u64));
        }
    }
    if size >= 86 {
        let depth = read_u16(payload, pos + 82, false);
        if depth > 0 && depth < 128 {
            metadata.insert_text("BitDepth", u64_text(depth as u64));
        }
        let x_res = fixed_16_16(read_u32(payload, pos + 36, false));
        let y_res = fixed_16_16(read_u32(payload, pos + 40, false));
        if x_res > 0 {
            metadata.insert_text("XResolution", u64_text(x_res as u64));
        }
        if y_res > 0 {
            metadata.insert_text("YResolution", u64_text(y_res as u64));
        }
    }
    let entry = sub_slice(payload, pos, pos + size);
    if let Some(colr) = find_typed_box(entry, 0x636f6c72) {
        parse_colr(colr, metadata);
    }
}


/// `Unknown (v)`.
pub open spec fn unknown_text(v: nat) -> Seq<char> {
    "Unknown ("@ + dec_text(v) + ")"@
}

/// Formats `Unknown (v)`.
fn unknown(v: u64) -> (r: String)
    ensures
        r@ == unknown_text(v as nat),
{
    let mut s = text("Unknown (");
    push_dec(&mut s, v);
    append_str(&mut s, ")");
    s
}

/// What `put` does: store the text unless it is empty.
pub open spec fn put_effect(m: M, key: Seq<char>, v: Seq<char>) -> M {
    if v.len() == 0 {
        m
    } else {
        m.insert(key, txt(v))
    }
}

/// Stores `value` under `key` unless it is empty.
fn put(metadata: &mut TagMap, key: &str, value: String)
    ensures
        final(metadata)@ == put_effect(old(metadata)@, key@, value@),
{
    if !value.as_str().is_empty() {
        metadata.insert_text(key, value);
    }
}

/// A value that prints as nothing: only empty text pieces.
pub open spec fn is_blank(v: Seq<PieceModel>) -> bool {
    forall|i: int| 0 <= i < v.len() ==> #[trigger] v[i] == PieceModel::Text(Seq::empty())
}

/// What `put_value` does: store the value unless it prints as nothing.
pub open spec fn put_value_effect(m: M, key: Seq<char>, v: Seq<PieceModel>) -> M {
    if is_blank(v) {
        m
    } else {
        m.insert(key, v)
    }
}

/// Stores `value` under `key` unless it prints as nothing.
fn put_value(metadata: &mut TagMap, key: &str, value: TagValue)
    ensures
        final(metadata)@ == put_value_effect(old(metadata)@, key@, value@),
{
    let mut blank = true;
    let mut i: usize = 0;
    while i < value.pieces.len()
        invariant
            i <= value.pieces@.len(),
            blank == forall|j: int| 0 <= j < i ==> #[trigger] value@[j] == PieceModel::Text(Seq::empty()),
        decreases value.pieces.len() - i,
    {
        assert(value@[i as int] == value.pieces@[i as int].model());
        match &value.pieces[i] {
            crate::metadata::Piece::Text(s) => {
                if s.as_str().is_empty() {
                    assert(s@ =~= Seq::<char>::empty());
                } else {
                    blank = false;
                }
            },
            crate::metadata::Piece::Number(_) => {
                blank = false;
            },
        }
        i = i + 1;
    }
    if !blank {
        metadata.insert(text(key), value);
    }
}

/// The size of one value of a TIFF format, in bytes.
pub open spec fn format_size_spec(fmt: u16) -> Option<nat> {
    if fmt == 1 || fmt == 2 || fmt == 6 || fmt == 7 {
        Some(1)
    } else if fmt == 3 || fmt == 8 {
        Some(2)
    } else if fmt == 4 || fmt == 9 || fmt == 11 {
        Some(4)
    } else if fmt == 5 || fmt == 10 || fmt == 12 {
        Some(8)
    } else {
        None
    }
}

/// The size of one value of a TIFF format, in bytes.
fn format_size(fmt: u16) -> (r: Option<usize>)
    ensures
        r matches Some(n) ==> format_size_spec(fmt) == Some(n as nat),
        r is None ==> format_size_spec(fmt) is None,
{
    if fmt == 1 || fmt == 2 || fmt == 6 || fmt == 7 {
        Some(1)
    } else if fmt == 3 || fmt == 8 {
        Some(2)
    } else if fmt == 4 || fmt == 9 || fmt == 11 {
        Some(4)
    } else if fmt == 5 || fmt == 10 || fmt == 12 {
        Some(8)
    } else {
        None
    }
}

/// The index of the first NUL byte at or after `i`, or the length.
pub open spec fn nul_end(raw: Seq<u8>, i: int) -> int
    decreases raw.len() - i,
{
    if i >= raw.len() {
        raw.len() as int
    } else if raw[i] == 0 {
        i
    } else {
        nul_end(raw, i + 1)
    }
}

/// The text before the first NUL, decoded leniently and trimmed.
pub open spec fn ascii_text(raw: Seq<u8>) -> Seq<char> {
    trim(utf8_lossy(raw.subrange(0, nul_end(raw, 0))))
}

/// The text before the first NUL, decoded leniently and trimmed.
fn ascii(raw: &[u8]) -> (r: String)
    ensures
        r@ == ascii_text(raw@),
{
    let mut end: usize = 0;
    while end < raw.len() && raw[end] != 0
        invariant
            end <= raw@.len(),
            nul_end(raw@, 0) == nul_end(raw@, end as int),
        decreases raw.len() - end,
    {
        end = end + 1;
    }
    let t = utf8_lossy_text(sub_slice(raw, 0, end));
    trim_text(t.as_str())
}

/// What std `char::to_uppercase` gives for a char.
pub uninterp spec fn char_upper_text(c: char) -> Seq<char>;

/// What std `char::to_lowercase` gives for a char.
pub uninterp spec fn char_lower_text(c: char) -> Seq<char>;

/// Appends the upper-case form of `c` (std `char::to_uppercase`), named by
/// `char_upper_text`; for an ASCII letter it is its ASCII upper case.
#[verifier::external_body]
fn push_upper(s: &mut String, c: char)
    ensures
        final(s)@ == old(s)@ + char_upper_text(c),
        ('a' <= c && c <= 'z') ==> final(s)@ == old(s)@.push(ascii_upper(c)),
{
    s.extend(c.to_uppercase())
}

/// Appends the lower-case form of `c` (std `char::to_lowercase`), named by
/// `char_lower_text`; for an ASCII letter it is its ASCII lower case.
#[verifier::external_body]
fn push_lower(s: &mut String, c: char)
    ensures
        final(s)@ == old(s)@ + char_lower_text(c),
        ('A' <= c && c <= 'Z') ==> final(s)@ == old(s)@.push(ascii_lower(c)),
{
    s.extend(c.to_lowercase())
}

/// Title case: the first char after whitespace (or at the start) upper-cased,
/// the rest lower-cased. `cap` says whether the next char starts a word.
pub open spec fn title_from(s: Seq<char>, cap: bool) -> Seq<char>
    decreases s.len(),
{
    if s.len() == 0 {
        s
    } else {
        let c = s[0];
        if is_white(c) {
            seq![c] + title_from(s.drop_first(), true)
        } else if cap {
            char_upper_text(c) + title_from(s.drop_first(), false)
        } else {
            char_lower_text(c) + title_from(s.drop_first(), false)
        }
    }
}

/// Title-cases a Picture Control name.
fn nikon_title_case(value: &str) -> (r: String)
    ensures
        r@ == title_from(value@, true),
{
    let v = chars_of(value);
    let mut out = String::new();
    let mut cap = true;
    let mut i: usize = 0;
    assert(v@.subrange(0, v@.len() as int) =~= v@);
    while i < v.len()
        invariant
            i <= v@.len(),
            v@ == value@,
            out@ + title_from(v@.subrange(i as int, v@.len() as int), cap) == title_from(value@, true),
        decreases v.len() - i,
    {
        let ch = v[i];
        let ghost rest = v@.subrange(i as int, v@.len() as int);
        assert(rest.drop_first() =~= v@.subrange(i + 1, v@.len() as int));
        assert(rest[0] == ch);
        let ghost before = out@;
        if is_white_char(ch) {
            cap = true;
            push_char(&mut out, ch);
            assert(out@ == before + seq![ch]);
        } else if cap {
            push_upper(&mut out, ch);
            cap = false;
        } else {
            push_lower(&mut out, ch);
        }
        i = i + 1;
    }
    assert(v@.subrange(v@.len() as int, v@.len() as int) =~= Seq::<char>::empty());
    out
}

/// The big-endian 16-bit values of `raw`, two bytes each.
pub open spec fn be16s(raw: Seq<u8>) -> Seq<u16> {
    Seq::new(raw.len() / 2, |i: int| be16(raw[2 * i], raw[2 * i + 1]) as u16)
}

/// The big-endian 16-bit values of `raw` (a trailing odd byte is ignored).
fn be_u16s(raw: &[u8]) -> (r: Vec<u16>)
    ensures
        r@ == be16s(raw@),
{
    let mut r: Vec<u16> = Vec::new();
    let mut i: usize = 0;
    while i < raw.len() / 2
        invariant
            i <= raw@.len() / 2,
            r@ == be16s(raw@).subrange(0, i as int),
        decreases raw.len() / 2 - i,
    {
        r.push(read_u16(raw, 2 * i, false));
        i = i + 1;
        assert(r@ =~= be16s(raw@).subrange(0, i as int));
    }
    assert(be16s(raw@).subrange(0, (raw@.len() / 2) as int) =~= be16s(raw@));
    r
}

/// The first big-endian 16-bit value of `raw`.
pub open spec fn first_be16(raw: Seq<u8>) -> Option<u16> {
    if raw.len() >= 2 {
        Some(be16(raw[0], raw[1]) as u16)
    } else {
        None
    }
}

/// The first big-endian 32-bit value of `raw`.
pub open spec fn first_be32(raw: Seq<u8>) -> Option<u32> {
    if raw.len() >= 4 {
        Some(be32(raw[0], raw[1], raw[2], raw[3]) as u32)
    } else {
        None
    }
}

/// The first big-endian 16-bit value of `raw`.
fn first_u16(raw: &[u8]) -> (r: Option<u16>)
    ensures
        r == first_be16(raw@),
{
    let v = be_u16s(raw);
    if v.len() > 0 {
        Some(v[0])
    } else {
        None
    }
}

/// The first big-endian 32-bit value of `raw`.
fn first_u32(raw: &[u8]) -> (r: Option<u32>)
    ensures
        r == first_be32(raw@),
{
    let v = be_u32s(raw);
    if v.len() > 0 {
        Some(v[0])
    } else {
        None
    }
}

/// The big-endian 32-bit values of `raw`, four bytes each.
pub open spec fn be32s(raw: Seq<u8>) -> Seq<u32> {
    Seq::new(raw.len() / 4, |i: int| be32(raw[4 * i], raw[4 * i + 1], raw[4 * i + 2], raw[4 * i + 3]) as u32)
}

/// The big-endian 32-bit values of `raw` (trailing bytes are ignored).
fn be_u32s(raw: &[u8]) -> (r: Vec<u32>)
    ensures
        r@ == be32s(raw@),
{
    let mut r: Vec<u32> = Vec::new();
    let mut i: usize = 0;
    while i < raw.len() / 4
        invariant
            i <= raw@.len() / 4,
            r@ == be32s(raw@).subrange(0, i as int),
        decreases raw.len() / 4 - i,
    {
        r.push(read_u32(raw, 4 * i, false));
        i = i + 1;
        assert(r@ =~= be32s(raw@).subrange(0, i as int));
    }
    assert(be32s(raw@).subrange(0, (raw@.len() / 4) as int) =~= be32s(raw@));
    r
}

/// The first unsigned rational (two big-endian 32-bit values).
pub open spec fn first_rational_spec(raw: Seq<u8>) -> Option<(u32, u32)> {
    if raw.len() < 8 {
        None
    } else {
        Some((be32(raw[0], raw[1], raw[2], raw[3]) as u32, be32(raw[4], raw[5], raw[6], raw[7]) as u32))
    }
}

/// The first unsigned rational of `raw`.
fn first_rational(raw: &[u8]) -> (r: Option<(u32, u32)>)
    ensures
        r == first_rational_spec(raw@),
{
    if raw.len() < 8 {
        return None;
    }
    Some((read_u32(raw, 0, false), read_u32(raw, 4, false)))
}

/// The first signed rational (two big-endian 32-bit values).
pub open spec fn first_srational_spec(raw: Seq<u8>) -> Option<(i32, i32)> {
    if raw.len() < 8 {
        None
    } else {
        Some((
            as_i32(be32(raw[0], raw[1], raw[2], raw[3])) as i32,
            as_i32(be32(raw[4], raw[5], raw[6], raw[7])) as i32,
        ))
    }
}

/// The first signed rational of `raw`.
fn first_srational(raw: &[u8]) -> (r: Option<(i32, i32)>)
    ensures
        r == first_srational_spec(raw@),
{
    if raw.len() < 8 {
        return None;
    }
    Some((read_i32(raw, 0, false), read_i32(raw, 4, false)))
}

/// The greatest common divisor, at least 1.
pub open spec fn gcd_at_least_one(a: nat, b: nat) -> nat {
    let g = crate::tiff::gcd_spec(a, b);
    if g >= 1 {
        g
    } else {
        1
    }
}

/// The greatest common divisor of `a` and `b`, or 1 when both are 0.
fn gcd(a: u32, b: u32) -> (r: u32)
    ensures
        r == gcd_at_least_one(a as nat, b as nat),
        r >= 1,
{
    let g = crate::tiff::TiffParser::gcd(a, b);
    if g >= 1 {
        g
    } else {
        1
    }
}

/// `n/d` in lowest terms, `n` alone when the denominator reduces to 1, and
/// `0` for a zero denominator.
pub open spec fn reduced_fraction_text(n: u32, d: u32) -> Seq<char> {
    if d == 0 {
        "0"@
    } else {
        let g = gcd_at_least_one(n as nat, d as nat);
        if d as nat / g == 1 {
            dec_text(n as nat / g)
        } else {
            dec_text(n as nat / g) + "/"@ + dec_text(d as nat / g)
        }
    }
}

/// Formats a fraction in lowest terms.
fn reduce_fraction(n: u32, d: u32) -> (r: String)
    ensures
        r@ == reduced_fraction_text(n, d),
{
    if d == 0 {
        return text("0");
    }
    let g = gcd(n, d);
    let n2 = n / g;
    let d2 = d / g;
    if d2 == 1 {
        u64_text(n2 as u64)
    } else {
        let mut s = u64_text(n2 as u64);
        append_str(&mut s, "/");
        push_dec(&mut s, d2 as u64);
        s
    }
}

/// An f-number: one decimal, or `0` for a zero denominator.
pub open spec fn fnumber_value(n: u32, d: u32) -> Seq<PieceModel> {
    if d == 0 {
        txt("0"@)
    } else {
        num(Real { num: n as i64, den: d as u64, style: RealStyle::Fixed(1) })
    }
}

/// Formats an f-number.
fn format_fnumber(n: u32, d: u32) -> (r: TagValue)
    ensures
        r@ == fnumber_value(n, d),
{
    if d == 0 {
        return TagValue::text(text("0"));
    }
    TagValue::number(Real { num: n as i64, den: d as u64, style: RealStyle::Fixed(1) })
}

/// A focal length: one decimal and ` mm`, or `0 mm` for a zero denominator.
pub open spec fn focal_value(n: u32, d: u32) -> Seq<PieceModel> {
    if d == 0 {
        txt("0 mm"@)
    } else {
        seq![
            PieceModel::Number(Real { num: n as i64, den: d as u64, style: RealStyle::Fixed(1) }),
            PieceModel::Text(" mm"@),
        ]
    }
}

/// Formats a focal length.
fn format_focal(n: u32, d: u32) -> (r: TagValue)
    ensures
        r@ == focal_value(n, d),
{
    if d == 0 {
        return TagValue::text(text("0 mm"));
    }
    let mut v = TagValue::number(Real { num: n as i64, den: d as u64, style: RealStyle::Fixed(1) });
    v.push_text(text(" mm"));
    assert(v@ =~= focal_value(n, d));
    v
}

/// A signed fraction with a positive denominator.
pub open spec fn signed_real(n: i32, d: i32, style: RealStyle) -> Real {
    if d < 0 {
        Real { num: -(n as int) as i64, den: (-(d as int)) as u64, style }
    } else {
        Real { num: n as i64, den: d as u64, style }
    }
}

/// The fraction `n / d` (`d != 0`) with its denominator made positive.
fn make_signed_real(n: i32, d: i32, style: RealStyle) -> (r: Real)
    requires
        d != 0,
    ensures
        r == signed_real(n, d, style),
{
    if d < 0 {
        Real { num: -(n as i64), den: (-(d as i64)) as u64, style }
    } else {
        Real { num: n as i64, den: d as u64, style }
    }
}

/// An exposure compensation in EV, or `0` for a zero denominator.
pub open spec fn ev_value(n: i32, d: i32) -> Seq<PieceModel> {
    if d == 0 {
        txt("0"@)
    } else {
        num(signed_real(n, d, RealStyle::Ev))
    }
}

/// Formats an exposure compensation.
fn format_ev(n: i32, d: i32) -> (r: TagValue)
    ensures
        r@ == ev_value(n, d),
{
    if d == 0 {
        return TagValue::text(text("0"));
    }
    TagValue::number(make_signed_real(n, d, RealStyle::Ev))
}

/// A frame rate, or `0` for a zero denominator.
pub open spec fn frame_rate_value(n: u32, d: u32) -> Seq<PieceModel> {
    if d == 0 {
        txt("0"@)
    } else {
        num(Real { num: n as i64, den: d as u64, style: RealStyle::FrameRate })
    }
}

/// Formats a frame rate.
fn format_frame_rate(n: u32, d: u32) -> (r: TagValue)
    ensures
        r@ == frame_rate_value(n, d),
{
    if d == 0 {
        return TagValue::text(text("0"));
    }
    TagValue::number(Real { num: n as i64, den: d as u64, style: RealStyle::FrameRate })
}

/// The `i`-th rational of a lens-info record, printed by `trim_float`; a zero
/// denominator stands for 0.
pub open spec fn lens_real(raw: Seq<u8>, i: int) -> Real {
    let n = be32(raw[8 * i], raw[8 * i + 1], raw[8 * i + 2], raw[8 * i + 3]);
    let d = be32(raw[8 * i + 4], raw[8 * i + 5], raw[8 * i + 6], raw[8 * i + 7]);
    if d == 0 {
        Real { num: 0, den: 1, style: RealStyle::Trim }
    } else {
        Real { num: n as i64, den: d as u64, style: RealStyle::Trim }
    }
}

/// Lens info `A-Bmm f/C-D`, or nothing when the record is short.
pub open spec fn lens_info_value(raw: Seq<u8>) -> Seq<PieceModel> {
    if raw.len() < 32 {
        Seq::empty()
    } else {
        seq![
            PieceModel::Number(lens_real(raw, 0)),
            PieceModel::Text("-"@),
            PieceModel::Number(lens_real(raw, 1)),
            PieceModel::Text("mm f/"@),
            PieceModel::Number(lens_real(raw, 2)),
            PieceModel::Text("-"@),
            PieceModel::Number(lens_real(raw, 3)),
        ]
    }
}

/// The `i`-th rational of a lens-info record.
fn lens_rational(raw: &[u8], i: usize) -> (r: Real)
    requires
        i < 4,
        raw@.len() >= 32,
    ensures
        r == lens_real(raw@, i as int),
{
    let n = read_u32(raw, i * 8, false);
    let d = read_u32(raw, i * 8 + 4, false);
    if d == 0 {
        Real { num: 0, den: 1, style: RealStyle::Trim }
    } else {
        Real { num: n as i64, den: d as u64, style: RealStyle::Trim }
    }
}

/// Formats lens info (four rationals).
fn format_lens_info(raw: &[u8]) -> (r: TagValue)
    ensures
        r@ == lens_info_value(raw@),
{
    if raw.len() < 32 {
        return TagValue::empty();
    }
    let mut v = TagValue::number(lens_rational(raw, 0));
    v.push_text(text("-"));
    v.push_number(lens_rational(raw, 1));
    v.push_text(text("mm f/"));
    v.push_number(lens_rational(raw, 2));
    v.push_text(text("-"));
    v.push_number(lens_rational(raw, 3));
    assert(v@ =~= lens_info_value(raw@));
    v
}

/// One part of a fine-tune record: the whole quotient when exact, else one
/// decimal, or `0` for a zero denominator.
pub open spec fn fine_tune_part(n: i32, d: i32) -> PieceModel {
    if d == 0 {
        PieceModel::Text("0"@)
    } else if (n as int) % (d as int) == 0 {
        PieceModel::Text(signed_dec_text((n as int) / (d as int)))
    } else {
        PieceModel::Number(signed_real(n, d, RealStyle::Fixed(1)))
    }
}

/// The first `k` parts of a fine-tune record, separated by spaces.
pub open spec fn fine_tune_pieces(raw: Seq<u8>, k: nat) -> Seq<PieceModel>
    decreases k,
{
    if k == 0 {
        Seq::empty()
    } else {
        let p = 8 * (k - 1);
        let part = fine_tune_part(
            as_i32(be32(raw[p], raw[p + 1], raw[p + 2], raw[p + 3])) as i32,
            as_i32(be32(raw[p + 4], raw[p + 5], raw[p + 6], raw[p + 7])) as i32,
        );
        if k == 1 {
            seq![part]
        } else {
            fine_tune_pieces(raw, (k - 1) as nat) + seq![PieceModel::Text(" "@), part]
        }
    }
}

/// The size of `x`, without its sign.
pub open spec fn magnitude(x: int) -> int {
    if x < 0 {
        -x
    } else {
        x
    }
}

/// The quotient of an exact division, rebuilt from the magnitudes.
pub open spec fn signed_quotient(n: int, d: int) -> int {
    if (n < 0) == (d < 0) {
        magnitude(n) / magnitude(d)
    } else {
        -(magnitude(n) / magnitude(d))
    }
}

/// A division is exact exactly when the division of the magnitudes is,
/// and then the quotient carries the product of the signs.
proof fn lemma_exact_magnitudes(n: int, d: int)
    requires
        d != 0,
    ensures
        (n % d == 0) == (magnitude(n) % magnitude(d) == 0),
        n % d == 0 ==> n / d == signed_quotient(n, d),
{
    let an = magnitude(n);
    let ad = magnitude(d);
    let same = (n < 0) == (d < 0);
    vstd::arithmetic::div_mod::lemma_fundamental_div_mod(an, ad);
    vstd::arithmetic::div_mod::lemma_fundamental_div_mod(n, d);
    if an % ad == 0 {
        let m = an / ad;
        let k = if same { m } else { -m };
        assert(n == d * k) by (nonlinear_arith)
            requires
                an == ad * m,
                an == (if n < 0 { -n } else { n }),
                ad == (if d < 0 { -d } else { d }),
                k == (if (n < 0) == (d < 0) { m } else { -m }),
        ;
        lemma_exact_quotient(n, d, k);
    }
    if n % d == 0 {
        let k = n / d;
        let m = if same { k } else { -k };
        assert(an == ad * m) by (nonlinear_arith)
            requires
                n == d * k,
                an == (if n < 0 { -n } else { n }),
                ad == (if d < 0 { -d } else { d }),
                m == (if (n < 0) == (d < 0) { k } else { -k }),
        ;
        lemma_exact_quotient(an, ad, m);
    }
}

/// A multiple of `d` leaves no remainder, and its quotient is the factor.
proof fn lemma_exact_quotient(n: int, d: int, q: int)
    by (nonlinear_arith)
    requires
        d != 0,
        n == d * q,
    ensures
        n % d == 0,
        n / d == q,
{
}

/// Formats a white-balance fine-tune record (signed rationals). A part
/// is exact is written as its whole quotient.
fn format_fine_tune(raw: &[u8]) -> (r: TagValue)
    ensures
        r@ == fine_tune_pieces(raw@, raw@.len() / 8),
{
    let mut v = TagValue::empty();
    let mut k: usize = 0;
    let mut i: usize = 0;
    while raw.len() - i >= 8
        invariant
            i == 8 * k,
            i <= raw@.len(),
            v@ == fine_tune_pieces(raw@, k as nat),
        decreases raw.len() - i,
    {
        let n = read_i32(raw, i, false);
        let d = read_i32(raw, i + 4, false);
        let ghost before = v@;
        let ghost part = fine_tune_part(n, d);
        if k > 0 {
            v.push_text(text(" "));
        }
        if d == 0 {
            v.push_text(text("0"));
        } else {
            let an: u64 = if n < 0 { (-(n as i64)) as u64 } else { n as u64 };
            let ad: u64 = if d < 0 { (-(d as i64)) as u64 } else { d as u64 };
            proof {
                lemma_exact_magnitudes(n as int, d as int);
            }
            if an % ad == 0 {
                let m = (an / ad) as i64;
                let q: i64 = if (n < 0) == (d < 0) { m } else { -m };
                v.push_text(i64_text(q));
            } else {
                v.push_number(make_signed_real(n, d, RealStyle::Fixed(1)));
            }
        }
        if k > 0 {
            assert(v@ =~= before + seq![PieceModel::Text(" "@), part]);
        } else {
            assert(v@ =~= seq![part]);
        }
        assert(v@ =~= fine_tune_pieces(raw@, (k + 1) as nat));
        i = i + 8;
        k = k + 1;
    }
    v
}

/// The texts of `parts` joined by `sep`.
pub open spec fn join_text(parts: Seq<Seq<char>>, sep: Seq<char>) -> Seq<char>
    decreases parts.len(),
{
    if parts.len() == 0 {
        Seq::empty()
    } else if parts.len() == 1 {
        parts[0]
    } else {
        join_text(parts.drop_last(), sep) + sep + parts.last()
    }
}

/// Joins `parts` with `sep`.
fn join_strings(parts: &[String], sep: &str) -> (r: String)
    ensures
        r@ == join_text(views(parts@), sep@),
{
    let mut out = String::new();
    let mut i: usize = 0;
    while i < parts.len()
        invariant
            i <= parts@.len(),
            out@ == join_text(views(parts@).subrange(0, i as int), sep@),
        decreases parts.len() - i,
    {
        if i > 0 {
            append_str(&mut out, sep);
        }
        append_str(&mut out, parts[i].as_str());
        let ghost s = views(parts@).subrange(0, i + 1);
        assert(s.drop_last() =~= views(parts@).subrange(0, i as int));
        i = i + 1;
    }
    assert(views(parts@).subrange(0, parts@.len() as int) =~= views(parts@));
    out
}

/// The decimal texts of 16-bit values.
pub open spec fn dec_texts(v: Seq<u16>) -> Seq<Seq<char>> {
    v.map_values(|x: u16| dec_text(x as nat))
}

/// The name of a crop mode.
pub open spec fn crop_name(v: u16) -> Option<Seq<char>> {
    match v {
        0 => Some("Off"@),
        1 => Some("1.3x Crop"@),
        2 => Some("DX Crop"@),
        3 => Some("5:4 Crop"@),
        4 => Some("3:2 Crop"@),
        6 => Some("16:9 Crop"@),
        8 => Some("2.7x Crop"@),
        9 => Some("DX Movie Crop"@),
        10 => Some("1.3x Movie Crop"@),
        11 => Some("FX Uncropped"@),
        12 => Some("DX Uncropped"@),
        _ => None,
    }
}

/// The crop record: its mode and the crop geometry, or the raw values when
/// the record is short.
pub open spec fn crop_text(raw: Seq<u8>) -> Seq<char> {
    let v = be16s(raw);
    if v.len() < 7 {
        join_text(dec_texts(v), " "@)
    } else {
        match crop_name(v[0]) {
            Some(name) => name + " ("@ + dec_text(v[1] as nat) + "x"@ + dec_text(v[2] as nat)
                + " cropped to "@ + dec_text(v[3] as nat) + "x"@ + dec_text(v[4] as nat)
                + " at pixel "@ + dec_text(v[5] as nat) + ","@ + dec_text(v[6] as nat) + ")"@,
            None => unknown_text(v[0] as nat),
        }
    }
}

/// Formats a crop record.
fn format_crop(raw: &[u8]) -> (r: String)
    ensures
        r@ == crop_text(raw@),
{
    let vals = be_u16s(raw);
    if vals.len() < 7 {
        let mut parts: Vec<String> = Vec::new();
        let mut i: usize = 0;
        while i < vals.len()
            invariant
                i <= vals@.len(),
                views(parts@) == dec_texts(vals@).subrange(0, i as int),
            decreases vals.len() - i,
        {
            parts.push(u64_text(vals[i] as u64));
            i = i + 1;
            assert(views(parts@) =~= dec_texts(vals@).subrange(0, i as int));
        }
        assert(dec_texts(vals@).subrange(0, vals@.len() as int) =~= dec_texts(vals@));
        return join_strings(&parts, " ");
    }
    let name: &str = match vals[0] {
        0 => "Off",
        1 => "1.3x Crop",
        2 => "DX Crop",
        3 => "5:4 Crop",
        4 => "3:2 Crop",
        6 => "16:9 Crop",
        8 => "2.7x Crop",
        9 => "DX Movie Crop",
        10 => "1.3x Movie Crop",
        11 => "FX Uncropped",
        12 => "DX Uncropped",
        other => return unknown(other as u64),
    };
    let mut s = text(name);
    append_str(&mut s, " (");
    push_dec(&mut s, vals[1] as u64);
    append_str(&mut s, "x");
    push_dec(&mut s, vals[2] as u64);
    append_str(&mut s, " cropped to ");
    push_dec(&mut s, vals[3] as u64);
    append_str(&mut s, "x");
    push_dec(&mut s, vals[4] as u64);
    append_str(&mut s, " at pixel ");
    push_dec(&mut s, vals[5] as u64);
    append_str(&mut s, ",");
    push_dec(&mut s, vals[6] as u64);
    append_str(&mut s, ")");
    s
}

/// The text with its leading `0` chars removed.
pub open spec fn trim_leading_zeros(s: Seq<char>) -> Seq<char>
    decreases s.len(),
{
    if s.len() > 0 && s[0] == '0' {
        trim_leading_zeros(s.drop_first())
    } else {
        s
    }
}

/// The maker-note version `M.NN` from four or more digits, else the text.
pub open spec fn maker_note_version_text(raw: Seq<u8>) -> Seq<char> {
    let t = ascii_text(raw);
    if t.len() >= 4 && all_digits(t) {
        let major = trim_leading_zeros(t.subrange(0, 2));
        (if major.len() == 0 { "0"@ } else { major }) + "."@ + t.subrange(2, 4)
    } else {
        t
    }
}

/// Formats the maker-note version.
fn maker_note_version(raw: &[u8]) -> (r: String)
    ensures
        r@ == maker_note_version_text(raw@),
{
    let t = ascii(raw);
    let v = chars_of(t.as_str());
    let mut digits = true;
    let mut i: usize = 0;
    while i < v.len()
        invariant
            i <= v@.len(),
            digits == forall|j: int| 0 <= j < i ==> is_ascii_digit(#[trigger] v@[j]),
        decreases v.len() - i,
    {
        if !('0' <= v[i] && v[i] <= '9') {
            digits = false;
        }
        i = i + 1;
    }
    if v.len() >= 4 && digits {
        let mut out = String::new();
        let ghost m2 = v@.subrange(0, 2);
        if v[0] == '0' && v[1] == '0' {
            assert(m2.drop_first().drop_first() =~= Seq::<char>::empty());
            append_str(&mut out, "0");
        } else if v[0] == '0' {
            assert(m2.drop_first() =~= seq![v@[1]]);
            push_char(&mut out, v[1]);
        } else {
            push_char(&mut out, v[0]);
            push_char(&mut out, v[1]);
        }
        push_char(&mut out, '.');
        push_char(&mut out, v[2]);
        push_char(&mut out, v[3]);
        proof {
            reveal_strlit(".");
            reveal_strlit("0");
            reveal_with_fuel(trim_leading_zeros, 3);
            assert(v@.subrange(2, 4) =~= seq![v@[2], v@[3]]);
        }
        assert(out@ =~= maker_note_version_text(raw@));
        out
    } else {
        t
    }
}

/// The parts of a lens type code, joined by spaces.
pub open spec fn lens_type_parts(v: u8) -> Seq<Seq<char>> {
    let a = if v & 0x01 != 0 { seq!["MF"@] } else { Seq::empty() };
    let b = if v & 0x02 != 0 { a.push("D"@) } else { a };
    let c = if v & 0x04 != 0 { b.push("G"@) } else { b };
    let d = if v & 0x08 != 0 { c.push("VR"@) } else { c };
    if v & 0x40 != 0 { d.push("E"@) } else { d }
}

/// The lens type: `AF` for 0, else its flags, or `Unknown (v)` when none of
/// the known flags is set.
pub open spec fn lens_type_text(v: u8) -> Seq<char> {
    if v == 0 {
        "AF"@
    } else if lens_type_parts(v).len() == 0 {
        unknown_text(v as nat)
    } else {
        join_text(lens_type_parts(v), " "@)
    }
}

/// Formats a lens type code.
fn lens_type(v: u8) -> (r: String)
    ensures
        r@ == lens_type_text(v),
{
    if v == 0 {
        return text("AF");
    }
    let mut parts: Vec<String> = Vec::new();
    if v & 0x01 != 0 {
        parts.push(text("MF"));
    }
    if v & 0x02 != 0 {
        parts.push(text("D"));
    }
    if v & 0x04 != 0 {
        parts.push(text("G"));
    }
    if v & 0x08 != 0 {
        parts.push(text("VR"));
    }
    if v & 0x40 != 0 {
        parts.push(text("E"));
    }
    assert(views(parts@) =~= lens_type_parts(v));
    if parts.len() == 0 {
        unknown(v as u64)
    } else {
        join_strings(&parts, " ")
    }
}

/// `On` for nonzero values, else `Off`.
pub open spec fn on_off_text(v: u16) -> Seq<char> {
    if v == 0 {
        "Off"@
    } else {
        "On"@
    }
}

/// `On` for nonzero values, else `Off`.
fn on_off(v: u16) -> (r: String)
    ensures
        r@ == on_off_text(v),
{
    if v == 0 {
        text("Off")
    } else {
        text("On")
    }
}


/// The ISO expansion setting.
pub open spec fn iso_expansion_text(v: u16) -> Seq<char> {
    match v {
        0 => "Off"@,
        0x101 => "Hi 0.3"@,
        0x102 => "Hi 0.5"@,
        0x103 => "Hi 0.7"@,
        0x104 => "Hi 1.0"@,
        0x201 => "Lo 0.3"@,
        0x204 => "Lo 1.0"@,
        _ => unknown_text(v as nat),
    }
}

/// The ISO expansion setting.
fn iso_expansion(v: u16) -> (r: String)
    ensures
        r@ == iso_expansion_text(v),
{
    let s: &str = match v {
        0 => "Off",
        0x101 => "Hi 0.3",
        0x102 => "Hi 0.5",
        0x103 => "Hi 0.7",
        0x104 => "Hi 1.0",
        0x201 => "Lo 0.3",
        0x204 => "Lo 1.0",
        _ => return unknown(v as u64),
    };
    text(s)
}

/// The AF area mode.
pub open spec fn af_area_mode_text(v: u8) -> Seq<char> {
    match v {
        192 => "Pinpoint"@,
        193 => "Single"@,
        195 => "Wide (S)"@,
        196 => "Wide (L)"@,
        197 => "Auto"@,
        204 => "Dynamic Area (S)"@,
        205 => "Dynamic Area (M)"@,
        206 => "Dynamic Area (L)"@,
        207 => "3D-tracking"@,
        208 => "Wide (C1/C2)"@,
        _ => unknown_text(v as nat),
    }
}

/// The AF area mode.
fn af_area_mode(v: u8) -> (r: String)
    ensures
        r@ == af_area_mode_text(v),
{
    let s: &str = match v {
        192 => "Pinpoint",
        193 => "Single",
        195 => "Wide (S)",
        196 => "Wide (L)",
        197 => "Auto",
        204 => "Dynamic Area (S)",
        205 => "Dynamic Area (M)",
        206 => "Dynamic Area (L)",
        207 => "3D-tracking",
        208 => "Wide (C1/C2)",
        _ => return unknown(v as u64),
    };
    text(s)
}

/// The exposure program.
pub open spec fn exposure_program_text(v: u16) -> Seq<char> {
    match v {
        0 => "Not Defined"@,
        1 => "Manual"@,
        2 => "Program AE"@,
        3 => "Aperture-priority AE"@,
        4 => "Shutter speed priority AE"@,
        5 => "Creative (Slow speed)"@,
        6 => "Action (High speed)"@,
        7 => "Portrait"@,
        8 => "Landscape"@,
        _ => unknown_text(v as nat),
    }
}

/// The exposure program.
fn exposure_program(v: u16) -> (r: String)
    ensures
        r@ == exposure_program_text(v),
{
    let s: &str = match v {
        0 => "Not Defined",
        1 => "Manual",
        2 => "Program AE",
        3 => "Aperture-priority AE",
        4 => "Shutter speed priority AE",
        5 => "Creative (Slow speed)",
        6 => "Action (High speed)",
        7 => "Portrait",
        8 => "Landscape",
        _ => return unknown(v as u64),
    };
    text(s)
}

/// The metering mode.
pub open spec fn metering_mode_text(v: u16) -> Seq<char> {
    match v {
        1 => "Average"@,
        2 => "Center-weighted average"@,
        3 => "Spot"@,
        4 => "Multi-spot"@,
        5 => "Multi-segment"@,
        6 => "Partial"@,
        255 => "Other"@,
        _ => unknown_text(v as nat),
    }
}

/// The metering mode.
fn metering_mode(v: u16) -> (r: String)
    ensures
        r@ == metering_mode_text(v),
{
    let s: &str = match v {
        1 => "Average",
        2 => "Center-weighted average",
        3 => "Spot",
        4 => "Multi-spot",
        5 => "Multi-segment",
        6 => "Partial",
        255 => "Other",
        _ => return unknown(v as u64),
    };
    text(s)
}

/// The Active D-Lighting setting.
pub open spec fn active_d_lighting_text(v: u16) -> Seq<char> {
    match v {
        0 => "Off"@,
        1 => "Low"@,
        3 => "Normal"@,
        5 => "High"@,
        7 => "Extra High"@,
        0xffff => "Auto"@,
        _ => unknown_text(v as nat),
    }
}

/// The Active D-Lighting setting.
fn active_d_lighting(v: u16) -> (r: String)
    ensures
        r@ == active_d_lighting_text(v),
{
    let s: &str = match v {
        0 => "Off",
        1 => "Low",
        3 => "Normal",
        5 => "High",
        7 => "Extra High",
        0xffff => "Auto",
        _ => return unknown(v as u64),
    };
    text(s)
}

/// The vignette control setting.
pub open spec fn vignette_control_text(v: u16) -> Seq<char> {
    match v {
        0 => "Off"@,
        1 => "Low"@,
        3 => "Normal"@,
        5 => "High"@,
        _ => unknown_text(v as nat),
    }
}

/// The vignette control setting.
fn vignette_control(v: u16) -> (r: String)
    ensures
        r@ == vignette_control_text(v),
{
    let s: &str = match v {
        0 => "Off",
        1 => "Low",
        3 => "Normal",
        5 => "High",
        _ => return unknown(v as u64),
    };
    text(s)
}

/// The flash mode.
pub open spec fn flash_mode_text(v: u8) -> Seq<char> {
    match v {
        0 => "Did Not Fire"@,
        1 => "Fired, Manual"@,
        3 => "Not Ready"@,
        7 => "Fired, External"@,
        8 => "Fired, Commander Mode"@,
        9 => "Fired, TTL Mode"@,
        18 => "LED Light"@,
        _ => unknown_text(v as nat),
    }
}

/// The flash mode.
fn flash_mode(v: u8) -> (r: String)
    ensures
        r@ == flash_mode_text(v),
{
    let s: &str = match v {
        0 => "Did Not Fire",
        1 => "Fired, Manual",
        3 => "Not Ready",
        7 => "Fired, External",
        8 => "Fired, Commander Mode",
        9 => "Fired, TTL Mode",
        18 => "LED Light",
        _ => return unknown(v as u64),
    };
    text(s)
}

/// The high-ISO noise reduction setting.
pub open spec fn high_iso_nr_text(v: u16) -> Seq<char> {
    match v {
        0 => "Off"@,
        1 => "Minimal"@,
        2 => "Low"@,
        3 => "Medium Low"@,
        4 => "Normal"@,
        5 => "Medium High"@,
        6 => "High"@,
        _ => unknown_text(v as nat),
    }
}

/// The high-ISO noise reduction setting.
fn high_iso_nr(v: u16) -> (r: String)
    ensures
        r@ == high_iso_nr_text(v),
{
    let s: &str = match v {
        0 => "Off",
        1 => "Minimal",
        2 => "Low",
        3 => "Medium Low",
        4 => "Normal",
        5 => "Medium High",
        6 => "High",
        _ => return unknown(v as u64),
    };
    text(s)
}

/// The vibration reduction setting.
pub open spec fn vibration_reduction_text(v: u8) -> Seq<char> {
    match v {
        0 => "n/a"@,
        1 => "On"@,
        2 => "Off"@,
        _ => unknown_text(v as nat),
    }
}

/// The vibration reduction setting.
fn vibration_reduction(v: u8) -> (r: String)
    ensures
        r@ == vibration_reduction_text(v),
{
    let s: &str = match v {
        0 => "n/a",
        1 => "On",
        2 => "Off",
        _ => return unknown(v as u64),
    };
    text(s)
}

/// The VR mode.
pub open spec fn vr_mode_text(v: u8) -> Seq<char> {
    match v {
        0 => "Off"@,
        1 => "Normal"@,
        3 => "Sport"@,
        _ => unknown_text(v as nat),
    }
}

/// The VR mode.
fn vr_mode(v: u8) -> (r: String)
    ensures
        r@ == vr_mode_text(v),
{
    let s: &str = match v {
        0 => "Off",
        1 => "Normal",
        3 => "Sport",
        _ => return unknown(v as u64),
    };
    text(s)
}

/// The VR type.
pub open spec fn vr_type_text(v: u8) -> Seq<char> {
    match v {
        2 => "In-body"@,
        3 => "In-body + Lens"@,
        _ => unknown_text(v as nat),
    }
}

/// The VR type.
fn vr_type(v: u8) -> (r: String)
    ensures
        r@ == vr_type_text(v),
{
    let s: &str = match v {
        2 => "In-body",
        3 => "In-body + Lens",
        _ => return unknown(v as u64),
    };
    text(s)
}

/// The date display format.
pub open spec fn date_display_format_text(v: u8) -> Seq<char> {
    match v {
        0 => "Y/M/D"@,
        1 => "M/D/Y"@,
        2 => "D/M/Y"@,
        _ => unknown_text(v as nat),
    }
}

/// The date display format.
fn date_display_format(v: u8) -> (r: String)
    ensures
        r@ == date_display_format_text(v),
{
    let s: &str = match v {
        0 => "Y/M/D",
        1 => "M/D/Y",
        2 => "D/M/Y",
        _ => return unknown(v as u64),
    };
    text(s)
}

/// The Picture Control adjustment.
pub open spec fn picture_control_adjust_text(v: u8) -> Seq<char> {
    match v {
        0 => "Default Settings"@,
        1 => "Quick Adjust"@,
        2 => "Full Control"@,
        _ => unknown_text(v as nat),
    }
}

/// The Picture Control adjustment.
fn picture_control_adjust(v: u8) -> (r: String)
    ensures
        r@ == picture_control_adjust_text(v),
{
    let s: &str = match v {
        0 => "Default Settings",
        1 => "Quick Adjust",
        2 => "Full Control",
        _ => return unknown(v as u64),
    };
    text(s)
}

/// The contrast-detect AF setting.
pub open spec fn contrast_detect_af_text(v: u8) -> Seq<char> {
    match v {
        0 => "Off"@,
        1 => "On"@,
        2 => "On (2)"@,
        _ => unknown_text(v as nat),
    }
}

/// The contrast-detect AF setting.
fn contrast_detect_af(v: u8) -> (r: String)
    ensures
        r@ == contrast_detect_af_text(v),
{
    let s: &str = match v {
        0 => "Off",
        1 => "On",
        2 => "On (2)",
        _ => return unknown(v as u64),
    };
    text(s)
}


/// What the VR-info record sets.
pub open spec fn vr_info_effect(raw: Seq<u8>, m: M) -> M {
    if raw.len() < 9 {
        m
    } else {
        let m1 = put_effect(m, "VRInfoVersion"@, ascii_text(raw.subrange(0, 4)));
        let m2 = put_effect(m1, "VibrationReduction"@, vibration_reduction_text(raw[4]));
        let m3 = put_effect(m2, "VRMode"@, vr_mode_text(raw[6]));
        put_effect(m3, "VRType"@, vr_type_text(raw[8]))
    }
}

/// Reads the vibration-reduction record.
fn parse_vr_info(raw: &[u8], metadata: &mut TagMap)
    ensures
        final(metadata)@ == vr_info_effect(raw@, old(metadata)@),
{
    if raw.len() < 9 {
        return;
    }
    put(metadata, "VRInfoVersion", ascii(sub_slice(raw, 0, 4)));
    put(metadata, "VibrationReduction", vibration_reduction(raw[4]));
    put(metadata, "VRMode", vr_mode(raw[6]));
    put(metadata, "VRType", vr_type(raw[8]));
}

/// A number printed with at least two digits (`{:02}`).
pub open spec fn pad2_text(n: nat) -> Seq<char> {
    if n < 10 {
        "0"@ + dec_text(n)
    } else {
        dec_text(n)
    }
}

/// Appends `n` with at least two digits.
fn push_pad2(s: &mut String, n: u64)
    ensures
        final(s)@ == old(s)@ + pad2_text(n as nat),
{
    if n < 10 {
        append_str(s, "0");
    }
    push_dec(s, n);
    assert(final(s)@ =~= old(s)@ + pad2_text(n as nat));
}

/// A time-zone offset in minutes as `+HH:MM` or `-HH:MM`.
pub open spec fn zone_text(minutes: int) -> Seq<char> {
    let a = magnitude(minutes);
    (if minutes < 0 { "-"@ } else { "+"@ }) + pad2_text((a / 60) as nat) + ":"@ + pad2_text(
        (a % 60) as nat,
    )
}

/// What the world-time record sets.
pub open spec fn world_time_effect(raw: Seq<u8>, m: M) -> M {
    if raw.len() < 4 {
        m
    } else {
        let m1 = put_effect(m, "TimeZone"@, zone_text(as_i16(be16(raw[0], raw[1]))));
        let m2 = put_effect(
            m1,
            "DaylightSavings"@,
            if raw[2] == 0 { "No"@ } else { "Yes"@ },
        );
        put_effect(m2, "DateDisplayFormat"@, date_display_format_text(raw[3]))
    }
}

/// Reads the world-time record: time zone, daylight saving, date order.
fn parse_world_time(raw: &[u8], metadata: &mut TagMap)
    ensures
        final(metadata)@ == world_time_effect(raw@, old(metadata)@),
{
    if raw.len() < 4 {
        return;
    }
    let minutes = read_i16(raw, 0, false);
    let a: u64 = if minutes < 0 { (-(minutes as i32)) as u64 } else { minutes as u64 };
    let mut zone = if minutes < 0 { text("-") } else { text("+") };
    push_pad2(&mut zone, a / 60);
    append_str(&mut zone, ":");
    push_pad2(&mut zone, a % 60);
    assert(zone@ =~= zone_text(as_i16(be16(raw@[0], raw@[1]))));
    put(metadata, "TimeZone", zone);
    put(metadata, "DaylightSavings", if raw[2] == 0 { text("No") } else { text("Yes") });
    put(metadata, "DateDisplayFormat", date_display_format(raw[3]));
}

/// The ISO number that a Nikon ISO code stands for, printed by the host.
pub open spec fn nikon_iso_real(code: u8) -> Real {
    Real { num: code as i64, den: 1, style: RealStyle::NikonIso }
}

/// What the ISO-info record sets.
pub open spec fn iso_info_effect(raw: Seq<u8>, m: M) -> M {
    if raw.len() == 0 {
        m
    } else {
        let m1 = put_value_effect(m, "ISO"@, num(nikon_iso_real(raw[0])));
        let m2 = if raw.len() >= 6 {
            put_effect(m1, "ISOExpansion"@, iso_expansion_text(be16(raw[4], raw[5]) as u16))
        } else {
            m1
        };
        let m3 = if raw.len() >= 7 {
            put_value_effect(m2, "ISO2"@, num(nikon_iso_real(raw[6])))
        } else {
            m2
        };
        if raw.len() >= 12 {
            put_effect(m3, "ISOExpansion2"@, iso_expansion_text(be16(raw[10], raw[11]) as u16))
        } else {
            m3
        }
    }
}

/// Reads the ISO-info record.
fn parse_iso_info(raw: &[u8], metadata: &mut TagMap)
    ensures
        final(metadata)@ == iso_info_effect(raw@, old(metadata)@),
{
    if raw.len() == 0 {
        return;
    }
    put_value(metadata, "ISO", TagValue::number(Real { num: raw[0] as i64, den: 1, style: RealStyle::NikonIso }));
    if raw.len() >= 6 {
        put(metadata, "ISOExpansion", iso_expansion(read_u16(raw, 4, false)));
    }
    if raw.len() >= 7 {
        put_value(metadata, "ISO2", TagValue::number(Real { num: raw[6] as i64, den: 1, style: RealStyle::NikonIso }));
    }
    if raw.len() >= 12 {
        put(metadata, "ISOExpansion2", iso_expansion(read_u16(raw, 10, false)));
    }
}

/// A one-byte setting: `n/a` for 0xff, else the number.
pub open spec fn byte_setting_text(b: u8) -> Seq<char> {
    if b == 0xff {
        "n/a"@
    } else {
        dec_text(b as nat)
    }
}

/// What storing the byte at `off` under `name` does, when there is one.
pub open spec fn byte_field_effect(raw: Seq<u8>, off: int, name: Seq<char>, m: M) -> M {
    if off < raw.len() {
        put_effect(m, name, byte_setting_text(raw[off]))
    } else {
        m
    }
}

/// Stores the byte at `off` under `name`, when the record is long enough.
fn put_byte_field(raw: &[u8], off: usize, name: &str, metadata: &mut TagMap)
    ensures
        final(metadata)@ == byte_field_effect(raw@, off as int, name@, old(metadata)@),
{
    if off < raw.len() {
        let b = raw[off];
        let v = if b == 0xff { text("n/a") } else { u64_text(b as u64) };
        put(metadata, name, v);
    }
}

/// What the Picture Control settings that follow the names set.
pub open spec fn picture_settings_effect(raw: Seq<u8>, m: M) -> M {
    let m1 = byte_field_effect(raw, 55, "PictureControlQuickAdjust"@, m);
    let m2 = byte_field_effect(raw, 57, "Sharpness"@, m1);
    let m3 = byte_field_effect(raw, 59, "MidRangeSharpness"@, m2);
    let m4 = byte_field_effect(raw, 61, "Clarity"@, m3);
    let m5 = byte_field_effect(raw, 63, "Contrast"@, m4);
    let m6 = byte_field_effect(raw, 65, "Brightness"@, m5);
    let m7 = byte_field_effect(raw, 67, "Saturation"@, m6);
    let m8 = byte_field_effect(raw, 69, "Hue"@, m7);
    let m9 = byte_field_effect(raw, 71, "FilterEffect"@, m8);
    let m10 = byte_field_effect(raw, 72, "ToningEffect"@, m9);
    byte_field_effect(raw, 73, "ToningSaturation"@, m10)
}

/// What the Picture Control record sets (version `03..` only).
pub open spec fn picture_control_effect(raw: Seq<u8>, m: M) -> M {
    if raw.len() < 4 || raw[0] != 0x30 || raw[1] != 0x33 {
        m
    } else {
        let m1 = put_effect(m, "PictureControlVersion"@, ascii_text(raw.subrange(0, 4)));
        let m2 = if raw.len() >= 28 {
            put_effect(
                m1,
                "PictureControlName"@,
                title_from(ascii_text(raw.subrange(8, 28)), true),
            )
        } else {
            m1
        };
        let m3 = if raw.len() >= 48 {
            put_effect(
                m2,
                "PictureControlBase"@,
                title_from(ascii_text(raw.subrange(28, 48)), true),
            )
        } else {
            m2
        };
        let m4 = if raw.len() > 54 {
            put_effect(m3, "PictureControlAdjust"@, picture_control_adjust_text(raw[54]))
        } else {
            m3
        };
        picture_settings_effect(raw, m4)
    }
}

/// Reads the Picture Control record.
fn parse_picture_control(raw: &[u8], metadata: &mut TagMap)
    ensures
        final(metadata)@ == picture_control_effect(raw@, old(metadata)@),
{
    if raw.len() < 4 || raw[0] != 0x30 || raw[1] != 0x33 {
        return;
    }
    put(metadata, "PictureControlVersion", ascii(sub_slice(raw, 0, 4)));
    if raw.len() >= 28 {
        let name = ascii(sub_slice(raw, 8, 28));
        put(metadata, "PictureControlName", nikon_title_case(name.as_str()));
    }
    if raw.len() >= 48 {
        let base = ascii(sub_slice(raw, 28, 48));
        put(metadata, "PictureControlBase", nikon_title_case(base.as_str()));
    }
    if raw.len() > 54 {
        put(metadata, "PictureControlAdjust", picture_control_adjust(raw[54]));
    }
    put_byte_field(raw, 55, "PictureControlQuickAdjust", metadata);
    put_byte_field(raw, 57, "Sharpness", metadata);
    put_byte_field(raw, 59, "MidRangeSharpness", metadata);
    put_byte_field(raw, 61, "Clarity", metadata);
    put_byte_field(raw, 63, "Contrast", metadata);
    put_byte_field(raw, 65, "Brightness", metadata);
    put_byte_field(raw, 67, "Saturation", metadata);
    put_byte_field(raw, 69, "Hue", metadata);
    put_byte_field(raw, 71, "FilterEffect", metadata);
    put_byte_field(raw, 72, "ToningEffect", metadata);
    put_byte_field(raw, 73, "ToningSaturation", metadata);
}

/// Bytes as two-digit lower-case hex, separated by spaces.
pub open spec fn hex_bytes_text(b: Seq<u8>) -> Seq<char>
    decreases b.len(),
{
    if b.len() == 0 {
        Seq::empty()
    } else if b.len() == 1 {
        hex_text(b[0] as nat, 2, false)
    } else {
        hex_bytes_text(b.drop_last()) + " "@ + hex_text(b.last() as nat, 2, false)
    }
}

/// What the AF-info record sets.
pub open spec fn af_info2_effect(raw: Seq<u8>, m: M) -> M {
    if raw.len() < 7 {
        m
    } else {
        let m1 = put_effect(m, "AFInfo2Version"@, ascii_text(raw.subrange(0, 4)));
        let m2 = put_effect(m1, "ContrastDetectAF"@, contrast_detect_af_text(raw[4]));
        let m3 = put_effect(m2, "AFAreaMode"@, af_area_mode_text(raw[5]));
        let m4 = put_effect(m3, "PhaseDetectAF"@, unknown_text(raw[6] as nat));
        if raw.len() >= 17 {
            put_effect(
                m4,
                "AFPointsUsed"@,
                "Unknown ("@ + hex_bytes_text(raw.subrange(10, 17)) + ")"@,
            )
        } else {
            m4
        }
    }
}

/// Reads the autofocus record.
fn parse_af_info2(raw: &[u8], metadata: &mut TagMap)
    ensures
        final(metadata)@ == af_info2_effect(raw@, old(metadata)@),
{
    if raw.len() < 7 {
        return;
    }
    put(metadata, "AFInfo2Version", ascii(sub_slice(raw, 0, 4)));
    put(metadata, "ContrastDetectAF", contrast_detect_af(raw[4]));
    put(metadata, "AFAreaMode", af_area_mode(raw[5]));
    put(metadata, "PhaseDetectAF", unknown(raw[6] as u64));
    if raw.len() >= 17 {
        let mut s = text("Unknown (");
        let ghost start = s@;
        let mut i: usize = 10;
        while i < 17
            invariant
                10 <= i <= 17,
                17 <= raw@.len(),
                s@ == start + hex_bytes_text(raw@.subrange(10, i as int)),
            decreases 17 - i,
        {
            let ghost before = raw@.subrange(10, i as int);
            assert(raw@.subrange(10, i + 1).drop_last() =~= before);
            if i > 10 {
                append_str(&mut s, " ");
            }
            push_hex(&mut s, raw[i] as u64, 2, false);
            if i == 10 {
                assert(before =~= Seq::<u8>::empty());
            }
            assert(s@ =~= start + hex_bytes_text(raw@.subrange(10, i + 1)));
            i = i + 1;
        }
        append_str(&mut s, ")");
        put(metadata, "AFPointsUsed", s);
    }
}

/// The names of the Nikon Z lenses known by lens id.
pub open spec fn z_lens_text(id: u16) -> Option<Seq<char>> {
    if id == 1 {
        Some("Nikkor Z 24-70mm f/4 S"@)
    } else if id == 2 {
        Some("Nikkor Z 14-30mm f/4 S"@)
    } else if id == 4 {
        Some("Nikkor Z 35mm f/1.8 S"@)
    } else if id == 9 {
        Some("Nikkor Z 50mm f/1.8 S"@)
    } else if id == 11 {
        Some("NIKKOR Z DX 16-50mm f/3.5-6.3 VR"@)
    } else if id == 12 {
        Some("Nikkor Z DX 50-250mm f/4.5-6.3 VR"@)
    } else if id == 13 {
        Some("Nikkor Z 24-70mm f/2.8 S"@)
    } else if id == 14 {
        Some("Nikkor Z 85mm f/1.8 S"@)
    } else {
        None
    }
}

/// The name of a Nikon Z lens by lens id.
fn z_lens_name(id: u16) -> (r: Option<&'static str>)
    ensures
        r matches Some(s) ==> z_lens_text(id) == Some(s@),
        r is None ==> z_lens_text(id) is None,
{
    match id {
        1 => Some("Nikkor Z 24-70mm f/4 S"),
        2 => Some("Nikkor Z 14-30mm f/4 S"),
        4 => Some("Nikkor Z 35mm f/1.8 S"),
        9 => Some("Nikkor Z 50mm f/1.8 S"),
        11 => Some("NIKKOR Z DX 16-50mm f/3.5-6.3 VR"),
        12 => Some("Nikkor Z DX 50-250mm f/4.5-6.3 VR"),
        13 => Some("Nikkor Z 24-70mm f/2.8 S"),
        14 => Some("Nikkor Z 85mm f/1.8 S"),
        _ => None,
    }
}

/// The first Nikon decryption table.
pub open spec fn xlat0() -> Seq<u8> {
    seq![
        0xc1u8, 0xbfu8, 0x6du8, 0x0du8, 0x59u8, 0xc5u8, 0x13u8, 0x9du8, 0x83u8, 0x61u8, 0x6bu8, 0x4fu8, 0xc7u8, 0x7fu8, 0x3du8, 0x3du8,
        0x53u8, 0x59u8, 0xe3u8, 0xc7u8, 0xe9u8, 0x2fu8, 0x95u8, 0xa7u8, 0x95u8, 0x1fu8, 0xdfu8, 0x7fu8, 0x2bu8, 0x29u8, 0xc7u8, 0x0du8,
        0xdfu8, 0x07u8, 0xefu8, 0x71u8, 0x89u8, 0x3du8, 0x13u8, 0x3du8, 0x3bu8, 0x13u8, 0xfbu8, 0x0du8, 0x89u8, 0xc1u8, 0x65u8, 0x1fu8,
        0xb3u8, 0x0du8, 0x6bu8, 0x29u8, 0xe3u8, 0xfbu8, 0xefu8, 0xa3u8, 0x6bu8, 0x47u8, 0x7fu8, 0x95u8, 0x35u8, 0xa7u8, 0x47u8, 0x4fu8,
        0xc7u8, 0xf1u8, 0x59u8, 0x95u8, 0x35u8, 0x11u8, 0x29u8, 0x61u8, 0xf1u8, 0x3du8, 0xb3u8, 0x2bu8, 0x0du8, 0x43u8, 0x89u8, 0xc1u8,
        0x9du8, 0x9du8, 0x89u8, 0x65u8, 0xf1u8, 0xe9u8, 0xdfu8, 0xbfu8, 0x3du8, 0x7fu8, 0x53u8, 0x97u8, 0xe5u8, 0xe9u8, 0x95u8, 0x17u8,
        0x1du8, 0x3du8, 0x8bu8, 0xfbu8, 0xc7u8, 0xe3u8, 0x67u8, 0xa7u8, 0x07u8, 0xf1u8, 0x71u8, 0xa7u8, 0x53u8, 0xb5u8, 0x29u8, 0x89u8,
        0xe5u8, 0x2bu8, 0xa7u8, 0x17u8, 0x29u8, 0xe9u8, 0x4fu8, 0xc5u8, 0x65u8, 0x6du8, 0x6bu8, 0xefu8, 0x0du8, 0x89u8, 0x49u8, 0x2fu8,
        0xb3u8, 0x43u8, 0x53u8, 0x65u8, 0x1du8, 0x49u8, 0xa3u8, 0x13u8, 0x89u8, 0x59u8, 0xefu8, 0x6bu8, 0xefu8, 0x65u8, 0x1du8, 0x0bu8,
        0x59u8, 0x13u8, 0xe3u8, 0x4fu8, 0x9du8, 0xb3u8, 0x29u8, 0x43u8, 0x2bu8, 0x07u8, 0x1du8, 0x95u8, 0x59u8, 0x59u8, 0x47u8, 0xfbu8,
        0xe5u8, 0xe9u8, 0x61u8, 0x47u8, 0x2fu8, 0x35u8, 0x7fu8, 0x17u8, 0x7fu8, 0xefu8, 0x7fu8, 0x95u8, 0x95u8, 0x71u8, 0xd3u8, 0xa3u8,
        0x0bu8, 0x71u8, 0xa3u8, 0xadu8, 0x0bu8, 0x3bu8, 0xb5u8, 0xfbu8, 0xa3u8, 0xbfu8, 0x4fu8, 0x83u8, 0x1du8, 0xadu8, 0xe9u8, 0x2fu8,
        0x71u8, 0x65u8, 0xa3u8, 0xe5u8, 0x07u8, 0x35u8, 0x3du8, 0x0du8, 0xb5u8, 0xe9u8, 0xe5u8, 0x47u8, 0x3bu8, 0x9du8, 0xefu8, 0x35u8,
        0xa3u8, 0xbfu8, 0xb3u8, 0xdfu8, 0x53u8, 0xd3u8, 0x97u8, 0x53u8, 0x49u8, 0x71u8, 0x07u8, 0x35u8, 0x61u8, 0x71u8, 0x2fu8, 0x43u8,
        0x2fu8, 0x11u8, 0xdfu8, 0x17u8, 0x97u8, 0xfbu8, 0x95u8, 0x3bu8, 0x7fu8, 0x6bu8, 0xd3u8, 0x25u8, 0xbfu8, 0xadu8, 0xc7u8, 0xc5u8,
        0xc5u8, 0xb5u8, 0x8bu8, 0xefu8, 0x2fu8, 0xd3u8, 0x07u8, 0x6bu8, 0x25u8, 0x49u8, 0x95u8, 0x25u8, 0x49u8, 0x6du8, 0x71u8, 0xc7u8,
    ]
}

/// The second Nikon decryption table.
pub open spec fn xlat1() -> Seq<u8> {
    seq![
        0xa7u8, 0xbcu8, 0xc9u8, 0xadu8, 0x91u8, 0xdfu8, 0x85u8, 0xe5u8, 0xd4u8, 0x78u8, 0xd5u8, 0x17u8, 0x46u8, 0x7cu8, 0x29u8, 0x4cu8,
        0x4du8, 0x03u8, 0xe9u8, 0x25u8, 0x68u8, 0x11u8, 0x86u8, 0xb3u8, 0xbdu8, 0xf7u8, 0x6fu8, 0x61u8, 0x22u8, 0xa2u8, 0x26u8, 0x34u8,
        0x2au8, 0xbeu8, 0x1eu8, 0x46u8, 0x14u8, 0x68u8, 0x9du8, 0x44u8, 0x18u8, 0xc2u8, 0x40u8, 0xf4u8, 0x7eu8, 0x5fu8, 0x1bu8, 0xadu8,
        0x0bu8, 0x94u8, 0xb6u8, 0x67u8, 0xb4u8, 0x0bu8, 0xe1u8, 0xeau8, 0x95u8, 0x9cu8, 0x66u8, 0xdcu8, 0xe7u8, 0x5du8, 0x6cu8, 0x05u8,
        0xdau8, 0xd5u8, 0xdfu8, 0x7au8, 0xefu8, 0xf6u8, 0xdbu8, 0x1fu8, 0x82u8, 0x4cu8, 0xc0u8, 0x68u8, 0x47u8, 0xa1u8, 0xbdu8, 0xeeu8,
        0x39u8, 0x50u8, 0x56u8, 0x4au8, 0xddu8, 0xdfu8, 0xa5u8, 0xf8u8, 0xc6u8, 0xdau8, 0xcau8, 0x90u8, 0xcau8, 0x01u8, 0x42u8, 0x9du8,
        0x8bu8, 0x0cu8, 0x73u8, 0x43u8, 0x75u8, 0x05u8, 0x94u8, 0xdeu8, 0x24u8, 0xb3u8, 0x80u8, 0x34u8, 0xe5u8, 0x2cu8, 0xdcu8, 0x9bu8,
        0x3fu8, 0xcau8, 0x33u8, 0x45u8, 0xd0u8, 0xdbu8, 0x5fu8, 0xf5u8, 0x52u8, 0xc3u8, 0x21u8, 0xdau8, 0xe2u8, 0x22u8, 0x72u8, 0x6bu8,
        0x3eu8, 0xd0u8, 0x5bu8, 0xa8u8, 0x87u8, 0x8cu8, 0x06u8, 0x5du8, 0x0fu8, 0xddu8, 0x09u8, 0x19u8, 0x93u8, 0xd0u8, 0xb9u8, 0xfcu8,
        0x8bu8, 0x0fu8, 0x84u8, 0x60u8, 0x33u8, 0x1cu8, 0x9bu8, 0x45u8, 0xf1u8, 0xf0u8, 0xa3u8, 0x94u8, 0x3au8, 0x12u8, 0x77u8, 0x33u8,
        0x4du8, 0x44u8, 0x78u8, 0x28u8, 0x3cu8, 0x9eu8, 0xfdu8, 0x65u8, 0x57u8, 0x16u8, 0x94u8, 0x6bu8, 0xfbu8, 0x59u8, 0xd0u8, 0xc8u8,
        0x22u8, 0x36u8, 0xdbu8, 0xd2u8, 0x63u8, 0x98u8, 0x43u8, 0xa1u8, 0x04u8, 0x87u8, 0x86u8, 0xf7u8, 0xa6u8, 0x26u8, 0xbbu8, 0xd6u8,
        0x59u8, 0x4du8, 0xbfu8, 0x6au8, 0x2eu8, 0xaau8, 0x2bu8, 0xefu8, 0xe6u8, 0x78u8, 0xb6u8, 0x4eu8, 0xe0u8, 0x2fu8, 0xdcu8, 0x7cu8,
        0xbeu8, 0x57u8, 0x19u8, 0x32u8, 0x7eu8, 0x2au8, 0xd0u8, 0xb8u8, 0xbau8, 0x29u8, 0x00u8, 0x3cu8, 0x52u8, 0x7du8, 0xa8u8, 0x49u8,
        0x3bu8, 0x2du8, 0xebu8, 0x25u8, 0x49u8, 0xfau8, 0xa3u8, 0xaau8, 0x39u8, 0xa7u8, 0xc5u8, 0xa7u8, 0x50u8, 0x11u8, 0x36u8, 0xfbu8,
        0xc6u8, 0x67u8, 0x4au8, 0xf5u8, 0xa5u8, 0x12u8, 0x65u8, 0x7eu8, 0xb0u8, 0xdfu8, 0xafu8, 0x4eu8, 0xb3u8, 0x61u8, 0x7fu8, 0x2fu8,
    ]
}

/// Looks up the first decryption table.
fn xlat0_at(i: u8) -> (r: u8)
    ensures
        r == xlat0()[i as int],
{
    let t: [u8; 256] = [
        0xc1, 0xbf, 0x6d, 0x0d, 0x59, 0xc5, 0x13, 0x9d, 0x83, 0x61, 0x6b, 0x4f, 0xc7, 0x7f, 0x3d, 0x3d,
        0x53, 0x59, 0xe3, 0xc7, 0xe9, 0x2f, 0x95, 0xa7, 0x95, 0x1f, 0xdf, 0x7f, 0x2b, 0x29, 0xc7, 0x0d,
        0xdf, 0x07, 0xef, 0x71, 0x89, 0x3d, 0x13, 0x3d, 0x3b, 0x13, 0xfb, 0x0d, 0x89, 0xc1, 0x65, 0x1f,
        0xb3, 0x0d, 0x6b, 0x29, 0xe3, 0xfb, 0xef, 0xa3, 0x6b, 0x47, 0x7f, 0x95, 0x35, 0xa7, 0x47, 0x4f,
        0xc7, 0xf1, 0x59, 0x95, 0x35, 0x11, 0x29, 0x61, 0xf1, 0x3d, 0xb3, 0x2b, 0x0d, 0x43, 0x89, 0xc1,
        0x9d, 0x9d, 0x89, 0x65, 0xf1, 0xe9, 0xdf, 0xbf, 0x3d, 0x7f, 0x53, 0x97, 0xe5, 0xe9, 0x95, 0x17,
        0x1d, 0x3d, 0x8b, 0xfb, 0xc7, 0xe3, 0x67, 0xa7, 0x07, 0xf1, 0x71, 0xa7, 0x53, 0xb5, 0x29, 0x89,
        0xe5, 0x2b, 0xa7, 0x17, 0x29, 0xe9, 0x4f, 0xc5, 0x65, 0x6d, 0x6b, 0xef, 0x0d, 0x89, 0x49, 0x2f,
        0xb3, 0x43, 0x53, 0x65, 0x1d, 0x49, 0xa3, 0x13, 0x89, 0x59, 0xef, 0x6b, 0xef, 0x65, 0x1d, 0x0b,
        0x59, 0x13, 0xe3, 0x4f, 0x9d, 0xb3, 0x29, 0x43, 0x2b, 0x07, 0x1d, 0x95, 0x59, 0x59, 0x47, 0xfb,
        0xe5, 0xe9, 0x61, 0x47, 0x2f, 0x35, 0x7f, 0x17, 0x7f, 0xef, 0x7f, 0x95, 0x95, 0x71, 0xd3, 0xa3,
        0x0b, 0x71, 0xa3, 0xad, 0x0b, 0x3b, 0xb5, 0xfb, 0xa3, 0xbf, 0x4f, 0x83, 0x1d, 0xad, 0xe9, 0x2f,
        0x71, 0x65, 0xa3, 0xe5, 0x07, 0x35, 0x3d, 0x0d, 0xb5, 0xe9, 0xe5, 0x47, 0x3b, 0x9d, 0xef, 0x35,
        0xa3, 0xbf, 0xb3, 0xdf, 0x53, 0xd3, 0x97, 0x53, 0x49, 0x71, 0x07, 0x35, 0x61, 0x71, 0x2f, 0x43,
        0x2f, 0x11, 0xdf, 0x17, 0x97, 0xfb, 0x95, 0x3b, 0x7f, 0x6b, 0xd3, 0x25, 0xbf, 0xad, 0xc7, 0xc5,
        0xc5, 0xb5, 0x8b, 0xef, 0x2f, 0xd3, 0x07, 0x6b, 0x25, 0x49, 0x95, 0x25, 0x49, 0x6d, 0x71, 0xc7,
    ];
    assert(t@ =~= xlat0());
    t[i as usize]
}

/// Looks up the second decryption table.
fn xlat1_at(i: u8) -> (r: u8)
    ensures
        r == xlat1()[i as int],
{
    let t: [u8; 256] = [
        0xa7, 0xbc, 0xc9, 0xad, 0x91, 0xdf, 0x85, 0xe5, 0xd4, 0x78, 0xd5, 0x17, 0x46, 0x7c, 0x29, 0x4c,
        0x4d, 0x03, 0xe9, 0x25, 0x68, 0x11, 0x86, 0xb3, 0xbd, 0xf7, 0x6f, 0x61, 0x22, 0xa2, 0x26, 0x34,
        0x2a, 0xbe, 0x1e, 0x46, 0x14, 0x68, 0x9d, 0x44, 0x18, 0xc2, 0x40, 0xf4, 0x7e, 0x5f, 0x1b, 0xad,
        0x0b, 0x94, 0xb6, 0x67, 0xb4, 0x0b, 0xe1, 0xea, 0x95, 0x9c, 0x66, 0xdc, 0xe7, 0x5d, 0x6c, 0x05,
        0xda, 0xd5, 0xdf, 0x7a, 0xef, 0xf6, 0xdb, 0x1f, 0x82, 0x4c, 0xc0, 0x68, 0x47, 0xa1, 0xbd, 0xee,
        0x39, 0x50, 0x56, 0x4a, 0xdd, 0xdf, 0xa5, 0xf8, 0xc6, 0xda, 0xca, 0x90, 0xca, 0x01, 0x42, 0x9d,
        0x8b, 0x0c, 0x73, 0x43, 0x75, 0x05, 0x94, 0xde, 0x24, 0xb3, 0x80, 0x34, 0xe5, 0x2c, 0xdc, 0x9b,
        0x3f, 0xca, 0x33, 0x45, 0xd0, 0xdb, 0x5f, 0xf5, 0x52, 0xc3, 0x21, 0xda, 0xe2, 0x22, 0x72, 0x6b,
        0x3e, 0xd0, 0x5b, 0xa8, 0x87, 0x8c, 0x06, 0x5d, 0x0f, 0xdd, 0x09, 0x19, 0x93, 0xd0, 0xb9, 0xfc,
        0x8b, 0x0f, 0x84, 0x60, 0x33, 0x1c, 0x9b, 0x45, 0xf1, 0xf0, 0xa3, 0x94, 0x3a, 0x12, 0x77, 0x33,
        0x4d, 0x44, 0x78, 0x28, 0x3c, 0x9e, 0xfd, 0x65, 0x57, 0x16, 0x94, 0x6b, 0xfb, 0x59, 0xd0, 0xc8,
        0x22, 0x36, 0xdb, 0xd2, 0x63, 0x98, 0x43, 0xa1, 0x04, 0x87, 0x86, 0xf7, 0xa6, 0x26, 0xbb, 0xd6,
        0x59, 0x4d, 0xbf, 0x6a, 0x2e, 0xaa, 0x2b, 0xef, 0xe6, 0x78, 0xb6, 0x4e, 0xe0, 0x2f, 0xdc, 0x7c,
        0xbe, 0x57, 0x19, 0x32, 0x7e, 0x2a, 0xd0, 0xb8, 0xba, 0x29, 0x00, 0x3c, 0x52, 0x7d, 0xa8, 0x49,
        0x3b, 0x2d, 0xeb, 0x25, 0x49, 0xfa, 0xa3, 0xaa, 0x39, 0xa7, 0xc5, 0xa7, 0x50, 0x11, 0x36, 0xfb,
        0xc6, 0x67, 0x4a, 0xf5, 0xa5, 0x12, 0x65, 0x7e, 0xb0, 0xdf, 0xaf, 0x4e, 0xb3, 0x61, 0x7f, 0x2f,
    ];
    assert(t@ =~= xlat1());
    t[i as usize]
}

/// The Nikon decryption key byte of a shutter count: its four bytes XORed.
pub open spec fn count_key(count: u32) -> u32 {
    (count & 0xff) ^ ((count >> 8) & 0xff) ^ ((count >> 16) & 0xff) ^ ((count >> 24) & 0xff)
}

/// The running key after `k` bytes: each step adds `ci` times a counter that
/// starts at 0x60, modulo 256.
pub open spec fn nikon_cj(ci: nat, cj0: nat, k: nat) -> nat
    decreases k,
{
    if k == 0 {
        cj0
    } else {
        ((nikon_cj(ci, cj0, (k - 1) as nat) + ci * ((0x60 + (k - 1)) % 256)) % 256) as nat
    }
}

/// `data` with the bytes from `start` on decrypted with the Nikon scheme
/// keyed by a serial number and a shutter count.
pub open spec fn decrypted(data: Seq<u8>, start: int, serial: u32, count: u32) -> Seq<u8> {
    let ci = xlat0()[(serial & 0xff) as int] as nat;
    let cj0 = xlat1()[(count_key(count) & 0xff) as int] as nat;
    Seq::new(
        data.len(),
        |i: int|
            if i < start {
                data[i]
            } else {
                data[i] ^ (nikon_cj(ci, cj0, (i - start + 1) as nat) as u8)
            },
    )
}

/// Decrypts Nikon-encrypted maker-note data from `start` on.
#[verifier::spinoff_prover]
#[verifier::rlimit(40)]
fn decrypt_nikon(data: &[u8], start: usize, serial: u32, count: u32) -> (r: Vec<u8>)
    ensures
        r@ == decrypted(data@, start as int, serial, count),
{
    let mut out = vstd::slice::slice_to_vec(data);
    if start >= out.len() {
        assert(out@ =~= decrypted(data@, start as int, serial, count));
        return out;
    }
    let key = (count & 0xff) ^ ((count >> 8) & 0xff) ^ ((count >> 16) & 0xff) ^ ((count >> 24)
        & 0xff);
    assert(key < 256) by (bit_vector)
        requires
            key == (count & 0xff) ^ ((count >> 8) & 0xff) ^ ((count >> 16) & 0xff) ^ ((count
                >> 24) & 0xff),
    ;
    assert((key & 0xff) == key) by (bit_vector)
        requires
            key < 256,
    ;
    assert((serial & 0xff) < 256) by (bit_vector);
    let ci = xlat0_at((serial & 0xff) as u8) as u32;
    let ghost cj0 = xlat1()[(count_key(count) & 0xff) as int] as nat;
    let mut cj = xlat1_at(key as u8) as u32;
    let mut ck: u32 = 0x60;
    let mut i: usize = start;
    while i < out.len()
        invariant
            start <= i <= out@.len(),
            out@.len() == data@.len(),
            ci < 256,
            cj < 256,
            ck < 256,
            cj == nikon_cj(ci as nat, cj0, (i - start) as nat),
            ck == (0x60 + (i - start)) % 256,
            forall|j: int| 0 <= j < i ==> out@[j] == decrypted(data@, start as int, serial, count)[j],
            forall|j: int| i <= j < out@.len() ==> out@[j] == data@[j],
        decreases out.len() - i,
    {
        assert(ci * ck <= 255 * 255) by (nonlinear_arith)
            requires
                ci < 256,
                ck < 256,
        ;
        let s = cj + ci * ck;
        assert((s & 0xff) == s % 256) by (bit_vector);
        cj = s & 0xff;
        let c1 = ck + 1;
        assert((c1 & 0xff) == c1 % 256) by (bit_vector);
        ck = c1 & 0xff;
        let b = out[i] ^ (cj as u8);
        out[i] = b;
        i = i + 1;
    }
    assert(out@ =~= decrypted(data@, start as int, serial, count));
    out
}


/// What the encrypted lens-data record sets, given the serial number and
/// shutter count that key it.
pub open spec fn lens_data_effect(raw: Seq<u8>, serial: Option<u32>, shutter: Option<u32>, m: M) -> M {
    if raw.len() < 4 {
        m
    } else {
        let version = ascii_text(raw.subrange(0, 4));
        let m1 = put_effect(m, "LensDataVersion"@, version);
        if !starts_with(version, "080"@) || serial is None || shutter is None {
            m1
        } else {
            let d = decrypted(raw, 4, serial.unwrap(), shutter.unwrap());
            if d.len() < 0x60 {
                m1
            } else {
                let m2 = match z_lens_text(u16_at(d, 0x30, true) as u16) {
                    Some(name) => put_effect(m1, "LensID"@, name),
                    None => m1,
                };
                let m3 = put_value_effect(
                    m2,
                    "MaxAperture"@,
                    num(
                        Real {
                            num: u16_at(d, 0x36, true) as i64,
                            den: 1,
                            style: RealStyle::NikonMaxAperture,
                        },
                    ),
                );
                let m4 = put_value_effect(
                    m3,
                    "FocusDistance"@,
                    num(
                        Real {
                            num: u16_at(d, 0x4e, true) as i64,
                            den: 1,
                            style: RealStyle::NikonFocusDistance,
                        },
                    ),
                );
                let m5 = put_effect(
                    m4,
                    "LensPositionAbsolute"@,
                    signed_dec_text(as_i32(u32_at(d, 0x5a, true))),
                );
                put_effect(
                    m5,
                    "LensMountType"@,
                    if d[0x5f] & 1 == 0 { "Z-mount Lens"@ } else { "F-mount Lens"@ },
                )
            }
        }
    }
}

/// Reads the encrypted lens-data record (versions `080x`), which needs the
/// serial number and shutter count to decrypt.
fn parse_lens_data(raw: &[u8], serial: Option<u32>, shutter: Option<u32>, metadata: &mut TagMap)
    ensures
        final(metadata)@ == lens_data_effect(raw@, serial, shutter, old(metadata)@),
{
    if raw.len() < 4 {
        return;
    }
    let version = ascii(sub_slice(raw, 0, 4));
    let wanted = text_starts_with(version.as_str(), "080");
    put(metadata, "LensDataVersion", version);
    if !wanted {
        return;
    }
    let (serial, shutter) = match (serial, shutter) {
        (Some(a), Some(b)) => (a, b),
        _ => {
            return;
        },
    };
    let decoded = decrypt_nikon(raw, 4, serial, shutter);
    if decoded.len() < 0x60 {
        return;
    }
    let d = decoded.as_slice();
    match z_lens_name(read_u16(d, 0x30, true)) {
        Some(name) => put(metadata, "LensID", text(name)),
        None => {},
    }
    put_value(
        metadata,
        "MaxAperture",
        TagValue::number(
            Real { num: read_u16(d, 0x36, true) as i64, den: 1, style: RealStyle::NikonMaxAperture },
        ),
    );
    put_value(
        metadata,
        "FocusDistance",
        TagValue::number(
            Real {
                num: read_u16(d, 0x4e, true) as i64,
                den: 1,
                style: RealStyle::NikonFocusDistance,
            },
        ),
    );
    put(metadata, "LensPositionAbsolute", i64_text(read_i32(d, 0x5a, true) as i64));
    let mount = if d[0x5f] & 1 == 0 { text("Z-mount Lens") } else { text("F-mount Lens") };
    put(metadata, "LensMountType", mount);
}


/// What the Nikon record list has gathered for the encrypted lens data:
/// the serial number, the shutter count, and the lens-data bytes.
pub struct NctgPending {
    pub serial: Option<u32>,
    pub shutter_count: Option<u32>,
    pub lens_data: Option<Vec<u8>>,
}

/// Serial number, shutter count and lens-data bytes, as plain values.
pub type PendingModel = (Option<u32>, Option<u32>, Option<Seq<u8>>);

impl View for NctgPending {
    type V = PendingModel;

    open spec fn view(&self) -> PendingModel {
        (
            self.serial,
            self.shutter_count,
            match self.lens_data {
                Some(v) => Some(v@),
                None => None,
            },
        )
    }
}

/// What storing the first big-endian 16-bit value as a number does.
pub open spec fn first_u16_effect(raw: Seq<u8>, key: Seq<char>, m: M) -> M {
    match first_be16(raw) {
        Some(v) => put_effect(m, key, dec_text(v as nat)),
        None => m,
    }
}

/// What storing the first big-endian 32-bit value as a number does.
pub open spec fn first_u32_effect(raw: Seq<u8>, key: Seq<char>, m: M) -> M {
    match first_be32(raw) {
        Some(v) => put_effect(m, key, dec_text(v as nat)),
        None => m,
    }
}

/// Stores the first big-endian 16-bit value of `raw` as a number.
fn put_first_u16(metadata: &mut TagMap, key: &str, raw: &[u8])
    ensures
        final(metadata)@ == first_u16_effect(raw@, key@, old(metadata)@),
{
    if let Some(v) = first_u16(raw) {
        put(metadata, key, u64_text(v as u64));
    }
}

/// Stores the first big-endian 32-bit value of `raw` as a number.
fn put_first_u32(metadata: &mut TagMap, key: &str, raw: &[u8])
    ensures
        final(metadata)@ == first_u32_effect(raw@, key@, old(metadata)@),
{
    if let Some(v) = first_u32(raw) {
        put(metadata, key, u64_text(v as u64));
    }
}

/// What a record of the QuickTime and EXIF groups (tags below
/// 0x0200_0000) sets.
pub open spec fn nctg_exif_effect(tag: u32, raw: Seq<u8>, m: M) -> M {
    if tag == 0x0001 {
        put_effect(m, "Make"@, ascii_text(raw))
    } else if tag == 0x0002 {
        put_effect(m, "Model"@, ascii_text(raw))
    } else if tag == 0x0003 {
        put_effect(m, "Software"@, ascii_text(raw))
    } else if tag == 0x0011 {
        put_effect(m, "CreateDate"@, ascii_text(raw))
    } else if tag == 0x0012 {
        put_effect(m, "DateTimeOriginal"@, ascii_text(raw))
    } else if tag == 0x0013 {
        first_u32_effect(raw, "FrameCount"@, m)
    } else if tag == 0x0016 {
        match first_rational_spec(raw) {
            Some((n, d)) => put_value_effect(
                put_value_effect(m, "FrameRate"@, frame_rate_value(n, d)),
                "VideoFrameRate"@,
                frame_rate_value(n, d),
            ),
            None => m,
        }
    } else if tag == 0x0019 {
        put_effect(m, "TimeZone"@, ascii_text(raw))
    } else if tag == 0x0022 {
        first_u16_effect(raw, "FrameWidth"@, m)
    } else if tag == 0x0023 {
        first_u16_effect(raw, "FrameHeight"@, m)
    } else if tag == 0x0032 {
        first_u16_effect(raw, "AudioChannels"@, m)
    } else if tag == 0x0033 {
        first_u16_effect(raw, "AudioBitsPerSample"@, m)
    } else if tag == 0x0034 {
        first_u16_effect(raw, "AudioSampleRate"@, m)
    } else if tag == 0x1002 {
        put_effect(m, "NikonDateTime"@, ascii_text(raw))
    } else if tag == 0x1013 {
        match first_be16(raw) {
            Some(v) => put_effect(m, "ElectronicVR"@, on_off_text(v)),
            None => m,
        }
    } else if tag == 0x0110_829a {
        match first_rational_spec(raw) {
            Some((n, d)) => put_effect(
                put_effect(m, "ExposureTime"@, reduced_fraction_text(n, d)),
                "ShutterSpeed"@,
                reduced_fraction_text(n, d),
            ),
            None => m,
        }
    } else if tag == 0x0110_829d {
        match first_rational_spec(raw) {
            Some((n, d)) => put_value_effect(
                put_value_effect(m, "FNumber"@, fnumber_value(n, d)),
                "Aperture"@,
                fnumber_value(n, d),
            ),
            None => m,
        }
    } else if tag == 0x0110_8822 {
        match first_be16(raw) {
            Some(v) => put_effect(m, "ExposureProgram"@, exposure_program_text(v)),
            None => m,
        }
    } else if tag == 0x0110_8832 {
        first_u32_effect(raw, "ISO"@, m)
    } else if tag == 0x0110_9204 {
        match first_srational_spec(raw) {
            Some((n, d)) => put_value_effect(m, "ExposureCompensation"@, ev_value(n, d)),
            None => m,
        }
    } else if tag == 0x0110_9207 {
        match first_be16(raw) {
            Some(v) => put_effect(m, "MeteringMode"@, metering_mode_text(v)),
            None => m,
        }
    } else if tag == 0x0110_920a {
        match first_rational_spec(raw) {
            Some((n, d)) => put_value_effect(m, "FocalLength"@, focal_value(n, d)),
            None => m,
        }
    } else if tag == 0x0110_a431 {
        put_effect(m, "SerialNumber"@, ascii_text(raw))
    } else if tag == 0x0110_a432 {
        put_value_effect(m, "LensInfo"@, lens_info_value(raw))
    } else if tag == 0x0110_a433 {
        put_effect(m, "LensMake"@, ascii_text(raw))
    } else if tag == 0x0110_a434 {
        put_effect(m, "LensModel"@, ascii_text(raw))
    } else if tag == 0x0110_a435 {
        put_effect(m, "LensSerialNumber"@, ascii_text(raw))
    } else {
        m
    }
}

/// Whether a focus mode names manual focus.
pub open spec fn is_manual_focus(mode: Seq<char>) -> bool {
    starts_with(lower_text(mode), "manual"@)
}

/// What a record of the maker-note group (tags from 0x0200_0000) sets.
pub open spec fn nctg_maker_effect(tag: u32, fmt: u16, raw: Seq<u8>, m: M) -> M {
    if tag == 0x0200_0001 {
        put_effect(m, "MakerNoteVersion"@, maker_note_version_text(raw))
    } else if tag == 0x0200_0005 {
        put_effect(m, "WhiteBalance"@, ascii_text(raw))
    } else if tag == 0x0200_0007 {
        put_effect(
            put_effect(m, "FocusMode"@, ascii_text(raw)),
            "AutoFocus"@,
            if is_manual_focus(ascii_text(raw)) { "Off"@ } else { "On"@ },
        )
    } else if tag == 0x0200_001b {
        put_effect(m, "CropHiSpeed"@, crop_text(raw))
    } else if tag == 0x0200_001f {
        vr_info_effect(raw, m)
    } else if tag == 0x0200_0022 {
        match first_be16(raw) {
            Some(v) => put_effect(m, "ActiveD-Lighting"@, active_d_lighting_text(v)),
            None => m,
        }
    } else if tag == 0x0200_0023 {
        picture_control_effect(raw, m)
    } else if tag == 0x0200_0024 {
        world_time_effect(raw, m)
    } else if tag == 0x0200_0025 {
        iso_info_effect(raw, m)
    } else if tag == 0x0200_002a {
        match first_be16(raw) {
            Some(v) => put_effect(m, "VignetteControl"@, vignette_control_text(v)),
            None => m,
        }
    } else if tag == 0x0200_003f {
        put_value_effect(m, "WhiteBalanceFineTune"@, fine_tune_pieces(raw, raw.len() / 8))
    } else if tag == 0x0200_0083 {
        if raw.len() > 0 {
            put_effect(m, "LensType"@, lens_type_text(raw[0]))
        } else {
            m
        }
    } else if tag == 0x0200_0084 {
        put_value_effect(m, "Lens"@, lens_info_value(raw))
    } else if tag == 0x0200_0087 {
        if raw.len() > 0 {
            put_effect(m, "FlashMode"@, flash_mode_text(raw[0]))
        } else {
            m
        }
    } else if tag == 0x0200_00a7 {
        first_u32_effect(raw, "ShutterCount"@, m)
    } else if tag == 0x0200_00ab {
        put_effect(m, "VariProgram"@, ascii_text(raw))
    } else if tag == 0x0200_00b1 {
        if fmt == 3 {
            match first_be16(raw) {
                Some(v) => put_effect(m, "HighISONoiseReduction"@, high_iso_nr_text(v)),
                None => m,
            }
        } else {
            m
        }
    } else if tag == 0x0200_00b7 {
        af_info2_effect(raw, m)
    } else {
        m
    }
}

/// What one record sets in the tag map.
pub open spec fn nctg_tag_effect(tag: u32, fmt: u16, raw: Seq<u8>, m: M) -> M {
    if tag < 0x0200_0000 {
        nctg_exif_effect(tag, raw, m)
    } else {
        nctg_maker_effect(tag, fmt, raw, m)
    }
}

/// What one record leaves for the lens data: the serial number (when it
/// parses as a 32-bit number), the lens-data bytes, the shutter count.
pub open spec fn nctg_pending_effect(tag: u32, raw: Seq<u8>, p: PendingModel) -> PendingModel {
    if tag == 0x0110_a431 {
        (
            match parse_unsigned(ascii_text(raw), 0xffff_ffff) {
                Some(v) => Some(v as u32),
                None => None,
            },
            p.1,
            p.2,
        )
    } else if tag == 0x0200_0098 {
        (p.0, p.1, Some(raw))
    } else if tag == 0x0200_00a7 {
        match first_be32(raw) {
            Some(v) => (p.0, Some(v), p.2),
            None => p,
        }
    } else {
        p
    }
}

/// Handles a record of the QuickTime and EXIF groups.
fn dispatch_exif_tag(tag: u32, raw: &[u8], metadata: &mut TagMap, pending: &mut NctgPending)
    requires
        tag < 0x0200_0000,
    ensures
        final(metadata)@ == nctg_exif_effect(tag, raw@, old(metadata)@),
        final(pending)@ == nctg_pending_effect(tag, raw@, old(pending)@),
{
    match tag {
        0x0001 => put(metadata, "Make", ascii(raw)),
        0x0002 => put(metadata, "Model", ascii(raw)),
        0x0003 => put(metadata, "Software", ascii(raw)),
        0x0011 => put(metadata, "CreateDate", ascii(raw)),
        0x0012 => put(metadata, "DateTimeOriginal", ascii(raw)),
        0x0013 => put_first_u32(metadata, "FrameCount", raw),
        0x0016 => {
            if let Some((n, d)) = first_rational(raw) {
                put_value(metadata, "FrameRate", format_frame_rate(n, d));
                put_value(metadata, "VideoFrameRate", format_frame_rate(n, d));
            }
        },
        0x0019 => put(metadata, "TimeZone", ascii(raw)),
        0x0022 => put_first_u16(metadata, "FrameWidth", raw),
        0x0023 => put_first_u16(metadata, "FrameHeight", raw),
        0x0032 => put_first_u16(metadata, "AudioChannels", raw),
        0x0033 => put_first_u16(metadata, "AudioBitsPerSample", raw),
        0x0034 => put_first_u16(metadata, "AudioSampleRate", raw),
        0x1002 => put(metadata, "NikonDateTime", ascii(raw)),
        0x1013 => {
            if let Some(v) = first_u16(raw) {
                put(metadata, "ElectronicVR", on_off(v));
            }
        },
        0x0110_829a => {
            if let Some((n, d)) = first_rational(raw) {
                put(metadata, "ExposureTime", reduce_fraction(n, d));
                put(metadata, "ShutterSpeed", reduce_fraction(n, d));
            }
        },
        0x0110_829d => {
            if let Some((n, d)) = first_rational(raw) {
                put_value(metadata, "FNumber", format_fnumber(n, d));
                put_value(metadata, "Aperture", format_fnumber(n, d));
            }
        },
        0x0110_8822 => {
            if let Some(v) = first_u16(raw) {
                put(metadata, "ExposureProgram", exposure_program(v));
            }
        },
        0x0110_8832 => put_first_u32(metadata, "ISO", raw),
        0x0110_9204 => {
            if let Some((n, d)) = first_srational(raw) {
                put_value(metadata, "ExposureCompensation", format_ev(n, d));
            }
        },
        0x0110_9207 => {
            if let Some(v) = first_u16(raw) {
                put(metadata, "MeteringMode", metering_mode(v));
            }
        },
        0x0110_920a => {
            if let Some((n, d)) = first_rational(raw) {
                put_value(metadata, "FocalLength", format_focal(n, d));
            }
        },
        0x0110_a431 => {
            let serial = ascii(raw);
            pending.serial = match parse_unsigned_text(serial.as_str(), 0xffff_ffff) {
                Some(v) => Some(v as u32),
                None => None,
            };
            put(metadata, "SerialNumber", serial);
        },
        0x0110_a432 => put_value(metadata, "LensInfo", format_lens_info(raw)),
        0x0110_a433 => put(metadata, "LensMake", ascii(raw)),
        0x0110_a434 => put(metadata, "LensModel", ascii(raw)),
        0x0110_a435 => put(metadata, "LensSerialNumber", ascii(raw)),
        _ => {},
    }
}

/// Handles a record of the maker-note group.
fn dispatch_maker_tag(tag: u32, fmt: u16, raw: &[u8], metadata: &mut TagMap, pending: &mut NctgPending)
    requires
        tag >= 0x0200_0000,
    ensures
        final(metadata)@ == nctg_maker_effect(tag, fmt, raw@, old(metadata)@),
        final(pending)@ == nctg_pending_effect(tag, raw@, old(pending)@),
{
    match tag {
        0x0200_0001 => put(metadata, "MakerNoteVersion", maker_note_version(raw)),
        0x0200_0005 => put(metadata, "WhiteBalance", ascii(raw)),
        0x0200_0007 => {
            let mode = ascii(raw);
            let lower = to_ascii_lower(mode.as_str());
            let manual = text_starts_with(lower.as_str(), "manual");
            put(metadata, "FocusMode", mode);
            put(metadata, "AutoFocus", if manual { text("Off") } else { text("On") });
        },
        0x0200_001b => put(metadata, "CropHiSpeed", format_crop(raw)),
        0x0200_001f => parse_vr_info(raw, metadata),
        0x0200_0022 => {
            if let Some(v) = first_u16(raw) {
                put(metadata, "ActiveD-Lighting", active_d_lighting(v));
            }
        },
        0x0200_0023 => parse_picture_control(raw, metadata),
        0x0200_0024 => parse_world_time(raw, metadata),
        0x0200_0025 => parse_iso_info(raw, metadata),
        0x0200_002a => {
            if let Some(v) = first_u16(raw) {
                put(metadata, "VignetteControl", vignette_control(v));
            }
        },
        0x0200_003f => put_value(metadata, "WhiteBalanceFineTune", format_fine_tune(raw)),
        0x0200_0083 => {
            if raw.len() > 0 {
                put(metadata, "LensType", lens_type(raw[0]));
            }
        },
        0x0200_0084 => put_value(metadata, "Lens", format_lens_info(raw)),
        0x0200_0087 => {
            if raw.len() > 0 {
                put(metadata, "FlashMode", flash_mode(raw[0]));
            }
        },
        0x0200_0098 => {
            pending.lens_data = Some(vstd::slice::slice_to_vec(raw));
        },
        0x0200_00a7 => {
            if let Some(v) = first_u32(raw) {
                put(metadata, "ShutterCount", u64_text(v as u64));
                pending.shutter_count = Some(v);
            }
        },
        0x0200_00ab => put(metadata, "VariProgram", ascii(raw)),
        0x0200_00b1 => {
            if fmt == 3 {
                if let Some(v) = first_u16(raw) {
                    put(metadata, "HighISONoiseReduction", high_iso_nr(v));
                }
            }
        },
        0x0200_00b7 => parse_af_info2(raw, metadata),
        _ => {},
    }
}

/// Handles one record of the Nikon list: the tags it sets, and what it
/// leaves for the lens data.
fn dispatch_nctg(tag: u32, fmt: u16, raw: &[u8], metadata: &mut TagMap, pending: &mut NctgPending)
    ensures
        final(metadata)@ == nctg_tag_effect(tag, fmt, raw@, old(metadata)@),
        final(pending)@ == nctg_pending_effect(tag, raw@, old(pending)@),
{
    if tag < 0x0200_0000 {
        dispatch_exif_tag(tag, raw, metadata, pending);
    } else {
        dispatch_maker_tag(tag, fmt, raw, metadata, pending);
    }
}


/// Walks the records of the Nikon list from `pos`, `n` records done: the
/// tag map and what is pending for the lens data at the end.
pub open spec fn nctg_walk(d: Seq<u8>, pos: int, n: nat, m: M, p: PendingModel) -> (M, PendingModel)
    decreases 400 - n,
{
    if n >= 400 || pos < 0 || pos + 8 > d.len() {
        (m, p)
    } else {
        let fmt = be16(d[pos + 4], d[pos + 5]) as u16;
        let count = be16(d[pos + 6], d[pos + 7]);
        match format_size_spec(fmt) {
            None => (m, p),
            Some(unit) => {
                let at = pos + 8;
                let size = count * unit;
                if size > d.len() - at {
                    (m, p)
                } else {
                    let tag = code_at(d, pos) as u32;
                    let raw = d.subrange(at, at + size);
                    nctg_walk(
                        d,
                        at + size,
                        n + 1,
                        nctg_tag_effect(tag, fmt, raw, m),
                        nctg_pending_effect(tag, raw, p),
                    )
                }
            },
        }
    }
}

/// What the Nikon record list sets: the byte order, every record in turn
/// (at most 400), then the lens data decrypted with what the records gave.
pub open spec fn nctg_effect(d: Seq<u8>, m: M) -> M {
    let m0 = m.insert("ExifByteOrder"@, txt("Big-endian (Motorola, MM)"@));
    let (m1, p) = nctg_walk(d, 0, 0, m0, (None, None, None));
    match p.2 {
        Some(lens) => lens_data_effect(lens, p.0, p.1, m1),
        None => m1,
    }
}

/// Reads the Nikon `NCTG` record list.
fn parse_nctg(data: &[u8], metadata: &mut TagMap)
    ensures
        final(metadata)@ == nctg_effect(data@, old(metadata)@),
{
    metadata.insert_text("ExifByteOrder", text("Big-endian (Motorola, MM)"));
    let mut pending = NctgPending { serial: None, shutter_count: None, lens_data: None };
    let ghost goal = nctg_walk(data@, 0, 0, metadata@, pending@);
    let mut pos: usize = 0;
    let mut records: usize = 0;
    while data.len() - pos >= 8 && records < 400
        invariant
            pos <= data@.len(),
            records <= 400,
            nctg_walk(data@, pos as int, records as nat, metadata@, pending@) == goal,
        decreases 400 - records,
    {
        let tag = read_u32(data, pos, false);
        let fmt = read_u16(data, pos + 4, false);
        let count = read_u16(data, pos + 6, false) as usize;
        let unit = match format_size(fmt) {
            Some(u) => u,
            None => {
                break;
            },
        };
        assert(unit <= 8);
        assert(count * unit <= 65535 * 8) by (nonlinear_arith)
            requires
                count <= 65535,
                unit <= 8,
        ;
        let size = count * unit;
        let at = pos + 8;
        if size > data.len() - at {
            break;
        }
        let raw = sub_slice(data, at, at + size);
        dispatch_nctg(tag, fmt, raw, metadata, &mut pending);
        pos = at + size;
        records = records + 1;
    }
    match pending.lens_data {
        Some(lens) => parse_lens_data(lens.as_slice(), pending.serial, pending.shutter_count, metadata),
        None => {},
    }
}

/// What one leaf atom sets, by its type code.
pub open spec fn atom_effect(code: nat, p: Seq<u8>, m: M) -> M {
    if code == 0x66747970 {
        ftyp_effect(p, m)
    } else if code == 0x6d766864 {
        mvhd_effect(p, m)
    } else if code == 0x746b6864 {
        tkhd_effect(p, m)
    } else if code == 0x6d646864 {
        mdhd_effect(p, m)
    } else if code == 0x73747364 {
        stsd_effect(p, m)
    } else if code == 0x4e435447 {
        nctg_effect(p, m)
    } else {
        m
    }
}

/// Reads a leaf atom by its type.
pub(crate) fn handle_atom(typ: u32, payload: &[u8], metadata: &mut TagMap)
    ensures
        final(metadata)@ == atom_effect(typ as nat, payload@, old(metadata)@),
{
    match typ {
        0x66747970 => parse_ftyp(payload, metadata),
        0x6d766864 => parse_mvhd(payload, metadata),
        0x746b6864 => parse_tkhd(payload, metadata),
        0x6d646864 => parse_mdhd(payload, metadata),
        0x73747364 => parse_stsd(payload, metadata),
        0x4e435447 => parse_nctg(payload, metadata),
        _ => {},
    }
}

/// The size and header length of the atom at `pos`: a 32-bit size, a
/// 64-bit size after the type when that is 1 (and fits before `end`), or
/// the rest of the range when it is 0.
pub open spec fn atom_header(d: Seq<u8>, pos: int, end: int) -> (int, int) {
    let size32 = code_at(d, pos);
    if size32 == 1 && pos + 16 <= end {
        (be64(d, pos + 8) as int, 16)
    } else if size32 == 0 {
        (end - pos, 8)
    } else {
        (size32 as int, 8)
    }
}

/// The atoms from `start` up to `end` (clipped to the data), at nesting
/// `depth`; nothing deeper than 12 levels.
pub open spec fn walk_range(d: Seq<u8>, start: int, end: int, depth: nat, m: M) -> M
    decreases 13 - depth, end - start + 1,
{
    let e = if end < d.len() { end } else { d.len() as int };
    if depth > 12 || start >= end || start < 0 || start + 8 > e {
        m
    } else {
        walk_from(d, start, e, depth, m)
    }
}

/// The atoms from `pos` up to `end`, in order: `mdat` gives its payload's
/// offset and size, a container is walked one level deeper (`meta` after its
/// four-byte header), a known leaf is read; a malformed size ends the walk.
pub open spec fn walk_from(d: Seq<u8>, pos: int, end: int, depth: nat, m: M) -> M
    decreases 13 - depth, end - pos,
{
    if depth > 12 || pos < 0 || pos + 8 > end || end > d.len() {
        m
    } else {
        let (size, hl) = atom_header(d, pos, end);
        if size < hl || size > end - pos {
            m
        } else {
            let code = code_at(d, pos + 4);
            let pay = pos + hl;
            let pend = pos + size;
            let m2 = if code == 0x6d646174 {
                m.insert("MediaDataOffset"@, txt(dec_text(pay as nat))).insert(
                    "MediaDataSize"@,
                    txt(dec_text((size - hl) as nat)),
                )
            } else if is_container_code(code) {
                let child = if code == 0x6d657461 && pend - pay >= 4 {
                    pay + 4
                } else if code == 0x6d657461 {
                    pend
                } else {
                    pay
                };
                walk_range(d, child, pend, depth + 1, m)
            } else if is_leaf_code(code) {
                atom_effect(code, d.subrange(pay, pend), m)
            } else {
                m
            };
            walk_from(d, pend, end, depth, m2)
        }
    }
}

/// Walks the atoms of `data[start..end]` at nesting `depth`.
fn walk_slice(data: &[u8], start: usize, end: usize, metadata: &mut TagMap, depth: u32)
    ensures
        final(metadata)@ == walk_range(data@, start as int, end as int, depth as nat, old(metadata)@),
    decreases 13 - depth,
{
    if depth > 12 || start >= end {
        return;
    }
    let e = if end < data.len() { end } else { data.len() };
    if start > e || e - start < 8 {
        return;
    }
    let ghost goal = walk_from(data@, start as int, e as int, depth as nat, metadata@);
    let mut pos: usize = start;
    while e - pos >= 8
        invariant
            start <= pos <= e,
            e <= data@.len(),
            depth <= 12,
            walk_from(data@, pos as int, e as int, depth as nat, metadata@) == goal,
        decreases e - pos,
    {
        let size32 = read_u32(data, pos, false);
        let (size, hl): (u64, usize) = if size32 == 1 && e - pos >= 16 {
            (read_u64_be_at(data, pos + 8), 16)
        } else if size32 == 0 {
            ((e - pos) as u64, 8)
        } else {
            (size32 as u64, 8)
        };
        if size < hl as u64 || size > (e - pos) as u64 {
            break;
        }
        let size = size as usize;
        let typ = read_u32(data, pos + 4, false);
        let pay = pos + hl;
        let pend = pos + size;
        if typ == 0x6d646174 {
            metadata.insert_text("MediaDataOffset", u64_text(pay as u64));
            metadata.insert_text("MediaDataSize", u64_text((size - hl) as u64));
        } else if is_container(typ) {
            let child = if typ == 0x6d657461 && pend - pay >= 4 {
                pay + 4
            } else if typ == 0x6d657461 {
                pend
            } else {
                pay
            };
            walk_slice(data, child, pend, metadata, depth + 1);
        } else if is_leaf(typ) {
            handle_atom(typ, sub_slice(data, pay, pend), metadata);
        }
        pos = pend;
    }
}

/// Walks the QuickTime atoms of an in-memory buffer (a whole file, or its
/// `ftyp` and `moov` atoms), filling `metadata`.
pub fn walk_atoms(data: &[u8], metadata: &mut TagMap)
    ensures
        final(metadata)@ == walk_range(data@, 0, data@.len() as int, 0, old(metadata)@),
{
    walk_slice(data, 0, data.len(), metadata, 0);
}

/// Xor with the same key twice gives the byte back.
proof fn lemma_xor_twice(x: u8, k: u8)
    ensures
        (x ^ k) ^ k == x,
{
    assert((x ^ k) ^ k == x) by (bit_vector);
}

/// Nikon maker-note decryption is its own inverse: decrypting the
/// decrypted data again with the same serial number and shutter count
/// gives the original bytes.
pub proof fn law_decrypt_twice(data: Seq<u8>, start: int, serial: u32, count: u32)
    ensures
        decrypted(decrypted(data, start, serial, count), start, serial, count) == data,
{
    let once = decrypted(data, start, serial, count);
    let twice = decrypted(once, start, serial, count);
    let ci = xlat0()[(serial & 0xff) as int] as nat;
    let cj0 = xlat1()[(count_key(count) & 0xff) as int] as nat;
    assert forall|i: int| 0 <= i < data.len() implies twice[i] == data[i] by {
        if i >= start {
            lemma_xor_twice(data[i], nikon_cj(ci, cj0, (i - start + 1) as nat) as u8);
        }
    }
    assert(twice =~= data);
}

} // verus!
