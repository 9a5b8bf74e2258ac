//! PNG reading: the chunks that hold EXIF, text and the image header.

use vstd::prelude::*;
use crate::bytes::{be32, read_u32, u32_at};
use crate::metadata::{num, txt, PieceModel, Real, RealStyle, TagMap, TagValue};
use crate::text::{append_str, dec_text, push_dec, str_eq, sub_slice, text, u64_text, utf8_lossy, utf8_lossy_text};
use crate::tiff::{result_matches, tiff_outcome, TiffParser};
use crate::types::ExifError;

verus! {

type M = Map<Seq<char>, Seq<PieceModel>>;

/// The eight bytes every PNG file starts with.
pub open spec fn png_signature() -> Seq<u8> {
    seq![0x89u8, 0x50u8, 0x4Eu8, 0x47u8, 0x0Du8, 0x0Au8, 0x1Au8, 0x0Au8]
}

/// The chunk types read: `eXIf`, `tEXt`, `iTXt` and `IHDR`.
pub open spec fn exif_type() -> Seq<u8> {
    seq![0x65u8, 0x58u8, 0x49u8, 0x66u8]
}

pub open spec fn text_type() -> Seq<u8> {
    seq![0x74u8, 0x45u8, 0x58u8, 0x74u8]
}

pub open spec fn itxt_type() -> Seq<u8> {
    seq![0x69u8, 0x54u8, 0x58u8, 0x74u8]
}

pub open spec fn ihdr_type() -> Seq<u8> {
    seq![0x49u8, 0x48u8, 0x44u8, 0x52u8]
}

/// The tag a PNG text keyword is stored under.
pub open spec fn keyword_tag(k: Seq<char>) -> Seq<char> {
    if k == "Software"@ {
        "Software"@
    } else if k == "Author"@ {
        "Artist"@
    } else if k == "Title"@ || k == "Description"@ {
        "ImageDescription"@
    } else if k == "Copyright"@ {
        "Copyright"@
    } else if k == "Creation Time"@ {
        "DateTime"@
    } else {
        "PNG_"@ + k
    }
}

/// The first zero byte of `b` from `i`.
pub open spec fn zero_from(b: Seq<u8>, i: int) -> Option<int>
    decreases b.len() - i,
{
    if i < 0 || i >= b.len() {
        None
    } else if b[i] == 0 {
        Some(i)
    } else {
        zero_from(b, i + 1)
    }
}

/// Where the keyword of a text chunk ends: its first zero byte, when that
/// is neither the first nor the last byte.
pub open spec fn keyword_end(b: Seq<u8>) -> Option<int> {
    match zero_from(b, 0) {
        Some(p) => if 0 < p < b.len() - 1 {
            Some(p)
        } else {
            None
        },
        None => None,
    }
}

/// What a `tEXt` chunk sets: its text under the tag of its keyword.
pub open spec fn text_chunk_effect(b: Seq<u8>, m: M) -> M {
    match keyword_end(b) {
        Some(p) => m.insert(
            keyword_tag(utf8_lossy(b.subrange(0, p))),
            txt(utf8_lossy(b.subrange(p + 1, b.len() as int))),
        ),
        None => m,
    }
}

/// The position after the fourth zero byte from `i`, having seen `seen`
/// of them; 0 when there are fewer.
pub open spec fn fourth_zero_end(r: Seq<u8>, i: int, seen: nat) -> int
    decreases r.len() - i,
{
    if i < 0 || i >= r.len() {
        0
    } else if r[i] == 0 {
        if seen + 1 == 4 {
            i + 1
        } else {
            fourth_zero_end(r, i + 1, seen + 1)
        }
    } else {
        fourth_zero_end(r, i + 1, seen)
    }
}

/// What an `iTXt` chunk sets: the text after the flags, language and
/// translated keyword, under the tag of its keyword.
pub open spec fn itxt_chunk_effect(b: Seq<u8>, m: M) -> M {
    if b.len() < 5 {
        m
    } else {
        match keyword_end(b) {
            Some(p) => {
                let rest = b.subrange(p + 1, b.len() as int);
                let t = fourth_zero_end(rest, 0, 0);
                if t < rest.len() {
                    m.insert(
                        keyword_tag(utf8_lossy(b.subrange(0, p))),
                        txt(utf8_lossy(rest.subrange(t, rest.len() as int))),
                    )
                } else {
                    m
                }
            },
            None => m,
        }
    }
}

/// The name of a PNG color type.
pub open spec fn color_type_name(c: u8) -> Seq<char> {
    if c == 0 {
        "Grayscale"@
    } else if c == 2 {
        "RGB"@
    } else if c == 3 {
        "Palette"@
    } else if c == 4 {
        "Grayscale with Alpha"@
    } else if c == 6 {
        "RGB with Alpha"@
    } else {
        "Unknown"@
    }
}

/// The pixel count in megapixels with one decimal; a count beyond the
/// 64-bit signed range is taken in tens of pixels.
pub open spec fn png_megapixels(w: nat, h: nat) -> Real {
    if w * h <= i64::MAX {
        Real { num: (w * h) as i64, den: 1000000, style: RealStyle::Fixed(1) }
    } else {
        Real { num: (w * h / 10) as i64, den: 100000, style: RealStyle::Fixed(1) }
    }
}

/// What an `IHDR` chunk sets: the size, bit depth and color type.
pub open spec fn ihdr_effect(b: Seq<u8>, m: M) -> M {
    if b.len() < 13 {
        m
    } else {
        let w = be32(b[0], b[1], b[2], b[3]);
        let h = be32(b[4], b[5], b[6], b[7]);
        m.insert("ImageWidth"@, txt(dec_text(w))).insert("ImageHeight"@, txt(dec_text(h))).insert(
            "ImageSize"@,
            txt(dec_text(w) + "x"@ + dec_text(h)),
        ).insert("BitDepth"@, txt(dec_text(b[8] as nat))).insert("Megapixels"@, num(png_megapixels(w, h))).insert(
            "ColorType"@,
            txt(color_type_name(b[9])),
        )
    }
}

/// What an `eXIf` chunk gives: the TIFF data at the offset in its first
/// four bytes (little-endian), when that offset is inside the chunk.
pub open spec fn exif_chunk_outcome(b: Seq<u8>, m: M) -> (Option<Seq<char>>, M) {
    if b.len() < 4 {
        (None, m)
    } else {
        let off = u32_at(b, 0, true);
        if off >= b.len() {
            (None, m)
        } else {
            tiff_outcome(b.subrange(off as int, b.len() as int), m)
        }
    }
}

/// The chunks from `off`: each one that fits is read by its type; an
/// error of an `eXIf` chunk stops the walk.
pub open spec fn chunk_walk(d: Seq<u8>, off: int, m: M) -> (Option<Seq<char>>, M)
    decreases d.len() + 16 - off,
{
    if off < 0 || off + 8 > d.len() {
        (None, m)
    } else {
        let length = u32_at(d, off, false);
        if off + 8 + length > d.len() {
            (None, m)
        } else {
            let ty = d.subrange(off + 4, off + 8);
            let body = d.subrange(off + 8, off + 8 + length);
            let next = off + 12 + length;
            if ty == exif_type() {
                let (err, m1) = exif_chunk_outcome(body, m);
                if err is Some {
                    (err, m1)
                } else {
                    chunk_walk(d, next, m1)
                }
            } else if ty == text_type() {
                chunk_walk(d, next, text_chunk_effect(body, m))
            } else if ty == itxt_type() {
                chunk_walk(d, next, itxt_chunk_effect(body, m))
            } else if ty == ihdr_type() {
                chunk_walk(d, next, ihdr_effect(body, m))
            } else {
                chunk_walk(d, next, m)
            }
        }
    }
}

/// The fields added for every PNG file.
pub open spec fn png_computed(m: M) -> M {
    let m1 = m.insert("FileTypeExtension"@, txt("png"@)).insert("MIMEType"@, txt("image/png"@)).insert(
        "ExifByteOrder"@,
        txt("Little-endian (Intel, II)"@),
    );
    if m1.contains_key("Format"@) {
        m1
    } else {
        m1.insert("Format"@, txt("PNG"@))
    }
}

/// What reading a PNG file gives: an error for a short file or a wrong
/// signature; else the tags of its chunks and the computed fields, or the
/// error of its EXIF chunk with the tags read up to it.
pub open spec fn png_outcome(d: Seq<u8>, m: M) -> (Option<Seq<char>>, M) {
    if d.len() < 8 {
        (Some("PNG file too small"@), m)
    } else if d.subrange(0, 8) != png_signature() {
        (Some("Invalid PNG signature"@), m)
    } else {
        let (err, m1) = chunk_walk(d, 8, m.insert("Format"@, txt("PNG"@)));
        if err is Some {
            (err, m1)
        } else {
            (None, png_computed(m1))
        }
    }
}

/// The PNG parser.
pub struct PngParser;

impl PngParser {
    /// Reads a PNG file's metadata from its chunks.
    pub fn parse_png_exif(data: &[u8], metadata: &mut TagMap) -> (r: Result<(), ExifError>)
        ensures
            result_matches(r, png_outcome(data@, old(metadata)@).0),
            final(metadata)@ == png_outcome(data@, old(metadata)@).1,
    {
        if data.len() < 8 {
            return Err(ExifError::invalid("PNG file too small"));
        }
        if data[0] != 0x89 || data[1] != 0x50 || data[2] != 0x4E || data[3] != 0x47 || data[4] != 0x0D
            || data[5] != 0x0A || data[6] != 0x1A || data[7] != 0x0A {
            assert(data@.subrange(0, 8) != png_signature()) by {
                if data@.subrange(0, 8) == png_signature() {
                    assert(data@[0] == data@.subrange(0, 8)[0]);
                    assert(data@[1] == data@.subrange(0, 8)[1]);
                    assert(data@[2] == data@.subrange(0, 8)[2]);
                    assert(data@[3] == data@.subrange(0, 8)[3]);
                    assert(data@[4] == data@.subrange(0, 8)[4]);
                    assert(data@[5] == data@.subrange(0, 8)[5]);
                    assert(data@[6] == data@.subrange(0, 8)[6]);
                    assert(data@[7] == data@.subrange(0, 8)[7]);
                }
            }
            return Err(ExifError::invalid("Invalid PNG signature"));
        }
        assert(data@.subrange(0, 8) =~= png_signature());
        metadata.insert_str("Format", "PNG");
        match Self::walk_chunks(data, metadata) {
            Ok(()) => {},
            Err(e) => {
                return Err(e);
            },
        }
        Self::add_computed_fields(metadata);
        Ok(())
    }

    /// Whether the chunk at `off` has the type `a b c d`.
    fn chunk_type_is(data: &[u8], off: usize, t: &[u8; 4]) -> (r: bool)
        requires
            off + 8 <= data.len(),
        ensures
            r == (data@.subrange(off + 4, off + 8) == t@),
    {
        let r = data[off + 4] == t[0] && data[off + 5] == t[1] && data[off + 6] == t[2] && data[off + 7] == t[3];
        proof {
            if r {
                assert(data@.subrange(off + 4, off + 8) =~= t@);
            } else if data@.subrange(off + 4, off + 8) == t@ {
                assert(data@.subrange(off + 4, off + 8)[0] == t@[0]);
                assert(data@.subrange(off + 4, off + 8)[1] == t@[1]);
                assert(data@.subrange(off + 4, off + 8)[2] == t@[2]);
                assert(data@.subrange(off + 4, off + 8)[3] == t@[3]);
            }
        }
        r
    }

    /// Reads the chunks after the signature.
    fn walk_chunks(data: &[u8], metadata: &mut TagMap) -> (r: Result<(), ExifError>)
        ensures
            result_matches(r, chunk_walk(data@, 8, old(metadata)@).0),
            final(metadata)@ == chunk_walk(data@, 8, old(metadata)@).1,
    {
        let exif: [u8; 4] = [0x65, 0x58, 0x49, 0x66];
        let textual: [u8; 4] = [0x74, 0x45, 0x58, 0x74];
        let itxt: [u8; 4] = [0x69, 0x54, 0x58, 0x74];
        let ihdr: [u8; 4] = [0x49, 0x48, 0x44, 0x52];
        assert(exif@ =~= exif_type());
        assert(textual@ =~= text_type());
        assert(itxt@ =~= itxt_type());
        assert(ihdr@ =~= ihdr_type());
        let ghost m0 = metadata@;
        let mut offset: usize = 8;
        loop
            invariant
                chunk_walk(data@, offset as int, metadata@) == chunk_walk(data@, 8, m0),
                exif@ == exif_type(),
                textual@ == text_type(),
                itxt@ == itxt_type(),
                ihdr@ == ihdr_type(),
            decreases data.len() - offset,
        {
            if offset > data.len() || data.len() - offset < 8 {
                return Ok(());
            }
            let length = read_u32(data, offset, false) as usize;
            if data.len() - offset - 8 < length {
                return Ok(());
            }
            let end = offset + 8 + length;
            let body = sub_slice(data, offset + 8, end);
            if Self::chunk_type_is(data, offset, &exif) {
                match Self::parse_png_exif_chunk(body, metadata) {
                    Ok(()) => {},
                    Err(e) => {
                        return Err(e);
                    },
                }
            } else if Self::chunk_type_is(data, offset, &textual) {
                Self::parse_png_text_chunk(body, metadata);
            } else if Self::chunk_type_is(data, offset, &itxt) {
                Self::parse_png_itxt_chunk(body, metadata);
            } else if Self::chunk_type_is(data, offset, &ihdr) {
                Self::parse_png_ihdr_chunk(body, metadata);
            }
            if data.len() - end < 4 {
                assert(chunk_walk(data@, end + 4, metadata@) == (None::<Seq<char>>, metadata@));
                return Ok(());
            }
            offset = end + 4;
        }
    }

    /// Reads the TIFF data of an `eXIf` chunk.
    fn parse_png_exif_chunk(exif_data: &[u8], metadata: &mut TagMap) -> (r: Result<(), ExifError>)
        ensures
            result_matches(r, exif_chunk_outcome(exif_data@, old(metadata)@).0),
            final(metadata)@ == exif_chunk_outcome(exif_data@, old(metadata)@).1,
    {
        if exif_data.len() < 4 {
            return Ok(());
        }
        let tiff_offset = read_u32(exif_data, 0, true) as usize;
        if tiff_offset >= exif_data.len() {
            return Ok(());
        }
        TiffParser::parse_tiff_exif(sub_slice(exif_data, tiff_offset, exif_data.len()), metadata)
    }

    /// Where the keyword of a text chunk ends.
    fn keyword_end_find(data: &[u8]) -> (r: Option<usize>)
        ensures
            r matches Some(p) ==> keyword_end(data@) == Some(p as int) && p + 1 < data.len(),
            r is None ==> keyword_end(data@) is None,
    {
        let mut i: usize = 0;
        while i < data.len()
            invariant
                zero_from(data@, i as int) == zero_from(data@, 0),
            decreases data.len() - i,
        {
            if data[i] == 0 {
                if i > 0 && i < data.len() - 1 {
                    return Some(i);
                } else {
                    return None;
                }
            }
            i = i + 1;
        }
        None
    }

    /// The tag a text keyword is stored under.
    fn keyword_tag_of(k: &str) -> (r: String)
        ensures
            r@ == keyword_tag(k@),
    {
        if str_eq(k, "Software") {
            text("Software")
        } else if str_eq(k, "Author") {
            text("Artist")
        } else if str_eq(k, "Title") || str_eq(k, "Description") {
            text("ImageDescription")
        } else if str_eq(k, "Copyright") {
            text("Copyright")
        } else if str_eq(k, "Creation Time") {
            text("DateTime")
        } else {
            let mut s = text("PNG_");
            append_str(&mut s, k);
            s
        }
    }

    /// Reads a `tEXt` chunk.
    fn parse_png_text_chunk(data: &[u8], metadata: &mut TagMap)
        ensures
            final(metadata)@ == text_chunk_effect(data@, old(metadata)@),
    {
        match Self::keyword_end_find(data) {
            Some(p) => {
                let keyword = utf8_lossy_text(sub_slice(data, 0, p));
                let value = utf8_lossy_text(sub_slice(data, p + 1, data.len()));
                metadata.insert(Self::keyword_tag_of(keyword.as_str()), TagValue::text(value));
            },
            None => {},
        }
    }

    /// The position after the fourth zero byte, or 0 when there are fewer.
    fn text_start(r: &[u8]) -> (t: usize)
        ensures
            t == fourth_zero_end(r@, 0, 0),
    {
        let mut i: usize = 0;
        let mut seen: usize = 0;
        while i < r.len()
            invariant
                seen < 4,
                fourth_zero_end(r@, i as int, seen as nat) == fourth_zero_end(r@, 0, 0),
            decreases r.len() - i,
        {
            if r[i] == 0 {
                if seen + 1 == 4 {
                    return i + 1;
                }
                seen = seen + 1;
            }
            i = i + 1;
        }
        0
    }

    /// Reads an `iTXt` chunk.
    fn parse_png_itxt_chunk(data: &[u8], metadata: &mut TagMap)
        ensures
            final(metadata)@ == itxt_chunk_effect(data@, old(metadata)@),
    {
        if data.len() < 5 {
            return;
        }
        match Self::keyword_end_find(data) {
            Some(p) => {
                let rest = sub_slice(data, p + 1, data.len());
                let t = Self::text_start(rest);
                if t < rest.len() {
                    let keyword = utf8_lossy_text(sub_slice(data, 0, p));
                    let value = utf8_lossy_text(sub_slice(rest, t, rest.len()));
                    metadata.insert(Self::keyword_tag_of(keyword.as_str()), TagValue::text(value));
                }
            },
            None => {},
        }
    }

    /// The name of a color type.
    fn color_type_text(c: u8) -> (r: &'static str)
        ensures
            r@ == color_type_name(c),
    {
        if c == 0 {
            "Grayscale"
        } else if c == 2 {
            "RGB"
        } else if c == 3 {
            "Palette"
        } else if c == 4 {
            "Grayscale with Alpha"
        } else if c == 6 {
            "RGB with Alpha"
        } else {
            "Unknown"
        }
    }

    /// Reads an `IHDR` chunk.
    fn parse_png_ihdr_chunk(data: &[u8], metadata: &mut TagMap)
        ensures
            final(metadata)@ == ihdr_effect(data@, old(metadata)@),
    {
        if data.len() < 13 {
            return;
        }
        let w = read_u32(data, 0, false) as u64;
        let h = read_u32(data, 4, false) as u64;
        metadata.insert_text("ImageWidth", u64_text(w));
        metadata.insert_text("ImageHeight", u64_text(h));
        let mut size = u64_text(w);
        append_str(&mut size, "x");
        push_dec(&mut size, h);
        assert(size@ =~= dec_text(w as nat) + "x"@ + dec_text(h as nat));
        metadata.insert_text("ImageSize", size);
        metadata.insert_text("BitDepth", u64_text(data[8] as u64));
        assert((w as int) * (h as int) <= 4294967295 * 4294967295) by (nonlinear_arith)
            requires
                w <= 4294967295,
                h <= 4294967295,
        ;
        let wh: u64 = w * h;
        let mp = if wh <= 9223372036854775807 {
            Real { num: wh as i64, den: 1000000, style: RealStyle::Fixed(1) }
        } else {
            Real { num: (wh / 10) as i64, den: 100000, style: RealStyle::Fixed(1) }
        };
        metadata.insert_number("Megapixels", mp);
        metadata.insert_str("ColorType", Self::color_type_text(data[9]));
    }

    /// Adds the fields computed for every PNG file.
    fn add_computed_fields(metadata: &mut TagMap)
        ensures
            final(metadata)@ == png_computed(old(metadata)@),
    {
        metadata.insert_str("FileTypeExtension", "png");
        metadata.insert_str("MIMEType", "image/png");
        metadata.insert_str("ExifByteOrder", "Little-endian (Intel, II)");
        if !metadata.contains_key("Format") {
            metadata.insert_str("Format", "PNG");
        }
    }
}

} // verus!
