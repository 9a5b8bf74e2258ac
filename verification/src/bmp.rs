//! BMP reading: the file header and the DIB header in its three common
//! versions.

use vstd::prelude::*;
use crate::bytes::{as_i32, read_i32, read_u16, read_u32, u16_at, u32_at};
use crate::metadata::{num, txt, PieceModel, Real, RealStyle, TagMap};
use crate::text::{append_str, dec_text, hex_text, i64_text, push_dec, push_hex, signed_dec_text, text, u64_text};
use crate::tiff::result_matches;
use crate::types::ExifError;

verus! {

type M = Map<Seq<char>, Seq<PieceModel>>;

/// The absolute value of a signed number.
pub open spec fn abs_of(v: int) -> nat {
    if v < 0 {
        (-v) as nat
    } else {
        v as nat
    }
}

/// The name of a BMP compression method.
pub open spec fn compression_name(c: nat) -> Seq<char> {
    if c == 0 {
        "None"@
    } else if c == 1 {
        "RLE8"@
    } else if c == 2 {
        "RLE4"@
    } else if c == 3 {
        "Bitfields"@
    } else if c == 4 {
        "JPEG"@
    } else if c == 5 {
        "PNG"@
    } else {
        "Unknown ("@ + dec_text(c) + ")"@
    }
}

/// The name of a BMP color space type.
pub open spec fn color_space_name(c: nat) -> Seq<char> {
    if c == 0x73524742 {
        "sRGB"@
    } else if c == 0x57696E20 {
        "Windows"@
    } else if c == 0x4C494E4B {
        "Linked"@
    } else if c == 0x4D424544 {
        "Embedded"@
    } else {
        "Unknown (0x"@ + hex_text(c, 8, true) + ")"@
    }
}

/// The name of a BMP rendering intent.
pub open spec fn intent_name(i: nat) -> Seq<char> {
    if i == 1 {
        "Saturation"@
    } else if i == 2 {
        "Relative Colorimetric"@
    } else if i == 4 {
        "Perceptual"@
    } else if i == 8 {
        "Absolute Colorimetric"@
    } else {
        "Unknown ("@ + dec_text(i) + ")"@
    }
}

/// `0x` and eight upper-case hexadecimal digits.
pub open spec fn mask_text(v: nat) -> Seq<char> {
    "0x"@ + hex_text(v, 8, true)
}

/// The width field of a DIB header.
pub open spec fn dib_width(d: Seq<u8>) -> int {
    as_i32(u32_at(d, 18, true))
}

/// The height field of a DIB header.
pub open spec fn dib_height(d: Seq<u8>) -> int {
    as_i32(u32_at(d, 22, true))
}

/// A density field, with its resolution in dots per inch when positive.
pub open spec fn density_effect(m: M, ppm: int, key: Seq<char>) -> M {
    if ppm > 0 {
        m.insert(key, num(Real { num: ppm as i64, den: 1, style: RealStyle::PerMeterAsPerInch }))
    } else {
        m
    }
}

/// What a BITMAPINFOHEADER sets.
pub open spec fn info_effect(d: Seq<u8>, m: M) -> M {
    let w = abs_of(dib_width(d));
    let h = abs_of(dib_height(d));
    let xppm = as_i32(u32_at(d, 38, true));
    let yppm = as_i32(u32_at(d, 42, true));
    let m1 = m.insert("ImageWidth"@, txt(dec_text(w))).insert("ImageHeight"@, txt(dec_text(h))).insert(
        "ImageSize"@,
        txt(dec_text(w) + "x"@ + dec_text(h)),
    ).insert("Planes"@, txt(dec_text(u16_at(d, 26, true)))).insert("BitDepth"@, txt(dec_text(u16_at(d, 28, true)))).insert(
        "Compression"@,
        txt(compression_name(u32_at(d, 30, true))),
    ).insert("ImageSizeBytes"@, txt(dec_text(u32_at(d, 34, true)))).insert(
        "XPixelsPerMeter"@,
        txt(signed_dec_text(xppm)),
    ).insert("YPixelsPerMeter"@, txt(signed_dec_text(yppm))).insert("ColorsUsed"@, txt(dec_text(u32_at(d, 46, true)))).insert(
        "ColorsImportant"@,
        txt(dec_text(u32_at(d, 50, true))),
    );
    let m2 = density_effect(density_effect(m1, xppm, "XResolution"@), yppm, "YResolution"@);
    m2.insert("Megapixels"@, num(Real { num: (w * h) as i64, den: 1000000, style: RealStyle::Fixed(1) }))
}

/// What reading a BITMAPINFOHEADER gives.
pub open spec fn info_outcome(d: Seq<u8>, m: M) -> (Option<Seq<char>>, M) {
    if d.len() < 54 {
        (Some("BITMAPINFOHEADER too small"@), m)
    } else {
        (None, info_effect(d, m))
    }
}

/// What reading a BITMAPV4HEADER gives: the BITMAPINFOHEADER part, the
/// channel masks and the color space.
pub open spec fn v4_outcome(d: Seq<u8>, m: M) -> (Option<Seq<char>>, M) {
    let (err, m1) = info_outcome(d, m);
    if err is Some {
        (err, m1)
    } else if d.len() < 108 {
        (Some("BITMAPV4HEADER too small"@), m1)
    } else {
        (None, m1.insert("RedMask"@, txt(mask_text(u32_at(d, 54, true)))).insert(
            "GreenMask"@,
            txt(mask_text(u32_at(d, 58, true))),
        ).insert("BlueMask"@, txt(mask_text(u32_at(d, 62, true)))).insert(
            "AlphaMask"@,
            txt(mask_text(u32_at(d, 66, true))),
        ).insert("ColorSpaceType"@, txt(color_space_name(u32_at(d, 70, true)))))
    }
}

/// What reading a BITMAPV5HEADER gives: the BITMAPV4HEADER part, the
/// gamma values and the rendering intent.
pub open spec fn v5_outcome(d: Seq<u8>, m: M) -> (Option<Seq<char>>, M) {
    let (err, m1) = v4_outcome(d, m);
    if err is Some {
        (err, m1)
    } else if d.len() < 124 {
        (Some("BITMAPV5HEADER too small"@), m1)
    } else {
        (None, m1.insert("GammaRed"@, txt(dec_text(u32_at(d, 108, true)))).insert(
            "GammaGreen"@,
            txt(dec_text(u32_at(d, 112, true))),
        ).insert("GammaBlue"@, txt(dec_text(u32_at(d, 116, true)))).insert(
            "Intent"@,
            txt(intent_name(u32_at(d, 120, true))),
        ))
    }
}

/// What reading the DIB header gives, by its size.
pub open spec fn dib_outcome(d: Seq<u8>, m: M) -> (Option<Seq<char>>, M) {
    let size = u32_at(d, 14, true);
    let m1 = m.insert("DIBHeaderSize"@, txt(dec_text(size)));
    if size == 40 {
        info_outcome(d, m1)
    } else if size == 108 {
        v4_outcome(d, m1)
    } else if size == 124 {
        v5_outcome(d, m1)
    } else {
        (None, m1.insert("HeaderType"@, txt("Unknown"@)))
    }
}

/// The fields added for every BMP file.
pub open spec fn bmp_computed(m: M) -> M {
    let m1 = m.insert("FileTypeExtension"@, txt("bmp"@)).insert("MIMEType"@, txt("image/bmp"@)).insert(
        "ExifByteOrder"@,
        txt("Little-endian (Intel, II)"@),
    );
    if m1.contains_key("Format"@) {
        m1
    } else {
        m1.insert("Format"@, txt("BMP"@))
    }
}

/// What reading a BMP file gives: an error for a short file or a wrong
/// signature; else the file header, the DIB header and the computed
/// fields, or the error of a short DIB header with the tags read up to it.
pub open spec fn bmp_outcome(d: Seq<u8>, m: M) -> (Option<Seq<char>>, M) {
    if d.len() < 14 {
        (Some("BMP file too small"@), m)
    } else if d[0] != 0x42 || d[1] != 0x4D {
        (Some("Invalid BMP signature"@), m)
    } else {
        let m1 = m.insert("Format"@, txt("BMP"@)).insert("FileSize"@, txt(dec_text(u32_at(d, 2, true)))).insert(
            "DataOffset"@,
            txt(dec_text(u32_at(d, 10, true))),
        );
        if d.len() >= 18 {
            let (err, m2) = dib_outcome(d, m1);
            if err is Some {
                (err, m2)
            } else {
                (None, bmp_computed(m2))
            }
        } else {
            (None, bmp_computed(m1))
        }
    }
}

/// Whether the DIB header that would be read has a width or height of
/// -2^31, whose absolute value does not fit.
pub open spec fn bmp_size_overflows(d: Seq<u8>) -> bool {
    &&& d.len() >= 54
    &&& d[0] == 0x42 && d[1] == 0x4D
    &&& (u32_at(d, 14, true) == 40 || u32_at(d, 14, true) == 108 || u32_at(d, 14, true) == 124)
    &&& (dib_width(d) == i32::MIN || dib_height(d) == i32::MIN)
}

/// The BMP parser.
pub struct BmpParser;

impl BmpParser {
    /// Reads a BMP file's headers.
    pub fn parse_bmp_exif(data: &[u8], metadata: &mut TagMap) -> (r: Result<(), ExifError>)
        requires
            !bmp_size_overflows(data@),
        ensures
            result_matches(r, bmp_outcome(data@, old(metadata)@).0),
            final(metadata)@ == bmp_outcome(data@, old(metadata)@).1,
    {
        if data.len() < 14 {
            return Err(ExifError::invalid("BMP file too small"));
        }
        if data[0] != 0x42 || data[1] != 0x4D {
            return Err(ExifError::invalid("Invalid BMP signature"));
        }
        metadata.insert_str("Format", "BMP");
        metadata.insert_text("FileSize", u64_text(read_u32(data, 2, true) as u64));
        metadata.insert_text("DataOffset", u64_text(read_u32(data, 10, true) as u64));
        if data.len() >= 18 {
            let size = read_u32(data, 14, true);
            metadata.insert_text("DIBHeaderSize", u64_text(size as u64));
            if size == 40 {
                match Self::parse_bitmapinfoheader(data, metadata) {
                    Ok(()) => {},
                    Err(e) => {
                        return Err(e);
                    },
                }
            } else if size == 108 {
                match Self::parse_bitmapv4header(data, metadata) {
                    Ok(()) => {},
                    Err(e) => {
                        return Err(e);
                    },
                }
            } else if size == 124 {
                match Self::parse_bitmapv5header(data, metadata) {
                    Ok(()) => {},
                    Err(e) => {
                        return Err(e);
                    },
                }
            } else {
                metadata.insert_str("HeaderType", "Unknown");
            }
        }
        Self::add_computed_fields(metadata);
        Ok(())
    }

    /// The absolute value of a width or height.
    fn abs_value(v: i32) -> (r: u64)
        requires
            v != i32::MIN,
        ensures
            r == abs_of(v as int),
    {
        if v < 0 {
            (-v) as u64
        } else {
            v as u64
        }
    }

    /// Reads a BITMAPINFOHEADER.
    fn parse_bitmapinfoheader(data: &[u8], metadata: &mut TagMap) -> (r: Result<(), ExifError>)
        requires
            data@.len() >= 54 ==> dib_width(data@) != i32::MIN && dib_height(data@) != i32::MIN,
        ensures
            result_matches(r, info_outcome(data@, old(metadata)@).0),
            final(metadata)@ == info_outcome(data@, old(metadata)@).1,
    {
        if data.len() < 54 {
            return Err(ExifError::invalid("BITMAPINFOHEADER too small"));
        }
        let w = Self::abs_value(read_i32(data, 18, true));
        let h = Self::abs_value(read_i32(data, 22, true));
        let xppm = read_i32(data, 38, true);
        let yppm = read_i32(data, 42, true);
        metadata.insert_text("ImageWidth", u64_text(w));
        metadata.insert_text("ImageHeight", u64_text(h));
        let mut size = u64_text(w);
        append_str(&mut size, "x");
        push_dec(&mut size, h);
        assert(size@ =~= dec_text(w as nat) + "x"@ + dec_text(h as nat));
        metadata.insert_text("ImageSize", size);
        metadata.insert_text("Planes", u64_text(read_u16(data, 26, true) as u64));
        metadata.insert_text("BitDepth", u64_text(read_u16(data, 28, true) as u64));
        metadata.insert_text("Compression", Self::get_compression_name(read_u32(data, 30, true)));
        metadata.insert_text("ImageSizeBytes", u64_text(read_u32(data, 34, true) as u64));
        metadata.insert_text("XPixelsPerMeter", i64_text(xppm as i64));
        metadata.insert_text("YPixelsPerMeter", i64_text(yppm as i64));
        metadata.insert_text("ColorsUsed", u64_text(read_u32(data, 46, true) as u64));
        metadata.insert_text("ColorsImportant", u64_text(read_u32(data, 50, true) as u64));
        if xppm > 0 {
            metadata.insert_number("XResolution", Real { num: xppm as i64, den: 1, style: RealStyle::PerMeterAsPerInch });
        }
        if yppm > 0 {
            metadata.insert_number("YResolution", Real { num: yppm as i64, den: 1, style: RealStyle::PerMeterAsPerInch });
        }
        assert((w as int) * (h as int) <= 2147483648 * 2147483648) by (nonlinear_arith)
            requires
                w <= 2147483648,
                h <= 2147483648,
        ;
        let wh: u64 = w * h;
        metadata.insert_number("Megapixels", Real { num: wh as i64, den: 1000000, style: RealStyle::Fixed(1) });
        Ok(())
    }

    /// `0x` and eight upper-case hexadecimal digits.
    fn mask(v: u32) -> (r: String)
        ensures
            r@ == mask_text(v as nat),
    {
        let mut s = text("0x");
        push_hex(&mut s, v as u64, 8, true);
        s
    }

    /// Reads a BITMAPV4HEADER.
    fn parse_bitmapv4header(data: &[u8], metadata: &mut TagMap) -> (r: Result<(), ExifError>)
        requires
            data@.len() >= 54 ==> dib_width(data@) != i32::MIN && dib_height(data@) != i32::MIN,
        ensures
            result_matches(r, v4_outcome(data@, old(metadata)@).0),
            final(metadata)@ == v4_outcome(data@, old(metadata)@).1,
    {
        match Self::parse_bitmapinfoheader(data, metadata) {
            Ok(()) => {},
            Err(e) => {
                return Err(e);
            },
        }
        if data.len() < 108 {
            return Err(ExifError::invalid("BITMAPV4HEADER too small"));
        }
        metadata.insert_text("RedMask", Self::mask(read_u32(data, 54, true)));
        metadata.insert_text("GreenMask", Self::mask(read_u32(data, 58, true)));
        metadata.insert_text("BlueMask", Self::mask(read_u32(data, 62, true)));
        metadata.insert_text("AlphaMask", Self::mask(read_u32(data, 66, true)));
        metadata.insert_text("ColorSpaceType", Self::get_color_space_name(read_u32(data, 70, true)));
        Ok(())
    }

    /// Reads a BITMAPV5HEADER.
    fn parse_bitmapv5header(data: &[u8], metadata: &mut TagMap) -> (r: Result<(), ExifError>)
        requires
            data@.len() >= 54 ==> dib_width(data@) != i32::MIN && dib_height(data@) != i32::MIN,
        ensures
            result_matches(r, v5_outcome(data@, old(metadata)@).0),
            final(metadata)@ == v5_outcome(data@, old(metadata)@).1,
    {
        match Self::parse_bitmapv4header(data, metadata) {
            Ok(()) => {},
            Err(e) => {
                return Err(e);
            },
        }
        if data.len() < 124 {
            return Err(ExifError::invalid("BITMAPV5HEADER too small"));
        }
        metadata.insert_text("GammaRed", u64_text(read_u32(data, 108, true) as u64));
        metadata.insert_text("GammaGreen", u64_text(read_u32(data, 112, true) as u64));
        metadata.insert_text("GammaBlue", u64_text(read_u32(data, 116, true) as u64));
        metadata.insert_text("Intent", Self::get_intent_name(read_u32(data, 120, true)));
        Ok(())
    }

    /// The name of a compression method.
    fn get_compression_name(compression: u32) -> (r: String)
        ensures
            r@ == compression_name(compression as nat),
    {
        if compression == 0 {
            text("None")
        } else if compression == 1 {
            text("RLE8")
        } else if compression == 2 {
            text("RLE4")
        } else if compression == 3 {
            text("Bitfields")
        } else if compression == 4 {
            text("JPEG")
        } else if compression == 5 {
            text("PNG")
        } else {
            let mut s = text("Unknown (");
            push_dec(&mut s, compression as u64);
            append_str(&mut s, ")");
            s
        }
    }

    /// The name of a color space type.
    fn get_color_space_name(color_space: u32) -> (r: String)
        ensures
            r@ == color_space_name(color_space as nat),
    {
        if color_space == 0x73524742 {
            text("sRGB")
        } else if color_space == 0x57696E20 {
            text("Windows")
        } else if color_space == 0x4C494E4B {
            text("Linked")
        } else if color_space == 0x4D424544 {
            text("Embedded")
        } else {
            let mut s = text("Unknown (0x");
            push_hex(&mut s, color_space as u64, 8, true);
            append_str(&mut s, ")");
            s
        }
    }

    /// The name of a rendering intent.
    fn get_intent_name(intent: u32) -> (r: String)
        ensures
            r@ == intent_name(intent as nat),
    {
        if intent == 1 {
            text("Saturation")
        } else if intent == 2 {
            text("Relative Colorimetric")
        } else if intent == 4 {
            text("Perceptual")
        } else if intent == 8 {
            text("Absolute Colorimetric")
        } else {
            let mut s = text("Unknown (");
            push_dec(&mut s, intent as u64);
            append_str(&mut s, ")");
            s
        }
    }

    /// Adds the fields computed for every BMP file.
    fn add_computed_fields(metadata: &mut TagMap)
        ensures
            final(metadata)@ == bmp_computed(old(metadata)@),
    {
        metadata.insert_str("FileTypeExtension", "bmp");
        metadata.insert_str("MIMEType", "image/bmp");
        metadata.insert_str("ExifByteOrder", "Little-endian (Intel, II)");
        if !metadata.contains_key("Format") {
            metadata.insert_str("Format", "BMP");
        }
    }
}

} // verus!
