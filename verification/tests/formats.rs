use fast_exif_reader::bmp::BmpParser;
use fast_exif_reader::cache::{CacheLookup, CachedRow, ExifCache};
use fast_exif_reader::high_performance_jpeg::HighPerformanceJpegParser;
use fast_exif_reader::jpeg::JpegParser;
use fast_exif_reader::metadata::{Piece, RealStyle, TagMap};
use fast_exif_reader::mkv::MkvParser;
use fast_exif_reader::optimized_jpeg::OptimizedJpegParser;
use fast_exif_reader::png::PngParser;
use fast_exif_reader::raw::RawParser;
use fast_exif_reader::simd_heic::SimdHeicParser;
use fast_exif_reader::simd_jpeg::SimdJpegParser;
use fast_exif_reader::types::ExifError;
use fast_exif_reader::video::{VideoKind, VideoParser};

fn text_of<'a>(m: &'a TagMap, key: &str) -> Option<&'a str> {
    m.get_text(key).map(|s| s.as_str())
}

fn number_of(m: &TagMap, key: &str) -> Option<(i64, u64, RealStyle)> {
    match m.get(key) {
        Some(v) => match v.pieces.first() {
            Some(Piece::Number(r)) => Some((r.num, r.den, r.style)),
            _ => None,
        },
        None => None,
    }
}

fn invalid_message(r: Result<(), ExifError>) -> String {
    match r {
        Err(ExifError::InvalidExif(s)) => s,
        other => panic!("expected an invalid-data error, got {:?}", other.is_ok()),
    }
}

/// A little-endian TIFF block with one ASCII tag.
fn tiff_with_make(make: &str) -> Vec<u8> {
    let mut v = b"II".to_vec();
    v.extend_from_slice(&42u16.to_le_bytes());
    v.extend_from_slice(&8u32.to_le_bytes());
    v.extend_from_slice(&1u16.to_le_bytes());
    v.extend_from_slice(&0x010Fu16.to_le_bytes());
    v.extend_from_slice(&2u16.to_le_bytes());
    v.extend_from_slice(&((make.len() + 1) as u32).to_le_bytes());
    v.extend_from_slice(&26u32.to_le_bytes());
    v.extend_from_slice(&0u32.to_le_bytes());
    v.extend_from_slice(make.as_bytes());
    v.push(0);
    v
}

fn png_chunk(kind: &[u8; 4], body: &[u8]) -> Vec<u8> {
    let mut v = (body.len() as u32).to_be_bytes().to_vec();
    v.extend_from_slice(kind);
    v.extend_from_slice(body);
    v.extend_from_slice(&[0, 0, 0, 0]);
    v
}

fn png_signature() -> Vec<u8> {
    vec![0x89, 0x50, 0x4E, 0x47, 0x0D, 0x0A, 0x1A, 0x0A]
}

#[test]
fn png_too_small_and_bad_signature() {
    let mut m = TagMap::new();
    assert_eq!(invalid_message(PngParser::parse_png_exif(&[0x89, 0x50], &mut m)), "PNG file too small");
    assert_eq!(invalid_message(PngParser::parse_png_exif(&[0u8; 8], &mut m)), "Invalid PNG signature");
    assert_eq!(m.len(), 0);
}

#[test]
fn png_header_and_text_chunks() {
    let mut data = png_signature();
    let mut ihdr = 640u32.to_be_bytes().to_vec();
    ihdr.extend_from_slice(&480u32.to_be_bytes());
    ihdr.extend_from_slice(&[8, 6, 0, 0, 0]);
    data.extend(png_chunk(b"IHDR", &ihdr));
    data.extend(png_chunk(b"tEXt", b"Author\0Jane"));
    data.extend(png_chunk(b"tEXt", b"Lens\0Wide"));
    data.extend(png_chunk(b"iTXt", b"Title\0\0\0en\0Titel\0Sunset"));
    let mut m = TagMap::new();
    assert!(PngParser::parse_png_exif(&data, &mut m).is_ok());
    assert_eq!(text_of(&m, "Format"), Some("PNG"));
    assert_eq!(text_of(&m, "ImageWidth"), Some("640"));
    assert_eq!(text_of(&m, "ImageHeight"), Some("480"));
    assert_eq!(text_of(&m, "ImageSize"), Some("640x480"));
    assert_eq!(text_of(&m, "BitDepth"), Some("8"));
    assert_eq!(text_of(&m, "ColorType"), Some("RGB with Alpha"));
    assert_eq!(number_of(&m, "Megapixels"), Some((307200, 1000000, RealStyle::Fixed(1))));
    assert_eq!(text_of(&m, "Artist"), Some("Jane"));
    assert_eq!(text_of(&m, "PNG_Lens"), Some("Wide"));
    assert_eq!(text_of(&m, "ImageDescription"), Some("Sunset"));
    assert_eq!(text_of(&m, "MIMEType"), Some("image/png"));
}

#[test]
fn png_exif_chunk_reads_tiff() {
    let mut data = png_signature();
    let mut body = 4u32.to_le_bytes().to_vec();
    body.extend(tiff_with_make("Canon"));
    data.extend(png_chunk(b"eXIf", &body));
    let mut m = TagMap::new();
    assert!(PngParser::parse_png_exif(&data, &mut m).is_ok());
    assert_eq!(text_of(&m, "Make"), Some("Canon"));
}

fn bmp_info(width: i32, height: i32, ppm: i32, header: u32, total: usize) -> Vec<u8> {
    let mut v = vec![0u8; total.max(64)];
    v[0] = 0x42;
    v[1] = 0x4D;
    v[2..6].copy_from_slice(&(total as u32).to_le_bytes());
    v[10..14].copy_from_slice(&54u32.to_le_bytes());
    v[14..18].copy_from_slice(&header.to_le_bytes());
    v[18..22].copy_from_slice(&width.to_le_bytes());
    v[22..26].copy_from_slice(&height.to_le_bytes());
    v[26..28].copy_from_slice(&1u16.to_le_bytes());
    v[28..30].copy_from_slice(&24u16.to_le_bytes());
    v[30..34].copy_from_slice(&7u32.to_le_bytes());
    v[38..42].copy_from_slice(&ppm.to_le_bytes());
    v[42..46].copy_from_slice(&(-5i32).to_le_bytes());
    v.truncate(total);
    v
}

#[test]
fn bmp_errors() {
    let mut m = TagMap::new();
    assert_eq!(invalid_message(BmpParser::parse_bmp_exif(&[0x42; 10], &mut m)), "BMP file too small");
    assert_eq!(invalid_message(BmpParser::parse_bmp_exif(&[0u8; 20], &mut m)), "Invalid BMP signature");
    let short = bmp_info(4, 4, 0, 40, 40);
    let mut m2 = TagMap::new();
    assert_eq!(invalid_message(BmpParser::parse_bmp_exif(&short, &mut m2)), "BITMAPINFOHEADER too small");
    assert_eq!(text_of(&m2, "DIBHeaderSize"), Some("40"));
    let v4_short = bmp_info(4, 4, 0, 108, 60);
    let mut m3 = TagMap::new();
    assert_eq!(invalid_message(BmpParser::parse_bmp_exif(&v4_short, &mut m3)), "BITMAPV4HEADER too small");
    assert_eq!(text_of(&m3, "ImageWidth"), Some("4"));
}

#[test]
fn bmp_info_header_fields() {
    let data = bmp_info(-300, 200, 2835, 40, 60);
    let mut m = TagMap::new();
    assert!(BmpParser::parse_bmp_exif(&data, &mut m).is_ok());
    assert_eq!(text_of(&m, "ImageWidth"), Some("300"));
    assert_eq!(text_of(&m, "ImageSize"), Some("300x200"));
    assert_eq!(text_of(&m, "Compression"), Some("Unknown (7)"));
    assert_eq!(text_of(&m, "XPixelsPerMeter"), Some("2835"));
    assert_eq!(text_of(&m, "YPixelsPerMeter"), Some("-5"));
    assert_eq!(number_of(&m, "XResolution"), Some((2835, 1, RealStyle::PerMeterAsPerInch)));
    assert!(m.get("YResolution").is_none());
    assert_eq!(number_of(&m, "Megapixels"), Some((60000, 1000000, RealStyle::Fixed(1))));
    assert_eq!(text_of(&m, "MIMEType"), Some("image/bmp"));
}

#[test]
fn bmp_v4_masks_and_color_space() {
    let mut data = bmp_info(2, 2, 0, 108, 110);
    data[54..58].copy_from_slice(&0x00FF0000u32.to_le_bytes());
    data[70..74].copy_from_slice(&0x73524742u32.to_le_bytes());
    let mut m = TagMap::new();
    assert!(BmpParser::parse_bmp_exif(&data, &mut m).is_ok());
    assert_eq!(text_of(&m, "RedMask"), Some("0x00FF0000"));
    assert_eq!(text_of(&m, "GreenMask"), Some("0x00000000"));
    assert_eq!(text_of(&m, "ColorSpaceType"), Some("sRGB"));
}

/// An element whose size field holds the body's length as the reader takes
/// it: the whole first byte counts, so a one-byte size is 128 to 255 and a
/// two-byte size 0x4000 to 0x7FFF; the body is padded with zero bytes.
fn ebml(id: &[u8], body: &[u8]) -> Vec<u8> {
    let mut b = body.to_vec();
    let mut v = id.to_vec();
    if b.len() <= 255 {
        b.resize(b.len().max(128), 0);
        v.push(b.len() as u8);
    } else {
        assert!(b.len() <= 0x7FFF);
        b.resize(b.len().max(0x4000), 0);
        v.push((b.len() >> 8) as u8);
        v.push(b.len() as u8);
    }
    v.extend_from_slice(&b);
    v
}

fn padded(text: &str, len: usize) -> String {
    let mut s = text.to_string();
    while s.len() < len {
        s.push('\0');
    }
    s
}

#[test]
fn mkv_errors() {
    let mut m = TagMap::new();
    assert_eq!(invalid_message(MkvParser::parse_mkv_exif(&[1, 2], &mut m)), "MKV file too small");
    assert_eq!(invalid_message(MkvParser::parse_mkv_exif(&[0u8; 20], &mut m)), "Invalid MKV signature");
}

#[test]
fn mkv_header_info_and_tracks() {
    let mut header = ebml(&[0x42, 0x86], &[0x81]);
    header.extend(ebml(&[0x42, 0x82], b"matroska"));
    let mut data = ebml(&[0x1A, 0x45, 0xDF, 0xA3], &header);
    let mut video = ebml(&[0xB0], &[0x80 | 0x40]);
    video.extend(ebml(&[0xBA], &[0x80 | 0x20]));
    let mut entry = ebml(&[0x83], &[0x81]);
    entry.extend(ebml(&[0xE0], &video));
    let tracks = ebml(&[0xAE], &entry);
    let mut segment = ebml(&[0x16, 0x54, 0xAE, 0x6B], &tracks);
    segment.extend(ebml(&[0x15, 0x49, 0xA9, 0x66], &ebml(&[0x7B, 0xA9], b"Clip")));
    data.extend(ebml(&[0x18, 0x53, 0x80, 0x67], &segment));
    data.extend_from_slice(&[0u8; 16]);
    let mut m = TagMap::new();
    assert!(MkvParser::parse_mkv_exif(&data, &mut m).is_ok());
    assert_eq!(text_of(&m, "EBMLVersion"), Some("129"));
    assert_eq!(text_of(&m, "DocType"), Some(padded("matroska", 128).as_str()));
    assert_eq!(text_of(&m, "TrackType"), Some("Unknown"));
    assert_eq!(text_of(&m, "ImageWidth"), Some("192"));
    assert_eq!(text_of(&m, "ImageHeight"), Some("160"));
    assert_eq!(text_of(&m, "Title"), Some(padded("Clip", 128).as_str()));
    assert_eq!(text_of(&m, "MIMEType"), Some("video/x-matroska"));
}

#[test]
fn mkv_date_utc_is_a_utc_time() {
    // 2023-06-01 12:00:00 UTC is 1685620800; DateUTC counts nanoseconds from 2001.
    // The reader finds it by searching for the element's id.
    let ns: u64 = (1685620800u64 - 978307200) * 1_000_000_000;
    let mut data = vec![0x1A, 0x45, 0xDF, 0xA3, 0x00, 0x00];
    data.extend(ebml(&[0x44, 0x61], &ns.to_be_bytes()));
    data.extend_from_slice(&[0u8; 16]);
    let mut m = TagMap::new();
    assert!(MkvParser::parse_mkv_exif(&data, &mut m).is_ok());
    assert_eq!(text_of(&m, "DateTimeOriginal"), Some("2023:06:01 12:00:00"));
    assert_eq!(text_of(&m, "CreationDate"), Some("2023:06:01 12:00:00"));
}

#[test]
fn raw_cr2_marks_canon_and_cleans_values() {
    let mut m = TagMap::new();
    assert!(RawParser::parse_cr2_exif(&tiff_with_make("Canon"), &mut m).is_ok());
    assert_eq!(text_of(&m, "Make"), Some("Canon"));
    assert_eq!(text_of(&m, "MakerNotes"), Some("Canon"));
    assert_eq!(text_of(&m, "MIMEType"), Some("image/tiff"));
    assert_eq!(text_of(&m, "ExifToolVersion"), Some("fast-exif-cli 0.4.8"));
    let mut short = TagMap::new();
    assert_eq!(invalid_message(RawParser::parse_cr2_exif(&[0u8; 4], &mut short)), "TIFF header too small");
}

#[test]
fn raw_dng_detects_maker_ignoring_case() {
    let mut data = tiff_with_make("XCAM");
    data.extend_from_slice(b"...SAMSUNG...");
    let mut m = TagMap::new();
    assert!(RawParser::parse_dng_exif(&data, &mut m).is_ok());
    assert_eq!(text_of(&m, "MakerNotes"), Some("Samsung"));
    assert_eq!(text_of(&m, "Make"), Some("XCAM"));
}

#[test]
fn jpeg_without_exif_gets_basic_information() {
    let mut data = vec![0xFF, 0xD8, 0xFF, 0xE0, 0x00, 0x10];
    data.extend_from_slice(b"JFIF\0");
    data.extend_from_slice(&[1, 2, 1, 0, 72, 0, 72, 0, 0]);
    data.extend_from_slice(&[0xFF, 0xC0, 0x00, 0x11, 0x08, 0x01, 0xE0, 0x02, 0x80, 0x03]);
    data.extend_from_slice(&[0u8; 24]);
    let mut m = TagMap::new();
    assert!(JpegParser::parse_jpeg_exif(&data, &mut m).is_ok());
    assert_eq!(text_of(&m, "FileType"), Some("JPEG"));
    assert_eq!(text_of(&m, "JFIFVersion"), Some("1.2"));
    assert_eq!(text_of(&m, "ResolutionUnit"), Some("inches"));
    assert_eq!(text_of(&m, "XResolution"), Some("72"));
    assert_eq!(text_of(&m, "ImageWidth"), Some("640"));
    assert_eq!(text_of(&m, "ImageHeight"), Some("480"));
    assert_eq!(text_of(&m, "ExifVersion"), Some("0220"));
    assert_eq!(text_of(&m, "SensingMethod"), Some("One-chip color area sensor"));
}

#[test]
fn jpeg_with_exif_segment_reads_tiff_and_defaults() {
    let tiff = tiff_with_make("NIKON CORPORATION");
    let mut seg = b"Exif\0\0".to_vec();
    seg.extend(tiff);
    let mut data = vec![0xFF, 0xD8, 0xFF, 0xE1];
    data.extend_from_slice(&((seg.len() + 2) as u16).to_be_bytes());
    data.extend(seg);
    data.extend_from_slice(b"..Nikon..");
    let mut m = TagMap::new();
    assert!(JpegParser::parse_jpeg_exif(&data, &mut m).is_ok());
    assert_eq!(text_of(&m, "Make"), Some("NIKON CORPORATION"));
    assert_eq!(text_of(&m, "NikonDetected"), Some("true"));
    assert_eq!(text_of(&m, "EncodingProcess"), Some("Baseline DCT, Huffman coding"));
    assert_eq!(text_of(&m, "FlashpixVersion"), Some("0100"));
}

fn atom(tag: &[u8; 4], payload: &[u8]) -> Vec<u8> {
    let size = (8 + payload.len()) as u32;
    let mut out = size.to_be_bytes().to_vec();
    out.extend_from_slice(tag);
    out.extend_from_slice(payload);
    out
}

fn mvhd(created: u32, modified: u32, timescale: u32, duration: u32) -> Vec<u8> {
    let mut p = vec![0u8; 4];
    p.extend_from_slice(&created.to_be_bytes());
    p.extend_from_slice(&modified.to_be_bytes());
    p.extend_from_slice(&timescale.to_be_bytes());
    p.extend_from_slice(&duration.to_be_bytes());
    p.extend_from_slice(&[0u8; 8]);
    atom(b"mvhd", &p)
}

#[test]
fn mp4_movie_header_dates_and_defaults() {
    // 2023-06-01 12:00:00 UTC counted from 1904.
    let created = 1685620800u32 + 2082844800;
    let mut data = atom(b"ftyp", b"isom\0\0\0\0");
    data.extend(atom(b"moov", &mvhd(created, created, 600, 1800)));
    assert!(VideoParser::is_readable(&data, VideoKind::Mp4));
    let mut m = TagMap::new();
    assert!(VideoParser::parse_mp4_exif(&data, &mut m).is_ok());
    assert_eq!(text_of(&m, "Format"), Some("MP4"));
    assert_eq!(text_of(&m, "Brand"), Some("isom"));
    assert_eq!(text_of(&m, "CreateDate"), Some("2023:06:01 12:00:00"));
    assert_eq!(text_of(&m, "ModifyDate"), Some("2023:06:01 12:00:00"));
    assert_eq!(number_of(&m, "Duration"), Some((1800, 600, RealStyle::Fixed(2))));
    assert_eq!(text_of(&m, "Make"), Some("Unknown"));
    assert_eq!(text_of(&m, "VideoCodec"), Some("H.264"));
    assert_eq!(text_of(&m, "MIMEType"), Some("video/mp4"));
}

#[test]
fn mov_user_data_names_the_maker() {
    let mut item = atom(&[0xa9, b'm', b'a', b'k'], b"Sony");
    item.extend_from_slice(&[0u8; 4]);
    let data = atom(b"udta", &item);
    let mut padded = data.clone();
    padded.extend_from_slice(&[0u8; 8]);
    assert!(VideoParser::is_readable(&padded, VideoKind::Mov));
    let mut m = TagMap::new();
    assert!(VideoParser::parse_mov_exif(&padded, &mut m).is_ok());
    assert_eq!(text_of(&m, "Make"), Some("Sony"));
    assert_eq!(text_of(&m, "MIMEType"), Some("video/quicktime"));
}

#[test]
fn video_layout_with_short_user_data_is_not_readable() {
    let mut data = 4u32.to_be_bytes().to_vec();
    data.extend_from_slice(b"udta");
    data.extend_from_slice(&[0u8; 8]);
    assert!(!VideoParser::is_readable(&data, VideoKind::Mov));
    assert!(!VideoParser::is_readable(&data, VideoKind::Mp4));
    assert!(!VideoParser::is_readable(&data, VideoKind::ThreeGp));
}

#[test]
fn cache_lookup_rules() {
    let cache = ExifCache::with_settings("db".to_string(), 2, 100);
    let row = CachedRow { file_size: 10, modification_time: 5, cache_timestamp: 1000 };
    assert_eq!(cache.lookup_decision(Some(row), 10, 5, 1050), CacheLookup::Hit);
    assert_eq!(cache.lookup_decision(Some(row), 10, 5, 1100), CacheLookup::Stale);
    assert_eq!(cache.lookup_decision(Some(row), 11, 5, 1050), CacheLookup::Stale);
    assert_eq!(cache.lookup_decision(None, 10, 5, 1050), CacheLookup::Absent);
    let plan = cache.cleanup_plan(5, 1000);
    assert_eq!(plan.remove_oldest, Some(3));
    assert_eq!(plan.expire_before, 900);
    assert_eq!(cache.cleanup_plan(2, 1000).remove_oldest, None);
    let stats = cache.get_stats(2, 10, None, None);
    assert!(stats.is_full());
    assert_eq!(cache.is_cached(Ok(None)), Ok(false));
}

#[test]
fn simd_paths_for_jpeg_and_heic() {
    let data = vec![0xFF, 0xD8, 0xFF, 0xD9];
    // Both paths read the same tags.
    let mut m = TagMap::new();
    assert!(SimdJpegParser::with_avx2(true).parse_jpeg_exif_simd(&data, &mut m).is_ok());
    assert_eq!(text_of(&m, "FileType"), Some("JPEG"));
    let mut m2 = TagMap::new();
    assert!(SimdJpegParser::new().parse_jpeg_exif_simd(&data, &mut m2).is_ok());
    assert_eq!(text_of(&m2, "FileType"), Some("JPEG"));
    assert_eq!(m.len(), m2.len());
    let mut m3 = TagMap::new();
    assert!(SimdHeicParser::with_avx2(true).parse_heic_exif_simd(&data, &mut m3).is_ok());
    assert_eq!(text_of(&m3, "Format"), Some("image/heic"));
    let mut m4 = TagMap::new();
    assert!(SimdHeicParser::new().parse_heic_exif_simd(&data, &mut m4).is_ok());
    assert_eq!(m3.len(), m4.len());
}

#[test]
fn optimized_and_fast_readers_without_exif() {
    let mut data = vec![0xFF, 0xD8, 0xFF, 0xC0, 0x00, 0x11, 0x08, 0x00, 0x10, 0x00, 0x20, 0x03];
    data.extend_from_slice(&[0u8; 20]);
    let mut m = TagMap::new();
    assert!(OptimizedJpegParser::new().parse_jpeg_exif_optimized(&data, &mut m).is_ok());
    assert_eq!(text_of(&m, "FileType"), Some("JPEG"));
    assert!(m.get("ImageWidth").is_none());
    // The fast reader takes the two bytes after every marker, the start of
    // image too, as a segment length.
    let mut data = vec![0xFF, 0xD8, 0x00, 0x02, 0xFF, 0xC0, 0x00, 0x11, 0x08, 0x00, 0x10, 0x00, 0x20, 0x03];
    data.extend_from_slice(&[0u8; 20]);
    let mut fast = HighPerformanceJpegParser::new();
    let mut m2 = TagMap::new();
    assert!(fast.parse_jpeg_exif_fast(&data, &mut m2).is_ok());
    assert_eq!(text_of(&m2, "ImageWidth"), Some("32"));
    assert_eq!(text_of(&m2, "ImageHeight"), Some("16"));
    assert_eq!(number_of(&m2, "Megapixels"), Some((512, 1000000, RealStyle::Fixed(1))));
    assert_eq!(text_of(&m2, "Sharpness"), Some("Normal"));
    let stats = fast.get_performance_stats();
    assert_eq!(text_of(&stats, "marker_cache_size"), Some("2"));
}
