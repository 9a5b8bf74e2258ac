use fast_exif_reader::gpu::GpuExifParser;
use fast_exif_reader::simd::SimdHexParser;
use fast_exif_reader::utils::{ExifUtils, FieldRule};
use fast_exif_reader::hybrid::{HybridExifParser, PerformanceAwareParser};
use fast_exif_reader::lazy_parser::{LazyExifBatchProcessor, LazyExifParser};
use fast_exif_reader::metadata::{Piece, RealStyle, TagMap};
use fast_exif_reader::optimal::{OptimalBatchProcessor, OptimalExifParser, ParseStrategy};
use fast_exif_reader::types::ExifError;
use fast_exif_reader::ultra_fast_jpeg::{UltraFastBatchProcessor, UltraFastJpegParser};
use fast_exif_reader::ultra_fast_jpeg_reader::{benchmark_ultra_fast_jpeg, profile_ultra_fast_jpeg, UltraFastJpegReader};

fn text_of<'a>(m: &'a TagMap, key: &str) -> Option<&'a str> {
    m.get_text(key).map(|s| s.as_str())
}

fn number_of(m: &TagMap, key: &str) -> Option<(i64, u64, RealStyle)> {
    match m.get(key) {
        Some(v) => match v.pieces.first() {
            Some(Piece::Number(r)) => Some((r.num, r.den, r.style)),
            _ => None,
        },
        None => None,
    }
}

fn err_of<T>(r: Result<T, ExifError>) -> String {
    match r {
        Err(e) => e.message(),
        Ok(_) => panic!("expected an error"),
    }
}

/// A little-endian TIFF block with one ASCII Make tag.
fn tiff_with_make(make: &str) -> Vec<u8> {
    let mut v = b"II".to_vec();
    v.extend_from_slice(&42u16.to_le_bytes());
    v.extend_from_slice(&8u32.to_le_bytes());
    v.extend_from_slice(&1u16.to_le_bytes());
    v.extend_from_slice(&0x010Fu16.to_le_bytes());
    v.extend_from_slice(&2u16.to_le_bytes());
    v.extend_from_slice(&((make.len() + 1) as u32).to_le_bytes());
    v.extend_from_slice(&26u32.to_le_bytes());
    v.extend_from_slice(&0u32.to_le_bytes());
    v.extend_from_slice(make.as_bytes());
    v.push(0);
    v
}

/// A JPEG start whose first two length bytes hop to a frame header of
/// 32x16 pixels.
fn small_jpeg() -> Vec<u8> {
    let mut data = vec![0xFF, 0xD8, 0x00, 0x02, 0xFF, 0xC0, 0x00, 0x11, 0x08, 0x00, 0x10, 0x00, 0x20, 0x03];
    data.extend_from_slice(&[0u8; 20]);
    data
}

fn put_u16(buf: &mut [u8], at: usize, v: u16) {
    buf[at..at + 2].copy_from_slice(&v.to_le_bytes());
}

fn put_u32(buf: &mut [u8], at: usize, v: u32) {
    buf[at..at + 4].copy_from_slice(&v.to_le_bytes());
}

fn put_entry(buf: &mut [u8], at: usize, tag: u16, dtype: u16, count: u32, value: u32) {
    put_u16(buf, at, tag);
    put_u16(buf, at + 2, dtype);
    put_u32(buf, at + 4, count);
    put_u32(buf, at + 8, value);
}

#[test]
fn test_optimal_parser_creation() {
    let parser = OptimalExifParser::new();
    assert_eq!(parser.max_exif_size(), 2 * 1024 * 1024);
    assert_eq!(parser.mmap_threshold(), 8 * 1024 * 1024);
}

#[test]
fn test_optimal_parser_with_target_fields() {
    let fields = vec!["Make".to_string(), "Model".to_string()];
    let parser = OptimalExifParser::with_target_fields(fields.clone());
    assert_eq!(parser.target_fields(), fields.as_slice());
}

#[test]
fn test_strategy_determination() {
    let parser = OptimalExifParser::new();
    assert!(matches!(parser.determine_strategy(1024), ParseStrategy::MemoryMap));
    assert!(matches!(parser.determine_strategy(16 * 1024 * 1024), ParseStrategy::Hybrid));
    assert!(matches!(parser.determine_strategy(100 * 1024 * 1024), ParseStrategy::SeekOptimized));
}

#[test]
fn optimal_test_field_name_to_tag_id() {
    let parser = OptimalExifParser::new();
    assert_eq!(parser.field_name_to_tag_id("Make").unwrap(), 0x010F);
    assert_eq!(parser.field_name_to_tag_id("Model").unwrap(), 0x0110);
    assert_eq!(parser.field_name_to_tag_id("DateTime").unwrap(), 0x0132);
}

#[test]
fn seek_path_follows_trailing_exif_ifd() {
    let mut parser = OptimalExifParser::with_thresholds(1024, 2048);
    let exif_ifd = 20_000usize;
    let mut data = vec![0u8; exif_ifd + 40];
    data[0] = b'I';
    data[1] = b'I';
    put_u16(&mut data, 2, 42);
    put_u32(&mut data, 4, 8);
    put_u16(&mut data, 8, 2);
    put_entry(&mut data, 10, 0x010F, 2, 6, 50);
    put_entry(&mut data, 22, 0x8769, 4, 1, exif_ifd as u32);
    put_u32(&mut data, 34, 0);
    data[50..56].copy_from_slice(b"Canon\0");
    data[56..76].copy_from_slice(b"2015:06:14 01:58:40\0");
    put_u16(&mut data, exif_ifd, 1);
    put_entry(&mut data, exif_ifd + 2, 0x9003, 2, 20, 56);
    put_u32(&mut data, exif_ifd + 14, 0);
    let metadata = parser.parse_file(&data).unwrap();
    assert_eq!(text_of(&metadata, "Make"), Some("Canon"));
    assert_eq!(text_of(&metadata, "DateTimeOriginal"), Some("2015:06:14 01:58:40"));
}

#[test]
fn optimal_counts_strategies_and_keeps_target_fields() {
    let tiff = tiff_with_make("Canon");
    let mut parser = OptimalExifParser::new();
    let m = parser.parse_file(&tiff).unwrap();
    assert_eq!(text_of(&m, "Make"), Some("Canon"));
    let stats = parser.get_stats();
    assert_eq!(text_of(&stats, "mmap_count"), Some("1"));
    assert_eq!(text_of(&stats, "total_bytes_read"), Some("32"));
    assert_eq!(text_of(&stats, "cache_hit_rate"), Some("0"));
    let mut only_make = OptimalExifParser::with_target_fields(vec!["make".to_string()]);
    let kept = only_make.parse_file(&tiff).unwrap();
    assert_eq!(text_of(&kept, "Make"), Some("Canon"));
    assert_eq!(kept.len(), 1);
    assert_eq!(text_of(&only_make.get_stats(), "seek_count"), Some("1"));
    let mut short = OptimalExifParser::new();
    assert_eq!(err_of(short.parse_file(&tiff[..20])), "IO error: failed to fill whole buffer");
    let mut jpeg = OptimalExifParser::new();
    assert_eq!(err_of(jpeg.parse_file(&small_jpeg())), "Invalid EXIF data: Invalid TIFF byte order");
    let mut other = OptimalExifParser::new();
    assert_eq!(err_of(other.parse_exif_from_bytes(&[1, 2, 3, 4, 5])), "Invalid EXIF data: Unsupported format");
    assert_eq!(err_of(other.field_name_to_tag_id("Lens")), "Invalid EXIF data: Unknown field: Lens");
}

#[test]
fn optimal_batch_gives_empty_maps_for_failures() {
    let mut batch = OptimalBatchProcessor::new(1);
    let out = batch.process_files(&[tiff_with_make("Canon"), vec![0u8; 8]]).unwrap();
    assert_eq!(out.len(), 2);
    assert_eq!(text_of(&out[0], "Make"), Some("Canon"));
    assert_eq!(out[1].len(), 0);
}

#[test]
fn lazy_parser_test_parser_creation() {
    let parser = LazyExifParser::new();
    assert!(parser.cached_fields().len() == 0);
    assert!(parser.get_requested_fields().is_empty());
    assert!(parser.get_parsed_fields().is_empty());
}

#[test]
fn test_parser_with_fields() {
    let fields = vec!["Make".to_string(), "Model".to_string()];
    let parser = LazyExifParser::with_fields(fields.clone());
    assert_eq!(parser.get_requested_fields(), fields.as_slice());
}

#[test]
fn lazy_parser_test_field_name_to_tag_id() {
    let parser = LazyExifParser::new();
    assert_eq!(parser.field_name_to_tag_id("Make").unwrap(), 0x010F);
    assert_eq!(parser.field_name_to_tag_id("Model").unwrap(), 0x0110);
    assert_eq!(parser.field_name_to_tag_id("DateTime").unwrap(), 0x0132);
}

#[test]
fn test_unknown_field() {
    let parser = LazyExifParser::new();
    assert!(parser.field_name_to_tag_id("UnknownField").is_err());
}

#[test]
fn lazy_reads_a_field_once_then_serves_it_from_the_cache() {
    let mut parser = LazyExifParser::new();
    let tiff = tiff_with_make("Canon");
    assert!(parser.load_file(&tiff).is_ok());
    let first = parser.get_field("Make").unwrap().unwrap();
    assert_eq!(first.as_text().map(|s| s.as_str()), Some("Canon"));
    let again = parser.get_field("Make").unwrap().unwrap();
    assert_eq!(again.as_text().map(|s| s.as_str()), Some("Canon"));
    assert_eq!(parser.get_field("Model").unwrap().is_none(), true);
    let stats = parser.get_stats();
    assert_eq!(text_of(&stats, "cache_hits"), Some("1"));
    assert_eq!(text_of(&stats, "cache_misses"), Some("2"));
    assert_eq!(text_of(&stats, "fields_parsed"), Some("2"));
    assert_eq!(text_of(&stats, "total_bytes_read"), Some("32"));
    assert_eq!(number_of(&stats, "cache_hit_rate_percent"), Some((1, 3, RealStyle::Percent(1))));
    assert_eq!(parser.get_requested_fields(), &["Make".to_string(), "Model".to_string()]);
    assert_eq!(err_of(parser.get_field("Lens")), "Invalid EXIF data: Unknown field: Lens");
    let mut unloaded = LazyExifParser::new();
    assert_eq!(
        err_of(unloaded.get_field("Make")),
        "Invalid EXIF data: EXIF segment info not available"
    );
}

#[test]
fn lazy_load_refuses_unknown_formats_and_batches_fill_empty_maps() {
    let mut parser = LazyExifParser::new();
    assert_eq!(err_of(parser.load_file(&[7u8; 40])), "Invalid EXIF data: Unsupported file format");
    let mut batch = LazyExifBatchProcessor::new(10);
    let out = batch.process_files(&[tiff_with_make("Canon"), vec![7u8; 40]], &["Make"]).unwrap();
    assert_eq!(text_of(&out[0], "Make"), Some("Canon"));
    assert_eq!(out[1].len(), 0);
    let mut all = LazyExifParser::with_fields(vec!["Make".to_string()]);
    all.load_file(&tiff_with_make("Canon")).unwrap();
    let every = all.get_all_fields().unwrap();
    assert_eq!(text_of(&every, "Make"), Some("Canon"));
    assert_eq!(all.get_parsed_fields(), &["Make".to_string()]);
}

#[test]
fn ultra_fast_reads_frame_size_and_counts_markers() {
    let data = small_jpeg();
    let mut parser = UltraFastJpegParser::new();
    let mut m = TagMap::new();
    assert!(parser.parse_jpeg_exif_ultra_fast(&data, &mut m).is_ok());
    assert_eq!(text_of(&m, "ImageWidth"), Some("32"));
    assert_eq!(text_of(&m, "ImageHeight"), Some("16"));
    assert_eq!(text_of(&m, "ImageSize"), Some("32x16"));
    assert_eq!(number_of(&m, "Megapixels"), Some((512, 1000000, RealStyle::Fixed(1))));
    assert_eq!(text_of(&m, "Sharpness"), Some("Normal"));
    assert_eq!(text_of(&parser.get_ultra_fast_stats(), "marker_positions_count"), Some("2"));
    let whole = parser.parse_file(&data).unwrap();
    assert_eq!(text_of(&whole, "ImageWidth"), Some("32"));
    assert_eq!(text_of(&parser.get_stats(), "mmap_count"), Some("1"));
    let mut seeking = UltraFastJpegParser::with_seek_optimization();
    assert_eq!(err_of(seeking.parse_file(&data)), "Invalid EXIF data: Invalid JPEG marker");
    assert_eq!(text_of(&seeking.get_stats(), "mmap_count"), Some("1"));
}

#[test]
fn ultra_fast_keeps_only_target_fields_when_seeking() {
    // A TIFF file is read as its first 64 KiB.
    let tiff = tiff_with_make("Canon");
    let mut short = UltraFastJpegParser::with_target_fields(vec!["Make".to_string()]);
    assert_eq!(err_of(short.parse_file(&tiff)), "IO error: failed to fill whole buffer");
    let mut long = tiff.clone();
    long.resize(70000, 0);
    let mut parser = UltraFastJpegParser::with_target_fields(vec!["Make".to_string(), "Model".to_string()]);
    let m = parser.parse_file(&long).unwrap();
    assert_eq!(text_of(&m, "Make"), Some("Canon"));
    assert_eq!(m.len(), 1);
    let mut batch = UltraFastBatchProcessor::new(4);
    let out = batch.process_jpeg_files_ultra_fast(&[small_jpeg()]).unwrap();
    assert_eq!(text_of(&out[0], "ImageHeight"), Some("16"));
    let stats = batch.get_ultra_fast_stats();
    assert_eq!(text_of(&stats, "batch_size"), Some("4"));
    assert_eq!(text_of(&stats, "use_seek_optimization"), Some("false"));
}

#[test]
fn ultra_fast_reader_benchmark_and_profile() {
    let data = small_jpeg();
    let mut reader = UltraFastJpegReader::new();
    let m = reader.read_bytes(&data).unwrap();
    let fields = m.len();
    let summary = benchmark_ultra_fast_jpeg(&[Some(data.clone()), None]).unwrap();
    assert_eq!(text_of(&summary, "total_files"), Some("2"));
    assert_eq!(text_of(&summary, "successful_files"), Some("1"));
    assert_eq!(text_of(&summary, "failed_files"), Some("1"));
    assert_eq!(text_of(&summary, "total_fields_extracted"), Some(fields.to_string().as_str()));
    assert_eq!(number_of(&summary, "success_rate"), Some((1, 2, RealStyle::Percent(2))));
    let profile = profile_ultra_fast_jpeg("a.jpg", &data).unwrap();
    assert_eq!(text_of(&profile, "file_path"), Some("a.jpg"));
    assert_eq!(text_of(&profile, "success"), Some("true"));
    assert_eq!(text_of(&profile, "fields_extracted"), Some(fields.to_string().as_str()));
    assert!(profile.get("camera_make").is_none());
}

#[test]
fn hybrid_dispatches_by_extension() {
    let mut parser = HybridExifParser::new();
    let mut m = TagMap::new();
    assert_eq!(err_of(parser.parse_exif_hybrid(&[0u8; 4], "PNG", &mut m)), "Unsupported format: PNG");
    assert_eq!(err_of(parser.parse_exif_hybrid(&[0u8; 4], "Tif", &mut m)), "Unsupported format: TIFF");
    assert_eq!(err_of(parser.parse_exif_hybrid(&[0u8; 4], "XYZ", &mut m)), "Unsupported format: xyz");
    assert_eq!(m.len(), 0);
    let mut j = TagMap::new();
    assert!(parser.parse_exif_hybrid(&small_jpeg(), "JPG", &mut j).is_ok());
    assert_eq!(text_of(&j, "FileType"), Some("JPEG"));
    let mut aware = PerformanceAwareParser::new();
    let mut p = TagMap::new();
    assert_eq!(
        err_of(aware.parse_with_performance_awareness(&[0u8; 4], "bmp", &mut p)),
        "Unsupported format: BMP"
    );
    let stats = parser.get_performance_stats();
    assert_eq!(text_of(&stats, "HEIC_SIMD_SPEEDUP"), Some("1.8x"));
}

#[test]
fn gpu_reader_reads_on_the_processor() {
    let mut gpu = GpuExifParser::new();
    let mut m = TagMap::new();
    assert!(gpu.parse_jpeg_exif_gpu(&small_jpeg(), &mut m).is_ok());
    assert_eq!(text_of(&m, "FileType"), Some("JPEG"));
    let mut h = TagMap::new();
    assert!(gpu.parse_heic_exif_gpu(&[0u8; 16], &mut h).is_ok());
    assert_eq!(text_of(&h, "Format"), Some("image/heic"));
}

fn run_scan(data: &[u8], m: &mut TagMap) -> Result<Option<(u64, u64)>, ExifError> {
    let mut scan = fast_exif_reader::atom_scan::scan_file(data.len() as u64);
    loop {
        match scan.next_action() {
            fast_exif_reader::atom_scan::ScanAction::ReadHeader(pos) => {
                let p = pos as usize;
                let n = (data.len() - p).min(16);
                let mut hdr = [0u8; 16];
                hdr[..n].copy_from_slice(&data[p..p + n]);
                scan.header_read(&hdr, n)?;
            }
            fast_exif_reader::atom_scan::ScanAction::ReadPayload(pos, len) => {
                let p = pos as usize;
                scan.payload_read(&data[p..p + len as usize], m);
            }
            fast_exif_reader::atom_scan::ScanAction::Done(found) => return Ok(found),
        }
    }
}

fn qt_atom(tag: &[u8; 4], payload: &[u8]) -> Vec<u8> {
    let mut out = ((8 + payload.len()) as u32).to_be_bytes().to_vec();
    out.extend_from_slice(tag);
    out.extend_from_slice(payload);
    out
}

#[test]
fn atom_scan_finds_media_data_and_reads_the_brand() {
    let mut data = qt_atom(b"ftyp", b"qt  \x00\x00\x00\x00qt  ");
    data.extend(qt_atom(b"mdat", &[1, 2, 3, 4]));
    let mut m = TagMap::new();
    let found = run_scan(&data, &mut m).unwrap();
    assert_eq!(found, Some((28, 4)));
    assert_eq!(text_of(&m, "MajorBrand"), Some("Apple QuickTime (.MOV/QT)"));
    let mut walked = TagMap::new();
    fast_exif_reader::nikon_mov::walk_atoms(&data, &mut walked);
    assert_eq!(text_of(&walked, "MajorBrand"), Some("Apple QuickTime (.MOV/QT)"));
    let mut cut = 1u32.to_be_bytes().to_vec();
    cut.extend_from_slice(b"mdat");
    cut.extend_from_slice(&[0, 0, 0, 0]);
    let mut m2 = TagMap::new();
    assert_eq!(err_of(run_scan(&cut, &mut m2)), "Invalid EXIF data: Truncated extended QuickTime atom");
}

#[test]
fn timestamps_print_as_utc_dates() {
    assert_eq!(ExifUtils::format_timestamp(0), Some("1970:01:01 00:00:00".to_string()));
    assert_eq!(ExifUtils::format_timestamp(1577836800), Some("2020:01:01 00:00:00".to_string()));
    assert_eq!(ExifUtils::format_timestamp(200_000_000_000), Some("8307:10:01 19:33:20".to_string()));
    assert!(ExifUtils::format_timestamp(8_210_266_876_799).is_some());
    assert_eq!(ExifUtils::format_timestamp(8_210_266_876_800), None);
    assert!(ExifUtils::format_timestamp(-8_334_601_228_800).is_some());
    assert_eq!(ExifUtils::format_timestamp(-8_334_601_228_801), None);
    let mut data = vec![0u8, 0];
    data.extend_from_slice(&1577836800u32.to_le_bytes());
    data.extend_from_slice(&[0u8; 4]);
    let mut m = TagMap::new();
    ExifUtils::extract_unix_timestamps(&data, &mut m);
    assert_eq!(text_of(&m, "UnixTimestamp_LE"), Some("2020:01:01 00:00:00"));
    assert!(m.get("UnixTimestamp_BE").is_none());
    let mut be = vec![0u8, 0];
    be.extend_from_slice(&1685620800u32.to_be_bytes());
    be.extend_from_slice(&[0u8; 4]);
    let mut m2 = TagMap::new();
    ExifUtils::extract_unix_timestamps(&be, &mut m2);
    assert_eq!(text_of(&m2, "UnixTimestamp_BE"), Some("2023:06:01 12:00:00"));
}

#[test]
fn hex_decoding_is_the_same_on_both_paths() {
    let hex = "0a1B2c3D".repeat(5);
    let fast = SimdHexParser::with_avx2(true).hex_to_bytes(&hex);
    let portable = SimdHexParser::new().hex_to_bytes(&hex);
    assert_eq!(fast, portable);
    assert_eq!(&fast[..4], &[0x0a, 0x1b, 0x2c, 0x3d]);
    assert_eq!(fast.len(), 20);
}

#[test]
fn crop_factor_lowercases_the_make_as_unicode() {
    let mut m = TagMap::new();
    m.insert_str("Make", "\u{212A}odak");
    assert_eq!(fast_exif_reader::computed::crop_factor_milli(&m), 1500);
    let mut canon = TagMap::new();
    canon.insert_str("Make", "Canon");
    canon.insert_str("Model", "Canon EOS 70D");
    assert_eq!(fast_exif_reader::computed::crop_factor_milli(&canon), 1577);
}

#[test]
fn decimal_text_reads_as_a_number() {
    let mut m = TagMap::new();
    m.insert_str("FNumber", "2.8");
    fast_exif_reader::computed::add_camera_fields(&mut m);
    let v = m.get("FNumberFormatted").unwrap();
    match (&v.pieces[0], &v.pieces[1]) {
        (Piece::Text(t), Piece::Number(r)) => {
            assert_eq!(t, "f/");
            assert_eq!((r.num, r.den, r.style), (28, 10, RealStyle::Fixed(1)));
        }
        _ => panic!("expected f/ and a number"),
    }
}

#[test]
fn field_values_are_checked_by_kind() {
    assert_eq!(ExifUtils::validate_field_value("DateTime", " 2024:01:01 00:00:00 "), Ok(None));
    assert_eq!(err_of(ExifUtils::validate_field_value("DateTime", "2024-01-01")), "Invalid EXIF data: Invalid datetime format: 2024-01-01");
    assert_eq!(err_of(ExifUtils::validate_field_value("Orientation", "9")), "Invalid EXIF data: Invalid orientation value: 9");
    assert_eq!(err_of(ExifUtils::validate_field_value("ISOSpeedRatings", "0")), "Invalid EXIF data: ISO cannot be zero");
    assert_eq!(err_of(ExifUtils::validate_field_value("Make", "  ")), "Invalid EXIF data: Empty value for field: Make");
    assert_eq!(ExifUtils::validate_field_value("FNumber", "2.8"), Ok(Some(FieldRule::FNumber)));
    assert_eq!(ExifUtils::validate_field_value("GPSLatitude", "12 deg 3' 4\""), Ok(None));
    assert_eq!(ExifUtils::validate_field_value("GPSLatitude", "12.5"), Ok(Some(FieldRule::GpsCoordinate)));
    assert_eq!(err_of(ExifUtils::validate_field_value("Make", &"x".repeat(256))), "Invalid EXIF data: ASCII field too long: 256");
}

#[test]
fn readers_say_which_contents_they_can_read() {
    assert!(!UltraFastJpegParser::new().can_read(&[]));
    assert!(UltraFastJpegParser::new().can_read(&small_jpeg()));
    assert!(OptimalExifParser::new().can_read(&tiff_with_make("Canon")));
    assert!(fast_exif_reader::ultra_fast_jpeg_reader::benchmark_readable(&[Some(small_jpeg()), None]));
    assert!(!fast_exif_reader::ultra_fast_jpeg_reader::benchmark_readable(&[Some(Vec::new())]));
}

#[test]
fn fast_reader_says_which_contents_it_can_read() {
    let parser = fast_exif_reader::high_performance_jpeg::HighPerformanceJpegParser::new();
    assert!(!parser.can_read(&[]));
    let data = vec![0xFF, 0xD8, 0x00, 0x02, 0xFF, 0xC0, 0x00, 0x11, 0x08, 0x00, 0x10, 0x00, 0x20, 0x03, 0, 0, 0, 0];
    assert!(parser.can_read(&data));
    // A frame header whose size bytes run past the end.
    let short = vec![0xFF, 0xD8, 0x00, 0x02, 0xFF, 0xC0, 0x00, 0x11, 0x08, 0x00, 0x10, 0x00];
    assert!(!parser.can_read(&short));
}
