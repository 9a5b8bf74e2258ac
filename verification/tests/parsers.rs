use fast_exif_reader::adaptive_memory::{AdaptiveMemoryParser, MemoryStrategy};
use fast_exif_reader::metadata::TagMap;
use fast_exif_reader::nikon_mov::walk_atoms;
use fast_exif_reader::types::ReadOptions;
use fast_exif_reader::ultra_seek_optimized::UltraSeekOptimizedParser;

fn text_of<'a>(m: &'a TagMap, key: &str) -> Option<&'a str> {
    m.get_text(key).map(|s| s.as_str())
}

fn atom(tag: &[u8; 4], payload: &[u8]) -> Vec<u8> {
    let size = (8 + payload.len()) as u32;
    let mut out = size.to_be_bytes().to_vec();
    out.extend_from_slice(tag);
    out.extend_from_slice(payload);
    out
}

#[test]
fn adaptive_memory_test_parser_creation() {
    let parser = AdaptiveMemoryParser::new();
    assert_eq!(parser.memory_map_threshold, 16 * 1024 * 1024);
    assert_eq!(parser.max_mmap_size, 256 * 1024 * 1024);
}

#[test]
fn test_custom_thresholds() {
    let parser = AdaptiveMemoryParser::with_thresholds(8 * 1024 * 1024, 128 * 1024 * 1024);
    assert_eq!(parser.memory_map_threshold, 8 * 1024 * 1024);
    assert_eq!(parser.max_mmap_size, 128 * 1024 * 1024);
}

#[test]
fn test_strategy_selection() {
    let parser = AdaptiveMemoryParser::new();
    assert!(matches!(parser.choose_strategy(512 * 1024), MemoryStrategy::SelectiveSeek));
    assert!(matches!(parser.choose_strategy(8 * 1024 * 1024), MemoryStrategy::MemoryMap));
    assert!(matches!(parser.choose_strategy(32 * 1024 * 1024), MemoryStrategy::Hybrid));
    assert!(matches!(parser.choose_strategy(512 * 1024 * 1024), MemoryStrategy::SelectiveSeek));
}

#[test]
fn ultra_seek_optimized_test_parser_creation() {
    let parser = UltraSeekOptimizedParser::new();
    assert_eq!(parser.max_exif_size, 2 * 1024 * 1024);
    assert!(parser.lazy_parsing);
}

#[test]
fn test_target_fields() {
    let fields = vec!["Make".to_string(), "Model".to_string()];
    let parser = UltraSeekOptimizedParser::with_target_fields(fields.clone());
    assert_eq!(parser.target_fields, fields);
}

#[test]
fn datetime_options_skip_maker_notes() {
    let opts = ReadOptions::datetime();
    assert!(!opts.include_maker_notes);
    assert!(!opts.include_gps);
    assert!(opts.exif_segment_only);
    assert!(opts.include_computed_fields);
    let wanted = opts.wanted_tags.unwrap();
    assert!(wanted.contains(&"DateTimeOriginal".to_string()));
    assert!(wanted.contains(&"SubSecCreateDate".to_string()));
}

#[test]
fn gps_tag_request_enables_gps_ifd() {
    let opts = ReadOptions::tags(&["GPSLatitude"]);
    assert!(opts.include_gps);
    assert!(!opts.include_maker_notes);
}

#[test]
fn nctg_make_inside_moov_is_not_tiff() {
    let mut payload = Vec::new();
    payload.extend_from_slice(&1u32.to_be_bytes());
    payload.extend_from_slice(&2u16.to_be_bytes());
    payload.extend_from_slice(&5u16.to_be_bytes());
    payload.extend_from_slice(b"NIKON");
    let nctg = atom(b"NCTG", &payload);
    let ncdt = atom(b"NCDT", &nctg);
    let udta = atom(b"udta", &ncdt);
    let moov = atom(b"moov", &udta);
    let ftyp = atom(b"ftyp", b"qt  \x00\x00\x00\x00qt  ");
    let mut file = ftyp;
    file.extend_from_slice(&moov);
    let mut metadata = TagMap::new();
    walk_atoms(&file, &mut metadata);
    assert_eq!(text_of(&metadata, "Make"), Some("NIKON"));
    assert_eq!(text_of(&metadata, "MajorBrand"), Some("Apple QuickTime (.MOV/QT)"));
}
