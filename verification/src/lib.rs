//! EXIF, maker-note and QuickTime metadata reading, with ExifTool tag names.
#![verifier::loop_isolation(false)]

use vstd::prelude::*;

pub mod adaptive_memory;
pub mod atom_scan;
pub mod bmp;
pub mod bytes;
pub mod cache;
pub mod computed;
pub mod gpu;
pub mod heif;
pub mod high_performance_jpeg;
pub mod hybrid;
pub mod jpeg;
pub mod lazy_parser;
pub mod maker_notes;
pub mod maker_notes_comprehensive;
pub mod maker_notes_old;
pub mod metadata;
pub mod mkv;
pub mod names;
pub mod nikon_mov;
pub mod optimal;
pub mod optimized_jpeg;
pub mod png;
pub mod raw;
pub mod selective;
pub mod simd;
pub mod simd_heic;
pub mod simd_jpeg;
pub mod text;
pub mod tiff;
pub mod types;
pub mod ultra_fast_jpeg;
pub mod ultra_fast_jpeg_reader;
pub mod ultra_seek_optimized;
pub mod utils;
pub mod v2_reader;
pub mod video;
pub mod zero_copy;

verus! {
} // verus!
