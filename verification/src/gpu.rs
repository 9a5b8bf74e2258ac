//! The accelerated reader as built without a GPU back end: it reads on
//! the processor with the JPEG and HEIF readers.

use vstd::prelude::*;
use crate::heif::{heif_effect, HeifParser};
use crate::jpeg::{jpeg_outcome, JpegParser};
use crate::metadata::TagMap;
use crate::tiff::result_matches;
use crate::types::ExifError;

verus! {

/// The accelerated reader without a GPU back end.
pub struct GpuExifParser;

impl GpuExifParser {
    /// A reader.
    pub fn new() -> (r: GpuExifParser) {
        GpuExifParser
    }

    /// Reads a JPEG file with the JPEG reader.
    pub fn parse_jpeg_exif_gpu(&mut self, data: &[u8], metadata: &mut TagMap) -> (r: Result<(), ExifError>)
        ensures
            result_matches(r, jpeg_outcome(data@, old(metadata)@).0),
            final(metadata)@ == jpeg_outcome(data@, old(metadata)@).1,
    {
        JpegParser::parse_jpeg_exif(data, metadata)
    }

    /// Reads a HEIF file with the HEIF reader.
    pub fn parse_heic_exif_gpu(&mut self, data: &[u8], metadata: &mut TagMap) -> (r: Result<(), ExifError>)
        ensures
            r is Ok,
            final(metadata)@ == heif_effect(data@, old(metadata)@),
    {
        HeifParser::parse_heif_exif(data, metadata)
    }
}

impl Default for GpuExifParser {
    fn default() -> (r: GpuExifParser) {
        GpuExifParser::new()
    }
}

} // verus!
