//! A JPEG reader with an AVX2 path. Both paths give what the JPEG parser
//! gives: the vector instructions only speed up finding the segments, so
//! the path taken never changes the tags read.

use vstd::prelude::*;
use crate::jpeg::{jpeg_outcome, JpegParser};
use crate::metadata::TagMap;
use crate::tiff::result_matches;
use crate::types::ExifError;

verus! {

/// The JPEG reader with an AVX2 path.
pub struct SimdJpegParser {
    avx2_supported: bool,
}

impl View for SimdJpegParser {
    type V = bool;

    /// Whether the AVX2 path is taken.
    closed spec fn view(&self) -> bool {
        self.avx2_supported
    }
}

impl SimdJpegParser {
    /// A reader that takes the portable path.
    pub fn new() -> (r: SimdJpegParser)
        ensures
            r@ == false,
    {
        SimdJpegParser { avx2_supported: false }
    }

    /// A reader that takes the AVX2 path when `supported` says that the
    /// processor has AVX2.
    pub fn with_avx2(supported: bool) -> (r: SimdJpegParser)
        ensures
            r@ == supported,
    {
        SimdJpegParser { avx2_supported: supported }
    }

    /// Reads a JPEG file as the JPEG parser does, on either path.
    pub fn parse_jpeg_exif_simd(&self, data: &[u8], metadata: &mut TagMap) -> (r: Result<(), ExifError>)
        ensures
            result_matches(r, jpeg_outcome(data@, old(metadata)@).0),
            final(metadata)@ == jpeg_outcome(data@, old(metadata)@).1,
    {
        if self.avx2_supported {
            self.parse_jpeg_exif_avx2(data, metadata)
        } else {
            self.parse_jpeg_exif_scalar(data, metadata)
        }
    }

    /// The AVX2 path, written without vector instructions: the JPEG parser.
    fn parse_jpeg_exif_avx2(&self, data: &[u8], metadata: &mut TagMap) -> (r: Result<(), ExifError>)
        ensures
            result_matches(r, jpeg_outcome(data@, old(metadata)@).0),
            final(metadata)@ == jpeg_outcome(data@, old(metadata)@).1,
    {
        JpegParser::parse_jpeg_exif(data, metadata)
    }

    /// The portable path: the JPEG parser.
    fn parse_jpeg_exif_scalar(&self, data: &[u8], metadata: &mut TagMap) -> (r: Result<(), ExifError>)
        ensures
            result_matches(r, jpeg_outcome(data@, old(metadata)@).0),
            final(metadata)@ == jpeg_outcome(data@, old(metadata)@).1,
    {
        JpegParser::parse_jpeg_exif(data, metadata)
    }
}

} // verus!
