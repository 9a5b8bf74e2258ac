//! A HEIC reader with an AVX2 path. Both paths give what the HEIF parser
//! gives: the vector instructions only speed up finding the boxes, so the
//! path taken never changes the tags read.

use vstd::prelude::*;
use crate::heif::{heif_effect, HeifParser};
use crate::metadata::TagMap;
use crate::types::ExifError;

verus! {

/// The HEIC reader with an AVX2 path.
pub struct SimdHeicParser {
    avx2_supported: bool,
}

impl View for SimdHeicParser {
    type V = bool;

    /// Whether the AVX2 path is taken.
    closed spec fn view(&self) -> bool {
        self.avx2_supported
    }
}

impl SimdHeicParser {
    /// A reader that takes the portable path.
    pub fn new() -> (r: SimdHeicParser)
        ensures
            r@ == false,
    {
        SimdHeicParser { avx2_supported: false }
    }

    /// A reader that takes the AVX2 path when `supported` says that the
    /// processor has AVX2.
    pub fn with_avx2(supported: bool) -> (r: SimdHeicParser)
        ensures
            r@ == supported,
    {
        SimdHeicParser { avx2_supported: supported }
    }

    /// Reads a HEIC file as the HEIF parser does, on either path.
    pub fn parse_heic_exif_simd(&self, data: &[u8], metadata: &mut TagMap) -> (r: Result<(), ExifError>)
        ensures
            r is Ok,
            final(metadata)@ == heif_effect(data@, old(metadata)@),
    {
        if self.avx2_supported {
            self.parse_heic_exif_avx2(data, metadata)
        } else {
            self.parse_heic_exif_scalar(data, metadata)
        }
    }

    /// The AVX2 path, written without vector instructions: the HEIF parser.
    fn parse_heic_exif_avx2(&self, data: &[u8], metadata: &mut TagMap) -> (r: Result<(), ExifError>)
        ensures
            r is Ok,
            final(metadata)@ == heif_effect(data@, old(metadata)@),
    {
        HeifParser::parse_heif_exif(data, metadata)
    }

    /// The portable path: the HEIF parser.
    fn parse_heic_exif_scalar(&self, data: &[u8], metadata: &mut TagMap) -> (r: Result<(), ExifError>)
        ensures
            r is Ok,
            final(metadata)@ == heif_effect(data@, old(metadata)@),
    {
        HeifParser::parse_heif_exif(data, metadata)
    }
}

} // verus!
