//! The combined reader: zero-copy EXIF reading, then field selection.

use vstd::prelude::*;
use crate::metadata::{PieceModel, TagMap};
use crate::selective::{default_groups, filtered, groups_union, lemma_one_group, SelectiveFieldExtractor};
use crate::simd::SimdHexParser;
use crate::text::str_views;
use crate::zero_copy::{zc_parse_file, ZeroCopyExifParser};

verus! {

type M = Map<Seq<char>, Seq<PieceModel>>;

/// The groups and requested fields of a field extractor.
pub type ExtractorModel = (Map<Seq<char>, Set<Seq<char>>>, Set<Seq<char>>);

/// What reading a file's bytes gives: the zero-copy reading (or nothing
/// when that is off), then the requested fields of it.
pub open spec fn v2_read(data: Seq<u8>, extractor: Option<ExtractorModel>, zero_copy: bool) -> Result<M, Seq<char>> {
    let base: Result<M, Seq<char>> = if zero_copy {
        zc_parse_file(data, 1048576)
    } else {
        Ok(Map::empty())
    };
    match base {
        Err(e) => Err(e),
        Ok(m) => match extractor {
            Some(x) => Ok(filtered(x.1, m)),
            None => Ok(m),
        },
    }
}

/// What reading one file of a batch gives: an empty map for a file that
/// could not be read.
pub open spec fn v2_read_or_empty(data: Seq<u8>, extractor: Option<ExtractorModel>, zero_copy: bool) -> M {
    match v2_read(data, extractor, zero_copy) {
        Ok(m) => m,
        Err(_) => Map::empty(),
    }
}

/// The reader with zero-copy EXIF reading and optional field selection.
pub struct FastExifReaderV2 {
    zero_copy_parser: ZeroCopyExifParser,
    simd_parser: SimdHexParser,
    field_extractor: Option<SelectiveFieldExtractor>,
    enable_simd: bool,
    enable_zero_copy: bool,
}

/// Which optimizations a reader uses.
pub struct PerformanceInfo {
    pub simd_enabled: bool,
    pub zero_copy_enabled: bool,
    pub field_filtering_enabled: bool,
}

impl View for FastExifReaderV2 {
    type V = (Option<ExtractorModel>, bool, bool);

    /// The field extractor, and whether SIMD and zero-copy reading are on.
    closed spec fn view(&self) -> (Option<ExtractorModel>, bool, bool) {
        (
            match self.field_extractor {
                Some(x) => Some(x@),
                None => None,
            },
            self.enable_simd,
            self.enable_zero_copy,
        )
    }
}

impl FastExifReaderV2 {
    #[verifier::type_invariant]
    closed spec fn inv(self) -> bool {
        self.zero_copy_parser@ == 1048576
    }

    /// A reader with every optimization on and no field selection.
    pub fn new() -> (r: FastExifReaderV2)
        ensures
            r@ == (None::<ExtractorModel>, true, true),
    {
        FastExifReaderV2 {
            zero_copy_parser: ZeroCopyExifParser::new(),
            simd_parser: SimdHexParser::new(),
            field_extractor: None,
            enable_simd: true,
            enable_zero_copy: true,
        }
    }

    /// A reader that keeps the given fields.
    pub fn with_fields(fields: &[&str]) -> (r: FastExifReaderV2)
        ensures
            r@ == (Some((default_groups(), str_views(fields@).to_set())), true, true),
    {
        FastExifReaderV2 {
            zero_copy_parser: ZeroCopyExifParser::new(),
            simd_parser: SimdHexParser::new(),
            field_extractor: Some(SelectiveFieldExtractor::with_fields(fields)),
            enable_simd: true,
            enable_zero_copy: true,
        }
    }

    /// A reader that keeps the fields of the named groups.
    pub fn with_field_groups(groups: &[&str]) -> (r: FastExifReaderV2)
        ensures
            r@ == (Some((default_groups(), groups_union(default_groups(), str_views(groups@)))), true, true),
    {
        FastExifReaderV2 {
            zero_copy_parser: ZeroCopyExifParser::new(),
            simd_parser: SimdHexParser::new(),
            field_extractor: Some(SelectiveFieldExtractor::with_groups(groups)),
            enable_simd: true,
            enable_zero_copy: true,
        }
    }

    /// A reader with every optimization on.
    pub fn with_all_optimizations() -> (r: FastExifReaderV2)
        ensures
            r@ == (None::<ExtractorModel>, true, true),
    {
        Self::new()
    }

    /// Reads the EXIF tags of a file's bytes, keeping the requested fields.
    pub fn read_file(&mut self, data: &[u8]) -> (r: Result<TagMap, String>)
        ensures
            final(self)@ == old(self)@,
            r matches Ok(m) ==> v2_read(data@, old(self)@.0, old(self)@.2) == Ok::<M, Seq<char>>(m@),
            r matches Err(e) ==> v2_read(data@, old(self)@.0, old(self)@.2) == Err::<M, Seq<char>>(e@),
    {
        proof {
            use_type_invariant(&*self);
        }
        let read = if self.enable_zero_copy {
            let mut parser = ZeroCopyExifParser::new();
            std::mem::swap(&mut parser, &mut self.zero_copy_parser);
            let got = parser.parse_file(data);
            self.zero_copy_parser = parser;
            got
        } else {
            self.parse_file_standard(data)
        };
        let metadata = match read {
            Ok(m) => m,
            Err(e) => {
                return Err(e);
            },
        };
        match &self.field_extractor {
            Some(extractor) => Ok(extractor.filter_metadata(metadata)),
            None => Ok(metadata),
        }
    }

    /// Reads several files' bytes in turn; a file that cannot be read gives
    /// an empty map.
    pub fn read_multiple_files(&mut self, files: &[Vec<u8>]) -> (r: Result<Vec<TagMap>, String>)
        ensures
            final(self)@ == old(self)@,
            r is Ok,
            r matches Ok(v) ==> v@.len() == files@.len() && forall|i: int|
                0 <= i < files@.len() ==> (#[trigger] v@[i])@ == v2_read_or_empty(files@[i]@, old(self)@.0, old(self)@.2),
    {
        if self.enable_simd {
            self.read_files_parallel_simd(files)
        } else {
            Ok(self.read_each(files))
        }
    }

    /// Reads the files in blocks of eight.
    fn read_files_parallel_simd(&mut self, files: &[Vec<u8>]) -> (r: Result<Vec<TagMap>, String>)
        ensures
            final(self)@ == old(self)@,
            r is Ok,
            r matches Ok(v) ==> v@.len() == files@.len() && forall|i: int|
                0 <= i < files@.len() ==> (#[trigger] v@[i])@ == v2_read_or_empty(files@[i]@, old(self)@.0, old(self)@.2),
    {
        let mut results: Vec<TagMap> = Vec::new();
        let mut start: usize = 0;
        while start < files.len()
            invariant
                start <= files@.len(),
                self@ == old(self)@,
                results@.len() == start,
                forall|i: int| 0 <= i < start ==> (#[trigger] results@[i])@ == v2_read_or_empty(files@[i]@, old(self)@.0, old(self)@.2),
            decreases files.len() - start,
        {
            let end = if files.len() - start < 8 { files.len() } else { start + 8 };
            let mut chunk = self.read_each(crate::text::sub_slice(files, start, end));
            let ghost before = results@;
            let ghost got = chunk@;
            results.append(&mut chunk);
            assert forall|i: int| 0 <= i < end implies (#[trigger] results@[i])@ == v2_read_or_empty(files@[i]@, old(self)@.0, old(self)@.2) by {
                if i >= start {
                    assert(results@[i] == got[i - start]);
                    assert(files@.subrange(start as int, end as int)[i - start] == files@[i]);
                } else {
                    assert(results@[i] == before[i]);
                }
            }
            start = end;
        }
        Ok(results)
    }

    /// Reads each file in turn.
    fn read_each(&mut self, files: &[Vec<u8>]) -> (v: Vec<TagMap>)
        ensures
            final(self)@ == old(self)@,
            v@.len() == files@.len(),
            forall|i: int| 0 <= i < files@.len() ==> (#[trigger] v@[i])@ == v2_read_or_empty(files@[i]@, old(self)@.0, old(self)@.2),
    {
        let mut results: Vec<TagMap> = Vec::new();
        let mut i: usize = 0;
        while i < files.len()
            invariant
                i <= files@.len(),
                self@ == old(self)@,
                results@.len() == i,
                forall|k: int| 0 <= k < i ==> (#[trigger] results@[k])@ == v2_read_or_empty(files@[k]@, old(self)@.0, old(self)@.2),
            decreases files.len() - i,
        {
            let m = match self.read_file(files[i].as_slice()) {
                Ok(m) => m,
                Err(_) => TagMap::new(),
            };
            results.push(m);
            i = i + 1;
        }
        results
    }

    /// The reading used when zero-copy reading is off: no tags.
    fn parse_file_standard(&self, _data: &[u8]) -> (r: Result<TagMap, String>)
        ensures
            r matches Ok(m) && m@ == Map::<Seq<char>, Seq<PieceModel>>::empty(),
    {
        Ok(TagMap::new())
    }

    /// Turns the SIMD paths on or off.
    pub fn set_simd_enabled(&mut self, enabled: bool)
        ensures
            final(self)@ == (old(self)@.0, enabled, old(self)@.2),
    {
        proof {
            use_type_invariant(&*self);
        }
        self.enable_simd = enabled;
    }

    /// Turns zero-copy reading on or off.
    pub fn set_zero_copy_enabled(&mut self, enabled: bool)
        ensures
            final(self)@ == (old(self)@.0, old(self)@.1, enabled),
    {
        proof {
            use_type_invariant(&*self);
        }
        self.enable_zero_copy = enabled;
    }

    /// Selects fields with `extractor`.
    pub fn set_field_extractor(&mut self, extractor: SelectiveFieldExtractor)
        ensures
            final(self)@ == (Some(extractor@), old(self)@.1, old(self)@.2),
    {
        proof {
            use_type_invariant(&*self);
        }
        self.field_extractor = Some(extractor);
    }

    /// Keeps every field.
    pub fn clear_field_extractor(&mut self)
        ensures
            final(self)@ == (None::<ExtractorModel>, old(self)@.1, old(self)@.2),
    {
        proof {
            use_type_invariant(&*self);
        }
        self.field_extractor = None;
    }

    /// Which optimizations are on.
    pub fn get_performance_info(&self) -> (r: PerformanceInfo)
        ensures
            r.simd_enabled == self@.1,
            r.zero_copy_enabled == self@.2,
            r.field_filtering_enabled == self@.0 is Some,
    {
        PerformanceInfo {
            simd_enabled: self.enable_simd,
            zero_copy_enabled: self.enable_zero_copy,
            field_filtering_enabled: self.field_extractor.is_some(),
        }
    }

    /// A reader for thumbnail generation.
    pub fn for_thumbnails() -> (r: FastExifReaderV2)
        ensures
            r@ == (Some((default_groups(), default_groups()["thumbnail"@])), true, true),
    {
        let names: [&str; 1] = ["thumbnail"];
        assert(str_views(names@) =~= seq!["thumbnail"@]);
        proof {
            lemma_one_group("thumbnail"@);
        }
        Self::with_field_groups(&names)
    }

    /// A reader for file management.
    pub fn for_file_management() -> (r: FastExifReaderV2)
        ensures
            r@ == (Some((default_groups(), default_groups()["file"@])), true, true),
    {
        let names: [&str; 1] = ["file"];
        assert(str_views(names@) =~= seq!["file"@]);
        proof {
            lemma_one_group("file"@);
        }
        Self::with_field_groups(&names)
    }

    /// A reader for GPS data.
    pub fn for_gps_extraction() -> (r: FastExifReaderV2)
        ensures
            r@ == (Some((default_groups(), default_groups()["gps"@])), true, true),
    {
        let names: [&str; 1] = ["gps"];
        assert(str_views(names@) =~= seq!["gps"@]);
        proof {
            lemma_one_group("gps"@);
        }
        Self::with_field_groups(&names)
    }

    /// A reader for camera settings.
    pub fn for_camera_settings() -> (r: FastExifReaderV2)
        ensures
            r@ == (Some((default_groups(), default_groups()["camera"@])), true, true),
    {
        let names: [&str; 1] = ["camera"];
        assert(str_views(names@) =~= seq!["camera"@]);
        proof {
            lemma_one_group("camera"@);
        }
        Self::with_field_groups(&names)
    }

    /// A reader for video metadata.
    pub fn for_video_metadata() -> (r: FastExifReaderV2)
        ensures
            r@ == (Some((default_groups(), default_groups()["video"@])), true, true),
    {
        let names: [&str; 1] = ["video"];
        assert(str_views(names@) =~= seq!["video"@]);
        proof {
            lemma_one_group("video"@);
        }
        Self::with_field_groups(&names)
    }
}

impl Default for FastExifReaderV2 {
    fn default() -> (r: FastExifReaderV2)
        ensures
            r@ == (None::<ExtractorModel>, true, true),
    {
        Self::new()
    }
}

} // verus!

verus! {

/// With fields requested, reading a file gives only those fields, with the
/// values the underlying reading gave; an error of that reading is given
/// as it is.
pub proof fn law_read_keeps_requested(d: Seq<u8>, x: ExtractorModel, zero_copy: bool)
    requires
        x.1 != Set::<Seq<char>>::empty(),
    ensures
        v2_read(d, Some(x), zero_copy) matches Ok(m) ==> forall|k: Seq<char>| #[trigger] m.contains_key(k) ==> x.1.contains(k),
        v2_read(d, Some(x), zero_copy) matches Ok(m) ==> forall|k: Seq<char>|
            #[trigger] m.contains_key(k) ==> (v2_read(d, None, zero_copy) matches Ok(b) && b.contains_key(k) && m[k] == b[k]),
        v2_read(d, Some(x), zero_copy) is Err <==> v2_read(d, None, zero_copy) is Err,
{
}

} // verus!
