//! Selective field extraction: parse only the EXIF fields a caller needs.

use vstd::prelude::*;
use crate::metadata::{PieceModel, TagMap};
use crate::names::{name_set_of, names_distinct, names_of, GroupMap, NameSet};
use crate::text::{str_views, text};
use crate::utils::copy_value;

verus! {

/// The predefined field groups, by name.
pub open spec fn default_groups() -> Map<Seq<char>, Set<Seq<char>>> {
    map![
        "basic"@ => seq![
            "Make"@, "Model"@, "DateTime"@, "DateTimeOriginal"@, "DateTimeDigitized"@,
            "Software"@, "Artist"@, "Copyright"@,
        ].to_set(),
        "camera"@ => seq![
            "FocalLength"@, "FocalLength35efl"@, "FNumber"@, "ExposureTime"@,
            "ShutterSpeedValue"@, "ApertureValue"@, "ISO"@, "ExposureCompensation"@,
            "ExposureMode"@, "ExposureProgram"@, "MeteringMode"@, "Flash"@, "WhiteBalance"@,
            "ColorSpace"@,
        ].to_set(),
        "gps"@ => seq![
            "GPSLatitude"@, "GPSLongitude"@, "GPSAltitude"@, "GPSPosition"@, "GPSDateTime"@,
            "GPSProcessingMethod"@, "GPSImgDirection"@, "GPSImgDirectionRef"@, "GPSSpeed"@,
            "GPSSpeedRef"@,
        ].to_set(),
        "image"@ => seq![
            "ImageWidth"@, "ImageHeight"@, "Orientation"@, "XResolution"@, "YResolution"@,
            "ResolutionUnit"@, "YCbCrSubSampling"@, "YCbCrPositioning"@, "Compression"@,
            "PhotometricInterpretation"@,
        ].to_set(),
        "maker"@ => seq![
            "MakerNote"@, "MakerNoteType"@, "CanonFlashMode"@,
            "CanonFlashExposureCompensation"@, "CanonWhiteBalance"@, "CanonPictureStyle"@,
            "NikonFlashMode"@, "NikonWhiteBalance"@, "SonyFlashMode"@, "SonyWhiteBalance"@,
        ].to_set(),
        "video"@ => seq![
            "VideoCodec"@, "VideoFrameRate"@, "VideoDuration"@, "VideoBitrate"@,
            "AudioCodec"@, "AudioSampleRate"@, "AudioChannels"@,
        ].to_set(),
        "thumbnail"@ => seq![
            "Make"@, "Model"@, "DateTime"@, "ImageWidth"@, "ImageHeight"@, "Orientation"@,
        ].to_set(),
        "file"@ => seq![
            "Make"@, "Model"@, "DateTime"@, "DateTimeOriginal"@, "Software"@, "Artist"@,
            "Copyright"@, "GPSPosition"@,
        ].to_set()
    ]
}

/// The union of the named groups that exist in `groups`.
pub open spec fn groups_union(groups: Map<Seq<char>, Set<Seq<char>>>, names: Seq<Seq<char>>) -> Set<Seq<char>>
    decreases names.len(),
{
    if names.len() == 0 {
        Set::empty()
    } else {
        let rest = groups_union(groups, names.drop_last());
        if groups.contains_key(names.last()) {
            rest.union(groups[names.last()])
        } else {
            rest
        }
    }
}

/// Whether a field is extracted when `fields` were requested: every field
/// when none were.
pub open spec fn extracts(fields: Set<Seq<char>>, name: Seq<char>) -> bool {
    fields == Set::<Seq<char>>::empty() || fields.contains(name)
}

/// What filtering keeps of a tag map: everything when no field was
/// requested, else the requested fields that are present.
pub open spec fn filtered(fields: Set<Seq<char>>, m: Map<Seq<char>, Seq<PieceModel>>) -> Map<Seq<char>, Seq<PieceModel>> {
    if fields == Set::<Seq<char>>::empty() {
        m
    } else {
        m.restrict(fields)
    }
}

/// Chooses which EXIF fields to keep: named groups of fields, and the set of
/// fields requested (none means all).
pub struct SelectiveFieldExtractor {
    field_groups: GroupMap,
    custom_fields: NameSet,
}

impl View for SelectiveFieldExtractor {
    type V = (Map<Seq<char>, Set<Seq<char>>>, Set<Seq<char>>);

    closed spec fn view(&self) -> (Map<Seq<char>, Set<Seq<char>>>, Set<Seq<char>>) {
        (self.field_groups@, self.custom_fields@)
    }
}

impl SelectiveFieldExtractor {
    /// An extractor with the predefined groups that keeps every field.
    pub fn new() -> (r: SelectiveFieldExtractor)
        ensures
            r@.0 == default_groups(),
            r@.1 == Set::<Seq<char>>::empty(),
    {
        let mut extractor = SelectiveFieldExtractor { field_groups: GroupMap::new(), custom_fields: NameSet::new() };
        extractor.initialize_field_groups();
        assert(Map::<Seq<char>, Set<Seq<char>>>::empty().union_prefer_right(default_groups()) =~= default_groups());
        extractor
    }

    /// An extractor that keeps the fields of the named groups; names that
    /// are not groups add nothing.
    pub fn with_groups(groups: &[&str]) -> (r: SelectiveFieldExtractor)
        ensures
            r@.0 == default_groups(),
            r@.1 == groups_union(default_groups(), str_views(groups@)),
    {
        let mut extractor = Self::new();
        let mut i: usize = 0;
        while i < groups.len()
            invariant
                i <= groups@.len(),
                extractor@.0 == default_groups(),
                extractor@.1 == groups_union(default_groups(), str_views(groups@.subrange(0, i as int))),
            decreases groups.len() - i,
        {
            let ghost names = str_views(groups@.subrange(0, i + 1));
            assert(names.drop_last() =~= str_views(groups@.subrange(0, i as int)));
            assert(names.last() == groups@[i as int]@);
            let found = match extractor.field_groups.get(groups[i]) {
                Some(fields) => Some(fields.copy()),
                None => None,
            };
            if let Some(fields) = found {
                extractor.custom_fields.extend(&fields);
            }
            i = i + 1;
        }
        assert(groups@.subrange(0, groups@.len() as int) =~= groups@);
        extractor
    }

    /// An extractor that keeps the given fields.
    pub fn with_fields(fields: &[&str]) -> (r: SelectiveFieldExtractor)
        ensures
            r@.0 == default_groups(),
            r@.1 == str_views(fields@).to_set(),
    {
        let mut extractor = Self::new();
        let wanted = name_set_of(fields);
        extractor.custom_fields.extend(&wanted);
        assert(Set::<Seq<char>>::empty().union(wanted@) =~= wanted@);
        extractor
    }

    /// The tags of `metadata` that this extractor keeps.
    pub fn filter_metadata(&self, metadata: TagMap) -> (r: TagMap)
        ensures
            r@ == filtered(self@.1, metadata@),
    {
        if self.custom_fields.is_empty() {
            return metadata;
        }
        let fields = self.custom_fields.to_vec();
        let mut out = TagMap::new();
        let mut i: usize = 0;
        while i < fields.len()
            invariant
                i <= fields@.len(),
                names_of(fields@) == self@.1,
                out@ == metadata@.restrict(names_of(fields@.subrange(0, i as int))),
            decreases fields.len() - i,
        {
            let f = fields[i].as_str();
            proof {
                assert(names_of(fields@.subrange(0, i + 1)) =~= names_of(fields@.subrange(0, i as int)).insert(fields@[i as int]@)) by {
                    assert forall|k: Seq<char>| names_of(fields@.subrange(0, i + 1)).contains(k) == names_of(fields@.subrange(0, i as int)).insert(fields@[i as int]@).contains(k) by {
                        if names_of(fields@.subrange(0, i + 1)).contains(k) {
                            let j = choose|j: int| 0 <= j < i + 1 && #[trigger] fields@.subrange(0, i + 1)[j]@ == k;
                            if j < i {
                                assert(fields@.subrange(0, i as int)[j] == fields@[j]);
                            }
                        }
                        if names_of(fields@.subrange(0, i as int)).contains(k) {
                            let j = choose|j: int| 0 <= j < i && #[trigger] fields@.subrange(0, i as int)[j]@ == k;
                            assert(fields@.subrange(0, i + 1)[j] == fields@[j]);
                        }
                        if k == fields@[i as int]@ {
                            assert(fields@.subrange(0, i + 1)[i as int] == fields@[i as int]);
                        }
                    }
                }
            }
            match metadata.get(f) {
                Some(v) => {
                    let copy = copy_value(v);
                    out.insert(text(f), copy);
                },
                None => {},
            }
            assert(out@ =~= metadata@.restrict(names_of(fields@.subrange(0, i + 1))));
            i = i + 1;
        }
        assert(fields@.subrange(0, fields@.len() as int) =~= fields@);
        out
    }

    /// Whether `field_name` is kept.
    pub fn should_extract(&self, field_name: &str) -> (r: bool)
        ensures
            r == extracts(self@.1, field_name@),
    {
        self.custom_fields.is_empty() || self.custom_fields.contains(field_name)
    }

    /// The fields requested, each once, in no particular order.
    pub fn get_extraction_fields(&self) -> (r: Vec<String>)
        ensures
            names_of(r@) == self@.1,
            names_distinct(r@),
    {
        self.custom_fields.to_vec()
    }

    /// Requests `field_name` too.
    pub fn add_field(&mut self, field_name: &str)
        ensures
            final(self)@ == (old(self)@.0, old(self)@.1.insert(field_name@)),
    {
        self.custom_fields.insert(field_name);
    }

    /// Stops requesting `field_name`.
    pub fn remove_field(&mut self, field_name: &str)
        ensures
            final(self)@ == (old(self)@.0, old(self)@.1.remove(field_name@)),
    {
        self.custom_fields.remove(field_name);
    }

    /// Requests no field, so that every field is kept.
    pub fn clear_fields(&mut self)
        ensures
            final(self)@ == (old(self)@.0, Set::<Seq<char>>::empty()),
    {
        self.custom_fields.clear();
    }

    /// Stores the predefined groups.
    fn initialize_field_groups(&mut self)
        ensures
            final(self)@ == (old(self)@.0.union_prefer_right(default_groups()), old(self)@.1),
    {
        let ghost start = self@.0;
        let basic_fields: [&str; 8] = ["Make", "Model", "DateTime", "DateTimeOriginal", "DateTimeDigitized", "Software", "Artist", "Copyright"];
        assert(str_views(basic_fields@) =~= seq!["Make"@, "Model"@, "DateTime"@, "DateTimeOriginal"@, "DateTimeDigitized"@, "Software"@, "Artist"@, "Copyright"@]);
        self.field_groups.insert(text("basic"), name_set_of(&basic_fields));
        let camera_fields: [&str; 14] = ["FocalLength", "FocalLength35efl", "FNumber", "ExposureTime", "ShutterSpeedValue", "ApertureValue", "ISO", "ExposureCompensation", "ExposureMode", "ExposureProgram", "MeteringMode", "Flash", "WhiteBalance", "ColorSpace"];
        assert(str_views(camera_fields@) =~= seq!["FocalLength"@, "FocalLength35efl"@, "FNumber"@, "ExposureTime"@, "ShutterSpeedValue"@, "ApertureValue"@, "ISO"@, "ExposureCompensation"@, "ExposureMode"@, "ExposureProgram"@, "MeteringMode"@, "Flash"@, "WhiteBalance"@, "ColorSpace"@]);
        self.field_groups.insert(text("camera"), name_set_of(&camera_fields));
        let gps_fields: [&str; 10] = ["GPSLatitude", "GPSLongitude", "GPSAltitude", "GPSPosition", "GPSDateTime", "GPSProcessingMethod", "GPSImgDirection", "GPSImgDirectionRef", "GPSSpeed", "GPSSpeedRef"];
        assert(str_views(gps_fields@) =~= seq!["GPSLatitude"@, "GPSLongitude"@, "GPSAltitude"@, "GPSPosition"@, "GPSDateTime"@, "GPSProcessingMethod"@, "GPSImgDirection"@, "GPSImgDirectionRef"@, "GPSSpeed"@, "GPSSpeedRef"@]);
        self.field_groups.insert(text("gps"), name_set_of(&gps_fields));
        let image_fields: [&str; 10] = ["ImageWidth", "ImageHeight", "Orientation", "XResolution", "YResolution", "ResolutionUnit", "YCbCrSubSampling", "YCbCrPositioning", "Compression", "PhotometricInterpretation"];
        assert(str_views(image_fields@) =~= seq!["ImageWidth"@, "ImageHeight"@, "Orientation"@, "XResolution"@, "YResolution"@, "ResolutionUnit"@, "YCbCrSubSampling"@, "YCbCrPositioning"@, "Compression"@, "PhotometricInterpretation"@]);
        self.field_groups.insert(text("image"), name_set_of(&image_fields));
        let maker_fields: [&str; 10] = ["MakerNote", "MakerNoteType", "CanonFlashMode", "CanonFlashExposureCompensation", "CanonWhiteBalance", "CanonPictureStyle", "NikonFlashMode", "NikonWhiteBalance", "SonyFlashMode", "SonyWhiteBalance"];
        assert(str_views(maker_fields@) =~= seq!["MakerNote"@, "MakerNoteType"@, "CanonFlashMode"@, "CanonFlashExposureCompensation"@, "CanonWhiteBalance"@, "CanonPictureStyle"@, "NikonFlashMode"@, "NikonWhiteBalance"@, "SonyFlashMode"@, "SonyWhiteBalance"@]);
        self.field_groups.insert(text("maker"), name_set_of(&maker_fields));
        let video_fields: [&str; 7] = ["VideoCodec", "VideoFrameRate", "VideoDuration", "VideoBitrate", "AudioCodec", "AudioSampleRate", "AudioChannels"];
        assert(str_views(video_fields@) =~= seq!["VideoCodec"@, "VideoFrameRate"@, "VideoDuration"@, "VideoBitrate"@, "AudioCodec"@, "AudioSampleRate"@, "AudioChannels"@]);
        self.field_groups.insert(text("video"), name_set_of(&video_fields));
        let thumbnail_fields: [&str; 6] = ["Make", "Model", "DateTime", "ImageWidth", "ImageHeight", "Orientation"];
        assert(str_views(thumbnail_fields@) =~= seq!["Make"@, "Model"@, "DateTime"@, "ImageWidth"@, "ImageHeight"@, "Orientation"@]);
        self.field_groups.insert(text("thumbnail"), name_set_of(&thumbnail_fields));
        let file_fields: [&str; 8] = ["Make", "Model", "DateTime", "DateTimeOriginal", "Software", "Artist", "Copyright", "GPSPosition"];
        assert(str_views(file_fields@) =~= seq!["Make"@, "Model"@, "DateTime"@, "DateTimeOriginal"@, "Software"@, "Artist"@, "Copyright"@, "GPSPosition"@]);
        self.field_groups.insert(text("file"), name_set_of(&file_fields));
        proof {
            reveal_strlit("basic");
            reveal_strlit("camera");
            reveal_strlit("gps");
            reveal_strlit("image");
            reveal_strlit("maker");
            reveal_strlit("video");
            reveal_strlit("thumbnail");
            reveal_strlit("file");
        }
        assert(self@.0 =~= start.union_prefer_right(default_groups()));
    }

    /// The names of the groups, each once, in no particular order.
    pub fn get_available_groups(&self) -> (r: Vec<String>)
        ensures
            names_of(r@) == self@.0.dom(),
            names_distinct(r@),
    {
        self.field_groups.names()
    }

    /// The fields of the group `group_name`, each once, when it exists.
    pub fn get_group_fields(&self, group_name: &str) -> (r: Option<Vec<String>>)
        ensures
            r is Some <==> self@.0.contains_key(group_name@),
            r matches Some(v) ==> names_of(v@) == self@.0[group_name@] && names_distinct(v@),
    {
        match self.field_groups.get(group_name) {
            Some(fields) => Some(fields.to_vec()),
            None => None,
        }
    }

    /// Stores the group `group_name` with the given fields, replacing any
    /// group of that name.
    pub fn add_field_group(&mut self, group_name: &str, fields: Vec<&str>)
        ensures
            final(self)@ == (
                old(self)@.0.insert(group_name@, str_views(fields@).to_set()),
                old(self)@.1,
            ),
    {
        let set = name_set_of(fields.as_slice());
        self.field_groups.insert(text(group_name), set);
    }
}

impl Default for SelectiveFieldExtractor {
    fn default() -> (r: SelectiveFieldExtractor)
        ensures
            r@.0 == default_groups(),
            r@.1 == Set::<Seq<char>>::empty(),
    {
        Self::new()
    }
}

/// Extractors for common uses, each keeping one predefined group.
pub struct FieldExtractors;

impl FieldExtractors {
    /// The fields for thumbnail generation.
    pub fn thumbnail() -> (r: SelectiveFieldExtractor)
        ensures
            r@ == (default_groups(), default_groups()["thumbnail"@]),
    {
        let names: [&str; 1] = ["thumbnail"];
        assert(str_views(names@) =~= seq!["thumbnail"@]);
        let r = SelectiveFieldExtractor::with_groups(&names);
        proof { lemma_one_group("thumbnail"@); }
        r
    }

    /// The fields for file management.
    pub fn file_management() -> (r: SelectiveFieldExtractor)
        ensures
            r@ == (default_groups(), default_groups()["file"@]),
    {
        let names: [&str; 1] = ["file"];
        assert(str_views(names@) =~= seq!["file"@]);
        let r = SelectiveFieldExtractor::with_groups(&names);
        proof { lemma_one_group("file"@); }
        r
    }

    /// The camera settings.
    pub fn camera_settings() -> (r: SelectiveFieldExtractor)
        ensures
            r@ == (default_groups(), default_groups()["camera"@]),
    {
        let names: [&str; 1] = ["camera"];
        assert(str_views(names@) =~= seq!["camera"@]);
        let r = SelectiveFieldExtractor::with_groups(&names);
        proof { lemma_one_group("camera"@); }
        r
    }

    /// The GPS fields.
    pub fn gps_only() -> (r: SelectiveFieldExtractor)
        ensures
            r@ == (default_groups(), default_groups()["gps"@]),
    {
        let names: [&str; 1] = ["gps"];
        assert(str_views(names@) =~= seq!["gps"@]);
        let r = SelectiveFieldExtractor::with_groups(&names);
        proof { lemma_one_group("gps"@); }
        r
    }

    /// The basic camera information.
    pub fn basic_info() -> (r: SelectiveFieldExtractor)
        ensures
            r@ == (default_groups(), default_groups()["basic"@]),
    {
        let names: [&str; 1] = ["basic"];
        assert(str_views(names@) =~= seq!["basic"@]);
        let r = SelectiveFieldExtractor::with_groups(&names);
        proof { lemma_one_group("basic"@); }
        r
    }

    /// The video fields.
    pub fn video_metadata() -> (r: SelectiveFieldExtractor)
        ensures
            r@ == (default_groups(), default_groups()["video"@]),
    {
        let names: [&str; 1] = ["video"];
        assert(str_views(names@) =~= seq!["video"@]);
        let r = SelectiveFieldExtractor::with_groups(&names);
        proof { lemma_one_group("video"@); }
        r
    }

    /// The maker-note fields.
    pub fn maker_notes() -> (r: SelectiveFieldExtractor)
        ensures
            r@ == (default_groups(), default_groups()["maker"@]),
    {
        let names: [&str; 1] = ["maker"];
        assert(str_views(names@) =~= seq!["maker"@]);
        let r = SelectiveFieldExtractor::with_groups(&names);
        proof { lemma_one_group("maker"@); }
        r
    }

    /// The image properties.
    pub fn image_properties() -> (r: SelectiveFieldExtractor)
        ensures
            r@ == (default_groups(), default_groups()["image"@]),
    {
        let names: [&str; 1] = ["image"];
        assert(str_views(names@) =~= seq!["image"@]);
        let r = SelectiveFieldExtractor::with_groups(&names);
        proof { lemma_one_group("image"@); }
        r
    }
}

/// Asking for one group that exists gives exactly its fields.
pub proof fn lemma_one_group(name: Seq<char>)
    requires
        default_groups().contains_key(name),
    ensures
        groups_union(default_groups(), seq![name]) == default_groups()[name],
{
    reveal_with_fuel(groups_union, 2);
    assert(seq![name].drop_last() =~= Seq::<Seq<char>>::empty());
    assert(Set::<Seq<char>>::empty().union(default_groups()[name]) =~= default_groups()[name]);
}

/// A field that is asked for is extracted.
pub proof fn law_added_field_extracted(fields: Set<Seq<char>>, name: Seq<char>)
    ensures
        extracts(fields.insert(name), name),
{
}

/// A field taken back out is no longer extracted, unless no field is left
/// requested, when every field is.
pub proof fn law_removed_field_not_extracted(fields: Set<Seq<char>>, name: Seq<char>)
    ensures
        extracts(fields.remove(name), name) <==> fields.remove(name) == Set::<Seq<char>>::empty(),
{
}

/// With no field requested, every field is extracted and filtering keeps
/// the whole map; with some requested, filtering keeps exactly the
/// requested fields that are present, with their values.
pub proof fn law_filter_keeps_requested(fields: Set<Seq<char>>, m: Map<Seq<char>, Seq<PieceModel>>)
    ensures
        fields == Set::<Seq<char>>::empty() ==> filtered(fields, m) == m,
        fields != Set::<Seq<char>>::empty() ==> filtered(fields, m).dom() == m.dom().intersect(fields),
        forall|k: Seq<char>| #[trigger] filtered(fields, m).contains_key(k) ==> filtered(fields, m)[k] == m[k],
{
    if fields != Set::<Seq<char>>::empty() {
        assert(filtered(fields, m).dom() =~= m.dom().intersect(fields));
    }
}

} // verus!
