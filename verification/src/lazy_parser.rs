//! A reader that reads a file's EXIF segment only when a field is first
//! asked for, and keeps each field it has read.

use vstd::prelude::*;
use crate::adaptive_memory::{exif_signature, io_eof, locate_jpeg};
use crate::bytes::read_u16;
use crate::metadata::{txt, PieceModel, Real, RealStyle, TagMap, TagValue};
use crate::text::{dec_text, str_eq, str_views, sub_slice, text, u64_text, views};
use crate::tiff::{tiff_outcome, TiffParser};
use crate::types::{error_message, ExifError};

verus! {

type M = Map<Seq<char>, Seq<PieceModel>>;

/// The formats whose EXIF the reader finds.
#[derive(Clone, Copy, PartialEq, Eq, Debug)]
pub enum LazyFormat {
    Jpeg,
    Tiff,
    Heic,
    Mov,
}

/// Where the EXIF data of a file is: the offset, the size and the format.
pub open spec fn lazy_locate(d: Seq<u8>) -> Result<(int, int, LazyFormat), Seq<char>> {
    if d.len() < 32 {
        Err(io_eof())
    } else if d[0] == 0xFF && d[1] == 0xD8 {
        match locate_jpeg(d, 2) {
            Ok((o, s)) => Ok((o, s, LazyFormat::Jpeg)),
            Err(e) => Err(e),
        }
    } else if (d[0] == 0x49 && d[1] == 0x49) || (d[0] == 0x4D && d[1] == 0x4D) {
        Ok((0, if d.len() < 2097152 { d.len() as int } else { 2097152 }, LazyFormat::Tiff))
    } else {
        Err("Invalid EXIF data: "@ + "Unsupported file format"@)
    }
}

/// The tag number of the fields that can be asked for.
pub open spec fn lazy_field_tag(name: Seq<char>) -> Option<u16> {
    if name == "Make"@ {
        Some(0x010F)
    } else if name == "Model"@ {
        Some(0x0110)
    } else if name == "DateTime"@ {
        Some(0x0132)
    } else if name == "DateTimeOriginal"@ {
        Some(0x9003)
    } else if name == "DateTimeDigitized"@ {
        Some(0x9004)
    } else if name == "ExposureTime"@ {
        Some(0x829A)
    } else if name == "FNumber"@ {
        Some(0x829D)
    } else if name == "ISO"@ {
        Some(0x8827)
    } else if name == "FocalLength"@ {
        Some(0x920A)
    } else if name == "ImageWidth"@ {
        Some(0x0100)
    } else if name == "ImageHeight"@ {
        Some(0x0101)
    } else if name == "Orientation"@ {
        Some(0x0112)
    } else if name == "XResolution"@ {
        Some(0x011A)
    } else if name == "YResolution"@ {
        Some(0x011B)
    } else if name == "ResolutionUnit"@ {
        Some(0x0128)
    } else if name == "Software"@ {
        Some(0x0131)
    } else if name == "WhiteBalance"@ {
        Some(0xA403)
    } else if name == "Flash"@ {
        Some(0x9209)
    } else if name == "MeteringMode"@ {
        Some(0x9207)
    } else if name == "ExposureProgram"@ {
        Some(0x8822)
    } else if name == "ColorSpace"@ {
        Some(0xA001)
    } else if name == "ExifVersion"@ {
        Some(0x9000)
    } else if name == "FlashpixVersion"@ {
        Some(0xA000)
    } else {
        None
    }
}

/// What the reader holds, as plain values.
pub ghost struct LazyView {
    /// The fields read so far.
    pub cache: M,
    pub requested: Seq<Seq<char>>,
    pub parsed: Seq<Seq<char>>,
    /// The offset and size of the EXIF segment of the loaded file.
    pub segment: Option<(int, int)>,
    /// The EXIF data read from the file.
    pub data: Option<Seq<u8>>,
    /// The loaded file's contents.
    pub source: Seq<u8>,
    pub fields_requested: usize,
    pub fields_parsed: usize,
    pub cache_hits: usize,
    pub cache_misses: usize,
    pub total_bytes_read: usize,
    pub total_parsing_time: u64,
}

/// The reader with the file's EXIF data read, when it is not yet.
pub open spec fn load_data(v: LazyView) -> Result<LazyView, Seq<char>> {
    if v.data is Some {
        Ok(v)
    } else {
        match v.segment {
            None => Err("Invalid EXIF data: "@ + "EXIF segment info not available"@),
            Some((o, s)) => {
                let n = if s < 2097152 { s } else { 2097152 };
                if o + n > v.source.len() {
                    Err(io_eof())
                } else {
                    Ok(LazyView {
                        data: Some(v.source.subrange(o, o + n)),
                        total_bytes_read: (v.total_bytes_read + n) as usize,
                        ..v
                    })
                }
            },
        }
    }
}

/// Reading one field: nothing for a field read before; else the EXIF
/// data is read if needed, the field's value is kept when the EXIF has
/// it, and the field counts as read.
pub open spec fn field_step(v: LazyView, name: Seq<char>) -> (Result<(), Seq<char>>, LazyView) {
    if v.parsed.contains(name) {
        (Ok(()), v)
    } else {
        match load_data(v) {
            Err(e) => (Err(e), v),
            Ok(v1) => {
                let d = v1.data.unwrap();
                match lazy_field_tag(name) {
                    None => (Err("Invalid EXIF data: "@ + "Unknown field: "@ + name), v1),
                    Some(_) => {
                        let (err, m) = tiff_outcome(d, Map::empty());
                        match err {
                            Some(e) => (Err("Invalid EXIF data: "@ + e), v1),
                            None => {
                                let c = if m.contains_key(name) {
                                    v1.cache.insert(name, m[name])
                                } else {
                                    v1.cache
                                };
                                (
                                    Ok(()),
                                    LazyView {
                                        cache: c,
                                        parsed: v1.parsed.push(name),
                                        fields_parsed: (v1.fields_parsed + 1) as usize,
                                        ..v1
                                    },
                                )
                            },
                        }
                    },
                }
            },
        }
    }
}

/// Asking for one field: a kept value is a cache hit; else a miss, the
/// field joins the requested ones, is read, and its value is given when
/// the EXIF has it.
pub open spec fn get_step(v: LazyView, name: Seq<char>) -> (Result<Option<Seq<PieceModel>>, Seq<char>>, LazyView) {
    if v.cache.contains_key(name) {
        (Ok(Some(v.cache[name])), LazyView { cache_hits: (v.cache_hits + 1) as usize, ..v })
    } else {
        let v1 = LazyView {
            cache_misses: (v.cache_misses + 1) as usize,
            requested: if v.requested.contains(name) {
                v.requested
            } else {
                v.requested.push(name)
            },
            ..v
        };
        let (r, v2) = field_step(v1, name);
        match r {
            Err(e) => (Err(e), v2),
            Ok(()) => (Ok(if v2.cache.contains_key(name) {
                Some(v2.cache[name])
            } else {
                None
            }), v2),
        }
    }
}

/// Whether asking for a field cannot overflow a counter.
pub open spec fn get_ok(v: LazyView) -> bool {
    &&& v.cache_hits < usize::MAX
    &&& v.cache_misses < usize::MAX
    &&& v.fields_parsed < usize::MAX
    &&& v.total_bytes_read + 2097152 <= usize::MAX
}

/// Asking for the fields `names` in turn: the map of those with a value,
/// or the first error, and the reader after.
pub open spec fn fields_run(v: LazyView, names: Seq<Seq<char>>, acc: M) -> (Result<M, Seq<char>>, LazyView)
    decreases names.len(),
{
    if names.len() == 0 {
        (Ok(acc), v)
    } else {
        let (r, v1) = get_step(v, names[0]);
        match r {
            Err(e) => (Err(e), v1),
            Ok(Some(x)) => fields_run(v1, names.drop_first(), acc.insert(names[0], x)),
            Ok(None) => fields_run(v1, names.drop_first(), acc),
        }
    }
}

/// Whether asking for the fields `names` in turn cannot overflow a
/// counter.
pub open spec fn fields_ok(v: LazyView, names: Seq<Seq<char>>) -> bool
    decreases names.len(),
{
    names.len() == 0 || (get_ok(v) && fields_ok(get_step(v, names[0]).1, names.drop_first()))
}

/// The list with `name` added at the end, unless it is there.
pub open spec fn with_name(s: Seq<Seq<char>>, name: Seq<char>) -> Seq<Seq<char>> {
    if s.contains(name) {
        s
    } else {
        s.push(name)
    }
}

/// The list with each of `names` added in turn.
pub open spec fn with_names(s: Seq<Seq<char>>, names: Seq<Seq<char>>) -> Seq<Seq<char>>
    decreases names.len(),
{
    if names.len() == 0 {
        s
    } else {
        with_names(with_name(s, names[0]), names.drop_first())
    }
}

/// The parsed list with every requested field added.
pub open spec fn all_parsed(parsed: Seq<Seq<char>>, requested: Seq<Seq<char>>) -> Seq<Seq<char>> {
    with_names(parsed, requested)
}

/// Reading every field at once: the EXIF data read if needed, all its tags
/// kept, and every requested field counted as read.
pub open spec fn all_step(v: LazyView) -> (Result<M, Seq<char>>, LazyView) {
    match load_data(v) {
        Err(e) => (Err(e), v),
        Ok(v1) => {
            let (err, m) = tiff_outcome(v1.data.unwrap(), v1.cache);
            match err {
                Some(e) => (Err("Invalid EXIF data: "@ + e), LazyView { cache: m, ..v1 }),
                None => (
                    Ok(m),
                    LazyView {
                        cache: m,
                        parsed: all_parsed(v1.parsed, v1.requested),
                        fields_parsed: v1.requested.len() as usize,
                        ..v1
                    },
                ),
            }
        },
    }
}

/// Taking a file's contents: the fields and EXIF data of the previous file
/// forgotten, and where this file's EXIF segment is found.
pub open spec fn load_step(v: LazyView, d: Seq<u8>) -> (Result<(), Seq<char>>, LazyView) {
    let v0 = LazyView { cache: Map::empty(), parsed: Seq::empty(), segment: None, data: None, source: d, ..v };
    match lazy_locate(d) {
        Err(e) => (Err(e), v0),
        Ok((o, sz, _)) => (Ok(()), LazyView { segment: Some((o, sz)), ..v0 }),
    }
}

/// The maps of reading files one after another and asking each for
/// `names` (a file that fails gives an empty map), and the reader after.
pub open spec fn lazy_batch_run(files: Seq<Seq<u8>>, names: Seq<Seq<char>>, v: LazyView) -> (Seq<M>, LazyView)
    decreases files.len(),
{
    if files.len() == 0 {
        (Seq::empty(), v)
    } else {
        let (r, v1) = load_step(v, files[0]);
        let (m, v2) = match r {
            Err(_) => (Map::<Seq<char>, Seq<PieceModel>>::empty(), v1),
            Ok(()) => {
                let (fr, v2) = fields_run(v1, names, Map::empty());
                (
                    match fr {
                        Ok(m) => m,
                        Err(_) => Map::empty(),
                    },
                    v2,
                )
            },
        };
        let (rest, v3) = lazy_batch_run(files.drop_first(), names, v2);
        (seq![m] + rest, v3)
    }
}

/// Whether reading the files one after another cannot overflow a counter.
pub open spec fn lazy_batch_ok(files: Seq<Seq<u8>>, names: Seq<Seq<char>>, v: LazyView) -> bool
    decreases files.len(),
{
    files.len() == 0 || ({
        let (r, v1) = load_step(v, files[0]);
        match r {
            Err(_) => lazy_batch_ok(files.drop_first(), names, v1),
            Ok(()) => fields_ok(v1, names) && lazy_batch_ok(
                files.drop_first(),
                names,
                fields_run(v1, names, Map::empty()).1,
            ),
        }
    })
}

/// The hit rate in percent, shown with one decimal.
pub open spec fn hit_rate(hits: usize, misses: usize) -> Real {
    if hits + misses > 0 {
        Real { num: hits as i64, den: (hits + misses) as u64, style: RealStyle::Percent(1) }
    } else {
        Real { num: 0, den: 1, style: RealStyle::Percent(1) }
    }
}

/// Where the EXIF data of a file is.
struct ExifSegmentInfo {
    offset: usize,
    size: usize,
    format: LazyFormat,
}

/// Counters of the reader's work.
struct LazyParserStats {
    fields_requested: usize,
    fields_parsed: usize,
    cache_hits: usize,
    cache_misses: usize,
    total_bytes_read: usize,
    total_parsing_time: u64,
}

/// A reader that reads fields only when asked for.
pub struct LazyExifParser {
    read_buffer: Vec<u8>,
    metadata_cache: TagMap,
    requested_fields: Vec<String>,
    parsed_fields: Vec<String>,
    exif_segment_info: Option<ExifSegmentInfo>,
    exif_data_cache: Option<Vec<u8>>,
    source: Vec<u8>,
    stats: LazyParserStats,
}

impl View for LazyExifParser {
    type V = LazyView;

    closed spec fn view(&self) -> LazyView {
        LazyView {
            cache: self.metadata_cache@,
            requested: views(self.requested_fields@),
            parsed: views(self.parsed_fields@),
            segment: match self.exif_segment_info {
                Some(i) => Some((i.offset as int, i.size as int)),
                None => None,
            },
            data: match self.exif_data_cache {
                Some(d) => Some(d@),
                None => None,
            },
            source: self.source@,
            fields_requested: self.stats.fields_requested,
            fields_parsed: self.stats.fields_parsed,
            cache_hits: self.stats.cache_hits,
            cache_misses: self.stats.cache_misses,
            total_bytes_read: self.stats.total_bytes_read,
            total_parsing_time: self.stats.total_parsing_time,
        }
    }
}

/// A fresh reader's state, with `requested` asked for.
pub open spec fn fresh_view(requested: Seq<Seq<char>>) -> LazyView {
    LazyView {
        cache: Map::empty(),
        requested,
        parsed: Seq::empty(),
        segment: None,
        data: None,
        source: Seq::empty(),
        fields_requested: 0,
        fields_parsed: 0,
        cache_hits: 0,
        cache_misses: 0,
        total_bytes_read: 0,
        total_parsing_time: 0,
    }
}

/// Whether `name` is one of `list`.
fn list_contains(list: &Vec<String>, name: &str) -> (r: bool)
    ensures
        r == views(list@).contains(name@),
{
    let mut i: usize = 0;
    while i < list.len()
        invariant
            i <= list@.len(),
            forall|j: int| 0 <= j < i ==> (#[trigger] list@[j])@ != name@,
        decreases list.len() - i,
    {
        if str_eq(list[i].as_str(), name) {
            assert(views(list@)[i as int] == name@);
            return true;
        }
        i = i + 1;
    }
    proof {
        if views(list@).contains(name@) {
            let j = choose|j: int| 0 <= j < list@.len() && views(list@)[j] == name@;
            assert(list@[j]@ == name@);
        }
    }
    false
}

impl LazyExifParser {
    /// A reader with nothing asked for.
    pub fn new() -> (r: LazyExifParser)
        ensures
            r@ == fresh_view(Seq::empty()),
    {
        let r = Self::with_fields(Vec::new());
        assert(views(Seq::<String>::empty()) =~= Seq::<Seq<char>>::empty());
        r
    }

    /// A reader with `fields` asked for.
    pub fn with_fields(fields: Vec<String>) -> (r: LazyExifParser)
        ensures
            r@ == fresh_view(views(fields@)),
    {
        let r = LazyExifParser {
            read_buffer: Vec::with_capacity(65536),
            metadata_cache: TagMap::new(),
            requested_fields: fields,
            parsed_fields: Vec::new(),
            exif_segment_info: None,
            exif_data_cache: None,
            source: Vec::new(),
            stats: LazyParserStats {
                fields_requested: 0,
                fields_parsed: 0,
                cache_hits: 0,
                cache_misses: 0,
                total_bytes_read: 0,
                total_parsing_time: 0,
            },
        };
        assert(views(Seq::<String>::empty()) =~= Seq::<Seq<char>>::empty());
        assert(r@ =~= fresh_view(views(fields@)));
        r
    }

    /// Takes a file's contents: forgets the fields and EXIF data of the
    /// previous file, and finds where this file's EXIF segment is.
    pub fn load_file(&mut self, data: &[u8]) -> (r: Result<(), ExifError>)
        ensures
            final(self)@ == load_step(old(self)@, data@).1,
            r is Ok <==> load_step(old(self)@, data@).0 is Ok,
            r matches Err(e) ==> load_step(old(self)@, data@).0 == Err::<(), Seq<char>>(error_message(e)),
    {
        self.metadata_cache = TagMap::new();
        self.parsed_fields = Vec::new();
        self.exif_segment_info = None;
        self.exif_data_cache = None;
        self.source = vstd::slice::slice_to_vec(data);
        assert(views(Seq::<String>::empty()) =~= Seq::<Seq<char>>::empty());
        match self.locate_exif_segment(data) {
            Ok(info) => {
                self.exif_segment_info = Some(info);
                Ok(())
            },
            Err(e) => Err(e),
        }
    }

    /// Where the EXIF data of a file is, by its format.
    fn locate_exif_segment(&self, data: &[u8]) -> (r: Result<ExifSegmentInfo, ExifError>)
        ensures
            r matches Ok(info) ==> lazy_locate(data@) == Ok::<(int, int, LazyFormat), Seq<char>>(
                (info.offset as int, info.size as int, info.format),
            ),
            r matches Err(e) ==> lazy_locate(data@) == Err::<(int, int, LazyFormat), Seq<char>>(error_message(e)),
    {
        if data.len() < 32 {
            return Err(ExifError::IoError(text("failed to fill whole buffer")));
        }
        if data[0] == 0xFF && data[1] == 0xD8 {
            self.locate_jpeg_exif(data)
        } else if (data[0] == 0x49 && data[1] == 0x49) || (data[0] == 0x4D && data[1] == 0x4D) {
            let size = if data.len() < 2097152 { data.len() } else { 2097152 };
            Ok(ExifSegmentInfo { offset: 0, size, format: LazyFormat::Tiff })
        } else {
            Err(ExifError::invalid("Unsupported file format"))
        }
    }

    /// Walks the JPEG markers to the APP1 segment that holds EXIF.
    fn locate_jpeg_exif(&self, data: &[u8]) -> (r: Result<ExifSegmentInfo, ExifError>)
        ensures
            r matches Ok(info) ==> locate_jpeg(data@, 2) == Ok::<(int, int), Seq<char>>((info.offset as int, info.size as int))
                && info.format == LazyFormat::Jpeg,
            r matches Err(e) ==> locate_jpeg(data@, 2) == Err::<(int, int), Seq<char>>(error_message(e)),
    {
        let mut offset: usize = 2;
        while offset < 1048576
            invariant
                locate_jpeg(data@, offset as int) == locate_jpeg(data@, 2),
            decreases 1048576 - offset,
        {
            if offset > data.len() || data.len() - offset < 4 {
                return Err(ExifError::IoError(text("failed to fill whole buffer")));
            }
            if data[offset] != 0xFF {
                return Err(ExifError::invalid("Invalid JPEG marker"));
            }
            let marker = data[offset + 1];
            let segment_size = read_u16(data, offset + 2, false) as usize;
            if marker == 0xE1 {
                if data.len() - offset < 10 {
                    return Err(ExifError::IoError(text("failed to fill whole buffer")));
                }
                let sig: [u8; 6] = [0x45u8, 0x78u8, 0x69u8, 0x66u8, 0u8, 0u8];
                assert(sig@ =~= exif_signature());
                if crate::utils::bytes_equal(sub_slice(data, offset + 4, offset + 10), &sig) {
                    return Ok(
                        ExifSegmentInfo { offset: offset + 10, size: segment_size.wrapping_sub(6), format: LazyFormat::Jpeg },
                    );
                }
            }
            if offset + 2 + segment_size >= 1048576 {
                return Err(ExifError::invalid("EXIF segment not found"));
            }
            offset = offset + 2 + segment_size;
        }
        Err(ExifError::invalid("EXIF segment not found"))
    }

    /// Asks for one field: its kept value, else the value read from the
    /// EXIF data, if it has one.
    pub fn get_field(&mut self, field_name: &str) -> (r: Result<Option<TagValue>, ExifError>)
        requires
            get_ok(old(self)@),
        ensures
            final(self)@ == get_step(old(self)@, field_name@).1,
            r matches Ok(x) ==> get_step(old(self)@, field_name@).0 == Ok::<Option<Seq<PieceModel>>, Seq<char>>(
                match x {
                    Some(t) => Some(t@),
                    None => None,
                },
            ),
            r matches Err(e) ==> get_step(old(self)@, field_name@).0 == Err::<Option<Seq<PieceModel>>, Seq<char>>(
                error_message(e),
            ),
    {
        match self.metadata_cache.get(field_name) {
            Some(value) => {
                let copy = crate::utils::copy_value(value);
                self.stats.cache_hits = self.stats.cache_hits + 1;
                return Ok(Some(copy));
            },
            None => {},
        }
        self.stats.cache_misses = self.stats.cache_misses + 1;
        if !list_contains(&self.requested_fields, field_name) {
            self.requested_fields.push(text(field_name));
            assert(views(self.requested_fields@) =~= views(old(self).requested_fields@).push(field_name@));
        }
        match self.parse_field(field_name) {
            Ok(()) => {},
            Err(e) => {
                return Err(e);
            },
        }
        match self.metadata_cache.get(field_name) {
            Some(v) => Ok(Some(crate::utils::copy_value(v))),
            None => Ok(None),
        }
    }

    /// Asks for each of `field_names` in turn; the map holds those with a
    /// value. Fails at the first field that fails.
    pub fn get_fields(&mut self, field_names: &[&str]) -> (r: Result<TagMap, ExifError>)
        requires
            fields_ok(old(self)@, str_views(field_names@)),
        ensures
            final(self)@ == fields_run(old(self)@, str_views(field_names@), Map::empty()).1,
            r matches Ok(m) ==> fields_run(old(self)@, str_views(field_names@), Map::empty()).0 == Ok::<M, Seq<char>>(m@),
            r matches Err(e) ==> fields_run(old(self)@, str_views(field_names@), Map::empty()).0 == Err::<M, Seq<char>>(
                error_message(e),
            ),
    {
        let ghost names = str_views(field_names@);
        let ghost v0 = self@;
        let mut result = TagMap::new();
        let mut i: usize = 0;
        assert(names.subrange(0, names.len() as int) =~= names);
        while i < field_names.len()
            invariant
                i <= field_names@.len(),
                names == str_views(field_names@),
                fields_run(v0, names, Map::empty()) == fields_run(self@, names.subrange(i as int, names.len() as int), result@),
                fields_ok(self@, names.subrange(i as int, names.len() as int)),
            decreases field_names.len() - i,
        {
            let name = field_names[i];
            let ghost rest = names.subrange(i as int, names.len() as int);
            proof {
                assert(rest[0] == name@);
                assert(rest.drop_first() =~= names.subrange(i + 1, names.len() as int));
            }
            match self.get_field(name) {
                Ok(Some(value)) => {
                    result.insert(text(name), value);
                },
                Ok(None) => {},
                Err(e) => {
                    return Err(e);
                },
            }
            i = i + 1;
        }
        proof {
            assert(names.subrange(names.len() as int, names.len() as int) =~= Seq::<Seq<char>>::empty());
        }
        Ok(result)
    }

    /// Reads every field of the EXIF data and gives all kept fields.
    pub fn get_all_fields(&mut self) -> (r: Result<TagMap, ExifError>)
        requires
            old(self)@.total_bytes_read + 2097152 <= usize::MAX,
        ensures
            final(self)@ == all_step(old(self)@).1,
            r matches Ok(m) ==> all_step(old(self)@).0 == Ok::<M, Seq<char>>(m@),
            r matches Err(e) ==> all_step(old(self)@).0 == Err::<M, Seq<char>>(error_message(e)),
    {
        match self.parse_all_fields() {
            Ok(()) => Ok(self.metadata_cache.duplicate()),
            Err(e) => Err(e),
        }
    }

    /// Adds a field to the requested ones, unless it is there.
    pub fn request_field(&mut self, field_name: &str)
        ensures
            final(self)@ == (LazyView { requested: with_name(old(self)@.requested, field_name@), ..old(self)@ }),
    {
        if !list_contains(&self.requested_fields, field_name) {
            self.requested_fields.push(text(field_name));
            assert(views(self.requested_fields@) =~= views(old(self).requested_fields@).push(field_name@));
        }
    }

    /// Adds each of `field_names` to the requested ones, unless it is there.
    pub fn request_fields(&mut self, field_names: &[&str])
        ensures
            final(self)@ == (LazyView {
                requested: with_names(old(self)@.requested, str_views(field_names@)),
                ..old(self)@
            }),
    {
        let ghost names = str_views(field_names@);
        let mut i: usize = 0;
        assert(names.subrange(0, names.len() as int) =~= names);
        while i < field_names.len()
            invariant
                i <= field_names@.len(),
                names == str_views(field_names@),
                with_names(old(self)@.requested, names) == with_names(self@.requested, names.subrange(i as int, names.len() as int)),
                self@ == (LazyView { requested: self@.requested, ..old(self)@ }),
            decreases field_names.len() - i,
        {
            proof {
                let rest = names.subrange(i as int, names.len() as int);
                assert(rest[0] == field_names@[i as int]@);
                assert(rest.drop_first() =~= names.subrange(i + 1, names.len() as int));
            }
            self.request_field(field_names[i]);
            i = i + 1;
        }
        proof {
            assert(names.subrange(names.len() as int, names.len() as int) =~= Seq::<Seq<char>>::empty());
        }
    }

    /// Reads one field, unless it was read before.
    fn parse_field(&mut self, field_name: &str) -> (r: Result<(), ExifError>)
        requires
            old(self)@.fields_parsed < usize::MAX,
            old(self)@.total_bytes_read + 2097152 <= usize::MAX,
        ensures
            final(self)@ == field_step(old(self)@, field_name@).1,
            r matches Ok(()) ==> field_step(old(self)@, field_name@).0 == Ok::<(), Seq<char>>(()),
            r matches Err(e) ==> field_step(old(self)@, field_name@).0 == Err::<(), Seq<char>>(error_message(e)),
    {
        if list_contains(&self.parsed_fields, field_name) {
            return Ok(());
        }
        if self.exif_data_cache.is_none() {
            match self.load_exif_data() {
                Ok(()) => {},
                Err(e) => {
                    return Err(e);
                },
            }
        }
        let exif = match &self.exif_data_cache {
            Some(d) => d.clone(),
            None => Vec::new(),
        };
        match self.parse_specific_field(exif.as_slice(), field_name) {
            Ok(()) => {},
            Err(e) => {
                return Err(e);
            },
        }
        self.parsed_fields.push(text(field_name));
        assert(views(self.parsed_fields@) =~= views(old(self).parsed_fields@).push(field_name@));
        self.stats.fields_parsed = self.stats.fields_parsed + 1;
        Ok(())
    }

    /// Reads every tag of the EXIF data into the kept fields, and counts
    /// every requested field as read.
    fn parse_all_fields(&mut self) -> (r: Result<(), ExifError>)
        requires
            old(self)@.total_bytes_read + 2097152 <= usize::MAX,
        ensures
            final(self)@ == all_step(old(self)@).1,
            r matches Ok(()) ==> all_step(old(self)@).0 == Ok::<M, Seq<char>>(final(self)@.cache),
            r matches Err(e) ==> all_step(old(self)@).0 == Err::<M, Seq<char>>(error_message(e)),
    {
        if self.exif_data_cache.is_none() {
            match self.load_exif_data() {
                Ok(()) => {},
                Err(e) => {
                    return Err(e);
                },
            }
        }
        let exif = match &self.exif_data_cache {
            Some(d) => d.clone(),
            None => Vec::new(),
        };
        match TiffParser::parse_tiff_exif(exif.as_slice(), &mut self.metadata_cache) {
            Ok(()) => {},
            Err(e) => {
                return Err(e);
            },
        }
        let ghost p0 = views(self.parsed_fields@);
        let ghost req = views(self.requested_fields@);
        let ghost after_tiff = self@;
        let mut i: usize = 0;
        assert(req.subrange(0, req.len() as int) =~= req);
        while i < self.requested_fields.len()
            invariant
                i <= self.requested_fields@.len(),
                req == views(self.requested_fields@),
                with_names(p0, req) == with_names(views(self.parsed_fields@), req.subrange(i as int, req.len() as int)),
                self@ == (LazyView { parsed: views(self.parsed_fields@), ..after_tiff }),
            decreases self.requested_fields.len() - i,
        {
            let field = self.requested_fields[i].clone();
            proof {
                let rest = req.subrange(i as int, req.len() as int);
                assert(rest[0] == field@);
                assert(rest.drop_first() =~= req.subrange(i + 1, req.len() as int));
            }
            if !list_contains(&self.parsed_fields, field.as_str()) {
                let ghost before = views(self.parsed_fields@);
                self.parsed_fields.push(field);
                assert(views(self.parsed_fields@) =~= before.push(req[i as int]));
            }
            i = i + 1;
        }
        proof {
            assert(req.subrange(req.len() as int, req.len() as int) =~= Seq::<Seq<char>>::empty());
        }
        self.stats.fields_parsed = self.requested_fields.len();
        Ok(())
    }

    /// Reads the EXIF segment of the loaded file, at most two megabytes.
    fn load_exif_data(&mut self) -> (r: Result<(), ExifError>)
        requires
            old(self)@.data is None,
            old(self)@.total_bytes_read + 2097152 <= usize::MAX,
        ensures
            r matches Ok(()) ==> load_data(old(self)@) == Ok::<LazyView, Seq<char>>(final(self)@),
            r matches Err(e) ==> load_data(old(self)@) == Err::<LazyView, Seq<char>>(error_message(e)) && final(self)@
                == old(self)@,
    {
        let (offset, size) = match &self.exif_segment_info {
            Some(info) => (info.offset, info.size),
            None => {
                return Err(ExifError::invalid("EXIF segment info not available"));
            },
        };
        let n = if size < 2097152 { size } else { 2097152 };
        if offset > self.source.len() || self.source.len() - offset < n {
            return Err(ExifError::IoError(text("failed to fill whole buffer")));
        }
        self.read_buffer = vstd::slice::slice_to_vec(sub_slice(self.source.as_slice(), offset, offset + n));
        self.exif_data_cache = Some(self.read_buffer.clone());
        self.stats.total_bytes_read = self.stats.total_bytes_read + n;
        Ok(())
    }

    /// Reads a field of the EXIF data by its tag number.
    fn parse_specific_field(&mut self, exif_data: &[u8], field_name: &str) -> (r: Result<(), ExifError>)
        ensures
            lazy_field_tag(field_name@) is None ==> (r matches Err(e) && error_message(e) == "Invalid EXIF data: "@
                + "Unknown field: "@ + field_name@ && final(self)@ == old(self)@),
            lazy_field_tag(field_name@) is Some ==> ({
                let (err, m) = tiff_outcome(exif_data@, Map::empty());
                match err {
                    Some(e) => r matches Err(x) && error_message(x) == "Invalid EXIF data: "@ + e && final(self)@
                        == old(self)@,
                    None => r is Ok && final(self)@ == (LazyView {
                        cache: if m.contains_key(field_name@) {
                            old(self)@.cache.insert(field_name@, m[field_name@])
                        } else {
                            old(self)@.cache
                        },
                        ..old(self)@
                    }),
                }
            }),
    {
        let tag_id = match self.field_name_to_tag_id(field_name) {
            Ok(t) => t,
            Err(e) => {
                return Err(e);
            },
        };
        self.parse_tag_from_exif(exif_data, tag_id, field_name)
    }

    /// The tag number of a field that can be asked for.
    pub fn field_name_to_tag_id(&self, field_name: &str) -> (r: Result<u16, ExifError>)
        ensures
            r matches Ok(t) ==> lazy_field_tag(field_name@) == Some(t),
            r matches Err(e) ==> lazy_field_tag(field_name@) is None && error_message(e) == "Invalid EXIF data: "@
                + "Unknown field: "@ + field_name@,
    {
        let t: u16 = if str_eq(field_name, "Make") {
            0x010F
        } else if str_eq(field_name, "Model") {
            0x0110
        } else if str_eq(field_name, "DateTime") {
            0x0132
        } else if str_eq(field_name, "DateTimeOriginal") {
            0x9003
        } else if str_eq(field_name, "DateTimeDigitized") {
            0x9004
        } else if str_eq(field_name, "ExposureTime") {
            0x829A
        } else if str_eq(field_name, "FNumber") {
            0x829D
        } else if str_eq(field_name, "ISO") {
            0x8827
        } else if str_eq(field_name, "FocalLength") {
            0x920A
        } else if str_eq(field_name, "ImageWidth") {
            0x0100
        } else if str_eq(field_name, "ImageHeight") {
            0x0101
        } else if str_eq(field_name, "Orientation") {
            0x0112
        } else if str_eq(field_name, "XResolution") {
            0x011A
        } else if str_eq(field_name, "YResolution") {
            0x011B
        } else if str_eq(field_name, "ResolutionUnit") {
            0x0128
        } else if str_eq(field_name, "Software") {
            0x0131
        } else if str_eq(field_name, "WhiteBalance") {
            0xA403
        } else if str_eq(field_name, "Flash") {
            0x9209
        } else if str_eq(field_name, "MeteringMode") {
            0x9207
        } else if str_eq(field_name, "ExposureProgram") {
            0x8822
        } else if str_eq(field_name, "ColorSpace") {
            0xA001
        } else if str_eq(field_name, "ExifVersion") {
            0x9000
        } else if str_eq(field_name, "FlashpixVersion") {
            0xA000
        } else {
            let mut msg = text("Unknown field: ");
            crate::text::append_str(&mut msg, field_name);
            return Err(ExifError::InvalidExif(msg));
        };
        Ok(t)
    }

    /// Reads the EXIF data's tags and keeps the one asked for.
    fn parse_tag_from_exif(&mut self, exif_data: &[u8], _tag_id: u16, field_name: &str) -> (r: Result<(), ExifError>)
        ensures
            ({
                let (err, m) = tiff_outcome(exif_data@, Map::empty());
                match err {
                    Some(e) => r matches Err(x) && error_message(x) == "Invalid EXIF data: "@ + e && final(self)@
                        == old(self)@,
                    None => r is Ok && final(self)@ == (LazyView {
                        cache: if m.contains_key(field_name@) {
                            old(self)@.cache.insert(field_name@, m[field_name@])
                        } else {
                            old(self)@.cache
                        },
                        ..old(self)@
                    }),
                }
            }),
    {
        let mut temp = TagMap::new();
        match TiffParser::parse_tiff_exif(exif_data, &mut temp) {
            Ok(()) => {},
            Err(e) => {
                return Err(e);
            },
        }
        match temp.get(field_name) {
            Some(v) => {
                let copy = crate::utils::copy_value(v);
                self.metadata_cache.insert(text(field_name), copy);
            },
            None => {},
        }
        Ok(())
    }

    /// The counters by name, with the hit rate and the average time per
    /// field read.
    pub fn get_stats(&self) -> (r: TagMap)
        requires
            self@.cache_hits + self@.cache_misses <= usize::MAX,
            self@.cache_hits <= i64::MAX,
        ensures
            r@ == lazy_stats(self@),
    {
        let mut stats = TagMap::new();
        stats.insert_str("parser_type", "LazyExif");
        stats.insert_text("fields_requested", u64_text(self.stats.fields_requested as u64));
        stats.insert_text("fields_parsed", u64_text(self.stats.fields_parsed as u64));
        stats.insert_text("cache_hits", u64_text(self.stats.cache_hits as u64));
        stats.insert_text("cache_misses", u64_text(self.stats.cache_misses as u64));
        stats.insert_text("total_bytes_read", u64_text(self.stats.total_bytes_read as u64));
        stats.insert_text("total_parsing_time_us", u64_text(self.stats.total_parsing_time));
        let looked = self.stats.cache_hits + self.stats.cache_misses;
        let rate = if looked > 0 {
            Real { num: self.stats.cache_hits as i64, den: looked as u64, style: RealStyle::Percent(1) }
        } else {
            Real { num: 0, den: 1, style: RealStyle::Percent(1) }
        };
        stats.insert_number("cache_hit_rate_percent", rate);
        let avg: u64 = if self.stats.fields_parsed > 0 {
            self.stats.total_parsing_time / (self.stats.fields_parsed as u64)
        } else {
            0
        };
        stats.insert_text("avg_parse_time_us", u64_text(avg));
        stats
    }

    /// Forgets the kept fields, the EXIF data and the counters.
    pub fn clear_cache(&mut self)
        ensures
            final(self)@ == (LazyView {
                cache: Map::empty(),
                parsed: Seq::empty(),
                data: None,
                fields_requested: 0,
                fields_parsed: 0,
                cache_hits: 0,
                cache_misses: 0,
                total_bytes_read: 0,
                total_parsing_time: 0,
                ..old(self)@
            }),
    {
        self.metadata_cache = TagMap::new();
        self.parsed_fields = Vec::new();
        self.exif_data_cache = None;
        self.stats = LazyParserStats {
            fields_requested: 0,
            fields_parsed: 0,
            cache_hits: 0,
            cache_misses: 0,
            total_bytes_read: 0,
            total_parsing_time: 0,
        };
        assert(views(Seq::<String>::empty()) =~= Seq::<Seq<char>>::empty());
    }

    /// Adds the time spent, in microseconds.
    pub fn record_parsing_time(&mut self, micros: u64)
        requires
            old(self)@.total_parsing_time + micros <= u64::MAX,
        ensures
            final(self)@ == (LazyView {
                total_parsing_time: (old(self)@.total_parsing_time + micros) as u64,
                ..old(self)@
            }),
    {
        self.stats.total_parsing_time = self.stats.total_parsing_time + micros;
    }

    /// The requested fields.
    pub fn get_requested_fields(&self) -> (r: &[String])
        ensures
            views(r@) == self@.requested,
    {
        self.requested_fields.as_slice()
    }

    /// The fields read so far.
    pub fn get_parsed_fields(&self) -> (r: &[String])
        ensures
            views(r@) == self@.parsed,
    {
        self.parsed_fields.as_slice()
    }

    /// The kept fields.
    pub fn cached_fields(&self) -> (r: &TagMap)
        ensures
            r@ == self@.cache,
    {
        &self.metadata_cache
    }
}

/// The statistics map of a lazy reader.
pub open spec fn lazy_stats(v: LazyView) -> M {
    let avg: nat = if v.fields_parsed > 0 { ((v.total_parsing_time as int) / (v.fields_parsed as int)) as nat } else { 0 };
    Map::<Seq<char>, Seq<PieceModel>>::empty()
        .insert("parser_type"@, txt("LazyExif"@))
        .insert("fields_requested"@, txt(dec_text(v.fields_requested as nat)))
        .insert("fields_parsed"@, txt(dec_text(v.fields_parsed as nat)))
        .insert("cache_hits"@, txt(dec_text(v.cache_hits as nat)))
        .insert("cache_misses"@, txt(dec_text(v.cache_misses as nat)))
        .insert("total_bytes_read"@, txt(dec_text(v.total_bytes_read as nat)))
        .insert("total_parsing_time_us"@, txt(dec_text(v.total_parsing_time as nat)))
        .insert("cache_hit_rate_percent"@, crate::metadata::num(hit_rate(v.cache_hits, v.cache_misses)))
        .insert("avg_parse_time_us"@, txt(dec_text(avg)))
}

impl Default for LazyExifParser {
    fn default() -> (r: LazyExifParser)
        ensures
            r@ == fresh_view(Seq::empty()),
    {
        LazyExifParser::new()
    }
}

/// A batch reader around one lazy reader.
pub struct LazyExifBatchProcessor {
    parser: LazyExifParser,
    batch_size: usize,
}

impl LazyExifBatchProcessor {
    /// The reader's state.
    pub closed spec fn parser_view(&self) -> LazyView {
        self.parser@
    }

    /// How many files make a batch.
    pub closed spec fn size(&self) -> usize {
        self.batch_size
    }

    /// A batch reader with a fresh lazy reader.
    pub fn new(batch_size: usize) -> (r: LazyExifBatchProcessor)
        ensures
            r.parser_view() == fresh_view(Seq::empty()),
            r.size() == batch_size,
    {
        LazyExifBatchProcessor { parser: LazyExifParser::new(), batch_size }
    }

    /// Reads the files one after another and asks each for
    /// `target_fields`; a file that fails gives an empty map.
    pub fn process_files(&mut self, files: &[Vec<u8>], target_fields: &[&str]) -> (r: Result<Vec<TagMap>, ExifError>)
        requires
            lazy_batch_ok(files@.map_values(|f: Vec<u8>| f@), str_views(target_fields@), old(self).parser_view()),
        ensures
            r matches Ok(v) && v@.len() == files@.len() && forall|i: int|
                0 <= i < files@.len() ==> (#[trigger] v@[i])@ == lazy_batch_run(
                    files@.map_values(|f: Vec<u8>| f@),
                    str_views(target_fields@),
                    old(self).parser_view(),
                ).0[i],
            final(self).parser_view() == lazy_batch_run(
                files@.map_values(|f: Vec<u8>| f@),
                str_views(target_fields@),
                old(self).parser_view(),
            ).1,
            final(self).size() == old(self).size(),
    {
        let ghost all = files@.map_values(|f: Vec<u8>| f@);
        let ghost names = str_views(target_fields@);
        let ghost v0 = self.parser@;
        let mut results: Vec<TagMap> = Vec::new();
        let mut i: usize = 0;
        proof {
            assert(all.subrange(0, all.len() as int) =~= all);
            let (rest, v2) = lazy_batch_run(all, names, v0);
            assert(results@.map_values(|m: TagMap| m@) + rest =~= rest);
        }
        while i < files.len()
            invariant
                i <= files@.len(),
                all == files@.map_values(|f: Vec<u8>| f@),
                names == str_views(target_fields@),
                results@.len() == i,
                self.batch_size == old(self).batch_size,
                lazy_batch_run(all, names, v0) == ({
                    let (rest, v2) = lazy_batch_run(all.subrange(i as int, all.len() as int), names, self.parser@);
                    (results@.map_values(|m: TagMap| m@) + rest, v2)
                }),
                lazy_batch_ok(all.subrange(i as int, all.len() as int), names, self.parser@),
            decreases files.len() - i,
        {
            let ghost tail = all.subrange(i as int, all.len() as int);
            let ghost before = results@.map_values(|m: TagMap| m@);
            let ghost pv = self.parser@;
            proof {
                assert(tail[0] == files@[i as int]@);
                assert(tail.drop_first() =~= all.subrange(i + 1, all.len() as int));
            }
            let m = match self.parser.load_file(files[i].as_slice()) {
                Ok(()) => match self.parser.get_fields(target_fields) {
                    Ok(m) => m,
                    Err(_) => TagMap::new(),
                },
                Err(_) => TagMap::new(),
            };
            results.push(m);
            proof {
                let (r, v1) = load_step(pv, tail[0]);
                let (x, v2) = match r {
                    Err(_) => (Map::<Seq<char>, Seq<PieceModel>>::empty(), v1),
                    Ok(()) => {
                        let (fr, v2) = fields_run(v1, names, Map::empty());
                        (
                            match fr {
                                Ok(m) => m,
                                Err(_) => Map::<Seq<char>, Seq<PieceModel>>::empty(),
                            },
                            v2,
                        )
                    },
                };
                assert(m@ == x);
                assert(self.parser@ == v2);
                assert(results@.map_values(|m: TagMap| m@) =~= before.push(x));
                let (rest1, v31) = lazy_batch_run(tail.drop_first(), names, v2);
                assert(lazy_batch_run(tail, names, pv) == (seq![x] + rest1, v31));
                assert(before.push(x) + rest1 =~= before + (seq![x] + rest1));
            }
            i = i + 1;
        }
        proof {
            assert(all.subrange(files@.len() as int, all.len() as int) =~= Seq::<Seq<u8>>::empty());
            assert(results@.map_values(|m: TagMap| m@) + Seq::<M>::empty() =~= results@.map_values(|m: TagMap| m@));
        }
        Ok(results)
    }

    /// The reader's statistics.
    pub fn get_stats(&self) -> (r: TagMap)
        requires
            self.parser_view().cache_hits + self.parser_view().cache_misses <= usize::MAX,
            self.parser_view().cache_hits <= i64::MAX,
        ensures
            r@ == lazy_stats(self.parser_view()),
    {
        self.parser.get_stats()
    }
}

impl Default for LazyExifBatchProcessor {
    fn default() -> (r: LazyExifBatchProcessor)
        ensures
            r.parser_view() == fresh_view(Seq::empty()),
            r.size() == 100,
    {
        LazyExifBatchProcessor::new(100)
    }
}

} // verus!

verus! {

/// A field that was asked for and found is kept: asking for it again is a
/// cache hit that gives the same value and changes nothing else.
pub proof fn law_second_ask_hits(v: LazyView, name: Seq<char>)
    requires
        get_step(v, name).0 matches Ok(Some(_)),
    ensures
        ({
            let (r1, v1) = get_step(v, name);
            get_step(v1, name) == (r1, LazyView { cache_hits: (v1.cache_hits + 1) as usize, ..v1 })
        }),
{
}

} // verus!
