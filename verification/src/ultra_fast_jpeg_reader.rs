//! A front end to the ultra-fast JPEG reader: one file's contents, a batch
//! of files, and the counts and profile of a run.

use vstd::prelude::*;
use crate::metadata::{num, txt, PieceModel, Real, RealStyle, TagMap, TagValue};
use crate::text::{dec_text, text, u64_text};
use crate::types::{error_message, ExifError};
use crate::ultra_fast_jpeg::{
    batch_one, batch_readable, fresh_view, outcome_result, table_e1, ultra_readable, ultra_stats, ultra_walk,
    UltraFastBatchProcessor, UltraFastJpegParser, UltraFastView,
};

verus! {

type M = Map<Seq<char>, Seq<PieceModel>>;

/// A front end holding an ultra-fast reader and a batch reader.
pub struct UltraFastJpegReader {
    parser: UltraFastJpegParser,
    batch_processor: UltraFastBatchProcessor,
}

/// The reader's table entry after reading `d` with the entry `prev`.
pub open spec fn after_read(prev: Option<usize>, d: Seq<u8>) -> Option<usize> {
    table_e1(prev, ultra_walk(d, 0))
}

impl UltraFastJpegReader {
    /// The APP1 entry of the reader's marker table.
    pub closed spec fn e1(&self) -> Option<usize> {
        self.parser@.e1
    }

    /// The reader's state.
    pub closed spec fn parser_view(&self) -> UltraFastView {
        self.parser@
    }

    /// How many files make a batch.
    pub closed spec fn batch_size(&self) -> usize {
        self.batch_processor.size()
    }

    /// Whether the batch reader seeks.
    pub closed spec fn batch_seeks(&self) -> bool {
        self.batch_processor.seeks()
    }

    /// A front end with a fresh reader and a batch reader of 100 files that
    /// reads files whole.
    pub fn new() -> (r: UltraFastJpegReader)
        ensures
            r.parser_view() == fresh_view(false, Seq::empty()),
            !r.batch_seeks(),
            r.batch_size() == 100,
    {
        UltraFastJpegReader { parser: UltraFastJpegParser::new(), batch_processor: UltraFastBatchProcessor::new(100) }
    }

    /// Whether the front end can read `data` as its reader stands.
    pub fn can_read(&self, data: &[u8]) -> (r: bool)
        ensures
            r == ultra_readable(data@, self.e1()),
    {
        self.parser.can_read(data)
    }

    /// Reads a JPEG file's contents with the ultra-fast reader.
    pub fn read_bytes(&mut self, data: &[u8]) -> (r: Result<TagMap, ExifError>)
        requires
            ultra_readable(data@, old(self).e1()),
        ensures
            r matches Ok(m) ==> outcome_result(data@, old(self).e1()) == Ok::<M, Seq<char>>(m@),
            r matches Err(e) ==> outcome_result(data@, old(self).e1()) == Err::<M, Seq<char>>(error_message(e)),
            final(self).e1() == after_read(old(self).e1(), data@),
            final(self).batch_seeks() == old(self).batch_seeks(),
    {
        self.read_jpeg_exif_from_bytes(data)
    }

    fn read_jpeg_exif_from_bytes(&mut self, data: &[u8]) -> (r: Result<TagMap, ExifError>)
        requires
            ultra_readable(data@, old(self).e1()),
        ensures
            r matches Ok(m) ==> outcome_result(data@, old(self).e1()) == Ok::<M, Seq<char>>(m@),
            r matches Err(e) ==> outcome_result(data@, old(self).e1()) == Err::<M, Seq<char>>(error_message(e)),
            final(self).e1() == after_read(old(self).e1(), data@),
            final(self).batch_seeks() == old(self).batch_seeks(),
    {
        let mut metadata = TagMap::new();
        match self.parser.parse_jpeg_exif_ultra_fast(data, &mut metadata) {
            Ok(()) => Ok(metadata),
            Err(e) => Err(e),
        }
    }

    /// Reads a batch of files' contents with the batch reader.
    pub fn read_files_batch(&mut self, files: Vec<Vec<u8>>) -> (r: Result<Vec<TagMap>, ExifError>)
        requires
            forall|i: int| 0 <= i < files@.len() ==> batch_readable(old(self).batch_seeks(), #[trigger] files@[i]@),
        ensures
            r matches Ok(v) ==> v@.len() == files@.len() && forall|i: int|
                0 <= i < files@.len() ==> batch_one(old(self).batch_seeks(), Seq::empty(), #[trigger] files@[i]@)
                    == Ok::<M, Seq<char>>(v@[i]@),
            r is Ok <==> forall|i: int| 0 <= i < files@.len() ==> #[trigger] batch_one(old(self).batch_seeks(), Seq::empty(), files@[i]@) is Ok,
            r matches Err(e) ==> exists|i: int| 0 <= i < files@.len() && #[trigger] batch_one(old(self).batch_seeks(), Seq::empty(), files@[i]@)
                == Err::<M, Seq<char>>(error_message(e)),
            final(self).e1() == old(self).e1(),
            final(self).batch_seeks() == old(self).batch_seeks(),
    {
        self.batch_processor.process_jpeg_files_ultra_fast(files.as_slice())
    }

    /// The reader's marker and buffer statistics.
    pub fn get_stats(&self) -> (r: Result<TagMap, ExifError>)
        ensures
            r matches Ok(m) && m@.contains_key("parser_type"@) && m@["parser_type"@] == txt("UltraFastJpegParser"@)
                && m@["marker_positions_count"@] == txt(dec_text(self.parser_view().positions.len())),
    {
        Ok(self.parser.get_ultra_fast_stats())
    }

    /// The batch reader's statistics.
    pub fn get_batch_stats(&self) -> (r: Result<TagMap, ExifError>)
        ensures
            r matches Ok(m) && m@.contains_key("batch_size"@) && m@["batch_size"@] == txt(dec_text(self.batch_size() as nat))
                && m@["use_seek_optimization"@] == txt(if self.batch_seeks() { "true"@ } else { "false"@ }),
    {
        Ok(self.batch_processor.get_ultra_fast_stats())
    }
}

impl Default for UltraFastJpegReader {
    fn default() -> (r: UltraFastJpegReader)
        ensures
            r.parser_view() == fresh_view(false, Seq::empty()),
            !r.batch_seeks(),
    {
        UltraFastJpegReader::new()
    }
}

/// The profile of one file's reading: its path, the number of fields, and
/// the make, model and date when read.
pub open spec fn profile_map(path: Seq<char>, m: M) -> M {
    let p0 = Map::<Seq<char>, Seq<PieceModel>>::empty().insert("file_path"@, txt(path)).insert(
        "fields_extracted"@,
        txt(dec_text(m.len())),
    ).insert("success"@, txt("true"@));
    let p1 = if m.contains_key("Make"@) {
        p0.insert("camera_make"@, m["Make"@])
    } else {
        p0
    };
    let p2 = if m.contains_key("Model"@) {
        p1.insert("camera_model"@, m["Model"@])
    } else {
        p1
    };
    if m.contains_key("DateTime"@) {
        p2.insert("date_taken"@, m["DateTime"@])
    } else {
        p2
    }
}

/// Reads one file's contents with a fresh front end and gives its profile
/// (the time it took is the caller's to add).
pub fn profile_ultra_fast_jpeg(file_path: &str, data: &[u8]) -> (r: Result<TagMap, ExifError>)
    requires
        ultra_readable(data@, None),
    ensures
        r matches Ok(p) ==> outcome_result(data@, None) matches Ok(m) && p@ == profile_map(file_path@, m),
        r matches Err(e) ==> outcome_result(data@, None) == Err::<M, Seq<char>>(error_message(e)),
{
    let mut reader = UltraFastJpegReader::new();
    let metadata = match reader.read_bytes(data) {
        Ok(m) => m,
        Err(e) => {
            return Err(e);
        },
    };
    let mut profile = TagMap::new();
    profile.insert_text("file_path", text(file_path));
    profile.insert_text("fields_extracted", u64_text(metadata.len() as u64));
    profile.insert_str("success", "true");
    match metadata.get("Make") {
        Some(v) => profile.insert(text("camera_make"), crate::utils::copy_value(v)),
        None => {},
    }
    match metadata.get("Model") {
        Some(v) => profile.insert(text("camera_model"), crate::utils::copy_value(v)),
        None => {},
    }
    match metadata.get("DateTime") {
        Some(v) => profile.insert(text("date_taken"), crate::utils::copy_value(v)),
        None => {},
    }
    Ok(profile)
}

/// Over files read one after another by one front end (a file that could
/// not be opened is `None`): how many were read and how many fields they
/// gave.
pub open spec fn bench_run(files: Seq<Option<Seq<u8>>>, e1: Option<usize>) -> (nat, nat)
    decreases files.len(),
{
    if files.len() == 0 {
        (0, 0)
    } else {
        match files[0] {
            None => bench_run(files.drop_first(), e1),
            Some(d) => {
                let (s, f) = bench_run(files.drop_first(), after_read(e1, d));
                match outcome_result(d, e1) {
                    Ok(m) => (s + 1, f + m.len()),
                    Err(_) => (s, f),
                }
            },
        }
    }
}

/// Whether the front end can take each file as the earlier ones left it.
pub open spec fn bench_ok(files: Seq<Option<Seq<u8>>>, e1: Option<usize>) -> bool
    decreases files.len(),
{
    files.len() == 0 || match files[0] {
        None => bench_ok(files.drop_first(), e1),
        Some(d) => ultra_readable(d, e1) && bench_ok(files.drop_first(), after_read(e1, d)),
    }
}

/// The counts of a run by name: files, successes, failures, the success
/// rate in percent, the fields, and the fields per successful file (the
/// time-based entries are the caller's to add).
pub open spec fn bench_map(total: nat, ok: nat, fields: nat) -> M {
    let rate = if total > 0 {
        Real { num: ok as i64, den: total as u64, style: RealStyle::Percent(2) }
    } else {
        Real { num: 0, den: 1, style: RealStyle::Percent(2) }
    };
    let avg = if ok > 0 {
        Real { num: fields as i64, den: ok as u64, style: RealStyle::Fixed(1) }
    } else {
        Real { num: 0, den: 1, style: RealStyle::Fixed(1) }
    };
    Map::<Seq<char>, Seq<PieceModel>>::empty().insert("total_files"@, txt(dec_text(total))).insert(
        "successful_files"@,
        txt(dec_text(ok)),
    ).insert("failed_files"@, txt(dec_text((total - ok) as nat))).insert("success_rate"@, num(rate).push(
        PieceModel::Text("%"@),
    )).insert("total_fields_extracted"@, txt(dec_text(fields))).insert("avg_fields_per_file"@, num(avg))
}

/// Reads each file with one front end and counts the successes and the
/// fields.
pub fn benchmark_ultra_fast_jpeg(files: &[Option<Vec<u8>>]) -> (r: Result<TagMap, ExifError>)
    requires
        bench_ok(files@.map_values(|f: Option<Vec<u8>>| match f { Some(v) => Some(v@), None => None }), None),
        bench_run(files@.map_values(|f: Option<Vec<u8>>| match f { Some(v) => Some(v@), None => None }), None).1 <= i64::MAX,
        files@.len() <= isize::MAX,
    ensures
        r matches Ok(m) && m@ == bench_map(
            files@.len(),
            bench_run(files@.map_values(|f: Option<Vec<u8>>| match f { Some(v) => Some(v@), None => None }), None).0,
            bench_run(files@.map_values(|f: Option<Vec<u8>>| match f { Some(v) => Some(v@), None => None }), None).1,
        ),
{
    let ghost all = files@.map_values(|f: Option<Vec<u8>>| match f { Some(v) => Some(v@), None => None });
    let mut reader = UltraFastJpegReader::new();
    let mut total_files: usize = 0;
    let mut successful_files: usize = 0;
    let mut total_fields: u64 = 0;
    let mut i: usize = 0;
    assert(all.subrange(0, all.len() as int) =~= all);
    while i < files.len()
        invariant
            i <= files@.len(),
            all == files@.map_values(|f: Option<Vec<u8>>| match f { Some(v) => Some(v@), None => None }),
            total_files == i,
            successful_files <= i,
            files@.len() <= isize::MAX,
            bench_run(all, None).1 <= i64::MAX,
            bench_ok(all.subrange(i as int, all.len() as int), reader.e1()),
            successful_files + bench_run(all.subrange(i as int, all.len() as int), reader.e1()).0 == bench_run(all, None).0,
            total_fields + bench_run(all.subrange(i as int, all.len() as int), reader.e1()).1 == bench_run(all, None).1,
        decreases files.len() - i,
    {
        let ghost rest = all.subrange(i as int, all.len() as int);
        let ghost e0 = reader.e1();
        proof {
            assert(rest.drop_first() =~= all.subrange(i + 1, all.len() as int));
            assert(rest[0] == all[i as int]);
        }
        total_files = total_files + 1;
        match &files[i] {
            Some(d) => {
                proof {
                    assert(rest[0] == Some(d@));
                }
                match reader.read_bytes(d.as_slice()) {
                    Ok(m) => {
                        proof {
                            assert(bench_run(rest, e0).1 == bench_run(rest.drop_first(), after_read(e0, d@)).1 + m@.len());
                            assert(total_fields + m@.len() <= bench_run(all, None).1);
                        }
                        successful_files = successful_files + 1;
                        let n = m.len() as u64;
                        total_fields = total_fields + n;
                    },
                    Err(_) => {},
                }
            },
            None => {},
        }
        i = i + 1;
    }
    proof {
        assert(all.subrange(files@.len() as int, all.len() as int) =~= Seq::<Option<Seq<u8>>>::empty());
    }
    let mut results = TagMap::new();
    results.insert_text("total_files", u64_text(total_files as u64));
    results.insert_text("successful_files", u64_text(successful_files as u64));
    results.insert_text("failed_files", u64_text((total_files - successful_files) as u64));
    let rate = if total_files > 0 {
        Real { num: successful_files as i64, den: total_files as u64, style: RealStyle::Percent(2) }
    } else {
        Real { num: 0, den: 1, style: RealStyle::Percent(2) }
    };
    let mut rate_value = TagValue::number(rate);
    rate_value.push_text(text("%"));
    results.insert(text("success_rate"), rate_value);
    results.insert_text("total_fields_extracted", u64_text(total_fields));
    let avg = if successful_files > 0 {
        Real { num: total_fields as i64, den: successful_files as u64, style: RealStyle::Fixed(1) }
    } else {
        Real { num: 0, den: 1, style: RealStyle::Fixed(1) }
    };
    results.insert_number("avg_fields_per_file", avg);
    Ok(results)
}

/// Whether a run over these files can be made: each file that could be
/// opened can be read by the front end as the earlier files left it.
pub fn benchmark_readable(files: &[Option<Vec<u8>>]) -> (r: bool)
    ensures
        r == bench_ok(files@.map_values(|f: Option<Vec<u8>>| match f { Some(v) => Some(v@), None => None }), None),
{
    let ghost all = files@.map_values(|f: Option<Vec<u8>>| match f { Some(v) => Some(v@), None => None });
    let mut parser = UltraFastJpegParser::new();
    let mut i: usize = 0;
    assert(all.subrange(0, all.len() as int) =~= all);
    while i < files.len()
        invariant
            i <= files@.len(),
            all == files@.map_values(|f: Option<Vec<u8>>| match f { Some(v) => Some(v@), None => None }),
            bench_ok(all, None) == bench_ok(all.subrange(i as int, all.len() as int), parser@.e1),
        decreases files.len() - i,
    {
        let ghost rest = all.subrange(i as int, all.len() as int);
        proof {
            assert(rest.drop_first() =~= all.subrange(i + 1, all.len() as int));
            assert(rest[0] == all[i as int]);
        }
        match &files[i] {
            Some(d) => {
                proof {
                    assert(rest[0] == Some(d@));
                }
                if !parser.can_read(d.as_slice()) {
                    return false;
                }
                let mut scratch = TagMap::new();
                let _ = parser.parse_jpeg_exif_ultra_fast(d.as_slice(), &mut scratch);
            },
            None => {},
        }
        i = i + 1;
    }
    proof {
        assert(all.subrange(files@.len() as int, all.len() as int) =~= Seq::<Option<Seq<u8>>>::empty());
    }
    true
}

} // verus!
