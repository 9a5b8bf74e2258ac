//! Read options, tag-name matching and the error type.

use vstd::prelude::*;
use vstd::string::StringSliceAdditionalSpecFns;
use vstd::utf8::is_char_boundary;
use crate::text::{
    ascii_lower, chars_of, views, str_views, is_ascii_alnum, push_char, starts_with, str_eq, text,
    text_starts_with,
};

verus! {

/// Which expensive EXIF subtrees to walk.
///
/// Standard IFD0 / ExifIFD tags are always parsed. GPS, Interop, and maker
/// notes are optional because they dominate parse time on camera files.
#[derive(Debug, Clone, Copy, PartialEq, Eq)]
pub struct ParseScope {
    pub maker_notes: bool,
    pub gps: bool,
    pub interop: bool,
}

impl ParseScope {
    /// Every subtree.
    pub fn all() -> (s: Self)
        ensures
            s.maker_notes && s.gps && s.interop,
    {
        ParseScope { maker_notes: true, gps: true, interop: true }
    }

    /// GPS and Interop, no maker notes.
    pub fn standard_exif() -> (s: Self)
        ensures
            !s.maker_notes && s.gps && s.interop,
    {
        ParseScope { maker_notes: false, gps: true, interop: true }
    }

    /// IFD0 and ExifIFD only.
    pub fn core_exif() -> (s: Self)
        ensures
            !s.maker_notes && !s.gps && !s.interop,
    {
        ParseScope { maker_notes: false, gps: false, interop: false }
    }
}

impl Default for ParseScope {
    /// The default scope is every subtree.
    fn default() -> (s: Self)
        ensures
            s.maker_notes && s.gps && s.interop,
    {
        Self::all()
    }
}

/// Options for a metadata read.
///
/// Use [`ReadOptions::tags`] when you only need a handful of fields (for
/// example date/time). That skips maker notes and GPS unless those tags were
/// requested, and keeps only the named fields after parse.
#[derive(Debug, Clone)]
pub struct ReadOptions {
    pub include_maker_notes: bool,
    pub include_gps: bool,
    pub include_interop: bool,
    pub include_computed_fields: bool,
    pub include_file_system: bool,
    /// If set, only these tag names are returned (ExifTool-style names).
    pub wanted_tags: Option<Vec<String>>,
    /// Read the EXIF segment with seeking instead of mapping the whole file.
    pub exif_segment_only: bool,
}

/// The date and time tags that [`ReadOptions::datetime`] asks for.
pub open spec fn datetime_tags() -> Seq<Seq<char>> {
    seq![
        "DateTimeOriginal"@,
        "CreateDate"@,
        "DateTime"@,
        "ModifyDate"@,
        "DateTimeDigitized"@,
        "SubSecTime"@,
        "SubSecTimeOriginal"@,
        "SubSecTimeDigitized"@,
        "OffsetTime"@,
        "OffsetTimeOriginal"@,
        "OffsetTimeDigitized"@,
        "SubSecCreateDate"@,
        "SubSecDateTimeOriginal"@,
        "SubSecModifyDate"@,
    ]
}

/// ASCII lower-casing of one byte.
pub open spec fn lower_byte(b: u8) -> u8 {
    if 65 <= b && b <= 90 {
        (b + 32) as u8
    } else {
        b
    }
}

/// Whether the first three bytes of a tag name are `gps` in any letter case,
/// which is how GPS tag names are recognized.
pub open spec fn is_gps_tag_name(b: Seq<u8>) -> bool {
    b.len() >= 3 && lower_byte(b[0]) == 103 && lower_byte(b[1]) == 112 && lower_byte(b[2])
        == 115
}

/// Where the check of a name's first three bytes can be made: names shorter
/// than three bytes, or names whose third byte ends a char.
pub open spec fn gps_check_defined(b: Seq<u8>) -> bool {
    b.len() < 3 || is_char_boundary(b, 3)
}

/// Tag names that look like they live in a maker note.
pub open spec fn is_maker_note_tag_name(t: Seq<char>) -> bool {
    starts_with(t, "MakerNote"@) || starts_with(t, "Canon"@) || starts_with(t, "Nikon"@)
        || starts_with(t, "Olympus"@) || starts_with(t, "Sony"@) || starts_with(t, "Samsung"@)
        || starts_with(t, "Ricoh"@) || starts_with(t, "Fujifilm"@) || starts_with(t, "Pentax"@)
        || starts_with(t, "Panasonic"@) || starts_with(t, "Minolta"@) || starts_with(t, "Sigma"@)
        || starts_with(t, "Leica"@)
}

impl ReadOptions {
    /// Everything.
    pub fn full() -> (o: Self)
        ensures
            o.include_maker_notes && o.include_gps && o.include_interop
                && o.include_computed_fields && o.include_file_system,
            o.wanted_tags is None,
            !o.exif_segment_only,
    {
        ReadOptions {
            include_maker_notes: true,
            include_gps: true,
            include_interop: true,
            include_computed_fields: true,
            include_file_system: true,
            wanted_tags: None,
            exif_segment_only: false,
        }
    }

    /// Standard TIFF/EXIF/GPS tags, no manufacturer maker notes.
    pub fn standard() -> (o: Self)
        ensures
            !o.include_maker_notes && o.include_gps && o.include_interop
                && o.include_computed_fields && o.include_file_system,
            o.wanted_tags is None,
            o.exif_segment_only,
    {
        ReadOptions {
            include_maker_notes: false,
            include_gps: true,
            include_interop: true,
            include_computed_fields: true,
            include_file_system: true,
            wanted_tags: None,
            exif_segment_only: true,
        }
    }

    /// Date and time fields only.
    pub fn datetime() -> (o: Self)
        ensures
            !o.include_maker_notes && !o.include_gps && !o.include_interop,
            o.include_computed_fields,
            !o.include_file_system,
            o.exif_segment_only,
            o.wanted_tags matches Some(w) && views(w@) == datetime_tags(),
    {
        let names: [&str; 14] = [
            "DateTimeOriginal",
            "CreateDate",
            "DateTime",
            "ModifyDate",
            "DateTimeDigitized",
            "SubSecTime",
            "SubSecTimeOriginal",
            "SubSecTimeDigitized",
            "OffsetTime",
            "OffsetTimeOriginal",
            "OffsetTimeDigitized",
            "SubSecCreateDate",
            "SubSecDateTimeOriginal",
            "SubSecModifyDate",
        ];
        let wanted = strings_of(&names);
        assert(str_views(names@) =~= datetime_tags());
        // Composite SubSec* tags are built after parse, so computed fields stay on.
        ReadOptions {
            include_maker_notes: false,
            include_gps: false,
            include_interop: false,
            include_computed_fields: true,
            include_file_system: false,
            wanted_tags: Some(wanted),
            exif_segment_only: true,
        }
    }

    /// Keep only `tags`. Maker notes and GPS are enabled only if a requested
    /// name looks like it lives in those IFDs.
    pub fn tags(tags: &[&str]) -> (o: Self)
        requires
            forall|i: int| 0 <= i < tags@.len() ==> gps_check_defined(#[trigger] tags@[i].spec_bytes()),
        ensures
            o.include_gps == exists|i: int| 0 <= i < tags@.len() && is_gps_tag_name(#[trigger] tags@[i].spec_bytes()),
            o.include_maker_notes == exists|i: int| 0 <= i < tags@.len() && is_maker_note_tag_name(#[trigger] tags@[i]@),
            !o.include_interop && !o.include_computed_fields && !o.include_file_system,
            o.exif_segment_only,
            o.wanted_tags matches Some(w) && views(w@) == str_views(tags@),
    {
        let mut wanted: Vec<String> = Vec::new();
        let mut include_gps = false;
        let mut include_maker_notes = false;
        let mut i: usize = 0;
        while i < tags.len()
            invariant
                i <= tags@.len(),
                wanted@.len() == i,
                forall|j: int| 0 <= j < i ==> (#[trigger] wanted@[j])@ == tags@[j]@,
                include_gps == exists|j: int| 0 <= j < i && is_gps_tag_name(#[trigger] tags@[j].spec_bytes()),
                include_maker_notes == exists|j: int| 0 <= j < i && is_maker_note_tag_name(#[trigger] tags@[j]@),
            decreases tags.len() - i,
        {
            let t = tags[i];
            wanted.push(text(t));
            if starts_with_gps(t) {
                include_gps = true;
            }
            if looks_like_maker_note_tag(t) {
                include_maker_notes = true;
            }
            i = i + 1;
        }
        assert(views(wanted@) =~= str_views(tags@));
        ReadOptions {
            include_maker_notes,
            include_gps,
            include_interop: false,
            include_computed_fields: false,
            include_file_system: false,
            wanted_tags: Some(wanted),
            exif_segment_only: true,
        }
    }

    /// The subtrees these options walk.
    pub fn parse_scope(&self) -> (s: ParseScope)
        ensures
            s.maker_notes == self.include_maker_notes,
            s.gps == self.include_gps,
            s.interop == self.include_interop,
    {
        ParseScope {
            maker_notes: self.include_maker_notes,
            gps: self.include_gps,
            interop: self.include_interop,
        }
    }
}

impl Default for ReadOptions {
    /// The default options read everything.
    fn default() -> (o: Self)
        ensures
            o.include_maker_notes && o.include_gps && o.include_interop
                && o.include_computed_fields && o.include_file_system,
            o.wanted_tags is None,
            !o.exif_segment_only,
    {
        Self::full()
    }
}

/// Whether the first three bytes of `t` are `gps` in any letter case.
pub fn starts_with_gps(t: &str) -> (r: bool)
    requires
        gps_check_defined(t.spec_bytes()),
    ensures
        r == is_gps_tag_name(t.spec_bytes()),
{
    let b = t.as_bytes();
    if b.len() < 3 {
        return false;
    }
    let b0 = if 65 <= b[0] && b[0] <= 90 { b[0] + 32 } else { b[0] };
    let b1 = if 65 <= b[1] && b[1] <= 90 { b[1] + 32 } else { b[1] };
    let b2 = if 65 <= b[2] && b[2] <= 90 { b[2] + 32 } else { b[2] };
    b0 == 103 && b1 == 112 && b2 == 115
}

/// Whether a tag name looks like it lives in a maker note.
pub fn looks_like_maker_note_tag(tag: &str) -> (r: bool)
    ensures
        r == is_maker_note_tag_name(tag@),
{
    text_starts_with(tag, "MakerNote") || text_starts_with(tag, "Canon") || text_starts_with(
        tag,
        "Nikon",
    ) || text_starts_with(tag, "Olympus") || text_starts_with(tag, "Sony") || text_starts_with(
        tag,
        "Samsung",
    ) || text_starts_with(tag, "Ricoh") || text_starts_with(tag, "Fujifilm") || text_starts_with(
        tag,
        "Pentax",
    ) || text_starts_with(tag, "Panasonic") || text_starts_with(tag, "Minolta")
        || text_starts_with(tag, "Sigma") || text_starts_with(tag, "Leica")
}

/// The part of a tag name after its last `:` (the group prefix is dropped).
pub open spec fn after_last_colon(s: Seq<char>) -> Seq<char>
    decreases s.len(),
{
    if s.len() == 0 {
        s
    } else if s.last() == ':' {
        Seq::empty()
    } else {
        after_last_colon(s.drop_last()).push(s.last())
    }
}

/// The ASCII letters and digits of `s`, lower-cased, in order.
pub open spec fn lower_alnum(s: Seq<char>) -> Seq<char>
    decreases s.len(),
{
    if s.len() == 0 {
        s
    } else if is_ascii_alnum(s.last()) {
        lower_alnum(s.drop_last()).push(ascii_lower(s.last()))
    } else {
        lower_alnum(s.drop_last())
    }
}

/// The normal form under which tag names are compared: the name after its
/// group prefix, keeping only ASCII letters and digits, lower-cased.
pub open spec fn normal_tag(s: Seq<char>) -> Seq<char> {
    lower_alnum(after_last_colon(s))
}

/// The normal form of a tag name.
pub fn normalize_tag(tag: &str) -> (r: String)
    ensures
        r@ == normal_tag(tag@),
{
    let v = chars_of(tag);
    let mut start: usize = v.len();
    assert(v@.subrange(0, v@.len() as int) =~= v@);
    assert(v@.subrange(v@.len() as int, v@.len() as int) =~= Seq::<char>::empty());
    assert(after_last_colon(v@) =~= after_last_colon(v@.subrange(0, start as int)) + v@.subrange(
        start as int, v@.len() as int));
    while start > 0 && v[start - 1] != ':'
        invariant
            start <= v@.len(),
            after_last_colon(v@) == after_last_colon(v@.subrange(0, start as int)) + v@.subrange(
                start as int,
                v@.len() as int,
            ),
        decreases start,
    {
        let ghost s0 = v@.subrange(0, start as int);
        assert(s0.drop_last() =~= v@.subrange(0, start - 1));
        assert(v@.subrange(start - 1, v@.len() as int) =~= seq![s0.last()] + v@.subrange(
            start as int,
            v@.len() as int,
        ));
        start = start - 1;
    }
    proof {
        if start > 0 {
            assert(v@.subrange(0, start as int).last() == ':');
        }
        assert(after_last_colon(v@.subrange(0, start as int)) =~= Seq::<char>::empty());
        assert(after_last_colon(v@) =~= v@.subrange(start as int, v@.len() as int));
    }
    let mut out = String::new();
    let mut i: usize = start;
    while i < v.len()
        invariant
            start <= i <= v@.len(),
            after_last_colon(v@) =~= v@.subrange(start as int, v@.len() as int),
            out@ == lower_alnum(v@.subrange(start as int, i as int)),
        decreases v.len() - i,
    {
        let c = v[i];
        assert(v@.subrange(start as int, i + 1).drop_last() =~= v@.subrange(start as int, i as int));
        if ('0' <= c && c <= '9') || ('a' <= c && c <= 'z') || ('A' <= c && c <= 'Z') {
            let l = if 'A' <= c && c <= 'Z' {
                ((c as u32 + 32) as u8) as char
            } else {
                c
            };
            push_char(&mut out, l);
        }
        i = i + 1;
    }
    out
}

/// The names that a wanted tag also stands for.
pub open spec fn alias_names(n: Seq<char>) -> Seq<Seq<char>> {
    if n == "datetime"@ || n == "modifydate"@ || n == "subsecmodifydate"@ {
        seq!["DateTime"@, "ModifyDate"@, "SubSecTime"@, "OffsetTime"@, "SubSecModifyDate"@]
    } else if n == "datetimeoriginal"@ || n == "subsecdatetimeoriginal"@ {
        seq![
            "DateTimeOriginal"@,
            "SubSecTimeOriginal"@,
            "OffsetTimeOriginal"@,
            "OffsetTime"@,
            "SubSecDateTimeOriginal"@,
        ]
    } else if n == "createdate"@ || n == "datetimedigitized"@ || n == "datetimecreated"@ || n
        == "subseccreatedate"@ {
        seq![
            "CreateDate"@,
            "DateTimeDigitized"@,
            "DateTimeCreated"@,
            "DateTimeOriginal"@,
            "SubSecTimeDigitized"@,
            "SubSecTime"@,
            "OffsetTimeDigitized"@,
            "OffsetTime"@,
            "SubSecCreateDate"@,
        ]
    } else if n == "iso"@ || n == "isospeedratings"@ || n == "isospeed"@ {
        seq!["ISO"@, "ISOSpeedRatings"@, "ISOSpeed"@]
    } else {
        Seq::empty()
    }
}

/// The texts of a list of literals, as owned strings.
fn strings_of(names: &[&str]) -> (r: Vec<String>)
    ensures
        views(r@) == str_views(names@),
{
    let mut r: Vec<String> = Vec::new();
    let mut i: usize = 0;
    while i < names.len()
        invariant
            i <= names@.len(),
            r@.len() == i,
            forall|j: int| 0 <= j < i ==> (#[trigger] r@[j])@ == names@[j]@,
        decreases names.len() - i,
    {
        r.push(text(names[i]));
        i = i + 1;
    }
    assert(views(r@) =~= str_views(names@));
    r
}

/// The names that the wanted tag `tag` also stands for.
pub fn aliases_of(tag: &str) -> (r: Vec<String>)
    ensures
        views(r@) == alias_names(normal_tag(tag@)),
{
    let n = normalize_tag(tag);
    let n = n.as_str();
    if str_eq(n, "datetime") || str_eq(n, "modifydate") || str_eq(n, "subsecmodifydate") {
        let names: [&str; 5] = ["DateTime", "ModifyDate", "SubSecTime", "OffsetTime", "SubSecModifyDate"];
        let r = strings_of(&names);
        assert(str_views(names@) =~= alias_names(normal_tag(tag@)));
        r
    } else if str_eq(n, "datetimeoriginal") || str_eq(n, "subsecdatetimeoriginal") {
        let names: [&str; 5] = [
            "DateTimeOriginal",
            "SubSecTimeOriginal",
            "OffsetTimeOriginal",
            "OffsetTime",
            "SubSecDateTimeOriginal",
        ];
        let r = strings_of(&names);
        assert(str_views(names@) =~= alias_names(normal_tag(tag@)));
        r
    } else if str_eq(n, "createdate") || str_eq(n, "datetimedigitized") || str_eq(
        n,
        "datetimecreated",
    ) || str_eq(n, "subseccreatedate") {
        let names: [&str; 9] = [
            "CreateDate",
            "DateTimeDigitized",
            "DateTimeCreated",
            "DateTimeOriginal",
            "SubSecTimeDigitized",
            "SubSecTime",
            "OffsetTimeDigitized",
            "OffsetTime",
            "SubSecCreateDate",
        ];
        let r = strings_of(&names);
        assert(str_views(names@) =~= alias_names(normal_tag(tag@)));
        r
    } else if str_eq(n, "iso") || str_eq(n, "isospeedratings") || str_eq(n, "isospeed") {
        let names: [&str; 3] = ["ISO", "ISOSpeedRatings", "ISOSpeed"];
        let r = strings_of(&names);
        assert(str_views(names@) =~= alias_names(normal_tag(tag@)));
        r
    } else {
        let r: Vec<String> = Vec::new();
        assert(views(r@) =~= alias_names(normal_tag(tag@)));
        r
    }
}

/// Whether the normal form `n` matches the wanted name `w`: it is the normal
/// form of `w` or of one of the names `w` stands for.
pub open spec fn matches_wanted(w: Seq<char>, n: Seq<char>) -> bool {
    n == normal_tag(w) || exists|j: int|
        0 <= j < alias_names(normal_tag(w)).len() && n == #[trigger] normal_tag(
            alias_names(normal_tag(w))[j],
        )
}

/// Whether `n` matches one of the first `upto` wanted names.
pub open spec fn matches_some(ws: Seq<Seq<char>>, upto: int, n: Seq<char>) -> bool {
    exists|k: int| 0 <= k < upto && #[trigger] matches_wanted(ws[k], n)
}

/// The normal forms that match a wanted list: each wanted name and each of
/// its aliases.
pub open spec fn wanted_normals(wanted: Seq<Seq<char>>) -> Set<Seq<char>> {
    Set::new(|n: Seq<char>| matches_some(wanted, wanted.len() as int, n))
}

/// The normal forms that match `wanted`, each at least once.
pub fn wanted_normalized_set(wanted: &[String]) -> (r: Vec<String>)
    ensures
        views(r@).to_set() == wanted_normals(views(wanted@)),
{
    let ghost ws = views(wanted@);
    let mut r: Vec<String> = Vec::new();
    let mut i: usize = 0;
    while i < wanted.len()
        invariant
            i <= wanted@.len(),
            ws == views(wanted@),
            forall|n: Seq<char>| #[trigger] views(r@).contains(n) <==> matches_some(ws, i as int, n),
        decreases wanted.len() - i,
    {
        let w = wanted[i].as_str();
        assert(w@ == ws[i as int]);
        let ghost before = views(r@);
        r.push(normalize_tag(w));
        let aliases = aliases_of(w);
        let ghost a = alias_names(normal_tag(ws[i as int]));
        let ghost mid = views(r@);
        assert(mid =~= before.push(normal_tag(ws[i as int])));
        let mut j: usize = 0;
        while j < aliases.len()
            invariant
                j <= aliases@.len(),
                views(aliases@) == a,
                views(r@) =~= mid + Seq::new(
                    j as nat,
                    |m: int| normal_tag(a[m]),
                ),
            decreases aliases.len() - j,
        {
            let ghost b2 = views(r@);
            r.push(normalize_tag(aliases[j].as_str()));
            assert(views(aliases@)[j as int] == aliases@[j as int]@);
            assert(views(r@) =~= b2.push(normal_tag(a[j as int])));
            j = j + 1;
            assert(views(r@) =~= mid + Seq::new(
                j as nat,
                |m: int| normal_tag(a[m]),
            ));
        }
        proof {
            let cur = views(r@);
            assert(aliases@.len() == a.len());
            assert forall|n: Seq<char>| #[trigger] cur.contains(n) <==> matches_some(ws, i + 1, n) by {
                if cur.contains(n) {
                    let p = choose|p: int| 0 <= p < cur.len() && cur[p] == n;
                    if p < before.len() {
                        assert(before[p] == n);
                        assert(before.contains(n));
                        let k = choose|k: int| 0 <= k < i && #[trigger] matches_wanted(ws[k], n);
                        assert(matches_wanted(ws[k], n));
                    } else if p == before.len() {
                        assert(n == normal_tag(ws[i as int]));
                        assert(matches_wanted(ws[i as int], n));
                    } else {
                        let jj = p - before.len() - 1;
                        assert(n == normal_tag(a[jj]));
                        assert(matches_wanted(ws[i as int], n));
                    }
                }
                if matches_some(ws, i + 1, n) {
                    let k = choose|k: int| 0 <= k < i + 1 && #[trigger] matches_wanted(ws[k], n);
                    if k < i {
                        assert(matches_some(ws, i as int, n));
                        assert(before.contains(n));
                        let p = choose|p: int| 0 <= p < before.len() && before[p] == n;
                        assert(cur[p] == n);
                    } else if n == normal_tag(ws[k]) {
                        assert(cur[before.len() as int] == n);
                    } else {
                        let jj = choose|jj: int|
                            0 <= jj < a.len() && n == #[trigger] normal_tag(a[jj]);
                        assert(cur[before.len() + 1 + jj] == n);
                    }
                }
            }
        }
        i = i + 1;
    }
    proof {
        let cur = views(r@);
        assert forall|n: Seq<char>| cur.to_set().contains(n) <==> wanted_normals(ws).contains(n) by {
            assert(cur.to_set().contains(n) <==> cur.contains(n));
        }
        assert(cur.to_set() =~= wanted_normals(ws));
    }
    r
}

/// Whether `tag` matches one of the normal forms in `wanted`.
pub fn tag_is_wanted_normalized(tag: &str, wanted: &[String]) -> (r: bool)
    ensures
        r == views(wanted@).contains(normal_tag(tag@)),
{
    let n = normalize_tag(tag);
    let mut i: usize = 0;
    while i < wanted.len()
        invariant
            i <= wanted@.len(),
            forall|j: int| 0 <= j < i ==> (#[trigger] wanted@[j])@ != n@,
        decreases wanted.len() - i,
    {
        if str_eq(wanted[i].as_str(), n.as_str()) {
            assert(views(wanted@)[i as int] == n@);
            return true;
        }
        i = i + 1;
    }
    proof {
        if views(wanted@).contains(n@) {
            let j = choose|j: int| 0 <= j < wanted@.len() && views(wanted@)[j] == n@;
            assert(wanted@[j]@ == n@);
        }
    }
    false
}

/// Whether `tag` is one of the wanted names or one of their aliases, with
/// names compared in normal form.
pub fn tag_is_wanted(tag: &str, wanted: &[String]) -> (r: bool)
    ensures
        r == wanted_normals(views(wanted@)).contains(normal_tag(tag@)),
{
    let set = wanted_normalized_set(wanted);
    let r = tag_is_wanted_normalized(tag, &set);
    proof {
        let cur = views(set@);
        assert(cur.to_set().contains(normal_tag(tag@)) <==> cur.contains(normal_tag(tag@)));
    }
    r
}

/// Error types for EXIF operations.
#[derive(Debug, Clone, PartialEq, Eq)]
pub enum ExifError {
    FileNotFound(String),
    InvalidExif(String),
    ParseError(String),
    UnsupportedFormat(String),
    IoError(String),
}

/// The message of an error, as it is displayed.
pub open spec fn error_message(e: ExifError) -> Seq<char> {
    match e {
        ExifError::FileNotFound(s) => "File not found: "@ + s@,
        ExifError::InvalidExif(s) => "Invalid EXIF data: "@ + s@,
        ExifError::ParseError(s) => "Parse error: "@ + s@,
        ExifError::UnsupportedFormat(s) => "Unsupported format: "@ + s@,
        ExifError::IoError(s) => "IO error: "@ + s@,
    }
}

impl ExifError {
    /// An `InvalidExif` error with the message `msg`.
    pub fn invalid(msg: &str) -> (e: ExifError)
        ensures
            e matches ExifError::InvalidExif(s) && s@ == msg@,
    {
        ExifError::InvalidExif(text(msg))
    }

    /// The displayed message.
    pub fn message(&self) -> (r: String)
        ensures
            r@ == error_message(*self),
    {
        let (prefix, body) = match self {
            ExifError::FileNotFound(s) => ("File not found: ", s),
            ExifError::InvalidExif(s) => ("Invalid EXIF data: ", s),
            ExifError::ParseError(s) => ("Parse error: ", s),
            ExifError::UnsupportedFormat(s) => ("Unsupported format: ", s),
            ExifError::IoError(s) => ("IO error: ", s),
        };
        let mut r = text(prefix);
        r.append(body.as_str());
        r
    }
}

} // verus!
