//! HEIF/HEIC reading: the file's boxes, the best EXIF block in it, and the
//! fields ExifTool computes from the EXIF tags.

use vstd::prelude::*;
use crate::bytes::{be32, read_u32};
use crate::computed::{
    add_camera_fields, camera_fields_effect, crop_factor_milli, crop_factor_of, exposure_compensation_fixed,
    exposure_mode_fixed, fix_exposure_compensation, fix_exposure_mode, version_text,
};
use crate::metadata::{num, text_of, txt, value_is_blank, PieceModel, TagMap, TagValue};
use crate::text::{contains_text, parse_unsigned, parse_unsigned_text, str_eq, text, text_contains};
use crate::tiff::{tiff_outcome, TiffParser};
use crate::types::ExifError;
use crate::maker_notes::{canon_bytes, nikon_bytes, olympus_bytes, ricoh_bytes, samsung_bytes};
use crate::utils::{bytes_contain, contains_bytes, find_first, stamp_at, unix_stamps_effect, ExifUtils};

verus! {

type M = Map<Seq<char>, Seq<PieceModel>>;

/// The type code `idat`.
pub open spec fn idat_code() -> nat {
    0x69646174
}

/// The type code `iloc`.
pub open spec fn iloc_code() -> nat {
    0x696c6f63
}

/// The type code `meta`.
pub open spec fn meta_code() -> nat {
    0x6d657461
}

/// The four bytes at `p` as a big-endian number.
pub open spec fn word_at(d: Seq<u8>, p: int) -> nat {
    be32(d[p], d[p + 1], d[p + 2], d[p + 3])
}

/// Whether `II` or `MM` starts at `p`.
pub open spec fn order_mark_at(b: Seq<u8>, p: int) -> bool {
    (b[p] == 0x49 && b[p + 1] == 0x49) || (b[p] == 0x4D && b[p + 1] == 0x4D)
}

/// Whether `Exif` starts at `p`.
pub open spec fn exif_word_at(b: Seq<u8>, p: int) -> bool {
    b[p] == 0x45 && b[p + 1] == 0x78 && b[p + 2] == 0x69 && b[p + 3] == 0x66
}

/// In an item-data box, from `pos`: the bytes from the TIFF header of the
/// first `Exif` that a byte-order mark follows.
pub open spec fn data_box_scan(b: Seq<u8>, pos: int) -> Option<Seq<u8>>
    decreases b.len() - pos,
{
    if pos < 0 || pos + 8 >= b.len() {
        None
    } else if exif_word_at(b, pos) && pos + 6 < b.len() && order_mark_at(b, pos + 4) {
        Some(b.subrange(pos + 4, b.len() as int))
    } else {
        data_box_scan(b, pos + 1)
    }
}

/// Whether a box of `size` at `pos` fits in `d` with its header.
pub open spec fn box_fits(d: Seq<u8>, pos: int, size: nat) -> bool {
    size >= 8 && pos + size <= d.len()
}

/// The top-level boxes from `pos`: the EXIF of the first `idat` box that
/// holds one. A box that does not fit ends the walk.
pub open spec fn item_data_scan(d: Seq<u8>, pos: int) -> Option<Seq<u8>>
    decreases d.len() - pos,
{
    if pos < 0 || pos + 8 >= d.len() {
        None
    } else {
        let size = word_at(d, pos);
        if size == 0 || size > (d.len() as u32) {
            None
        } else if word_at(d, pos + 4) == idat_code() {
            if !box_fits(d, pos, size) {
                None
            } else {
                match data_box_scan(d.subrange(pos + 8, pos + size), 4) {
                    Some(x) => Some(x),
                    None => (if pos + size >= d.len() { None } else { item_data_scan(d, pos + size) }),
                }
            }
        } else {
            (if pos + size >= d.len() { None } else { item_data_scan(d, pos + size) })
        }
    }
}

/// The boxes inside a `meta` box from `pos`: the EXIF of the first `idat`
/// box that holds one (`iloc` boxes hold none that is read).
pub open spec fn meta_box_scan(b: Seq<u8>, pos: int) -> Option<Seq<u8>>
    decreases b.len() - pos,
{
    if pos < 0 || pos + 8 >= b.len() {
        None
    } else {
        let size = word_at(b, pos);
        if size == 0 || size > (b.len() as u32) {
            None
        } else if word_at(b, pos + 4) == idat_code() || word_at(b, pos + 4) == iloc_code() {
            if !box_fits(b, pos, size) {
                None
            } else if word_at(b, pos + 4) == idat_code() {
                match data_box_scan(b.subrange(pos + 8, pos + size), 4) {
                    Some(x) => Some(x),
                    None => (if pos + size >= b.len() { None } else { meta_box_scan(b, pos + size) }),
                }
            } else {
                (if pos + size >= b.len() { None } else { meta_box_scan(b, pos + size) })
            }
        } else {
            (if pos + size >= b.len() { None } else { meta_box_scan(b, pos + size) })
        }
    }
}

/// The top-level boxes from `pos`: the EXIF found inside the first `meta`
/// box that holds one.
pub open spec fn meta_structure_scan(d: Seq<u8>, pos: int) -> Option<Seq<u8>>
    decreases d.len() - pos,
{
    if pos < 0 || pos + 8 >= d.len() {
        None
    } else {
        let size = word_at(d, pos);
        if size == 0 || size > (d.len() as u32) {
            None
        } else if word_at(d, pos + 4) == meta_code() {
            if !box_fits(d, pos, size) {
                None
            } else {
                match meta_box_scan(d.subrange(pos + 8, pos + size), 4) {
                    Some(x) => Some(x),
                    None => (if pos + size >= d.len() { None } else { meta_structure_scan(d, pos + size) }),
                }
            }
        } else {
            (if pos + size >= d.len() { None } else { meta_structure_scan(d, pos + size) })
        }
    }
}

/// Anywhere in the file from `i`: the bytes from the TIFF header of the
/// first `Exif` that a byte-order mark follows.
pub open spec fn anywhere_scan(d: Seq<u8>, i: int) -> Option<Seq<u8>>
    decreases d.len() - i,
{
    if i < 0 || i + 8 >= d.len() {
        None
    } else if exif_word_at(d, i) && order_mark_at(d, i + 4) {
        Some(d.subrange(i + 4, d.len() as int))
    } else {
        anywhere_scan(d, i + 1)
    }
}

/// The first byte-order mark before the last eight bytes, or 0.
pub open spec fn mark_scan(e: Seq<u8>, i: int) -> int
    decreases e.len() - i,
{
    if i < 0 || i + 8 >= e.len() {
        0
    } else if order_mark_at(e, i) {
        i
    } else {
        mark_scan(e, i + 1)
    }
}

/// Points for one present field.
pub open spec fn points(present: bool, n: nat) -> nat {
    if present {
        n
    } else {
        0
    }
}

/// Points for the camera and date fields that are present.
pub open spec fn presence_points_a(m: M) -> nat {
    points(m.contains_key("Make"@) && text_of(m, "Make"@) != Some("Unknown"@), 10)
        + points(m.contains_key("Model"@) && text_of(m, "Model"@) != Some("Unknown"@), 10)
        + points(m.contains_key("DateTimeOriginal"@), 5) + points(m.contains_key("DateTime"@), 5)
}

/// Points for the sub-second, lens and exposure fields that are present.
pub open spec fn presence_points_b(m: M) -> nat {
    points(m.contains_key("SubSecTimeOriginal"@), 3) + points(m.contains_key("SubSecTime"@), 3)
        + points(m.contains_key("LensModel"@), 5) + points(m.contains_key("FocalLength"@), 3)
        + points(m.contains_key("FNumber"@), 3) + points(m.contains_key("ExposureTime"@), 3)
        + points(m.contains_key("ISO"@), 3)
}

/// Points for the important fields that are present.
pub open spec fn presence_points(m: M) -> nat {
    presence_points_a(m) + presence_points_b(m)
}

/// Points for a recent capture date.
pub open spec fn date_points(m: M) -> nat {
    match text_of(m, "DateTimeOriginal"@) {
        Some(t) => if contains_text(t, "2025"@) {
            20
        } else if contains_text(t, "2024"@) {
            10
        } else {
            0
        },
        None => 0,
    }
}

/// Points for the sub-second time of the primary image.
pub open spec fn subsec_points(m: M) -> nat {
    match text_of(m, "SubSecTimeOriginal"@) {
        Some(t) => if t == "92"@ || t == "920"@ {
            50
        } else if parse_unsigned(t, 0xffff_ffff) matches Some(n) && n > 50 {
            20
        } else {
            0
        },
        None => 0,
    }
}

/// How complete the tags read from an EXIF block are.
pub open spec fn fields_score(m: M) -> nat {
    presence_points(m) + date_points(m) + subsec_points(m)
}

/// How complete an EXIF block is: nothing without a valid TIFF header, else
/// 100 and points for the fields that reading it gives.
pub open spec fn exif_score(e: Seq<u8>) -> nat {
    if e.len() < 8 {
        0
    } else {
        let ts = mark_scan(e, 0);
        if ts + 8 > e.len() || !order_mark_at(e, ts) {
            0
        } else {
            let le = e[ts] == 0x49;
            let version = if le { e[ts + 2] as int + (e[ts + 3] as int) * 256 } else { (e[ts + 2] as int) * 256 + e[ts + 3] as int };
            if version != 42 {
                0
            } else {
                let out = tiff_outcome(e, Map::empty());
                100 + if out.0 is None { fields_score(out.1) } else { 0 }
            }
        }
    }
}

/// The best of the first `k` blocks and its score: a later block replaces
/// the best only when it scores higher.
pub open spec fn best_of(list: Seq<Seq<u8>>, k: int) -> (Seq<u8>, nat)
    decreases k,
{
    if k <= 0 {
        (list[0], 0)
    } else {
        let (b, s) = best_of(list, k - 1);
        let sc = exif_score(list[k - 1]);
        if sc > s {
            (list[k - 1], sc)
        } else {
            (b, s)
        }
    }
}

/// The EXIF blocks found by each strategy, in order.
pub open spec fn exif_candidates(d: Seq<u8>) -> Seq<Seq<u8>> {
    let a: Seq<Seq<u8>> = match item_data_scan(d, 0) {
        Some(x) => seq![x],
        None => Seq::empty(),
    };
    let b: Seq<Seq<u8>> = match meta_structure_scan(d, 0) {
        Some(x) => a.push(x),
        None => a,
    };
    match anywhere_scan(d, 0) {
        Some(x) => b.push(x),
        None => b,
    }
}

/// The best EXIF block of a file, if any was found.
pub open spec fn best_exif(d: Seq<u8>) -> Option<Seq<u8>> {
    let c = exif_candidates(d);
    if c.len() == 0 {
        None
    } else {
        Some(best_of(c, c.len() as int).0)
    }
}

/// The HEIF/HEIC parser.
pub struct HeifParser;

impl HeifParser {
    /// Searches an item-data box from `pos` for `Exif` and a byte-order
    /// mark.
    fn find_exif_in_data_box(data_box: &[u8]) -> (r: Option<&[u8]>)
        ensures
            r matches Some(x) ==> data_box_scan(data_box@, 4) == Some(x@),
            r is None ==> data_box_scan(data_box@, 4) is None,
    {
        let mut pos: usize = 4;
        while pos < data_box.len() && data_box.len() - pos > 8
            invariant
                pos >= 4,
                data_box_scan(data_box@, pos as int) == data_box_scan(data_box@, 4),
            decreases data_box.len() - pos,
        {
            if data_box[pos] == 0x45 && data_box[pos + 1] == 0x78 && data_box[pos + 2] == 0x69 && data_box[pos + 3] == 0x66 {
                let es = pos + 4;
                if (data_box[es] == 0x49 && data_box[es + 1] == 0x49) || (data_box[es] == 0x4D && data_box[es + 1] == 0x4D) {
                    return Some(crate::text::sub_slice(data_box, es, data_box.len()));
                }
            }
            pos = pos + 1;
        }
        None
    }

    /// Walks the top-level boxes for an `idat` box that holds EXIF.
    fn find_exif_in_item_data_boxes(data: &[u8]) -> (r: Option<&[u8]>)
        ensures
            r matches Some(x) ==> item_data_scan(data@, 0) == Some(x@),
            r is None ==> item_data_scan(data@, 0) is None,
    {
        let mut pos: usize = 0;
        while pos < data.len() && data.len() - pos > 8
            invariant
                item_data_scan(data@, pos as int) == item_data_scan(data@, 0),
            decreases data.len() - pos,
        {
            let size = read_u32(data, pos, false);
            if size == 0 || size > data.len() as u32 {
                return None;
            }
            let typ = read_u32(data, pos + 4, false);
            let size = size as usize;
            if typ == 0x69646174 {
                if size < 8 || data.len() - pos < size {
                    return None;
                }
                match Self::find_exif_in_data_box(crate::text::sub_slice(data, pos + 8, pos + size)) {
                    Some(x) => {
                        return Some(x);
                    },
                    None => {},
                }
            }
            if data.len() - pos <= size {
                return None;
            }
            pos = pos + size;
        }
        None
    }

    /// Walks the boxes inside a `meta` box for an `idat` box that holds
    /// EXIF.
    fn find_exif_in_meta_box(meta_data: &[u8]) -> (r: Option<&[u8]>)
        ensures
            r matches Some(x) ==> meta_box_scan(meta_data@, 4) == Some(x@),
            r is None ==> meta_box_scan(meta_data@, 4) is None,
    {
        let mut pos: usize = 4;
        while pos < meta_data.len() && meta_data.len() - pos > 8
            invariant
                pos >= 4,
                meta_box_scan(meta_data@, pos as int) == meta_box_scan(meta_data@, 4),
            decreases meta_data.len() - pos,
        {
            let size = read_u32(meta_data, pos, false);
            if size == 0 || size > meta_data.len() as u32 {
                return None;
            }
            let typ = read_u32(meta_data, pos + 4, false);
            let size = size as usize;
            if typ == 0x69646174 || typ == 0x696c6f63 {
                if size < 8 || meta_data.len() - pos < size {
                    return None;
                }
                if typ == 0x69646174 {
                    match Self::find_exif_in_data_box(crate::text::sub_slice(meta_data, pos + 8, pos + size)) {
                        Some(x) => {
                            return Some(x);
                        },
                        None => {},
                    }
                } else {
                    let _ = Self::find_exif_in_location_box(crate::text::sub_slice(meta_data, pos + 8, pos + size));
                }
            }
            if meta_data.len() - pos <= size {
                return None;
            }
            pos = pos + size;
        }
        None
    }

    /// Walks the top-level boxes for a `meta` box that holds EXIF.
    fn find_exif_in_meta_structure(data: &[u8]) -> (r: Option<&[u8]>)
        ensures
            r matches Some(x) ==> meta_structure_scan(data@, 0) == Some(x@),
            r is None ==> meta_structure_scan(data@, 0) is None,
    {
        let mut pos: usize = 0;
        while pos < data.len() && data.len() - pos > 8
            invariant
                meta_structure_scan(data@, pos as int) == meta_structure_scan(data@, 0),
            decreases data.len() - pos,
        {
            let size = read_u32(data, pos, false);
            if size == 0 || size > data.len() as u32 {
                return None;
            }
            let typ = read_u32(data, pos + 4, false);
            let size = size as usize;
            if typ == 0x6d657461 {
                if size < 8 || data.len() - pos < size {
                    return None;
                }
                match Self::find_exif_in_meta_box(crate::text::sub_slice(data, pos + 8, pos + size)) {
                    Some(x) => {
                        return Some(x);
                    },
                    None => {},
                }
            }
            if data.len() - pos <= size {
                return None;
            }
            pos = pos + size;
        }
        None
    }

    /// An item-location box: no EXIF is read from it.
    fn find_exif_in_location_box(_location_box: &[u8]) -> (r: Option<&[u8]>)
        ensures
            r is None,
    {
        None
    }

    /// Looks anywhere in the file for `Exif` and a byte-order mark.
    fn find_exif_anywhere_in_file(data: &[u8]) -> (r: Option<&[u8]>)
        ensures
            r matches Some(x) ==> anywhere_scan(data@, 0) == Some(x@),
            r is None ==> anywhere_scan(data@, 0) is None,
    {
        let mut i: usize = 0;
        while i < data.len() && data.len() - i > 8
            invariant
                anywhere_scan(data@, i as int) == anywhere_scan(data@, 0),
            decreases data.len() - i,
        {
            if data[i] == 0x45 && data[i + 1] == 0x78 && data[i + 2] == 0x69 && data[i + 3] == 0x66 {
                let ts = i + 4;
                if (data[ts] == 0x49 && data[ts + 1] == 0x49) || (data[ts] == 0x4D && data[ts + 1] == 0x4D) {
                    return Some(crate::text::sub_slice(data, ts, data.len()));
                }
            }
            i = i + 1;
        }
        None
    }
}


/// Points for one present field.
fn pts(present: bool, n: u32) -> (r: u32)
    requires
        n <= 10,
    ensures
        r == points(present, n as nat),
{
    if present {
        n
    } else {
        0
    }
}

/// The views of a list of byte slices.
pub open spec fn slice_views(v: Seq<&[u8]>) -> Seq<Seq<u8>> {
    v.map_values(|x: &[u8]| x@)
}

impl HeifParser {
    /// The first byte-order mark before the last eight bytes, or 0.
    fn tiff_mark(e: &[u8]) -> (r: usize)
        ensures
            r == mark_scan(e@, 0),
    {
        let mut i: usize = 0;
        while i < e.len() && e.len() - i > 8
            invariant
                mark_scan(e@, i as int) == mark_scan(e@, 0),
            decreases e.len() - i,
        {
            if (e[i] == 0x49 && e[i + 1] == 0x49) || (e[i] == 0x4D && e[i + 1] == 0x4D) {
                return i;
            }
            i = i + 1;
        }
        0
    }

    /// Whether a field is present and its text is not `Unknown`.
    fn known(m: &TagMap, key: &str) -> (r: bool)
        ensures
            r == (m@.contains_key(key@) && text_of(m@, key@) != Some("Unknown"@)),
    {
        if !m.contains_key(key) {
            return false;
        }
        match m.get_text(key) {
            Some(t) => !str_eq(t.as_str(), "Unknown"),
            None => true,
        }
    }

    /// Points for the camera and date fields that are present.
    fn presence_a(m: &TagMap) -> (r: u32)
        ensures
            r == presence_points_a(m@),
    {
        let a = pts(Self::known(m, "Make"), 10);
        let b = pts(Self::known(m, "Model"), 10);
        let c = pts(m.contains_key("DateTimeOriginal"), 5);
        let d = pts(m.contains_key("DateTime"), 5);
        a + b + c + d
    }

    /// Points for the sub-second, lens and exposure fields that are present.
    fn presence_b(m: &TagMap) -> (r: u32)
        ensures
            r == presence_points_b(m@),
    {
        let e = pts(m.contains_key("SubSecTimeOriginal"), 3);
        let f = pts(m.contains_key("SubSecTime"), 3);
        let g = pts(m.contains_key("LensModel"), 5);
        let h = pts(m.contains_key("FocalLength"), 3);
        let i = pts(m.contains_key("FNumber"), 3);
        let j = pts(m.contains_key("ExposureTime"), 3);
        let k = pts(m.contains_key("ISO"), 3);
        e + f + g + h + i + j + k
    }

    /// Points for the important fields that are present.
    fn presence(m: &TagMap) -> (r: u32)
        ensures
            r == presence_points(m@),
    {
        Self::presence_a(m) + Self::presence_b(m)
    }

    /// Points for a recent capture date.
    fn date_bonus(m: &TagMap) -> (r: u32)
        ensures
            r == date_points(m@),
    {
        let mut score: u32 = 0;
        match m.get_text("DateTimeOriginal") {
            Some(t) => {
                if text_contains(t.as_str(), "2025") {
                    score = score + 20;
                } else if text_contains(t.as_str(), "2024") {
                    score = score + 10;
                }
            },
            None => {},
        }
        score
    }

    /// Points for the sub-second time of the primary image.
    fn subsec_bonus(m: &TagMap) -> (r: u32)
        ensures
            r == subsec_points(m@),
    {
        let mut score: u32 = 0;
        match m.get_text("SubSecTimeOriginal") {
            Some(t) => {
                if str_eq(t.as_str(), "92") || str_eq(t.as_str(), "920") {
                    score = score + 50;
                } else {
                    match parse_unsigned_text(t.as_str(), 0xffff_ffff) {
                        Some(n) => {
                            if n > 50 {
                                score = score + 20;
                            }
                        },
                        None => {},
                    }
                }
            },
            None => {},
        }
        score
    }

    /// How complete the tags read from an EXIF block are.
    fn fields_points(m: &TagMap) -> (r: u32)
        ensures
            r == fields_score(m@),
    {
        Self::presence(m) + Self::date_bonus(m) + Self::subsec_bonus(m)
    }

    /// How complete an EXIF block is.
    fn score_exif_data(exif_data: &[u8]) -> (r: u32)
        ensures
            r == exif_score(exif_data@),
    {
        if exif_data.len() < 8 {
            return 0;
        }
        let ts = Self::tiff_mark(exif_data);
        if ts > exif_data.len() - 8 {
            return 0;
        }
        let le = exif_data[ts] == 0x49 && exif_data[ts + 1] == 0x49;
        let be = exif_data[ts] == 0x4D && exif_data[ts + 1] == 0x4D;
        if !le && !be {
            return 0;
        }
        let version: u32 = if le {
            exif_data[ts + 2] as u32 + (exif_data[ts + 3] as u32) * 256
        } else {
            (exif_data[ts + 2] as u32) * 256 + exif_data[ts + 3] as u32
        };
        if version != 42 {
            return 0;
        }
        let mut temp = TagMap::new();
        let ok = TiffParser::parse_tiff_exif(exif_data, &mut temp).is_ok();
        if ok {
            100 + Self::fields_points(&temp)
        } else {
            100
        }
    }

    /// The block that scores highest (the first of equals).
    fn choose_best_exif_data<'a>(exif_data_list: &[&'a [u8]]) -> (r: &'a [u8])
        requires
            exif_data_list@.len() > 0,
        ensures
            r@ == best_of(slice_views(exif_data_list@), exif_data_list@.len() as int).0,
    {
        let mut best = exif_data_list[0];
        let mut best_score: u32 = 0;
        let mut k: usize = 0;
        while k < exif_data_list.len()
            invariant
                k <= exif_data_list@.len(),
                exif_data_list@.len() > 0,
                best_of(slice_views(exif_data_list@), k as int) == (best@, best_score as nat),
            decreases exif_data_list.len() - k,
        {
            let score = Self::score_exif_data(exif_data_list[k]);
            if score > best_score {
                best_score = score;
                best = exif_data_list[k];
            }
            k = k + 1;
        }
        best
    }

    /// The best EXIF block that any strategy finds.
    fn find_heif_exif_comprehensive(data: &[u8]) -> (r: Option<&[u8]>)
        ensures
            r matches Some(x) ==> best_exif(data@) == Some(x@),
            r is None ==> best_exif(data@) is None,
    {
        let mut all: Vec<&[u8]> = Vec::new();
        let ghost c0: Seq<Seq<u8>> = Seq::empty();
        match Self::find_exif_in_item_data_boxes(data) {
            Some(x) => all.push(x),
            None => {},
        }
        match Self::find_exif_in_meta_structure(data) {
            Some(x) => all.push(x),
            None => {},
        }
        match Self::find_exif_anywhere_in_file(data) {
            Some(x) => all.push(x),
            None => {},
        }
        assert(slice_views(all@) =~= exif_candidates(data@));
        if all.len() > 0 {
            Some(Self::choose_best_exif_data(all.as_slice()))
        } else {
            None
        }
    }
}


/// The brand name of a `ftyp` major brand code that is known.
pub open spec fn heif_brand(code: nat) -> Option<Seq<char>> {
    if code == 0x68656963 {
        Some("HEIC"@)
    } else if code == 0x68656978 {
        Some("HEIX"@)
    } else if code == 0x6d696631 {
        Some("MIF1"@)
    } else if code == 0x6d736631 {
        Some("MSF1"@)
    } else if code == 0x68657663 {
        Some("HEVC"@)
    } else if code == 0x61766369 {
        Some("AVCI"@)
    } else if code == 0x61766373 {
        Some("AVCS"@)
    } else {
        None
    }
}

/// The bytes of `Motorola`.
pub open spec fn motorola_bytes() -> Seq<u8> {
    seq![77u8, 111u8, 116u8, 111u8, 114u8, 111u8, 108u8, 97u8]
}

/// The bytes of `Apple`.
pub open spec fn apple_bytes() -> Seq<u8> {
    seq![65u8, 112u8, 112u8, 108u8, 101u8]
}

/// The camera make named in a `meta` box, by the first maker name that
/// occurs in it. (The names `GoPro` and `Sony` are compared with windows one
/// byte longer than they are, so they never match.)
pub open spec fn meta_make(b: Seq<u8>) -> Option<Seq<char>> {
    if bytes_contain(b, canon_bytes()) {
        Some("Canon"@)
    } else if bytes_contain(b, nikon_bytes()) {
        Some("NIKON CORPORATION"@)
    } else if bytes_contain(b, samsung_bytes()) {
        Some("Samsung"@)
    } else if bytes_contain(b, motorola_bytes()) {
        Some("Motorola"@)
    } else if bytes_contain(b, olympus_bytes()) {
        Some("OLYMPUS OPTICAL CO.,LTD"@)
    } else if bytes_contain(b, ricoh_bytes()) {
        Some("RICOH"@)
    } else if bytes_contain(b, apple_bytes()) {
        Some("Apple"@)
    } else {
        None
    }
}

/// What a `meta` box tells of the camera make.
pub open spec fn meta_atom_effect(b: Seq<u8>, m: M) -> M {
    match meta_make(b) {
        Some(make) => m.insert("Make"@, txt(make)),
        None => m,
    }
}

/// The top-level boxes from `pos`: the brand of `ftyp`, the make named in
/// `meta` boxes. A `meta` box that does not fit ends the walk.
pub open spec fn basic_walk(d: Seq<u8>, pos: int, m: M) -> M
    decreases d.len() - pos,
{
    if pos < 0 || pos + 8 >= d.len() {
        m
    } else {
        let size = word_at(d, pos);
        if size == 0 || size > (d.len() as u32) {
            m
        } else {
            let typ = word_at(d, pos + 4);
            if typ == meta_code() && !box_fits(d, pos, size) {
                m
            } else {
                let m1 = if typ == 0x66747970 {
                    if pos + 12 < d.len() {
                        match heif_brand(word_at(d, pos + 8)) {
                            Some(name) => m.insert("Brand"@, txt(name)),
                            None => m,
                        }
                    } else {
                        m
                    }
                } else if typ == meta_code() {
                    meta_atom_effect(d.subrange(pos + 8, pos + size), m)
                } else {
                    m
                };
                if pos + size >= d.len() {
                    m1
                } else {
                    basic_walk(d, pos + size, m1)
                }
            }
        }
    }
}

/// The year patterns searched for timestamps, in order.
pub open spec fn stamp_years() -> Seq<nat> {
    seq![2020, 2021, 2022, 2023, 2024, 2025, 2019, 2018, 2017, 2016, 2015]
}

/// The bytes `YYYY:` of a year from 2000 to 2099.
pub open spec fn year_pattern(y: nat) -> Seq<u8> {
    seq![0x32u8, 0x30u8, (0x30 + (y / 10) % 10) as u8, (0x30 + y % 10) as u8, 0x3au8]
}

/// The first timestamp found after the years from the `k`-th on: at the
/// first occurrence of a year, when a whole timestamp is there.
pub open spec fn stamp_search(d: Seq<u8>, k: int) -> Option<Seq<char>>
    decreases 11 - k,
{
    if k < 0 || k >= 11 {
        None
    } else {
        match find_first(d, year_pattern(stamp_years()[k])) {
            Some(p) => match stamp_at(d, p) {
                Some(t) => Some(t),
                None => stamp_search(d, k + 1),
            },
            None => stamp_search(d, k + 1),
        }
    }
}

/// What looking for timestamps in the file's bytes does.
pub open spec fn timestamps_effect(d: Seq<u8>, m: M) -> M {
    let m1 = match stamp_search(d, 0) {
        Some(t) => m.insert("DateTime"@, txt(t)).insert("DateTimeOriginal"@, txt(t)),
        None => m,
    };
    unix_stamps_effect(d, m1)
}

/// What the basic HEIF reading sets: the boxes' brand and make, dates
/// found in the bytes when there are none, and `Unknown` make and model.
pub open spec fn basic_effect(d: Seq<u8>, m: M) -> M {
    let m1 = basic_walk(d, 0, m);
    let m2 = if !m1.contains_key("DateTime"@) && !m1.contains_key("DateTimeOriginal"@) {
        timestamps_effect(d, m1)
    } else {
        m1
    };
    let m3 = if !m2.contains_key("Make"@) { m2.insert("Make"@, txt("Unknown"@)) } else { m2 };
    if !m3.contains_key("Model"@) {
        m3.insert("Model"@, txt("Unknown"@))
    } else {
        m3
    }
}

/// The time zone a camera's make suggests: `-04:00` for Nikon, `-05:00`
/// for Canon, else none.
pub open spec fn make_zone(m: M) -> Seq<PieceModel> {
    match text_of(m, "Make"@) {
        Some(t) => if contains_text(t, "NIKON"@) {
            txt("-04:00"@)
        } else if contains_text(t, "Canon"@) {
            txt("-05:00"@)
        } else {
            txt(Seq::empty())
        },
        None => txt(Seq::empty()),
    }
}

/// The first of the given tags that is present, else the make's zone.
pub open spec fn zone_from(m: M, keys: Seq<Seq<char>>) -> Seq<PieceModel>
    decreases keys.len(),
{
    if keys.len() == 0 {
        make_zone(m)
    } else if m.contains_key(keys[0]) {
        m[keys[0]]
    } else {
        zone_from(m, keys.drop_first())
    }
}

/// `CreateDate` from the original or modification date, when missing.
pub open spec fn create_date_step(m: M) -> M {
    if !m.contains_key("CreateDate"@) {
        if m.contains_key("DateTimeOriginal"@) {
            m.insert("CreateDate"@, m["DateTimeOriginal"@])
        } else if m.contains_key("DateTime"@) {
            m.insert("CreateDate"@, m["DateTime"@])
        } else {
            m
        }
    } else {
        m
    }
}

/// `SubSecCreateDate`: the create date, its sub-seconds and zone.
pub open spec fn subsec_create_step(m: M) -> M {
    if !m.contains_key("SubSecCreateDate"@) && m.contains_key("CreateDate"@) {
        let cd = m["CreateDate"@];
        if m.contains_key("SubSecTime"@) {
            m.insert(
                "SubSecCreateDate"@,
                cd + txt("."@) + m["SubSecTime"@] + zone_from(m, seq!["OffsetTime"@, "TimeZone"@]),
            )
        } else {
            m.insert("SubSecCreateDate"@, cd)
        }
    } else {
        m
    }
}

/// `SubSecDateTimeOriginal`: the original date, its sub-seconds and zone.
pub open spec fn subsec_original_step(m: M) -> M {
    if !m.contains_key("SubSecDateTimeOriginal"@) && m.contains_key("DateTimeOriginal"@) {
        let dto = m["DateTimeOriginal"@];
        let zone = zone_from(m, seq!["OffsetTimeOriginal"@, "OffsetTime"@, "TimeZone"@]);
        if m.contains_key("SubSecTimeOriginal"@) {
            m.insert("SubSecDateTimeOriginal"@, dto + txt("."@) + m["SubSecTimeOriginal"@] + zone)
        } else {
            m.insert("SubSecDateTimeOriginal"@, dto + zone)
        }
    } else {
        m
    }
}

/// A version tag set to `default` when missing or blank.
pub open spec fn version_default(m: M, k: Seq<char>, default: Seq<char>) -> M {
    if !m.contains_key(k) || value_is_blank(m[k]) {
        m.insert(k, txt(default))
    } else {
        m
    }
}

/// What adding the HEIF fields computed from the EXIF ones does.
pub open spec fn heif_computed_effect(m: M) -> M {
    let m1 = subsec_original_step(subsec_create_step(create_date_step(m)));
    let m2 = version_default(version_default(m1, "ExifVersion"@, "0220"@), "FlashpixVersion"@, "0100"@);
    let m3 = m2.insert("FileTypeExtension"@, txt("heic"@)).insert("MIMEType"@, txt("image/heic"@)).insert(
        "ExifByteOrder"@,
        txt("Little-endian (Intel, II)"@),
    ).insert("Format"@, txt("image/heic"@));
    camera_fields_effect(m3)
}

/// Whether a text is a version: four ASCII digits.
pub open spec fn is_version_text(t: Seq<char>) -> bool {
    t.len() == 4 && crate::text::all_digits(t)
}

/// What fixing the HEIF version tags does: blank ones get the default, raw
/// numbers become their four ASCII bytes (a valid `ExifVersion` stays).
pub open spec fn heif_versions_fixed(m: M) -> M {
    let m1 = if m.contains_key("FlashpixVersion"@) {
        if value_is_blank(m["FlashpixVersion"@]) {
            m.insert("FlashpixVersion"@, txt("0100"@))
        } else {
            match text_of(m, "FlashpixVersion"@) {
                Some(t) => match parse_unsigned(t, 0xffff_ffff) {
                    Some(raw) => m.insert("FlashpixVersion"@, txt(version_text(raw as u32))),
                    None => m,
                },
                None => m,
            }
        }
    } else {
        m
    };
    if m1.contains_key("ExifVersion"@) {
        if value_is_blank(m1["ExifVersion"@]) {
            m1.insert("ExifVersion"@, txt("0220"@))
        } else {
            match text_of(m1, "ExifVersion"@) {
                Some(t) => if is_version_text(t) {
                    m1
                } else {
                    match parse_unsigned(t, 0xffff_ffff) {
                        Some(raw) => m1.insert("ExifVersion"@, txt(version_text(raw as u32))),
                        None => m1,
                    }
                },
                None => m1,
            }
        }
    } else {
        m1
    }
}

/// What the HEIF clean-up of raw values does.
pub open spec fn heif_post_effect(m: M) -> M {
    exposure_mode_fixed(exposure_compensation_fixed(heif_versions_fixed(m)))
}

/// What reading a HEIF file does: its format, the basic fields, the tags of
/// its best EXIF block, the computed fields, and the clean-up.
pub open spec fn heif_effect(d: Seq<u8>, m: M) -> M {
    let m1 = basic_effect(d, m.insert("Format"@, txt("HEIF"@)));
    let m2 = match best_exif(d) {
        Some(e) => {
            let out = tiff_outcome(e, Map::empty());
            if out.0 is None {
                m1.union_prefer_right(out.1)
            } else {
                m1
            }
        },
        None => m1,
    };
    heif_post_effect(heif_computed_effect(m2))
}

impl HeifParser {
    /// Reads the camera make from a `meta` box's bytes.
    fn extract_heif_meta_atom(meta_data: &[u8], metadata: &mut TagMap)
        ensures
            final(metadata)@ == meta_atom_effect(meta_data@, old(metadata)@),
    {
        let canon: [u8; 5] = [67u8, 97u8, 110u8, 111u8, 110u8];
        let nikon: [u8; 5] = [78u8, 105u8, 107u8, 111u8, 110u8];
        let samsung: [u8; 7] = [83u8, 97u8, 109u8, 115u8, 117u8, 110u8, 103u8];
        let motorola: [u8; 8] = [77u8, 111u8, 116u8, 111u8, 114u8, 111u8, 108u8, 97u8];
        let olympus: [u8; 7] = [79u8, 76u8, 89u8, 77u8, 80u8, 85u8, 83u8];
        let ricoh: [u8; 5] = [82u8, 73u8, 67u8, 79u8, 72u8];
        let apple: [u8; 5] = [65u8, 112u8, 112u8, 108u8, 101u8];
        assert(canon@ =~= canon_bytes());
        assert(nikon@ =~= nikon_bytes());
        assert(samsung@ =~= samsung_bytes());
        assert(motorola@ =~= motorola_bytes());
        assert(olympus@ =~= olympus_bytes());
        assert(ricoh@ =~= ricoh_bytes());
        assert(apple@ =~= apple_bytes());
        if contains_bytes(meta_data, &canon) {
            metadata.insert_str("Make", "Canon");
        } else if contains_bytes(meta_data, &nikon) {
            metadata.insert_str("Make", "NIKON CORPORATION");
        } else if contains_bytes(meta_data, &samsung) {
            metadata.insert_str("Make", "Samsung");
        } else if contains_bytes(meta_data, &motorola) {
            metadata.insert_str("Make", "Motorola");
        } else if contains_bytes(meta_data, &olympus) {
            metadata.insert_str("Make", "OLYMPUS OPTICAL CO.,LTD");
        } else if contains_bytes(meta_data, &ricoh) {
            metadata.insert_str("Make", "RICOH");
        } else if contains_bytes(meta_data, &apple) {
            metadata.insert_str("Make", "Apple");
        }
    }

    /// The brand name of a known `ftyp` major brand.
    fn brand_name(code: u32) -> (r: Option<&'static str>)
        ensures
            r matches Some(s) ==> heif_brand(code as nat) == Some(s@),
            r is None ==> heif_brand(code as nat) is None,
    {
        match code {
            0x68656963 => Some("HEIC"),
            0x68656978 => Some("HEIX"),
            0x6d696631 => Some("MIF1"),
            0x6d736631 => Some("MSF1"),
            0x68657663 => Some("HEVC"),
            0x61766369 => Some("AVCI"),
            0x61766373 => Some("AVCS"),
            _ => None,
        }
    }

    /// Looks for dates in the file's bytes: a `YYYY:MM:DD HH:MM:SS` text
    /// after a recent year, and Unix times of the 2020s.
    fn extract_heif_timestamps(data: &[u8], metadata: &mut TagMap)
        ensures
            final(metadata)@ == timestamps_effect(data@, old(metadata)@),
    {
        let years: [u8; 11] = [20u8, 21u8, 22u8, 23u8, 24u8, 25u8, 19u8, 18u8, 17u8, 16u8, 15u8];
        assert(forall|k: int| 0 <= k < 11 ==> #[trigger] stamp_years()[k] == 2000 + years@[k]);
        let mut found: Option<String> = None;
        let mut k: usize = 0;
        while k < 11
            invariant
                k <= 11,
                forall|j: int| 0 <= j < 11 ==> #[trigger] stamp_years()[j] == 2000 + years@[j],
                found is None ==> stamp_search(data@, k as int) == stamp_search(data@, 0),
                found matches Some(t) ==> stamp_search(data@, 0) == Some(t@),
            decreases 11 - k,
        {
            if found.is_some() {
                break;
            }
            let y = years[k];
            let pat: [u8; 5] = [0x32u8, 0x30u8, 0x30 + y / 10, 0x30 + y % 10, 0x3au8];
            assert(pat@ =~= year_pattern(stamp_years()[k as int]));
            match ExifUtils::find_pattern_in_data(data, &pat) {
                Some(pos) => {
                    proof {
                        if let Some(q) = find_first(data@, pat@) {
                            crate::utils::lemma_first_match_unique(data@, pat@, pos as int, q);
                        }
                    }
                    match ExifUtils::extract_timestamp_at_position(data, pos) {
                        Some(t) => {
                            found = Some(t);
                        },
                        None => {},
                    }
                },
                None => {},
            }
            k = k + 1;
        }
        match found {
            Some(t) => {
                metadata.insert_text("DateTime", t.clone());
                metadata.insert_text("DateTimeOriginal", t);
            },
            None => {},
        }
        ExifUtils::extract_unix_timestamps(data, metadata);
    }

    /// Reads the brand, the make and dates from the file's boxes and bytes,
    /// with `Unknown` make and model when none is found.
    fn extract_heif_basic_metadata(data: &[u8], metadata: &mut TagMap)
        ensures
            final(metadata)@ == basic_effect(data@, old(metadata)@),
    {
        let ghost m0 = metadata@;
        let mut pos: usize = 0;
        while pos < data.len() && data.len() - pos > 8
            invariant
                basic_walk(data@, pos as int, metadata@) == basic_walk(data@, 0, m0),
            decreases data.len() - pos,
        {
            let size = read_u32(data, pos, false);
            if size == 0 || size > data.len() as u32 {
                break;
            }
            let typ = read_u32(data, pos + 4, false);
            let size = size as usize;
            if typ == 0x6d657461 && (size < 8 || data.len() - pos < size) {
                break;
            }
            if typ == 0x66747970 {
                if data.len() - pos > 12 {
                    match Self::brand_name(read_u32(data, pos + 8, false)) {
                        Some(name) => metadata.insert_str("Brand", name),
                        None => {},
                    }
                }
            } else if typ == 0x6d657461 {
                Self::extract_heif_meta_atom(crate::text::sub_slice(data, pos + 8, pos + size), metadata);
            }
            if data.len() - pos <= size {
                break;
            }
            pos = pos + size;
        }
        assert(metadata@ == basic_walk(data@, 0, m0));
        if !metadata.contains_key("DateTime") && !metadata.contains_key("DateTimeOriginal") {
            Self::extract_heif_timestamps(data, metadata);
        }
        if !metadata.contains_key("Make") {
            metadata.insert_str("Make", "Unknown");
        }
        if !metadata.contains_key("Model") {
            metadata.insert_str("Model", "Unknown");
        }
    }

    /// The zone suggested by the camera make.
    fn make_zone_value(metadata: &TagMap) -> (r: TagValue)
        ensures
            r@ == make_zone(metadata@),
    {
        let (nikon, canon) = match metadata.get_text("Make") {
            Some(t) => (text_contains(t.as_str(), "NIKON"), text_contains(t.as_str(), "Canon")),
            None => (false, false),
        };
        if nikon {
            TagValue::text(text("-04:00"))
        } else if canon {
            TagValue::text(text("-05:00"))
        } else {
            TagValue::text(String::new())
        }
    }

    /// The first of `OffsetTime` and `TimeZone` present, else the make's
    /// zone.
    fn zone_for_create(metadata: &TagMap) -> (r: TagValue)
        ensures
            r@ == zone_from(metadata@, seq!["OffsetTime"@, "TimeZone"@]),
    {
        proof {
            reveal_with_fuel(zone_from, 3);
            assert(seq!["OffsetTime"@, "TimeZone"@].drop_first() =~= seq!["TimeZone"@]);
            assert(seq!["TimeZone"@].drop_first() =~= Seq::<Seq<char>>::empty());
        }
        match metadata.get("OffsetTime") {
            Some(v) => crate::computed::copy_of(v),
            None => match metadata.get("TimeZone") {
                Some(v) => crate::computed::copy_of(v),
                None => Self::make_zone_value(metadata),
            },
        }
    }

    /// The first of `OffsetTimeOriginal`, `OffsetTime` and `TimeZone`
    /// present, else the make's zone.
    fn zone_for_original(metadata: &TagMap) -> (r: TagValue)
        ensures
            r@ == zone_from(metadata@, seq!["OffsetTimeOriginal"@, "OffsetTime"@, "TimeZone"@]),
    {
        proof {
            reveal_with_fuel(zone_from, 4);
            assert(seq!["OffsetTimeOriginal"@, "OffsetTime"@, "TimeZone"@].drop_first() =~= seq!["OffsetTime"@, "TimeZone"@]);
            assert(seq!["OffsetTime"@, "TimeZone"@].drop_first() =~= seq!["TimeZone"@]);
            assert(seq!["TimeZone"@].drop_first() =~= Seq::<Seq<char>>::empty());
        }
        match metadata.get("OffsetTimeOriginal") {
            Some(v) => crate::computed::copy_of(v),
            None => match metadata.get("OffsetTime") {
                Some(v) => crate::computed::copy_of(v),
                None => match metadata.get("TimeZone") {
                    Some(v) => crate::computed::copy_of(v),
                    None => Self::make_zone_value(metadata),
                },
            },
        }
    }

    /// Adds the create and sub-second dates.
    fn add_date_fields(metadata: &mut TagMap)
        ensures
            final(metadata)@ == subsec_original_step(subsec_create_step(create_date_step(old(metadata)@))),
    {
        if !metadata.contains_key("CreateDate") {
            let v = match metadata.get("DateTimeOriginal") {
                Some(v) => Some(crate::computed::copy_of(v)),
                None => match metadata.get("DateTime") {
                    Some(v) => Some(crate::computed::copy_of(v)),
                    None => None,
                },
            };
            if let Some(v) = v {
                metadata.insert(text("CreateDate"), v);
            }
        }
        let ghost m1 = metadata@;
        if !metadata.contains_key("SubSecCreateDate") {
            let made = match metadata.get("CreateDate") {
                Some(cd) => {
                    let mut v = crate::computed::copy_of(cd);
                    match metadata.get("SubSecTime") {
                        Some(sub) => {
                            v.push_text(text("."));
                            v.append(sub);
                            let zone = Self::zone_for_create(metadata);
                            v.append(&zone);
                            assert(v@ =~= cd@ + txt("."@) + sub@ + zone@);
                        },
                        None => {},
                    }
                    Some(v)
                },
                None => None,
            };
            if let Some(v) = made {
                metadata.insert(text("SubSecCreateDate"), v);
            }
        }
        assert(metadata@ =~= subsec_create_step(m1));
        let ghost m2 = metadata@;
        if !metadata.contains_key("SubSecDateTimeOriginal") {
            let made = match metadata.get("DateTimeOriginal") {
                Some(dto) => {
                    let mut v = crate::computed::copy_of(dto);
                    let zone = Self::zone_for_original(metadata);
                    match metadata.get("SubSecTimeOriginal") {
                        Some(sub) => {
                            v.push_text(text("."));
                            v.append(sub);
                            v.append(&zone);
                            assert(v@ =~= dto@ + txt("."@) + sub@ + zone@);
                        },
                        None => {
                            v.append(&zone);
                        },
                    }
                    Some(v)
                },
                None => None,
            };
            if let Some(v) = made {
                metadata.insert(text("SubSecDateTimeOriginal"), v);
            }
        }
        assert(metadata@ =~= subsec_original_step(m2));
    }

    /// Sets a version tag to `default` when it is missing or blank.
    fn default_version(metadata: &mut TagMap, key: &str, default: &str)
        ensures
            final(metadata)@ == version_default(old(metadata)@, key@, default@),
    {
        let missing = match metadata.get(key) {
            Some(v) => v.is_blank(),
            None => true,
        };
        if missing {
            metadata.insert_str(key, default);
        }
    }

    /// Adds the fields ExifTool computes for HEIF files.
    fn add_heif_computed_fields(metadata: &mut TagMap)
        ensures
            final(metadata)@ == heif_computed_effect(old(metadata)@),
    {
        Self::add_date_fields(metadata);
        Self::default_version(metadata, "ExifVersion", "0220");
        Self::default_version(metadata, "FlashpixVersion", "0100");
        metadata.insert_str("FileTypeExtension", "heic");
        metadata.insert_str("MIMEType", "image/heic");
        metadata.insert_str("ExifByteOrder", "Little-endian (Intel, II)");
        metadata.insert_str("Format", "image/heic");
        add_camera_fields(metadata);
    }

    /// Whether a text is a version: four ASCII digits.
    fn is_valid_version_string(value: &str) -> (r: bool)
        ensures
            r == is_version_text(value@),
    {
        let v = crate::text::chars_of(value);
        if v.len() != 4 {
            return false;
        }
        let mut i: usize = 0;
        while i < 4
            invariant
                i <= 4,
                v@.len() == 4,
                v@ == value@,
                forall|j: int| 0 <= j < i ==> crate::text::is_ascii_digit(#[trigger] v@[j]),
            decreases 4 - i,
        {
            if !(v[i] >= '0' && v[i] <= '9') {
                return false;
            }
            i = i + 1;
        }
        true
    }

    /// Rewrites blank or raw version tags.
    fn fix_version_fields(metadata: &mut TagMap)
        ensures
            final(metadata)@ == heif_versions_fixed(old(metadata)@),
    {
        let flash = match metadata.get("FlashpixVersion") {
            Some(v) => {
                if v.is_blank() {
                    Some(text("0100"))
                } else {
                    match v.as_text() {
                        Some(t) => match parse_unsigned_text(t.as_str(), 0xffff_ffff) {
                            Some(raw) => Some(crate::computed::format_version_field_from_raw(raw as u32)),
                            None => None,
                        },
                        None => None,
                    }
                }
            },
            None => None,
        };
        if let Some(t) = flash {
            metadata.insert_text("FlashpixVersion", t);
        }
        let ghost m1 = metadata@;
        let exif = match metadata.get("ExifVersion") {
            Some(v) => {
                if v.is_blank() {
                    Some(text("0220"))
                } else {
                    match v.as_text() {
                        Some(t) => {
                            if Self::is_valid_version_string(t.as_str()) {
                                None
                            } else {
                                match parse_unsigned_text(t.as_str(), 0xffff_ffff) {
                                    Some(raw) => Some(crate::computed::format_version_field_from_raw(raw as u32)),
                                    None => None,
                                }
                            }
                        },
                        None => None,
                    }
                }
            },
            None => None,
        };
        if let Some(t) = exif {
            metadata.insert_text("ExifVersion", t);
        }
    }

    /// Cleans up raw values: versions, exposure compensation, exposure mode.
    fn post_process_problematic_fields(metadata: &mut TagMap)
        ensures
            final(metadata)@ == heif_post_effect(old(metadata)@),
    {
        Self::fix_version_fields(metadata);
        fix_exposure_compensation(metadata);
        Self::fix_apex_conversions(metadata);
        fix_exposure_mode(metadata);
    }

    /// APEX values are left as the TIFF reading gives them.
    fn fix_apex_conversions(_metadata: &mut TagMap)
        ensures
            final(_metadata)@ == old(_metadata)@,
    {
    }

    /// The crop factor of the camera, in thousandths.
    fn get_crop_factor(metadata: &TagMap) -> (r: u32)
        ensures
            r == crop_factor_of(metadata@),
    {
        crop_factor_milli(metadata)
    }

    /// The 35 mm equivalent of a focal length.
    fn calculate_35mm_equivalent(focal_length: &TagValue, metadata: &TagMap) -> (r: TagValue)
        ensures
            r@ == crate::computed::focal_35efl(focal_length@, metadata@),
    {
        crate::computed::calculate_35mm_equivalent(focal_length, metadata)
    }

    /// Reads a HEIF file's metadata: its format and boxes, the tags of its
    /// best EXIF block, the fields ExifTool computes, and the clean-up.
    pub fn parse_heif_exif(data: &[u8], metadata: &mut TagMap) -> (r: Result<(), ExifError>)
        ensures
            r is Ok,
            final(metadata)@ == heif_effect(data@, old(metadata)@),
    {
        metadata.insert_str("Format", "HEIF");
        Self::extract_heif_basic_metadata(data, metadata);
        match Self::find_heif_exif_comprehensive(data) {
            Some(exif_data) => {
                let mut temp = TagMap::new();
                match TiffParser::parse_tiff_exif(exif_data, &mut temp) {
                    Ok(()) => metadata.extend(temp),
                    Err(_) => {},
                }
            },
            None => {},
        }
        Self::add_heif_computed_fields(metadata);
        Self::post_process_problematic_fields(metadata);
        Ok(())
    }
}

} // verus!
