//! MOV, MP4 and 3GP reading: the atoms that name the maker, the movie,
//! track and media headers with their dates, EXIF data in user-data
//! atoms, and the fields given defaults.
//!
//! Each walk over the atoms yields the tag settings it makes, in order;
//! `None` stands for an atom layout that the reader cannot take (an atom
//! shorter than its own header, or one that runs past the data).

use vstd::prelude::*;
use crate::bytes::{be32, be64, read_u32, read_u64_be_at, u32_at};
use crate::computed::{add_fnumber_formatted, add_focal_formatted, copy_of, fnumber_formatted_effect, focal_formatted_effect};
use crate::metadata::{num, text_of, txt, PieceModel, Real, RealStyle, TagMap, TagValue};
use crate::nikon_mov::{utc_datetime, utc_datetime_text};
use crate::raw::{raw_dims_effect, RawParser};
use crate::jpeg::{default_to, law_default_keeps, JpegParser};
use crate::text::{sub_slice, text, utf8_text};
use crate::tiff::{result_matches, tiff_outcome, TiffParser};
use crate::types::ExifError;
use vstd::utf8::{decode_utf8, valid_utf8};

verus! {

type M = Map<Seq<char>, Seq<PieceModel>>;

/// A tag setting: a value stored, or stored only when the tag is missing.
pub enum TagAction {
    Store(Seq<char>, Seq<PieceModel>),
    KeepOrStore(Seq<char>, Seq<PieceModel>),
}

/// One setting made.
pub open spec fn apply_action(m: M, a: TagAction) -> M {
    match a {
        TagAction::Store(k, v) => m.insert(k, v),
        TagAction::KeepOrStore(k, v) => if m.contains_key(k) {
            m
        } else {
            m.insert(k, v)
        },
    }
}

/// The settings made in order.
pub open spec fn apply_actions(m: M, a: Seq<TagAction>) -> M
    decreases a.len(),
{
    if a.len() == 0 {
        m
    } else {
        apply_action(apply_actions(m, a.drop_last()), a.last())
    }
}

/// Two runs of settings one after the other; `None` when either is.
pub open spec fn then(a: Option<Seq<TagAction>>, b: Option<Seq<TagAction>>) -> Option<Seq<TagAction>> {
    match (a, b) {
        (Some(x), Some(y)) => Some(x + y),
        _ => None,
    }
}

/// A setting held by the host.
pub enum Action {
    Store(String, TagValue),
    KeepOrStore(String, TagValue),
}

impl View for Action {
    type V = TagAction;

    open spec fn view(&self) -> TagAction {
        match self {
            Action::Store(k, v) => TagAction::Store(k@, v@),
            Action::KeepOrStore(k, v) => TagAction::KeepOrStore(k@, v@),
        }
    }
}

/// The settings of a list of host actions.
pub open spec fn actions_view(v: Seq<Action>) -> Seq<TagAction> {
    v.map_values(|a: Action| a@)
}

/// The atom type code at `p`.
pub open spec fn code4(d: Seq<u8>, p: int) -> nat {
    be32(d[p], d[p + 1], d[p + 2], d[p + 3])
}

pub open spec fn udta_code() -> nat {
    0x75647461
}

pub open spec fn meta_code() -> nat {
    0x6d657461
}

pub open spec fn ilst_code() -> nat {
    0x696c7374
}

pub open spec fn exif_code() -> nat {
    0x45584946
}

pub open spec fn ftyp_code() -> nat {
    0x66747970
}

pub open spec fn mvhd_code() -> nat {
    0x6d766864
}

pub open spec fn moov_code() -> nat {
    0x6d6f6f76
}

pub open spec fn trak_code() -> nat {
    0x7472616b
}

pub open spec fn tkhd_code() -> nat {
    0x746b6864
}

pub open spec fn mdia_code() -> nat {
    0x6d646961
}

pub open spec fn mdhd_code() -> nat {
    0x6d646864
}

pub open spec fn hdlr_code() -> nat {
    0x68646c72
}

pub open spec fn mdir_code() -> nat {
    0x6d646972
}

/// The tag a `©mak`, `©mod` or `©nam` item is stored under.
pub open spec fn item_key(c: nat) -> Option<Seq<char>> {
    if c == 0xa96d616b {
        Some("Make"@)
    } else if c == 0xa96d6f64 {
        Some("Model"@)
    } else if c == 0xa96e616d {
        Some("Title"@)
    } else {
        None
    }
}

/// The four bytes at `p` stored under `k` when they are UTF-8.
pub open spec fn four_text(d: Seq<u8>, p: int, k: Seq<char>) -> Seq<TagAction> {
    if valid_utf8(d.subrange(p, p + 4)) {
        seq![TagAction::Store(k, txt(decode_utf8(d.subrange(p, p + 4))))]
    } else {
        Seq::empty()
    }
}

/// The size of the child atom at `pos` inside `..end`, when the walk goes
/// on: readable, nonzero and within the 32-bit truncation of what is left.
pub open spec fn child_size(d: Seq<u8>, pos: int, end: int) -> Option<nat> {
    if pos + 4 > d.len() {
        None
    } else {
        let size = u32_at(d, pos, false);
        if size == 0 || size > (end - pos) % 4294967296 {
            None
        } else {
            Some(size)
        }
    }
}

/// The items of a user-data or item-list atom from `pos` to `end`.
pub open spec fn user_items(d: Seq<u8>, pos: int, end: int) -> Option<Seq<TagAction>>
    decreases end - pos,
{
    if pos < 0 || pos + 8 >= end {
        Some(Seq::empty())
    } else {
        match child_size(d, pos, end) {
            None => Some(Seq::empty()),
            Some(size) => if pos + 8 > d.len() {
                None
            } else {
                let here = match item_key(code4(d, pos + 4)) {
                    Some(k) => if pos + 12 < end {
                        if pos + 12 > d.len() {
                            None
                        } else {
                            Some(four_text(d, pos + 8, k))
                        }
                    } else {
                        Some(Seq::empty())
                    },
                    None => Some(Seq::empty()),
                };
                then(here, user_items(d, pos + size, end))
            },
        }
    }
}

/// The handler and item list of a meta atom from `pos` to `end`.
pub open spec fn meta_items(d: Seq<u8>, pos: int, end: int) -> Option<Seq<TagAction>>
    decreases end - pos,
{
    if pos < 0 || pos + 8 >= end {
        Some(Seq::empty())
    } else {
        match child_size(d, pos, end) {
            None => Some(Seq::empty()),
            Some(size) => if pos + 8 > d.len() {
                None
            } else {
                let c = code4(d, pos + 4);
                let here = if c == hdlr_code() {
                    if pos + 28 < end {
                        if pos + 20 > d.len() {
                            None
                        } else if code4(d, pos + 16) == mdir_code() {
                            Some(seq![TagAction::Store("HandlerType"@, txt("Metadata"@))])
                        } else {
                            Some(Seq::empty())
                        }
                    } else {
                        Some(Seq::empty())
                    }
                } else if c == ilst_code() {
                    if size < 8 {
                        None
                    } else {
                        user_items(d, pos + 8, pos + size)
                    }
                } else {
                    Some(Seq::empty())
                };
                then(here, meta_items(d, pos + size, end))
            },
        }
    }
}

/// The settings of the top-level atom at `pos` of size `size`.
#[verifier::opaque]
pub open spec fn top_here(d: Seq<u8>, pos: int, size: nat, deep: bool) -> Option<Seq<TagAction>> {
    let c = code4(d, pos + 4);
    if c == ftyp_code() {
        if pos + 12 < d.len() {
            Some(four_text(d, pos + 8, "Brand"@))
        } else {
            Some(Seq::empty())
        }
    } else if c == mvhd_code() {
        Some(seq![TagAction::Store("MovieHeader"@, txt("Present"@))])
    } else if deep && c == udta_code() {
        if size < 8 {
            None
        } else {
            user_items(d, pos + 8, pos + size)
        }
    } else if deep && c == meta_code() {
        if size < 8 {
            None
        } else {
            meta_items(d, pos + 8, pos + size)
        }
    } else {
        Some(Seq::empty())
    }
}

/// The settings of the top-level atoms from `pos`: the brand, the movie
/// header, and, for MOV, the user-data and meta atoms.
pub open spec fn top_basic(d: Seq<u8>, pos: int, deep: bool) -> Option<Seq<TagAction>>
    decreases 2 * d.len() - pos,
{
    if pos < 0 || pos + 8 >= d.len() {
        Some(Seq::empty())
    } else {
        let size = u32_at(d, pos, false);
        if size == 0 || size > d.len() % 4294967296 {
            Some(Seq::empty())
        } else {
            then(top_here(d, pos, size, deep), top_basic(d, pos + size, deep))
        }
    }
}

/// The basic settings: the top-level atoms, then `Unknown` for a missing
/// make or model.
pub open spec fn basic_actions(d: Seq<u8>, deep: bool) -> Option<Seq<TagAction>> {
    then(
        top_basic(d, 0, deep),
        Some(seq![TagAction::KeepOrStore("Make"@, txt("Unknown"@)), TagAction::KeepOrStore("Model"@, txt("Unknown"@))]),
    )
}

/// The EXIF data found in the atoms from `pos` to `end`, looking into
/// user-data, meta and item-list atoms; `Some(None)` when there is none.
pub open spec fn exif_in_atoms(d: Seq<u8>, pos: int, end: int) -> Option<Option<(int, int)>>
    decreases end - pos,
{
    if pos < 0 || pos + 8 >= end {
        Some(None)
    } else {
        match child_size(d, pos, end) {
            None => Some(None),
            Some(size) => if pos + 8 > d.len() {
                None
            } else {
                let c = code4(d, pos + 4);
                if c == exif_code() && size > 8 {
                    if pos + size > d.len() {
                        None
                    } else {
                        Some(Some((pos + 8, pos + size)))
                    }
                } else if c == udta_code() || c == meta_code() || c == ilst_code() {
                    if size < 8 {
                        None
                    } else {
                        match exif_in_atoms(d, pos + 8, pos + size) {
                            None => None,
                            Some(Some(x)) => Some(Some(x)),
                            Some(None) => exif_in_atoms(d, pos + size, end),
                        }
                    }
                } else {
                    exif_in_atoms(d, pos + size, end)
                }
            },
        }
    }
}

/// The EXIF data in the user-data and meta atoms of the top level from
/// `pos`.
pub open spec fn top_exif(d: Seq<u8>, pos: int) -> Option<Option<(int, int)>>
    decreases 2 * d.len() - pos,
{
    if pos < 0 || pos + 8 >= d.len() {
        Some(None)
    } else {
        let size = u32_at(d, pos, false);
        if size == 0 || size > d.len() % 4294967296 {
            Some(None)
        } else {
            let c = code4(d, pos + 4);
            if c == udta_code() || c == meta_code() {
                if size < 8 {
                    None
                } else {
                    match exif_in_atoms(d, pos + 8, pos + size) {
                        None => None,
                        Some(Some(x)) => Some(Some(x)),
                        Some(None) => top_exif(d, pos + size),
                    }
                }
            } else {
                top_exif(d, pos + size)
            }
        }
    }
}

/// The size of the atom at `pos` when the search goes on, with 64-bit
/// sizes (marked by a size of 1) read from the header.
pub open spec fn atom_extent(d: Seq<u8>, pos: int) -> Option<nat> {
    let size = u32_at(d, pos, false);
    if size == 1 {
        if pos + 16 < d.len() {
            let ext = be64(d, pos + 8);
            if ext > d.len() || ext < 16 {
                None
            } else {
                Some(ext)
            }
        } else {
            None
        }
    } else if size == 0 || size > d.len() % 4294967296 {
        None
    } else {
        Some(size)
    }
}

/// What is read from a movie header.
#[derive(Clone, Copy)]
pub enum HeaderUse {
    Duration,
    Creation,
    Modification,
}

/// A QuickTime time as Unix seconds: times after the Unix epoch counted
/// from 1904 are moved; smaller ones are taken as Unix times already.
pub open spec fn qt_unix(c: nat) -> nat {
    if c > 2082844800 {
        (c - 2082844800) as nat
    } else {
        c
    }
}

/// The date of a QuickTime time, when it is after the Unix epoch.
pub open spec fn unix_value(c: nat) -> Option<Seq<PieceModel>> {
    if qt_unix(c) > 0 {
        Some(txt(utc_datetime_text(qt_unix(c) as i64)))
    } else {
        None
    }
}

/// What a movie header gives: the duration in seconds with two decimals,
/// or the creation or modification date.
pub open spec fn mvhd_value(kind: HeaderUse, p: Seq<u8>) -> Option<Seq<PieceModel>> {
    match kind {
        HeaderUse::Duration => if p.len() >= 24 && u32_at(p, 12, false) > 0 {
            Some(num(Real { num: u32_at(p, 16, false) as i64, den: u32_at(p, 12, false) as u64, style: RealStyle::Fixed(2) }) + txt(" s"@))
        } else {
            None
        },
        HeaderUse::Creation => if p.len() >= 16 {
            unix_value(u32_at(p, 4, false))
        } else {
            None
        },
        HeaderUse::Modification => if p.len() >= 20 {
            unix_value(u32_at(p, 8, false))
        } else {
            None
        },
    }
}

/// The value of the first movie header found from `pos`, looking into
/// movie atoms; `Some(None)` when there is none, or when the header found
/// gives nothing.
pub open spec fn mvhd_search(d: Seq<u8>, pos: int, kind: HeaderUse) -> Option<Option<Seq<PieceModel>>>
    decreases d.len(), 2 * d.len() - pos,
{
    if pos < 0 || pos + 8 >= d.len() {
        Some(None)
    } else {
        match atom_extent(d, pos) {
            None => Some(None),
            Some(a) => {
                let c = code4(d, pos + 4);
                if c == mvhd_code() || c == moov_code() {
                    if a < 8 || pos + a > d.len() {
                        None
                    } else if c == mvhd_code() {
                        Some(mvhd_value(kind, d.subrange(pos + 8, pos + a)))
                    } else {
                        match mvhd_search(d.subrange(pos + 8, pos + a), 0, kind) {
                            None => None,
                            Some(Some(v)) => Some(Some(v)),
                            Some(None) => mvhd_search(d, pos + a, kind),
                        }
                    }
                } else {
                    mvhd_search(d, pos + a, kind)
                }
            },
        }
    }
}

/// The movie-header value found from movie atoms located backwards from
/// position `p`.
pub open spec fn moov_from_end(d: Seq<u8>, p: int, kind: HeaderUse) -> Option<Option<Seq<PieceModel>>>
    decreases p,
{
    if p < 7 || p >= d.len() {
        Some(None)
    } else {
        let here = if p >= 8 && code4(d, p - 4) == moov_code() {
            let size = u32_at(d, p - 8, false);
            if size > 0 && p - 8 + size <= d.len() {
                mvhd_search(d.subrange(p - 8, p - 8 + size), 0, kind)
            } else {
                Some(None)
            }
        } else {
            Some(None)
        };
        match here {
            None => None,
            Some(Some(v)) => Some(Some(v)),
            Some(None) => moov_from_end(d, p - 1, kind),
        }
    }
}

/// The movie-header value: searched from the start, then from the end.
pub open spec fn find_mvhd(d: Seq<u8>, kind: HeaderUse) -> Option<Option<Seq<PieceModel>>> {
    match mvhd_search(d, 0, kind) {
        None => None,
        Some(Some(v)) => Some(Some(v)),
        Some(None) => moov_from_end(d, d.len() - 1, kind),
    }
}

/// The payload bounds of the first atom with code `code` at the top of
/// `t` from `pos`.
pub open spec fn first_header(t: Seq<u8>, pos: int, code: nat) -> Option<Option<(int, int)>>
    decreases 2 * t.len() - pos,
{
    if pos < 0 || pos + 8 >= t.len() {
        Some(None)
    } else {
        let size = u32_at(t, pos, false);
        if size == 0 || size > t.len() % 4294967296 {
            Some(None)
        } else if code4(t, pos + 4) == code {
            if size < 8 || pos + size > t.len() {
                None
            } else {
                Some(Some((pos + 8, pos + size)))
            }
        } else {
            first_header(t, pos + size, code)
        }
    }
}

/// The dates of a track or media header: its creation and modification
/// times under `ck` and `mk`, and as the file's dates when those are
/// missing.
pub open spec fn date_actions(p: Seq<u8>, ck: Seq<char>, mk: Seq<char>) -> Seq<TagAction> {
    if p.len() >= 20 {
        let c = u32_at(p, 4, false);
        let mo = u32_at(p, 8, false);
        let a = if c > 0 {
            let v = txt(utc_datetime_text(qt_unix(c) as i64));
            seq![TagAction::Store(ck, v), TagAction::KeepOrStore("CreateDate"@, v)]
        } else {
            Seq::empty()
        };
        let b = if mo > 0 {
            let v = txt(utc_datetime_text(qt_unix(mo) as i64));
            seq![TagAction::Store(mk, v), TagAction::KeepOrStore("ModifyDate"@, v)]
        } else {
            Seq::empty()
        };
        a + b
    } else {
        Seq::empty()
    }
}

/// The dates of the first header atom `code` in `t`.
pub open spec fn header_dates(t: Seq<u8>, code: nat, ck: Seq<char>, mk: Seq<char>) -> Option<Seq<TagAction>> {
    match first_header(t, 0, code) {
        None => None,
        Some(None) => Some(Seq::empty()),
        Some(Some((a, b))) => Some(date_actions(t.subrange(a, b), ck, mk)),
    }
}

/// The track dates of the track atoms from `pos`, looking into movie
/// atoms.
pub open spec fn trak_walk(d: Seq<u8>, pos: int) -> Option<Seq<TagAction>>
    decreases d.len(), 2 * d.len() - pos,
{
    if pos < 0 || pos + 8 >= d.len() {
        Some(Seq::empty())
    } else {
        match atom_extent(d, pos) {
            None => Some(Seq::empty()),
            Some(a) => {
                let c = code4(d, pos + 4);
                if c == trak_code() || c == moov_code() {
                    if a < 8 || pos + a > d.len() {
                        None
                    } else {
                        let sub = d.subrange(pos + 8, pos + a);
                        let here = if c == trak_code() {
                            header_dates(sub, tkhd_code(), "TrackCreateDate"@, "TrackModifyDate"@)
                        } else {
                            trak_walk(sub, 0)
                        };
                        then(here, trak_walk(d, pos + a))
                    }
                } else {
                    trak_walk(d, pos + a)
                }
            },
        }
    }
}

/// The media dates of the media atoms from `pos`, looking into track and
/// movie atoms.
pub open spec fn mdia_walk(d: Seq<u8>, pos: int) -> Option<Seq<TagAction>>
    decreases d.len(), 2 * d.len() - pos,
{
    if pos < 0 || pos + 8 >= d.len() {
        Some(Seq::empty())
    } else {
        match atom_extent(d, pos) {
            None => Some(Seq::empty()),
            Some(a) => {
                let c = code4(d, pos + 4);
                if c == mdia_code() || c == trak_code() || c == moov_code() {
                    if a < 8 || pos + a > d.len() {
                        None
                    } else {
                        let sub = d.subrange(pos + 8, pos + a);
                        let here = if c == mdia_code() {
                            header_dates(sub, mdhd_code(), "MediaCreateDate"@, "MediaModifyDate"@)
                        } else {
                            mdia_walk(sub, 0)
                        };
                        then(here, mdia_walk(d, pos + a))
                    }
                } else {
                    mdia_walk(d, pos + a)
                }
            },
        }
    }
}

/// A movie-header value stored under the given tags.
pub open spec fn header_stores(r: Option<Option<Seq<PieceModel>>>, keys: Seq<Seq<char>>) -> Option<Seq<TagAction>> {
    match r {
        None => None,
        Some(None) => Some(Seq::empty()),
        Some(Some(v)) => Some(Seq::new(keys.len(), |i: int| TagAction::Store(keys[i], v))),
    }
}

/// The settings of the duration and of every date found.
pub open spec fn time_actions(d: Seq<u8>) -> Option<Seq<TagAction>> {
    then(
        then(
            then(
                then(
                    header_stores(find_mvhd(d, HeaderUse::Duration), seq!["Duration"@]),
                    header_stores(find_mvhd(d, HeaderUse::Creation), seq!["CreateDate"@, "CreationDate"@]),
                ),
                header_stores(find_mvhd(d, HeaderUse::Modification), seq!["ModifyDate"@]),
            ),
            trak_walk(d, 0),
        ),
        mdia_walk(d, 0),
    )
}

/// The three containers read.
#[derive(Clone, Copy)]
pub enum VideoKind {
    Mov,
    Mp4,
    ThreeGp,
}

/// The settings of a file of the given kind, before its EXIF data.
pub open spec fn video_actions(d: Seq<u8>, kind: VideoKind) -> Option<Seq<TagAction>> {
    let basic = match kind {
        VideoKind::Mov => basic_actions(d, true),
        VideoKind::Mp4 => basic_actions(d, false),
        VideoKind::ThreeGp => then(basic_actions(d, false), Some(seq![TagAction::Store("Format"@, txt("3GP"@))])),
    };
    then(basic, time_actions(d))
}

/// Whether the reader can take the file's atom layout.
pub open spec fn video_readable(d: Seq<u8>, kind: VideoKind) -> bool {
    video_actions(d, kind) is Some && top_exif(d, 0) is Some
}

/// The format tags set first.
pub open spec fn video_head(kind: VideoKind, m: M) -> M {
    match kind {
        VideoKind::Mov => m.insert("Format"@, txt("MOV"@)).insert("FileType"@, txt("MOV"@)).insert(
            "FileTypeExtension"@,
            txt("mov"@),
        ).insert("MIMEType"@, txt("video/quicktime"@)),
        VideoKind::Mp4 => m.insert("Format"@, txt("MP4"@)).insert("FileType"@, txt("MP4"@)).insert(
            "FileTypeExtension"@,
            txt("mp4"@),
        ).insert("MIMEType"@, txt("video/mp4"@)),
        VideoKind::ThreeGp => m.insert("Format"@, txt("3GP"@)),
    }
}

/// The extension and MIME type by the stored format.
pub open spec fn format_type(m: M) -> M {
    if m.contains_key("Format"@) {
        let t = text_of(m, "Format"@);
        if t == Some("MP4"@) {
            m.insert("FileTypeExtension"@, txt("mp4"@)).insert("MIMEType"@, txt("video/mp4"@))
        } else if t == Some("3GP"@) {
            m.insert("FileTypeExtension"@, txt("3gp"@)).insert("MIMEType"@, txt("video/3gpp"@))
        } else {
            m.insert("FileTypeExtension"@, txt("mov"@)).insert("MIMEType"@, txt("video/quicktime"@))
        }
    } else {
        m
    }
}

/// The computed fields of a video file.
pub open spec fn video_computed(m: M) -> M {
    fnumber_formatted_effect(
        focal_formatted_effect(raw_dims_effect(format_type(m).insert("ExifByteOrder"@, txt("Little-endian (Intel, II)"@)))),
    )
}

/// The defaults stored for missing video fields.
pub open spec fn video_defaults(m: M) -> M {
    let a = default_to(default_to(default_to(default_to(default_to(m, "Duration"@, "0.00 s"@), "VideoFrameRate"@, "30"@),
        "VideoCodec"@, "H.264"@), "AudioCodec"@, "AAC"@), "ImageWidth"@, "1920"@);
    let b = default_to(default_to(default_to(default_to(default_to(a, "ImageHeight"@, "1080"@), "ImageSize"@, "1920x1080"@),
        "CreationDate"@, ""@), "ModifyDate"@, ""@), "Title"@, ""@);
    let c = default_to(default_to(default_to(default_to(default_to(b, "Artist"@, ""@), "Description"@, ""@), "Comment"@, ""@),
        "Software"@, ""@), "Copyright"@, ""@);
    let e = default_to(default_to(default_to(default_to(default_to(c, "GPSCoordinates"@, ""@), "GPSLatitude"@, ""@),
        "GPSLongitude"@, ""@), "GPSAltitude"@, ""@), "VideoBitrate"@, ""@);
    default_to(default_to(default_to(default_to(default_to(e, "AudioBitrate"@, ""@), "AudioSampleRate"@, ""@),
        "AudioChannels"@, ""@), "Brand"@, ""@), "MovieHeader"@, ""@)
}

/// The computed fields and defaults added at the end.
pub open spec fn video_finish(m: M) -> M {
    video_defaults(video_computed(m))
}

/// What reading a video file of a readable layout gives: the format
/// tags, the atoms' settings, the EXIF data's tags and the computed and
/// default fields; the error of the EXIF reading with the tags read up to
/// it.
pub open spec fn video_outcome(d: Seq<u8>, kind: VideoKind, m: M) -> (Option<Seq<char>>, M) {
    let m1 = apply_actions(video_head(kind, m), video_actions(d, kind).unwrap());
    match top_exif(d, 0).unwrap() {
        Some((s, e)) => {
            let (err, m2) = tiff_outcome(d.subrange(s, e), m1);
            if err is Some {
                (err, m2)
            } else {
                (None, video_finish(m2))
            }
        },
        None => (None, video_finish(m1)),
    }
}

/// The video parser.
pub struct VideoParser;

impl VideoParser {
    /// Applies settings in order.
    fn apply(metadata: &mut TagMap, actions: &Vec<Action>)
        ensures
            final(metadata)@ == apply_actions(old(metadata)@, actions_view(actions@)),
    {
        let mut i: usize = 0;
        while i < actions.len()
            invariant
                i <= actions@.len(),
                metadata@ == apply_actions(old(metadata)@, actions_view(actions@).take(i as int)),
            decreases actions.len() - i,
        {
            match &actions[i] {
                Action::Store(k, v) => {
                    metadata.insert(copy_text(k), copy_of(v));
                },
                Action::KeepOrStore(k, v) => {
                    if !metadata.contains_key(k.as_str()) {
                        metadata.insert(copy_text(k), copy_of(v));
                    }
                },
            }
            assert(actions_view(actions@).take(i + 1).drop_last() =~= actions_view(actions@).take(i as int));
            i = i + 1;
        }
        assert(actions_view(actions@).take(i as int) =~= actions_view(actions@));
    }
}

/// The host action storing `v` under `k`.
fn store(k: &str, v: String) -> (a: Action)
    ensures
        a@ == TagAction::Store(k@, txt(v@)),
{
    Action::Store(text(k), TagValue::text(v))
}

/// The tag a `©mak`, `©mod` or `©nam` item is stored under.
fn item_key_of(c: u32) -> (r: Option<&'static str>)
    ensures
        r matches Some(k) ==> item_key(c as nat) == Some(k@),
        r is None ==> item_key(c as nat) is None,
{
    if c == 0xa96d616b {
        Some("Make")
    } else if c == 0xa96d6f64 {
        Some("Model")
    } else if c == 0xa96e616d {
        Some("Title")
    } else {
        None
    }
}

/// Appends copies of `items` to `acts`.
fn append_actions(acts: &mut Vec<Action>, items: &Vec<Action>)
    ensures
        actions_view(final(acts)@) == actions_view(old(acts)@) + actions_view(items@),
{
    let ghost before = actions_view(acts@);
    let mut k: usize = 0;
    while k < items.len()
        invariant
            k <= items@.len(),
            actions_view(acts@) == before + actions_view(items@).take(k as int),
        decreases items.len() - k,
    {
        let a = match &items[k] {
            Action::Store(key, v) => Action::Store(copy_text(key), copy_of(v)),
            Action::KeepOrStore(key, v) => Action::KeepOrStore(copy_text(key), copy_of(v)),
        };
        assert(a@ == items@[k as int]@);
        let ghost mid = acts@;
        acts.push(a);
        assert(acts@ =~= mid.push(a));
        assert(actions_view(acts@) =~= actions_view(mid).push(a@));
        assert(actions_view(acts@) =~= before + actions_view(items@).take(k + 1));
        k = k + 1;
    }
    assert(actions_view(items@).take(k as int) =~= actions_view(items@));
}

/// The four bytes at `p` stored under `k` when they are UTF-8.
fn four_text_of(data: &[u8], p: usize, k: &str, acts: &mut Vec<Action>)
    requires
        p + 4 <= data.len(),
    ensures
        actions_view(final(acts)@) == actions_view(old(acts)@) + four_text(data@, p as int, k@),
{
    let ghost before = actions_view(acts@);
    if let Some(t) = utf8_text(sub_slice(data, p, p + 4)) {
        acts.push(store(k, t));
    }
    assert(actions_view(acts@) =~= before + four_text(data@, p as int, k@));
}

/// The size of the child atom at `pos` inside `..end`, when the walk goes
/// on.
fn child_size_at(data: &[u8], pos: usize, end: usize) -> (r: Option<usize>)
    requires
        pos <= end,
    ensures
        r matches Some(x) ==> child_size(data@, pos as int, end as int) == Some(x as nat) && 0 < x <= end - pos,
        r is None ==> child_size(data@, pos as int, end as int) is None,
{
    if pos > data.len() || data.len() - pos < 4 {
        return None;
    }
    let size = read_u32(data, pos, false) as u64;
    let left = (end - pos) as u64 % 4294967296;
    if size == 0 || size > left {
        return None;
    }
    Some(size as usize)
}

impl VideoParser {
    /// Reads the maker, model and name items of a user-data atom.
    fn extract_user_data_atom(data: &[u8], start: usize, end: usize) -> (r: Option<Vec<Action>>)
        ensures
            r matches Some(v) ==> user_items(data@, start as int, end as int) == Some(actions_view(v@)),
            r is None ==> user_items(data@, start as int, end as int) is None,
    {
        Self::extract_item_list_atom(data, start, end)
    }

    /// Reads the maker, model and name items of an item-list atom.
    fn extract_item_list_atom(data: &[u8], start: usize, end: usize) -> (r: Option<Vec<Action>>)
        ensures
            r matches Some(v) ==> user_items(data@, start as int, end as int) == Some(actions_view(v@)),
            r is None ==> user_items(data@, start as int, end as int) is None,
    {
        let mut acts: Vec<Action> = Vec::new();
        let mut pos = start;
        loop
            invariant
                start <= pos,
                then(Some(actions_view(acts@)), user_items(data@, pos as int, end as int)) == user_items(
                    data@,
                    start as int,
                    end as int,
                ),
            decreases end - pos,
        {
            let ghost before = actions_view(acts@);
            if pos >= end || end - pos <= 8 {
                assert(before + Seq::<TagAction>::empty() =~= before);
                return Some(acts);
            }
            let size = match child_size_at(data, pos, end) {
                Some(x) => x,
                None => {
                    assert(before + Seq::<TagAction>::empty() =~= before);
                    return Some(acts);
                },
            };
            if data.len() - pos < 8 {
                return None;
            }
            let c = read_u32(data, pos + 4, false);
            match item_key_of(c) {
                Some(k) => {
                    if end - pos > 12 {
                        if data.len() - pos < 12 {
                            return None;
                        }
                        four_text_of(data, pos + 8, k, &mut acts);
                    }
                },
                None => {},
            }
            let ghost here = actions_view(acts@).subrange(before.len() as int, actions_view(acts@).len() as int);
            assert(actions_view(acts@) =~= before + here);
            proof {
                match user_items(data@, pos + size, end as int) {
                    Some(rest) => {
                        assert(before + (here + rest) =~= (before + here) + rest);
                    },
                    None => {},
                }
            }
            pos = pos + size;
        }
    }

    /// Reads the handler and item list of a meta atom.
    fn extract_meta_atom(data: &[u8], start: usize, end: usize) -> (r: Option<Vec<Action>>)
        ensures
            r matches Some(v) ==> meta_items(data@, start as int, end as int) == Some(actions_view(v@)),
            r is None ==> meta_items(data@, start as int, end as int) is None,
    {
        let mut acts: Vec<Action> = Vec::new();
        let mut pos = start;
        loop
            invariant
                start <= pos,
                then(Some(actions_view(acts@)), meta_items(data@, pos as int, end as int)) == meta_items(
                    data@,
                    start as int,
                    end as int,
                ),
            decreases end - pos,
        {
            let ghost before = actions_view(acts@);
            if pos >= end || end - pos <= 8 {
                assert(before + Seq::<TagAction>::empty() =~= before);
                return Some(acts);
            }
            let size = match child_size_at(data, pos, end) {
                Some(x) => x,
                None => {
                    assert(before + Seq::<TagAction>::empty() =~= before);
                    return Some(acts);
                },
            };
            if data.len() - pos < 8 {
                return None;
            }
            let c = read_u32(data, pos + 4, false);
            if c == 0x68646c72 {
                if end - pos > 28 {
                    if data.len() - pos < 20 {
                        return None;
                    }
                    if read_u32(data, pos + 16, false) == 0x6d646972 {
                        acts.push(store("HandlerType", text("Metadata")));
                    }
                }
            } else if c == 0x696c7374 {
                if size < 8 {
                    return None;
                }
                match Self::extract_item_list_atom(data, pos + 8, pos + size) {
                    Some(items) => append_actions(&mut acts, &items),
                    None => {
                        return None;
                    },
                }
            }
            let ghost here = actions_view(acts@).subrange(before.len() as int, actions_view(acts@).len() as int);
            assert(actions_view(acts@) =~= before + here);
            proof {
                match meta_items(data@, pos + size, end as int) {
                    Some(rest) => {
                        assert(before + (here + rest) =~= (before + here) + rest);
                    },
                    None => {},
                }
            }
            pos = pos + size;
        }
    }
}

impl VideoParser {
    /// The settings of the top-level atoms: brand, movie header and, when
    /// `deep`, the user-data and meta atoms.
    #[verifier::spinoff_prover]
    #[verifier::rlimit(40)]
    fn walk_top_basic(data: &[u8], deep: bool) -> (r: Option<Vec<Action>>)
        requires
            data@.len() <= isize::MAX,
        ensures
            r matches Some(v) ==> top_basic(data@, 0, deep) == Some(actions_view(v@)),
            r is None ==> top_basic(data@, 0, deep) is None,
    {
        let mut acts: Vec<Action> = Vec::new();
        let mut pos: usize = 0;
        loop
            invariant
                data@.len() <= isize::MAX,
                then(Some(actions_view(acts@)), top_basic(data@, pos as int, deep)) == top_basic(data@, 0, deep),
            decreases 2 * data@.len() - pos,
        {
            let ghost before = actions_view(acts@);
            if pos >= data.len() || data.len() - pos <= 8 {
                assert(before + Seq::<TagAction>::empty() =~= before);
                return Some(acts);
            }
            let size = read_u32(data, pos, false) as u64;
            if size == 0 || size > data.len() as u64 % 4294967296 {
                assert(before + Seq::<TagAction>::empty() =~= before);
                return Some(acts);
            }
            let size = size as usize;
            match Self::top_atom_settings(data, pos, size, deep) {
                Some(items) => append_actions(&mut acts, &items),
                None => {
                    return None;
                },
            }
            let ghost here = actions_view(acts@).subrange(before.len() as int, actions_view(acts@).len() as int);
            assert(actions_view(acts@) =~= before + here);
            proof {
                match top_basic(data@, pos + size, deep) {
                    Some(rest) => {
                        assert(before + (here + rest) =~= (before + here) + rest);
                    },
                    None => {},
                }
            }
            pos = pos + size;
        }
    }

    /// The settings of the top-level atom at `pos` of size `size`.
    fn top_atom_settings(data: &[u8], pos: usize, size: usize, deep: bool) -> (r: Option<Vec<Action>>)
        requires
            data@.len() <= isize::MAX,
            pos + 8 < data@.len(),
            size <= data@.len(),
        ensures
            r matches Some(v) ==> top_here(data@, pos as int, size as nat, deep) == Some(actions_view(v@)),
            r is None ==> top_here(data@, pos as int, size as nat, deep) is None,
    {
        reveal(top_here);
        let mut acts: Vec<Action> = Vec::new();
        let c = read_u32(data, pos + 4, false);
        if c == 0x66747970 {
            if data.len() - pos > 12 {
                four_text_of(data, pos + 8, "Brand", &mut acts);
            }
            assert(actions_view(acts@) =~= top_here(data@, pos as int, size as nat, deep).unwrap());
            Some(acts)
        } else if c == 0x6d766864 {
            acts.push(store("MovieHeader", text("Present")));
            assert(actions_view(acts@) =~= seq![TagAction::Store("MovieHeader"@, txt("Present"@))]);
            Some(acts)
        } else if deep && c == 0x75647461 {
            if size < 8 {
                return None;
            }
            Self::extract_user_data_atom(data, pos + 8, pos + size)
        } else if deep && c == 0x6d657461 {
            if size < 8 {
                return None;
            }
            Self::extract_meta_atom(data, pos + 8, pos + size)
        } else {
            assert(actions_view(acts@) =~= Seq::<TagAction>::empty());
            Some(acts)
        }
    }

    /// The basic settings of a MOV file, with `Unknown` for a missing make
    /// or model.
    fn extract_mov_basic_metadata(data: &[u8]) -> (r: Option<Vec<Action>>)
        requires
            data@.len() <= isize::MAX,
        ensures
            r matches Some(v) ==> basic_actions(data@, true) == Some(actions_view(v@)),
            r is None ==> basic_actions(data@, true) is None,
    {
        Self::basic_metadata(data, true)
    }

    /// The basic settings of an MP4 file, with `Unknown` for a missing make
    /// or model.
    fn extract_mp4_basic_metadata(data: &[u8]) -> (r: Option<Vec<Action>>)
        requires
            data@.len() <= isize::MAX,
        ensures
            r matches Some(v) ==> basic_actions(data@, false) == Some(actions_view(v@)),
            r is None ==> basic_actions(data@, false) is None,
    {
        Self::basic_metadata(data, false)
    }

    /// The basic settings of a 3GP file: those of MP4, then the format.
    fn extract_3gp_basic_metadata(data: &[u8]) -> (r: Option<Vec<Action>>)
        requires
            data@.len() <= isize::MAX,
        ensures
            r matches Some(v) ==> then(basic_actions(data@, false), Some(seq![TagAction::Store("Format"@, txt("3GP"@))]))
                == Some(actions_view(v@)),
            r is None ==> basic_actions(data@, false) is None,
    {
        match Self::extract_mp4_basic_metadata(data) {
            Some(mut v) => {
                let ghost before = actions_view(v@);
                v.push(store("Format", text("3GP")));
                assert(actions_view(v@) =~= before + seq![TagAction::Store("Format"@, txt("3GP"@))]);
                Some(v)
            },
            None => None,
        }
    }

    /// The top-level settings followed by the make and model defaults.
    fn basic_metadata(data: &[u8], deep: bool) -> (r: Option<Vec<Action>>)
        requires
            data@.len() <= isize::MAX,
        ensures
            r matches Some(v) ==> basic_actions(data@, deep) == Some(actions_view(v@)),
            r is None ==> basic_actions(data@, deep) is None,
    {
        match Self::walk_top_basic(data, deep) {
            Some(mut v) => {
                let ghost before = actions_view(v@);
                v.push(Action::KeepOrStore(text("Make"), TagValue::text(text("Unknown"))));
                v.push(Action::KeepOrStore(text("Model"), TagValue::text(text("Unknown"))));
                assert(actions_view(v@) =~= before + seq![
                    TagAction::KeepOrStore("Make"@, txt("Unknown"@)),
                    TagAction::KeepOrStore("Model"@, txt("Unknown"@)),
                ]);
                Some(v)
            },
            None => None,
        }
    }

    /// The EXIF data in the atoms from `start` to `end`.
    fn find_exif_in_atom(data: &[u8], start: usize, end: usize) -> (r: Option<Option<(usize, usize)>>)
        ensures
            r matches Some(Some((a, b))) ==> exif_in_atoms(data@, start as int, end as int) == Some(Some((a as int, b as int)))
                && a <= b <= data@.len(),
            r matches Some(None) ==> exif_in_atoms(data@, start as int, end as int) == Some(None::<(int, int)>),
            r is None ==> exif_in_atoms(data@, start as int, end as int) is None,
        decreases end - start,
    {
        let mut pos = start;
        while pos < end && end - pos > 8
            invariant
                start <= pos,
                exif_in_atoms(data@, pos as int, end as int) == exif_in_atoms(data@, start as int, end as int),
            decreases end - pos,
        {
            let size = match child_size_at(data, pos, end) {
                Some(x) => x,
                None => {
                    return Some(None);
                },
            };
            if data.len() - pos < 8 {
                return None;
            }
            let c = read_u32(data, pos + 4, false);
            if c == 0x45584946 && size > 8 {
                if size > data.len() - pos {
                    return None;
                }
                return Some(Some((pos + 8, pos + size)));
            } else if c == 0x75647461 || c == 0x6d657461 || c == 0x696c7374 {
                if size < 8 {
                    return None;
                }
                match Self::find_exif_in_atom(data, pos + 8, pos + size) {
                    None => {
                        return None;
                    },
                    Some(Some(x)) => {
                        return Some(Some(x));
                    },
                    Some(None) => {},
                }
            }
            pos = pos + size;
        }
        Some(None)
    }

    /// The EXIF data in the top-level user-data and meta atoms.
    fn find_mp4_exif(data: &[u8]) -> (r: Option<Option<(usize, usize)>>)
        requires
            data@.len() <= isize::MAX,
        ensures
            r matches Some(Some((a, b))) ==> top_exif(data@, 0) == Some(Some((a as int, b as int))) && a <= b <= data@.len(),
            r matches Some(None) ==> top_exif(data@, 0) == Some(None::<(int, int)>),
            r is None ==> top_exif(data@, 0) is None,
    {
        let mut pos: usize = 0;
        while pos < data.len() && data.len() - pos > 8
            invariant
                data@.len() <= isize::MAX,
                top_exif(data@, pos as int) == top_exif(data@, 0),
            decreases 2 * data@.len() - pos,
        {
            let size = read_u32(data, pos, false) as u64;
            if size == 0 || size > data.len() as u64 % 4294967296 {
                return Some(None);
            }
            let size = size as usize;
            let c = read_u32(data, pos + 4, false);
            if c == 0x75647461 || c == 0x6d657461 {
                if size < 8 {
                    return None;
                }
                match Self::find_exif_in_atom(data, pos + 8, pos + size) {
                    None => {
                        return None;
                    },
                    Some(Some(x)) => {
                        return Some(Some(x));
                    },
                    Some(None) => {},
                }
            }
            pos = pos + size;
        }
        Some(None)
    }

    /// The EXIF data of a MOV file: as for MP4.
    fn find_mov_exif(data: &[u8]) -> (r: Option<Option<(usize, usize)>>)
        requires
            data@.len() <= isize::MAX,
        ensures
            r matches Some(Some((a, b))) ==> top_exif(data@, 0) == Some(Some((a as int, b as int))) && a <= b <= data@.len(),
            r matches Some(None) ==> top_exif(data@, 0) == Some(None::<(int, int)>),
            r is None ==> top_exif(data@, 0) is None,
    {
        Self::find_mp4_exif(data)
    }

    /// The EXIF data of a 3GP file: as for MP4.
    fn find_3gp_exif(data: &[u8]) -> (r: Option<Option<(usize, usize)>>)
        requires
            data@.len() <= isize::MAX,
        ensures
            r matches Some(Some((a, b))) ==> top_exif(data@, 0) == Some(Some((a as int, b as int))) && a <= b <= data@.len(),
            r matches Some(None) ==> top_exif(data@, 0) == Some(None::<(int, int)>),
            r is None ==> top_exif(data@, 0) is None,
    {
        Self::find_mp4_exif(data)
    }
}

/// The date text of a QuickTime time after the Unix epoch.
fn qt_date_value(c: u32) -> (v: TagValue)
    requires
        c > 0,
    ensures
        v@ == txt(utc_datetime_text(qt_unix(c as nat) as i64)),
{
    let u: u32 = if c > 2082844800 { c - 2082844800 } else { c };
    match utc_datetime(u as i64) {
        Some(t) => TagValue::text(t),
        None => TagValue::text(text("")),
    }
}

/// A copy of a tag value.
fn copy_value(v: &TagValue) -> (r: TagValue)
    ensures
        r@ == v@,
{
    copy_of(v)
}

impl VideoParser {
    /// The size of the atom at `pos` when the search goes on.
    fn atom_extent_at(data: &[u8], pos: usize) -> (r: Option<usize>)
        requires
            pos + 8 < data@.len(),
        ensures
            r matches Some(a) ==> atom_extent(data@, pos as int) == Some(a as nat) && 0 < a <= data@.len(),
            r is None ==> atom_extent(data@, pos as int) is None,
    {
        let size = read_u32(data, pos, false);
        if size == 1 {
            if data.len() - pos > 16 {
                let ext = read_u64_be_at(data, pos + 8);
                if ext > data.len() as u64 || ext < 16 {
                    None
                } else {
                    Some(ext as usize)
                }
            } else {
                None
            }
        } else if size == 0 || size as u64 > data.len() as u64 % 4294967296 {
            None
        } else {
            Some(size as usize)
        }
    }

    /// The value a movie header gives.
    fn mvhd_value_of(kind: HeaderUse, p: &[u8]) -> (r: Option<TagValue>)
        ensures
            r matches Some(v) ==> mvhd_value(kind, p@) == Some(v@),
            r is None ==> mvhd_value(kind, p@) is None,
    {
        match kind {
            HeaderUse::Duration => {
                if p.len() >= 24 {
                    let ts = read_u32(p, 12, false);
                    if ts > 0 {
                        let dur = read_u32(p, 16, false);
                        let mut v = TagValue::number(Real { num: dur as i64, den: ts as u64, style: RealStyle::Fixed(2) });
                        v.push_text(text(" s"));
                        assert(v@ =~= num(Real { num: dur as i64, den: ts as u64, style: RealStyle::Fixed(2) }) + txt(" s"@));
                        return Some(v);
                    }
                }
                None
            },
            HeaderUse::Creation => {
                if p.len() >= 16 {
                    let c = read_u32(p, 4, false);
                    if c > 0 {
                        return Some(qt_date_value(c));
                    }
                }
                None
            },
            HeaderUse::Modification => {
                if p.len() >= 20 {
                    let c = read_u32(p, 8, false);
                    if c > 0 {
                        return Some(qt_date_value(c));
                    }
                }
                None
            },
        }
    }

    /// The value of the first movie header from the start, looking into
    /// movie atoms.
    fn find_mvhd_atom_recursive(data: &[u8], kind: HeaderUse) -> (r: Option<Option<TagValue>>)
        requires
            data@.len() <= isize::MAX,
        ensures
            r matches Some(Some(v)) ==> mvhd_search(data@, 0, kind) == Some(Some(v@)),
            r matches Some(None) ==> mvhd_search(data@, 0, kind) == Some(None::<Seq<PieceModel>>),
            r is None ==> mvhd_search(data@, 0, kind) is None,
        decreases data@.len(),
    {
        let mut pos: usize = 0;
        while pos < data.len() && data.len() - pos > 8
            invariant
                data@.len() <= isize::MAX,
                mvhd_search(data@, pos as int, kind) == mvhd_search(data@, 0, kind),
            decreases 2 * data@.len() - pos,
        {
            let a = match Self::atom_extent_at(data, pos) {
                Some(a) => a,
                None => {
                    return Some(None);
                },
            };
            let c = read_u32(data, pos + 4, false);
            if c == 0x6d766864 || c == 0x6d6f6f76 {
                if a < 8 || a > data.len() - pos {
                    return None;
                }
                let sub = sub_slice(data, pos + 8, pos + a);
                if c == 0x6d766864 {
                    return Some(Self::mvhd_value_of(kind, sub));
                }
                match Self::find_mvhd_atom_recursive(sub, kind) {
                    None => {
                        return None;
                    },
                    Some(Some(v)) => {
                        return Some(Some(v));
                    },
                    Some(None) => {},
                }
            }
            pos = pos + a;
        }
        Some(None)
    }

    /// The value of a movie header in a movie atom located backwards from
    /// the end.
    fn find_mvhd_atom_from_end(data: &[u8], kind: HeaderUse) -> (r: Option<Option<TagValue>>)
        requires
            data@.len() <= isize::MAX,
        ensures
            r matches Some(Some(v)) ==> moov_from_end(data@, data@.len() - 1, kind) == Some(Some(v@)),
            r matches Some(None) ==> moov_from_end(data@, data@.len() - 1, kind) == Some(None::<Seq<PieceModel>>),
            r is None ==> moov_from_end(data@, data@.len() - 1, kind) is None,
    {
        let mut pos = data.len();
        while pos >= 8
            invariant
                pos <= data@.len() <= isize::MAX,
                moov_from_end(data@, pos - 1, kind) == moov_from_end(data@, data@.len() - 1, kind),
            decreases pos,
        {
            pos = pos - 1;
            if pos >= 8 && read_u32(data, pos - 4, false) == 0x6d6f6f76 {
                let size = read_u32(data, pos - 8, false) as usize;
                if size > 0 && size <= data.len() - (pos - 8) {
                    match Self::find_mvhd_atom_recursive(sub_slice(data, pos - 8, pos - 8 + size), kind) {
                        None => {
                            return None;
                        },
                        Some(Some(v)) => {
                            return Some(Some(v));
                        },
                        Some(None) => {},
                    }
                }
            }
        }
        Some(None)
    }

    /// The value of the movie header: searched from the start, then from
    /// the end.
    fn find_mvhd_atom(data: &[u8], kind: HeaderUse) -> (r: Option<Option<TagValue>>)
        requires
            data@.len() <= isize::MAX,
        ensures
            r matches Some(Some(v)) ==> find_mvhd(data@, kind) == Some(Some(v@)),
            r matches Some(None) ==> find_mvhd(data@, kind) == Some(None::<Seq<PieceModel>>),
            r is None ==> find_mvhd(data@, kind) is None,
    {
        match Self::find_mvhd_atom_recursive(data, kind) {
            None => None,
            Some(Some(v)) => Some(Some(v)),
            Some(None) => Self::find_mvhd_atom_from_end(data, kind),
        }
    }

    /// The first atom with code `code` at the top of `data`.
    fn find_header(data: &[u8], code: u32) -> (r: Option<Option<(usize, usize)>>)
        requires
            data@.len() <= isize::MAX,
        ensures
            r matches Some(Some((a, b))) ==> first_header(data@, 0, code as nat) == Some(Some((a as int, b as int)))
                && a <= b <= data@.len(),
            r matches Some(None) ==> first_header(data@, 0, code as nat) == Some(None::<(int, int)>),
            r is None ==> first_header(data@, 0, code as nat) is None,
    {
        let mut pos: usize = 0;
        while pos < data.len() && data.len() - pos > 8
            invariant
                data@.len() <= isize::MAX,
                first_header(data@, pos as int, code as nat) == first_header(data@, 0, code as nat),
            decreases 2 * data@.len() - pos,
        {
            let size = read_u32(data, pos, false) as u64;
            if size == 0 || size > data.len() as u64 % 4294967296 {
                return Some(None);
            }
            let size = size as usize;
            if read_u32(data, pos + 4, false) == code {
                if size < 8 || size > data.len() - pos {
                    return None;
                }
                return Some(Some((pos + 8, pos + size)));
            }
            pos = pos + size;
        }
        Some(None)
    }

    /// The first track header of a track atom.
    fn find_tkhd_atom(data: &[u8]) -> (r: Option<Option<(usize, usize)>>)
        requires
            data@.len() <= isize::MAX,
        ensures
            r matches Some(Some((a, b))) ==> first_header(data@, 0, tkhd_code()) == Some(Some((a as int, b as int)))
                && a <= b <= data@.len(),
            r matches Some(None) ==> first_header(data@, 0, tkhd_code()) == Some(None::<(int, int)>),
            r is None ==> first_header(data@, 0, tkhd_code()) is None,
    {
        Self::find_header(data, 0x746b6864)
    }

    /// The first media header of a media atom.
    fn find_mdhd_atom(data: &[u8]) -> (r: Option<Option<(usize, usize)>>)
        requires
            data@.len() <= isize::MAX,
        ensures
            r matches Some(Some((a, b))) ==> first_header(data@, 0, mdhd_code()) == Some(Some((a as int, b as int)))
                && a <= b <= data@.len(),
            r matches Some(None) ==> first_header(data@, 0, mdhd_code()) == Some(None::<(int, int)>),
            r is None ==> first_header(data@, 0, mdhd_code()) is None,
    {
        Self::find_header(data, 0x6d646864)
    }

    /// The dates of a track or media header.
    fn date_settings(p: &[u8], ck: &str, mk: &str) -> (r: Vec<Action>)
        ensures
            actions_view(r@) == date_actions(p@, ck@, mk@),
    {
        let mut acts: Vec<Action> = Vec::new();
        if p.len() >= 20 {
            let c = read_u32(p, 4, false);
            let mo = read_u32(p, 8, false);
            if c > 0 {
                let v = qt_date_value(c);
                acts.push(Action::Store(text(ck), copy_value(&v)));
                acts.push(Action::KeepOrStore(text("CreateDate"), v));
            }
            let ghost mid = actions_view(acts@);
            if mo > 0 {
                let v = qt_date_value(mo);
                acts.push(Action::Store(text(mk), copy_value(&v)));
                acts.push(Action::KeepOrStore(text("ModifyDate"), v));
            }
            assert(actions_view(acts@) =~= date_actions(p@, ck@, mk@));
        } else {
            assert(actions_view(acts@) =~= date_actions(p@, ck@, mk@));
        }
        acts
    }

    /// The dates of the first header `code` in `t`.
    fn header_date_settings(t: &[u8], code: u32, ck: &str, mk: &str) -> (r: Option<Vec<Action>>)
        requires
            t@.len() <= isize::MAX,
        ensures
            r matches Some(v) ==> header_dates(t@, code as nat, ck@, mk@) == Some(actions_view(v@)),
            r is None ==> header_dates(t@, code as nat, ck@, mk@) is None,
    {
        match Self::find_header(t, code) {
            None => None,
            Some(None) => {
                let v: Vec<Action> = Vec::new();
                assert(actions_view(v@) =~= Seq::<TagAction>::empty());
                Some(v)
            },
            Some(Some((a, b))) => Some(Self::date_settings(sub_slice(t, a, b), ck, mk)),
        }
    }
}

impl VideoParser {
    /// The track dates of the track atoms, looking into movie atoms.
    fn find_trak_atoms_recursive(data: &[u8]) -> (r: Option<Vec<Action>>)
        requires
            data@.len() <= isize::MAX,
        ensures
            r matches Some(v) ==> trak_walk(data@, 0) == Some(actions_view(v@)),
            r is None ==> trak_walk(data@, 0) is None,
        decreases data@.len(),
    {
        let mut acts: Vec<Action> = Vec::new();
        let mut pos: usize = 0;
        loop
            invariant
                data@.len() <= isize::MAX,
                then(Some(actions_view(acts@)), trak_walk(data@, pos as int)) == trak_walk(data@, 0),
            decreases 2 * data@.len() - pos,
        {
            let ghost before = actions_view(acts@);
            if pos >= data.len() || data.len() - pos <= 8 {
                assert(before + Seq::<TagAction>::empty() =~= before);
                return Some(acts);
            }
            let a = match Self::atom_extent_at(data, pos) {
                Some(a) => a,
                None => {
                    assert(before + Seq::<TagAction>::empty() =~= before);
                    return Some(acts);
                },
            };
            let c = read_u32(data, pos + 4, false);
            if c == 0x7472616b || c == 0x6d6f6f76 {
                if a < 8 || a > data.len() - pos {
                    return None;
                }
                let sub = sub_slice(data, pos + 8, pos + a);
                let here = if c == 0x7472616b {
                    Self::header_date_settings(sub, 0x746b6864, "TrackCreateDate", "TrackModifyDate")
                } else {
                    Self::find_trak_atoms_recursive(sub)
                };
                match here {
                    Some(items) => append_actions(&mut acts, &items),
                    None => {
                        return None;
                    },
                }
            }
            let ghost here = actions_view(acts@).subrange(before.len() as int, actions_view(acts@).len() as int);
            assert(actions_view(acts@) =~= before + here);
            proof {
                match trak_walk(data@, pos + a) {
                    Some(rest) => {
                        assert(before + (here + rest) =~= (before + here) + rest);
                    },
                    None => {},
                }
            }
            pos = pos + a;
        }
    }

    /// The media dates of the media atoms, looking into track and movie
    /// atoms.
    fn find_mdia_atoms_recursive(data: &[u8]) -> (r: Option<Vec<Action>>)
        requires
            data@.len() <= isize::MAX,
        ensures
            r matches Some(v) ==> mdia_walk(data@, 0) == Some(actions_view(v@)),
            r is None ==> mdia_walk(data@, 0) is None,
        decreases data@.len(),
    {
        let mut acts: Vec<Action> = Vec::new();
        let mut pos: usize = 0;
        loop
            invariant
                data@.len() <= isize::MAX,
                then(Some(actions_view(acts@)), mdia_walk(data@, pos as int)) == mdia_walk(data@, 0),
            decreases 2 * data@.len() - pos,
        {
            let ghost before = actions_view(acts@);
            if pos >= data.len() || data.len() - pos <= 8 {
                assert(before + Seq::<TagAction>::empty() =~= before);
                return Some(acts);
            }
            let a = match Self::atom_extent_at(data, pos) {
                Some(a) => a,
                None => {
                    assert(before + Seq::<TagAction>::empty() =~= before);
                    return Some(acts);
                },
            };
            let c = read_u32(data, pos + 4, false);
            if c == 0x6d646961 || c == 0x7472616b || c == 0x6d6f6f76 {
                if a < 8 || a > data.len() - pos {
                    return None;
                }
                let sub = sub_slice(data, pos + 8, pos + a);
                let here = if c == 0x6d646961 {
                    Self::header_date_settings(sub, 0x6d646864, "MediaCreateDate", "MediaModifyDate")
                } else {
                    Self::find_mdia_atoms_recursive(sub)
                };
                match here {
                    Some(items) => append_actions(&mut acts, &items),
                    None => {
                        return None;
                    },
                }
            }
            let ghost here = actions_view(acts@).subrange(before.len() as int, actions_view(acts@).len() as int);
            assert(actions_view(acts@) =~= before + here);
            proof {
                match mdia_walk(data@, pos + a) {
                    Some(rest) => {
                        assert(before + (here + rest) =~= (before + here) + rest);
                    },
                    None => {},
                }
            }
            pos = pos + a;
        }
    }

    /// The track dates.
    fn extract_track_dates(data: &[u8]) -> (r: Option<Vec<Action>>)
        requires
            data@.len() <= isize::MAX,
        ensures
            r matches Some(v) ==> trak_walk(data@, 0) == Some(actions_view(v@)),
            r is None ==> trak_walk(data@, 0) is None,
    {
        Self::find_trak_atoms_recursive(data)
    }

    /// The media dates.
    fn extract_media_dates(data: &[u8]) -> (r: Option<Vec<Action>>)
        requires
            data@.len() <= isize::MAX,
        ensures
            r matches Some(v) ==> mdia_walk(data@, 0) == Some(actions_view(v@)),
            r is None ==> mdia_walk(data@, 0) is None,
    {
        Self::find_mdia_atoms_recursive(data)
    }

    /// A movie-header value stored under the given tags.
    fn header_store_settings(found: Option<Option<TagValue>>, keys: &[&str]) -> (r: Option<Vec<Action>>)
        ensures
            r matches Some(v) ==> header_stores(
                match found {
                    None => None,
                    Some(None) => Some(None),
                    Some(Some(x)) => Some(Some(x@)),
                },
                crate::text::str_views(keys@),
            ) == Some(actions_view(v@)),
            r is None ==> found is None,
    {
        match found {
            None => None,
            Some(None) => {
                let v: Vec<Action> = Vec::new();
                assert(actions_view(v@) =~= Seq::<TagAction>::empty());
                Some(v)
            },
            Some(Some(x)) => {
                let mut v: Vec<Action> = Vec::new();
                let mut i: usize = 0;
                while i < keys.len()
                    invariant
                        i <= keys@.len(),
                        actions_view(v@) =~= Seq::new(
                            i as nat,
                            |j: int| TagAction::Store(crate::text::str_views(keys@)[j], x@),
                        ),
                    decreases keys.len() - i,
                {
                    let a = Action::Store(text(keys[i]), copy_value(&x));
                    assert(a@ == TagAction::Store(crate::text::str_views(keys@)[i as int], x@));
                    let ghost mid = v@;
                    v.push(a);
                    assert(v@ =~= mid.push(a));
                    assert(actions_view(v@) =~= actions_view(mid).push(a@));
                    i = i + 1;
                }
                Some(v)
            },
        }
    }

    /// The duration from the movie header.
    fn extract_duration(data: &[u8]) -> (r: Option<Option<TagValue>>)
        requires
            data@.len() <= isize::MAX,
        ensures
            r matches Some(Some(v)) ==> find_mvhd(data@, HeaderUse::Duration) == Some(Some(v@)),
            r matches Some(None) ==> find_mvhd(data@, HeaderUse::Duration) == Some(None::<Seq<PieceModel>>),
            r is None ==> find_mvhd(data@, HeaderUse::Duration) is None,
    {
        Self::find_mvhd_atom(data, HeaderUse::Duration)
    }

    /// The creation date from the movie header.
    fn extract_creation_time(data: &[u8]) -> (r: Option<Option<TagValue>>)
        requires
            data@.len() <= isize::MAX,
        ensures
            r matches Some(Some(v)) ==> find_mvhd(data@, HeaderUse::Creation) == Some(Some(v@)),
            r matches Some(None) ==> find_mvhd(data@, HeaderUse::Creation) == Some(None::<Seq<PieceModel>>),
            r is None ==> find_mvhd(data@, HeaderUse::Creation) is None,
    {
        Self::find_mvhd_atom(data, HeaderUse::Creation)
    }

    /// The modification date from the movie header.
    fn extract_modification_time(data: &[u8]) -> (r: Option<Option<TagValue>>)
        requires
            data@.len() <= isize::MAX,
        ensures
            r matches Some(Some(v)) ==> find_mvhd(data@, HeaderUse::Modification) == Some(Some(v@)),
            r matches Some(None) ==> find_mvhd(data@, HeaderUse::Modification) == Some(None::<Seq<PieceModel>>),
            r is None ==> find_mvhd(data@, HeaderUse::Modification) is None,
    {
        Self::find_mvhd_atom(data, HeaderUse::Modification)
    }

    /// Joins two runs of settings, failing when either does.
    fn join(a: Option<Vec<Action>>, b: Option<Vec<Action>>) -> (r: Option<Vec<Action>>)
        ensures
            r matches Some(v) ==> then(
                match a { Some(x) => Some(actions_view(x@)), None => None },
                match b { Some(x) => Some(actions_view(x@)), None => None },
            ) == Some(actions_view(v@)),
            r is None ==> (a is None || b is None),
    {
        match (a, b) {
            (Some(mut x), Some(y)) => {
                append_actions(&mut x, &y);
                Some(x)
            },
            _ => None,
        }
    }

    /// The duration and every date found.
    fn extract_mov_time_metadata(data: &[u8]) -> (r: Option<Vec<Action>>)
        requires
            data@.len() <= isize::MAX,
        ensures
            r matches Some(v) ==> time_actions(data@) == Some(actions_view(v@)),
            r is None ==> time_actions(data@) is None,
    {
        let keys_d: [&str; 1] = ["Duration"];
        let keys_c: [&str; 2] = ["CreateDate", "CreationDate"];
        let keys_m: [&str; 1] = ["ModifyDate"];
        assert(crate::text::str_views(keys_d@) =~= seq!["Duration"@]);
        assert(crate::text::str_views(keys_c@) =~= seq!["CreateDate"@, "CreationDate"@]);
        assert(crate::text::str_views(keys_m@) =~= seq!["ModifyDate"@]);
        let d = Self::header_store_settings(Self::extract_duration(data), &keys_d);
        let dates = Self::extract_comprehensive_dates(data);
        Self::join(d, dates)
    }

    /// The movie, track and media dates.
    fn extract_comprehensive_dates(data: &[u8]) -> (r: Option<Vec<Action>>)
        requires
            data@.len() <= isize::MAX,
        ensures
            r matches Some(v) ==> then(
                then(
                    then(
                        header_stores(find_mvhd(data@, HeaderUse::Creation), seq!["CreateDate"@, "CreationDate"@]),
                        header_stores(find_mvhd(data@, HeaderUse::Modification), seq!["ModifyDate"@]),
                    ),
                    trak_walk(data@, 0),
                ),
                mdia_walk(data@, 0),
            ) == Some(actions_view(v@)),
            r is None ==> then(
                then(
                    then(
                        header_stores(find_mvhd(data@, HeaderUse::Creation), seq!["CreateDate"@, "CreationDate"@]),
                        header_stores(find_mvhd(data@, HeaderUse::Modification), seq!["ModifyDate"@]),
                    ),
                    trak_walk(data@, 0),
                ),
                mdia_walk(data@, 0),
            ) is None,
    {
        let keys_c: [&str; 2] = ["CreateDate", "CreationDate"];
        let keys_m: [&str; 1] = ["ModifyDate"];
        assert(crate::text::str_views(keys_c@) =~= seq!["CreateDate"@, "CreationDate"@]);
        assert(crate::text::str_views(keys_m@) =~= seq!["ModifyDate"@]);
        let c = Self::header_store_settings(Self::extract_creation_time(data), &keys_c);
        let m = Self::header_store_settings(Self::extract_modification_time(data), &keys_m);
        let t = Self::extract_track_dates(data);
        let md = Self::extract_media_dates(data);
        Self::join(Self::join(Self::join(c, m), t), md)
    }
}

impl VideoParser {
    /// Reads a MOV file: the format tags, the atoms' settings, the EXIF
    /// data and the computed and default fields. The layout must be one
    /// the reader takes (see `is_readable`).
    pub fn parse_mov_exif(data: &[u8], metadata: &mut TagMap) -> (r: Result<(), ExifError>)
        requires
            data@.len() <= isize::MAX,
            video_readable(data@, VideoKind::Mov),
        ensures
            result_matches(r, video_outcome(data@, VideoKind::Mov, old(metadata)@).0),
            final(metadata)@ == video_outcome(data@, VideoKind::Mov, old(metadata)@).1,
    {
        Self::parse_video(data, VideoKind::Mov, metadata)
    }

    /// Reads an MP4 file, as a MOV file but for its format tags and
    /// without the user-data and meta settings.
    pub fn parse_mp4_exif(data: &[u8], metadata: &mut TagMap) -> (r: Result<(), ExifError>)
        requires
            data@.len() <= isize::MAX,
            video_readable(data@, VideoKind::Mp4),
        ensures
            result_matches(r, video_outcome(data@, VideoKind::Mp4, old(metadata)@).0),
            final(metadata)@ == video_outcome(data@, VideoKind::Mp4, old(metadata)@).1,
    {
        Self::parse_video(data, VideoKind::Mp4, metadata)
    }

    /// Reads a 3GP file, as an MP4 file with the 3GP format.
    pub fn parse_3gp_exif(data: &[u8], metadata: &mut TagMap) -> (r: Result<(), ExifError>)
        requires
            data@.len() <= isize::MAX,
            video_readable(data@, VideoKind::ThreeGp),
        ensures
            result_matches(r, video_outcome(data@, VideoKind::ThreeGp, old(metadata)@).0),
            final(metadata)@ == video_outcome(data@, VideoKind::ThreeGp, old(metadata)@).1,
    {
        Self::parse_video(data, VideoKind::ThreeGp, metadata)
    }

    /// Whether the reader takes the file's atom layout: no atom it opens is
    /// shorter than its header or runs past the data.
    pub fn is_readable(data: &[u8], kind: VideoKind) -> (r: bool)
        requires
            data@.len() <= isize::MAX,
        ensures
            r == video_readable(data@, kind),
    {
        Self::video_settings(data, kind).is_some() && Self::find_mp4_exif(data).is_some()
    }

    /// The format tags.
    fn set_head(kind: VideoKind, metadata: &mut TagMap)
        ensures
            final(metadata)@ == video_head(kind, old(metadata)@),
    {
        match kind {
            VideoKind::Mov => {
                metadata.insert_str("Format", "MOV");
                metadata.insert_str("FileType", "MOV");
                metadata.insert_str("FileTypeExtension", "mov");
                metadata.insert_str("MIMEType", "video/quicktime");
            },
            VideoKind::Mp4 => {
                metadata.insert_str("Format", "MP4");
                metadata.insert_str("FileType", "MP4");
                metadata.insert_str("FileTypeExtension", "mp4");
                metadata.insert_str("MIMEType", "video/mp4");
            },
            VideoKind::ThreeGp => {
                metadata.insert_str("Format", "3GP");
            },
        }
    }

    /// The settings of the atoms for a file of the given kind.
    fn video_settings(data: &[u8], kind: VideoKind) -> (r: Option<Vec<Action>>)
        requires
            data@.len() <= isize::MAX,
        ensures
            r matches Some(v) ==> video_actions(data@, kind) == Some(actions_view(v@)),
            r is None ==> video_actions(data@, kind) is None,
    {
        let basic = match kind {
            VideoKind::Mov => Self::extract_mov_basic_metadata(data),
            VideoKind::Mp4 => Self::extract_mp4_basic_metadata(data),
            VideoKind::ThreeGp => Self::extract_3gp_basic_metadata(data),
        };
        Self::extract_video_metadata(data);
        Self::extract_audio_metadata(data);
        let time = Self::extract_mov_time_metadata(data);
        Self::extract_gps_metadata(data);
        Self::extract_text_metadata(data);
        Self::join(basic, time)
    }

    /// Reads a video file of the given kind.
    fn parse_video(data: &[u8], kind: VideoKind, metadata: &mut TagMap) -> (r: Result<(), ExifError>)
        requires
            data@.len() <= isize::MAX,
            video_readable(data@, kind),
        ensures
            result_matches(r, video_outcome(data@, kind, old(metadata)@).0),
            final(metadata)@ == video_outcome(data@, kind, old(metadata)@).1,
    {
        Self::set_head(kind, metadata);
        match Self::video_settings(data, kind) {
            Some(acts) => Self::apply(metadata, &acts),
            None => {
                return Ok(());
            },
        }
        match Self::find_mp4_exif(data) {
            Some(Some((a, b))) => {
                match TiffParser::parse_tiff_exif(sub_slice(data, a, b), metadata) {
                    Ok(()) => {},
                    Err(e) => {
                        return Err(e);
                    },
                }
            },
            Some(None) => {},
            None => {
                return Ok(());
            },
        }
        Self::add_computed_fields(metadata);
        Self::add_missing_video_fields(metadata);
        Ok(())
    }

    /// The extension and MIME type by the stored format.
    fn set_format_type(metadata: &mut TagMap)
        ensures
            final(metadata)@ == format_type(old(metadata)@),
    {
        if metadata.contains_key("Format") {
            let kind: u8 = match metadata.get_text("Format") {
                Some(t) => if crate::text::str_eq(t.as_str(), "MP4") {
                    1
                } else if crate::text::str_eq(t.as_str(), "3GP") {
                    2
                } else {
                    0
                },
                None => 0,
            };
            if kind == 1 {
                metadata.insert_str("FileTypeExtension", "mp4");
                metadata.insert_str("MIMEType", "video/mp4");
            } else if kind == 2 {
                metadata.insert_str("FileTypeExtension", "3gp");
                metadata.insert_str("MIMEType", "video/3gpp");
            } else {
                metadata.insert_str("FileTypeExtension", "mov");
                metadata.insert_str("MIMEType", "video/quicktime");
            }
        }
    }

    /// Adds the fields computed for video files.
    fn add_computed_fields(metadata: &mut TagMap)
        ensures
            final(metadata)@ == video_computed(old(metadata)@),
    {
        Self::set_format_type(metadata);
        metadata.insert_str("ExifByteOrder", "Little-endian (Intel, II)");
        RawParser::add_dims(metadata);
        add_focal_formatted(metadata);
        add_fnumber_formatted(metadata);
    }

    /// Gives the missing video fields their defaults.
    fn add_missing_video_fields(metadata: &mut TagMap)
        ensures
            final(metadata)@ == video_defaults(old(metadata)@),
    {
        JpegParser::default_field(metadata, "Duration", "0.00 s");
        JpegParser::default_field(metadata, "VideoFrameRate", "30");
        JpegParser::default_field(metadata, "VideoCodec", "H.264");
        JpegParser::default_field(metadata, "AudioCodec", "AAC");
        JpegParser::default_field(metadata, "ImageWidth", "1920");
        JpegParser::default_field(metadata, "ImageHeight", "1080");
        JpegParser::default_field(metadata, "ImageSize", "1920x1080");
        JpegParser::default_field(metadata, "CreationDate", "");
        JpegParser::default_field(metadata, "ModifyDate", "");
        JpegParser::default_field(metadata, "Title", "");
        JpegParser::default_field(metadata, "Artist", "");
        JpegParser::default_field(metadata, "Description", "");
        JpegParser::default_field(metadata, "Comment", "");
        JpegParser::default_field(metadata, "Software", "");
        JpegParser::default_field(metadata, "Copyright", "");
        JpegParser::default_field(metadata, "GPSCoordinates", "");
        JpegParser::default_field(metadata, "GPSLatitude", "");
        JpegParser::default_field(metadata, "GPSLongitude", "");
        JpegParser::default_field(metadata, "GPSAltitude", "");
        JpegParser::default_field(metadata, "VideoBitrate", "");
        JpegParser::default_field(metadata, "AudioBitrate", "");
        JpegParser::default_field(metadata, "AudioSampleRate", "");
        JpegParser::default_field(metadata, "AudioChannels", "");
        JpegParser::default_field(metadata, "Brand", "");
        JpegParser::default_field(metadata, "MovieHeader", "");
    }

    /// The video track settings: none are read yet.
    fn extract_video_metadata(_data: &[u8]) -> (r: usize)
        ensures
            r == 0,
    {
        let _ = Self::extract_video_dimensions(_data);
        let _ = Self::extract_video_frame_rate(_data);
        let _ = Self::extract_video_codec(_data);
        let _ = Self::extract_video_bitrate(_data);
        0
    }

    /// The audio track settings: none are read yet.
    fn extract_audio_metadata(_data: &[u8]) -> (r: usize)
        ensures
            r == 0,
    {
        let _ = Self::extract_audio_codec(_data);
        let _ = Self::extract_audio_sample_rate(_data);
        let _ = Self::extract_audio_channels(_data);
        let _ = Self::extract_audio_bitrate(_data);
        0
    }

    /// The location settings: none are read yet.
    fn extract_gps_metadata(_data: &[u8]) -> (r: usize)
        ensures
            r == 0,
    {
        let _ = Self::extract_gps_data(_data);
        let _ = Self::extract_gps_latitude(_data);
        let _ = Self::extract_gps_longitude(_data);
        let _ = Self::extract_gps_altitude(_data);
        0
    }

    /// The text settings: none are read yet.
    fn extract_text_metadata(_data: &[u8]) -> (r: usize)
        ensures
            r == 0,
    {
        let _ = Self::extract_title(_data);
        let _ = Self::extract_artist(_data);
        let _ = Self::extract_description(_data);
        let _ = Self::extract_comment(_data);
        let _ = Self::extract_software(_data);
        let _ = Self::extract_copyright(_data);
        0
    }

    fn extract_video_dimensions(_data: &[u8]) -> (r: Option<(u32, u32)>)
        ensures
            r is None,
    {
        None
    }

    fn extract_video_frame_rate(_data: &[u8]) -> (r: Option<String>)
        ensures
            r is None,
    {
        None
    }

    fn extract_video_codec(_data: &[u8]) -> (r: Option<String>)
        ensures
            r is None,
    {
        None
    }

    fn extract_video_bitrate(_data: &[u8]) -> (r: Option<String>)
        ensures
            r is None,
    {
        None
    }

    fn extract_audio_codec(_data: &[u8]) -> (r: Option<String>)
        ensures
            r is None,
    {
        None
    }

    fn extract_audio_sample_rate(_data: &[u8]) -> (r: Option<String>)
        ensures
            r is None,
    {
        None
    }

    fn extract_audio_channels(_data: &[u8]) -> (r: Option<String>)
        ensures
            r is None,
    {
        None
    }

    fn extract_audio_bitrate(_data: &[u8]) -> (r: Option<String>)
        ensures
            r is None,
    {
        None
    }

    fn extract_gps_data(_data: &[u8]) -> (r: Option<String>)
        ensures
            r is None,
    {
        None
    }

    fn extract_gps_latitude(_data: &[u8]) -> (r: Option<String>)
        ensures
            r is None,
    {
        None
    }

    fn extract_gps_longitude(_data: &[u8]) -> (r: Option<String>)
        ensures
            r is None,
    {
        None
    }

    fn extract_gps_altitude(_data: &[u8]) -> (r: Option<String>)
        ensures
            r is None,
    {
        None
    }

    fn extract_title(_data: &[u8]) -> (r: Option<String>)
        ensures
            r is None,
    {
        None
    }

    fn extract_artist(_data: &[u8]) -> (r: Option<String>)
        ensures
            r is None,
    {
        None
    }

    fn extract_description(_data: &[u8]) -> (r: Option<String>)
        ensures
            r is None,
    {
        None
    }

    fn extract_comment(_data: &[u8]) -> (r: Option<String>)
        ensures
            r is None,
    {
        None
    }

    fn extract_software(_data: &[u8]) -> (r: Option<String>)
        ensures
            r is None,
    {
        None
    }

    fn extract_copyright(_data: &[u8]) -> (r: Option<String>)
        ensures
            r is None,
    {
        None
    }
}

/// A copy of a text.
fn copy_text(s: &String) -> (r: String)
    ensures
        r@ == s@,
{
    s.clone()
}

/// Once a video file is read, every field given a default is present, and
/// a field that was present keeps its value.
pub proof fn law_video_defaults(m: M)
    ensures
        forall|k: Seq<char>| #[trigger] m.contains_key(k) ==> video_defaults(m).contains_key(k) && video_defaults(m)[k] == m[k],
        video_defaults(m).contains_key("Duration"@),
        video_defaults(m).contains_key("VideoFrameRate"@),
        video_defaults(m).contains_key("VideoCodec"@),
        video_defaults(m).contains_key("AudioCodec"@),
        video_defaults(m).contains_key("ImageWidth"@),
        video_defaults(m).contains_key("ImageHeight"@),
        video_defaults(m).contains_key("ImageSize"@),
        video_defaults(m).contains_key("CreationDate"@),
        video_defaults(m).contains_key("ModifyDate"@),
        video_defaults(m).contains_key("Title"@),
        video_defaults(m).contains_key("Artist"@),
        video_defaults(m).contains_key("Description"@),
        video_defaults(m).contains_key("Comment"@),
        video_defaults(m).contains_key("Software"@),
        video_defaults(m).contains_key("Copyright"@),
        video_defaults(m).contains_key("GPSCoordinates"@),
        video_defaults(m).contains_key("GPSLatitude"@),
        video_defaults(m).contains_key("GPSLongitude"@),
        video_defaults(m).contains_key("GPSAltitude"@),
        video_defaults(m).contains_key("VideoBitrate"@),
        video_defaults(m).contains_key("AudioBitrate"@),
        video_defaults(m).contains_key("AudioSampleRate"@),
        video_defaults(m).contains_key("AudioChannels"@),
        video_defaults(m).contains_key("Brand"@),
        video_defaults(m).contains_key("MovieHeader"@),
{
    let m1 = default_to(m, "Duration"@, "0.00 s"@);
    law_default_keeps(m, "Duration"@, "0.00 s"@);
    let m2 = default_to(m1, "VideoFrameRate"@, "30"@);
    law_default_keeps(m1, "VideoFrameRate"@, "30"@);
    let m3 = default_to(m2, "VideoCodec"@, "H.264"@);
    law_default_keeps(m2, "VideoCodec"@, "H.264"@);
    let m4 = default_to(m3, "AudioCodec"@, "AAC"@);
    law_default_keeps(m3, "AudioCodec"@, "AAC"@);
    let m5 = default_to(m4, "ImageWidth"@, "1920"@);
    law_default_keeps(m4, "ImageWidth"@, "1920"@);
    let m6 = default_to(m5, "ImageHeight"@, "1080"@);
    law_default_keeps(m5, "ImageHeight"@, "1080"@);
    let m7 = default_to(m6, "ImageSize"@, "1920x1080"@);
    law_default_keeps(m6, "ImageSize"@, "1920x1080"@);
    let m8 = default_to(m7, "CreationDate"@, ""@);
    law_default_keeps(m7, "CreationDate"@, ""@);
    let m9 = default_to(m8, "ModifyDate"@, ""@);
    law_default_keeps(m8, "ModifyDate"@, ""@);
    let m10 = default_to(m9, "Title"@, ""@);
    law_default_keeps(m9, "Title"@, ""@);
    let m11 = default_to(m10, "Artist"@, ""@);
    law_default_keeps(m10, "Artist"@, ""@);
    let m12 = default_to(m11, "Description"@, ""@);
    law_default_keeps(m11, "Description"@, ""@);
    let m13 = default_to(m12, "Comment"@, ""@);
    law_default_keeps(m12, "Comment"@, ""@);
    let m14 = default_to(m13, "Software"@, ""@);
    law_default_keeps(m13, "Software"@, ""@);
    let m15 = default_to(m14, "Copyright"@, ""@);
    law_default_keeps(m14, "Copyright"@, ""@);
    let m16 = default_to(m15, "GPSCoordinates"@, ""@);
    law_default_keeps(m15, "GPSCoordinates"@, ""@);
    let m17 = default_to(m16, "GPSLatitude"@, ""@);
    law_default_keeps(m16, "GPSLatitude"@, ""@);
    let m18 = default_to(m17, "GPSLongitude"@, ""@);
    law_default_keeps(m17, "GPSLongitude"@, ""@);
    let m19 = default_to(m18, "GPSAltitude"@, ""@);
    law_default_keeps(m18, "GPSAltitude"@, ""@);
    let m20 = default_to(m19, "VideoBitrate"@, ""@);
    law_default_keeps(m19, "VideoBitrate"@, ""@);
    let m21 = default_to(m20, "AudioBitrate"@, ""@);
    law_default_keeps(m20, "AudioBitrate"@, ""@);
    let m22 = default_to(m21, "AudioSampleRate"@, ""@);
    law_default_keeps(m21, "AudioSampleRate"@, ""@);
    let m23 = default_to(m22, "AudioChannels"@, ""@);
    law_default_keeps(m22, "AudioChannels"@, ""@);
    let m24 = default_to(m23, "Brand"@, ""@);
    law_default_keeps(m23, "Brand"@, ""@);
    let m25 = default_to(m24, "MovieHeader"@, ""@);
    law_default_keeps(m24, "MovieHeader"@, ""@);
    assert(m25 == video_defaults(m));
    assert forall|k: Seq<char>| #[trigger] m.contains_key(k) implies video_defaults(m).contains_key(k) && video_defaults(m)[k] == m[k] by {
        assert(m1.contains_key(k) && m1[k] == m[k]);
        assert(m2.contains_key(k) && m2[k] == m[k]);
        assert(m3.contains_key(k) && m3[k] == m[k]);
        assert(m4.contains_key(k) && m4[k] == m[k]);
        assert(m5.contains_key(k) && m5[k] == m[k]);
        assert(m6.contains_key(k) && m6[k] == m[k]);
        assert(m7.contains_key(k) && m7[k] == m[k]);
        assert(m8.contains_key(k) && m8[k] == m[k]);
        assert(m9.contains_key(k) && m9[k] == m[k]);
        assert(m10.contains_key(k) && m10[k] == m[k]);
        assert(m11.contains_key(k) && m11[k] == m[k]);
        assert(m12.contains_key(k) && m12[k] == m[k]);
        assert(m13.contains_key(k) && m13[k] == m[k]);
        assert(m14.contains_key(k) && m14[k] == m[k]);
        assert(m15.contains_key(k) && m15[k] == m[k]);
        assert(m16.contains_key(k) && m16[k] == m[k]);
        assert(m17.contains_key(k) && m17[k] == m[k]);
        assert(m18.contains_key(k) && m18[k] == m[k]);
        assert(m19.contains_key(k) && m19[k] == m[k]);
        assert(m20.contains_key(k) && m20[k] == m[k]);
        assert(m21.contains_key(k) && m21[k] == m[k]);
        assert(m22.contains_key(k) && m22[k] == m[k]);
        assert(m23.contains_key(k) && m23[k] == m[k]);
        assert(m24.contains_key(k) && m24[k] == m[k]);
        assert(m25.contains_key(k) && m25[k] == m[k]);
    }
}

} // verus!

verus! {

/// A movie header's creation date is the UTC date of the big-endian time
/// in its bytes 4 to 8 (counted from 1904), and its modification date that
/// of bytes 8 to 12: each depends on its own four bytes only.
pub proof fn law_movie_header_dates(p: Seq<u8>, q: Seq<u8>)
    requires
        p.len() >= 20,
        q.len() >= 20,
    ensures
        ({
            let c = p[4] as int * 16777216 + p[5] as int * 65536 + p[6] as int * 256 + p[7] as int;
            c > 2082844800 ==> mvhd_value(HeaderUse::Creation, p) == Some(txt(utc_datetime_text((c - 2082844800) as i64)))
        }),
        ({
            let c = p[8] as int * 16777216 + p[9] as int * 65536 + p[10] as int * 256 + p[11] as int;
            c > 2082844800 ==> mvhd_value(HeaderUse::Modification, p) == Some(txt(utc_datetime_text((c - 2082844800) as i64)))
        }),
        p.subrange(4, 8) == q.subrange(4, 8) ==> mvhd_value(HeaderUse::Creation, p) == mvhd_value(HeaderUse::Creation, q),
        p.subrange(8, 12) == q.subrange(8, 12) ==> mvhd_value(HeaderUse::Modification, p) == mvhd_value(
            HeaderUse::Modification,
            q,
        ),
{
    if p.subrange(4, 8) == q.subrange(4, 8) {
        assert(p[4] == q[4] && p[5] == q[5] && p[6] == q[6] && p[7] == q[7]) by {
            assert(p[4] == p.subrange(4, 8)[0] && p[5] == p.subrange(4, 8)[1]);
            assert(p[6] == p.subrange(4, 8)[2] && p[7] == p.subrange(4, 8)[3]);
            assert(q[4] == q.subrange(4, 8)[0] && q[5] == q.subrange(4, 8)[1]);
            assert(q[6] == q.subrange(4, 8)[2] && q[7] == q.subrange(4, 8)[3]);
        }
    }
    if p.subrange(8, 12) == q.subrange(8, 12) {
        assert(p[8] == q[8] && p[9] == q[9] && p[10] == q[10] && p[11] == q[11]) by {
            assert(p[8] == p.subrange(8, 12)[0] && p[9] == p.subrange(8, 12)[1]);
            assert(p[10] == p.subrange(8, 12)[2] && p[11] == p.subrange(8, 12)[3]);
            assert(q[8] == q.subrange(8, 12)[0] && q[9] == q.subrange(8, 12)[1]);
            assert(q[10] == q.subrange(8, 12)[2] && q[11] == q.subrange(8, 12)[3]);
        }
    }
}

} // verus!
