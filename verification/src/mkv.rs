//! Matroska (MKV) reading: the EBML element tree with its header, segment
//! information and tracks, and a search of the bytes for creation dates.

use vstd::prelude::*;
use crate::bytes::{be64, read_u64_be_at};
use crate::metadata::{txt, PieceModel, TagMap};
use crate::nikon_mov::{utc_datetime, utc_datetime_text};
use crate::text::{dec_text, sub_slice, u64_text, utf8_text};
use vstd::utf8::{decode_utf8, valid_utf8};
use crate::tiff::result_matches;
use crate::types::ExifError;

verus! {

type M = Map<Seq<char>, Seq<PieceModel>>;

/// The number of leading zero bits of a byte.
pub open spec fn lz8(b: u8) -> nat {
    if b >= 128 {
        0
    } else if b >= 64 {
        1
    } else if b >= 32 {
        2
    } else if b >= 16 {
        3
    } else if b >= 8 {
        4
    } else if b >= 4 {
        5
    } else if b >= 2 {
        6
    } else if b >= 1 {
        7
    } else {
        8
    }
}

/// `256^k`.
pub open spec fn p256(k: nat) -> nat
    decreases k,
{
    if k == 0 {
        1
    } else {
        256 * p256((k - 1) as nat)
    }
}

/// The `k` bytes at `off` read as one big-endian number.
pub open spec fn be_acc(d: Seq<u8>, off: int, k: nat) -> nat
    decreases k,
{
    if k == 0 {
        0
    } else {
        be_acc(d, off, (k - 1) as nat) * 256 + d[off + k - 1] as nat
    }
}

/// The variable-length integer at `off`: its length is one more than the
/// leading zero bits of its first byte (at most 8); its value is the low
/// 32 bits of all its bytes, the first one included, read big-endian.
pub open spec fn vint(d: Seq<u8>, off: int) -> Option<(u32, nat)> {
    if off < 0 || off >= d.len() {
        None
    } else {
        let len = lz8(d[off]) + 1;
        if off + len > d.len() || len > 8 {
            None
        } else {
            Some(((be_acc(d, off, len) % 4294967296) as u32, len))
        }
    }
}

/// The element at `off`: its ID, its total size and its contents.
pub open spec fn element_at(d: Seq<u8>, off: int) -> Option<(u32, nat, Seq<u8>)> {
    match vint(d, off) {
        None => None,
        Some((id, il)) => match vint(d, off + il) {
            None => None,
            Some((size, sl)) => {
                let total: nat = (il + sl + size) as nat;
                if off + total > d.len() {
                    None
                } else {
                    Some((id, total, d.subrange(off + il + sl, off + total)))
                }
            },
        },
    }
}

/// The nesting levels of the element tree that are read.
#[derive(Clone, Copy)]
pub enum Level {
    Top,
    Header,
    Segment,
    Info,
    Tracks,
    TrackEntry,
    Video,
    Audio,
}

/// The number stored under `key` when the contents start with a
/// variable-length integer.
pub open spec fn vint_field(body: Seq<u8>, key: Seq<char>, m: M) -> M {
    match vint(body, 0) {
        Some((v, _)) => m.insert(key, txt(dec_text(v as nat))),
        None => m,
    }
}

/// The text stored under `key` when the contents are UTF-8.
pub open spec fn text_field(body: Seq<u8>, key: Seq<char>, m: M) -> M {
    if valid_utf8(body) {
        m.insert(key, txt(decode_utf8(body)))
    } else {
        m
    }
}

/// The name of a track type.
pub open spec fn track_type_name(t: u32) -> Seq<char> {
    if t == 1 {
        "Video"@
    } else if t == 2 {
        "Audio"@
    } else if t == 3 {
        "Complex"@
    } else if t == 4 {
        "Logo"@
    } else if t == 5 {
        "Subtitle"@
    } else if t == 6 {
        "Buttons"@
    } else if t == 7 {
        "Control"@
    } else {
        "Unknown"@
    }
}

/// The Unix time of a DateUTC value: nanoseconds since 2001.
pub open spec fn date_utc_unix(ns: nat) -> nat {
    ns / 1000000000 + 978307200
}

/// The three date tags set to the UTC time `unix`.
pub open spec fn dates_set(m: M, unix: nat) -> M {
    let t = txt(utc_datetime_text(unix as i64));
    m.insert("DateTimeOriginal"@, t).insert("CreateDate"@, t).insert("CreationDate"@, t)
}

/// What the elements of a level from `off` on set.
pub open spec fn level_walk(level: Level, d: Seq<u8>, off: int, m: M) -> M
    decreases d.len(), d.len() - off,
{
    if off < 0 || off >= d.len() {
        m
    } else {
        match element_at(d, off) {
            Some((id, total, body)) => level_walk(level, d, off + total, element_effect(level, id, body, m)),
            None => m,
        }
    }
}

/// What one element of a level sets.
pub open spec fn element_effect(level: Level, id: u32, body: Seq<u8>, m: M) -> M
    decreases body.len(), body.len() + 1,
{
    match level {
        Level::Top => if id == 0x1A45DFA3 {
            level_walk(Level::Header, body, 0, m)
        } else if id == 0x18538067 {
            level_walk(Level::Segment, body, 0, m)
        } else {
            m
        },
        Level::Header => if id == 0x4286 {
            vint_field(body, "EBMLVersion"@, m)
        } else if id == 0x42F7 {
            vint_field(body, "EBMLReadVersion"@, m)
        } else if id == 0x42F2 {
            vint_field(body, "EBMLMaxIDLength"@, m)
        } else if id == 0x42F3 {
            vint_field(body, "EBMLMaxSizeLength"@, m)
        } else if id == 0x4282 {
            text_field(body, "DocType"@, m)
        } else if id == 0x4287 {
            vint_field(body, "DocTypeVersion"@, m)
        } else if id == 0x4285 {
            vint_field(body, "DocTypeReadVersion"@, m)
        } else {
            m
        },
        Level::Segment => if id == 0x1549A966 {
            level_walk(Level::Info, body, 0, m)
        } else if id == 0x1654AE6B {
            level_walk(Level::Tracks, body, 0, m)
        } else {
            m
        },
        Level::Info => if id == 0x2AD7B1 {
            vint_field(body, "TimecodeScale"@, m)
        } else if id == 0x4489 {
            vint_field(body, "Duration"@, m)
        } else if id == 0x7BA9 {
            text_field(body, "Title"@, m)
        } else if id == 0x4D80 {
            text_field(body, "MuxingApp"@, m)
        } else if id == 0x5741 {
            text_field(body, "WritingApp"@, m)
        } else if id == 0x4461 && body.len() == 8 {
            dates_set(m, date_utc_unix(be64(body, 0)))
        } else {
            m
        },
        Level::Tracks => if id == 0xAE {
            level_walk(Level::TrackEntry, body, 0, m)
        } else {
            m
        },
        Level::TrackEntry => if id == 0xD7 {
            vint_field(body, "TrackNumber"@, m)
        } else if id == 0x73C5 {
            vint_field(body, "TrackUID"@, m)
        } else if id == 0x83 {
            match vint(body, 0) {
                Some((t, _)) => m.insert("TrackType"@, txt(track_type_name(t))),
                None => m,
            }
        } else if id == 0x86 {
            text_field(body, "CodecID"@, m)
        } else if id == 0xE0 {
            level_walk(Level::Video, body, 0, m)
        } else if id == 0xE1 {
            level_walk(Level::Audio, body, 0, m)
        } else {
            m
        },
        Level::Video => if id == 0xB0 {
            vint_field(body, "ImageWidth"@, m)
        } else if id == 0xBA {
            vint_field(body, "ImageHeight"@, m)
        } else {
            m
        },
        Level::Audio => if id == 0xB5 {
            vint_field(body, "SamplingFrequency"@, m)
        } else if id == 0x9F {
            vint_field(body, "Channels"@, m)
        } else {
            m
        },
    }
}

/// The first `44 61` pair from `i`.
pub open spec fn pair_from(d: Seq<u8>, i: int) -> Option<int>
    decreases d.len() - i,
{
    if i < 0 || i + 2 > d.len() {
        None
    } else if d[i] == 0x44 && d[i + 1] == 0x61 {
        Some(i)
    } else {
        pair_from(d, i + 1)
    }
}

/// The size after a DateUTC pattern at `o` and the bytes it takes: one to
/// four bytes, by the leading zeros of the first, when they are there;
/// else 0.
pub open spec fn date_size(d: Seq<u8>, o: int) -> (nat, nat) {
    let b = d[o];
    let sl = lz8(b) + 1;
    if sl == 1 {
        (b as nat, 1)
    } else if sl == 2 && o + 1 < d.len() {
        (b as nat * 256 + d[o + 1] as nat, 2)
    } else if sl == 3 && o + 2 < d.len() {
        (b as nat * 65536 + d[o + 1] as nat * 256 + d[o + 2] as nat, 3)
    } else if sl == 4 && o + 3 < d.len() {
        (b as nat * 16777216 + d[o + 1] as nat * 65536 + d[o + 2] as nat * 256 + d[o + 3] as nat, 4)
    } else {
        (0, 1)
    }
}

/// The time in 2020-2027 that the eight bytes at `p` give, read as
/// nanoseconds since 2001 or else since 1970.
pub open spec fn stamp_choice(d: Seq<u8>, p: int) -> Option<nat> {
    let ns = be64(d, p);
    let unix = date_utc_unix(ns);
    let direct = ns / 1000000000;
    if 1600000000 < unix < 1800000000 {
        Some(unix)
    } else if 1600000000 < direct < 1800000000 {
        Some(direct)
    } else {
        None
    }
}

/// The first time chosen at `start + i` for `i` up to `last`.
pub open spec fn element_stamp(d: Seq<u8>, start: int, i: int, last: int) -> Option<nat>
    decreases last + 1 - i,
{
    if i < 0 || i > last {
        None
    } else {
        match stamp_choice(d, start + i) {
            Some(t) => Some(t),
            None => element_stamp(d, start, i + 1, last),
        }
    }
}

/// The first DateUTC-like element from `off` with a time in 2020-2027.
pub open spec fn date_search(d: Seq<u8>, off: int) -> Option<nat>
    decreases d.len() + 8 - off,
{
    if off < 0 || off + 15 >= d.len() {
        None
    } else {
        match pair_from(d, off) {
            None => None,
            Some(pos) => {
                proof {
                    lemma_pair_from_after(d, off);
                }
                let o = pos + 2;
                if o >= d.len() {
                    None
                } else {
                    let (es, used) = date_size(d, o);
                    if es >= 8 {
                        let o2 = o + used;
                        if o2 + es <= d.len() {
                            match element_stamp(d, o2, 0, es - 8) {
                                Some(t) => Some(t),
                                None => date_search(d, o2),
                            }
                        } else if o2 >= d.len() {
                            None
                        } else {
                            date_search(d, o2)
                        }
                    } else {
                        date_search(d, o)
                    }
                }
            },
        }
    }
}

/// The fields added for every MKV file.
pub open spec fn mkv_computed(m: M) -> M {
    let m1 = m.insert("FileTypeExtension"@, txt("mkv"@)).insert("MIMEType"@, txt("video/x-matroska"@)).insert(
        "ExifByteOrder"@,
        txt("Little-endian (Intel, II)"@),
    );
    if m1.contains_key("Format"@) {
        m1
    } else {
        m1.insert("Format"@, txt("MKV"@))
    }
}

/// Whether the file starts with the EBML magic `1A 45 DF A3`.
pub open spec fn mkv_magic(d: Seq<u8>) -> bool {
    d.len() >= 4 && d[0] == 0x1A && d[1] == 0x45 && d[2] == 0xDF && d[3] == 0xA3
}

/// What reading an MKV file gives: an error for a short file or a wrong
/// signature; else the element tree, a searched creation date and the
/// computed fields.
pub open spec fn mkv_outcome(d: Seq<u8>, m: M) -> (Option<Seq<char>>, M) {
    if d.len() < 4 {
        (Some("MKV file too small"@), m)
    } else if !mkv_magic(d) {
        (Some("Invalid MKV signature"@), m)
    } else {
        let m1 = level_walk(Level::Top, d, 0, m.insert("Format"@, txt("MKV"@)));
        let m2 = match date_search(d, 0) {
            Some(t) => dates_set(m1, t),
            None => m1,
        };
        (None, mkv_computed(m2))
    }
}

/// The Matroska parser.
pub struct MkvParser;

impl MkvParser {
    /// Reads an MKV file's metadata. A file with the magic must have at
    /// least fifteen bytes: the date search takes fifteen from its length.
    pub fn parse_mkv_exif(data: &[u8], metadata: &mut TagMap) -> (r: Result<(), ExifError>)
        requires
            mkv_magic(data@) ==> data@.len() >= 15,
        ensures
            result_matches(r, mkv_outcome(data@, old(metadata)@).0),
            final(metadata)@ == mkv_outcome(data@, old(metadata)@).1,
    {
        if data.len() < 4 {
            return Err(ExifError::invalid("MKV file too small"));
        }
        if data[0] != 0x1A || data[1] != 0x45 || data[2] != 0xDF || data[3] != 0xA3 {
            return Err(ExifError::invalid("Invalid MKV signature"));
        }
        metadata.insert_str("Format", "MKV");
        Self::walk_level(Level::Top, data, metadata);
        Self::search_for_date_elements(data, metadata);
        Self::add_computed_fields(metadata);
        Ok(())
    }

    /// The leading zero bits of a byte.
    fn leading_zeros(b: u8) -> (r: usize)
        ensures
            r == lz8(b),
    {
        if b >= 128 {
            0
        } else if b >= 64 {
            1
        } else if b >= 32 {
            2
        } else if b >= 16 {
            3
        } else if b >= 8 {
            4
        } else if b >= 4 {
            5
        } else if b >= 2 {
            6
        } else if b >= 1 {
            7
        } else {
            8
        }
    }

    /// The variable-length integer at `offset` and its length.
    fn parse_vint(data: &[u8], offset: usize) -> (r: Option<(u32, usize)>)
        ensures
            r matches Some((v, l)) ==> vint(data@, offset as int) == Some((v, l as nat)) && l <= 8,
            r is None ==> vint(data@, offset as int) is None,
    {
        if offset >= data.len() {
            return None;
        }
        let length = Self::leading_zeros(data[offset]) + 1;
        if length > 8 || length > data.len() - offset {
            return None;
        }
        let mut acc: u64 = 0;
        let mut i: usize = 0;
        assert(p256(8) == 18446744073709551616) by {
            reveal_with_fuel(p256, 9);
        }
        while i < length
            invariant
                i <= length <= 8,
                offset + length <= data@.len(),
                acc == be_acc(data@, offset as int, i as nat),
                acc < p256(i as nat),
                p256(8) == 18446744073709551616,
            decreases length - i,
        {
            proof {
                lemma_p256_mono(i as nat + 1, 8);
            }
            acc = acc * 256 + data[offset + i] as u64;
            i = i + 1;
        }
        Some(((acc % 4294967296) as u32, length))
    }

    /// The element at `offset`: its ID, total size and contents.
    fn parse_ebml_element(data: &[u8], offset: usize) -> (r: Option<(u32, usize, &[u8])>)
        ensures
            r matches Some((id, total, body)) ==> element_at(data@, offset as int) == Some((id, total as nat, body@))
                && offset + total <= data@.len() && body@.len() + 2 <= total,
            r is None ==> element_at(data@, offset as int) is None,
    {
        if offset >= data.len() {
            return None;
        }
        let (element_id, id_size) = match Self::parse_vint(data, offset) {
            Some(x) => x,
            None => {
                return None;
            },
        };
        let (element_size, size_size) = match Self::parse_vint(data, offset + id_size) {
            Some(x) => x,
            None => {
                return None;
            },
        };
        let rest = data.len() - offset;
        let head = id_size + size_size;
        if head > rest || element_size as usize > rest - head {
            return None;
        }
        let total = head + element_size as usize;
        Some((element_id, total, sub_slice(data, offset + head, offset + total)))
    }

    /// Reads the elements of a level.
    fn walk_level(level: Level, data: &[u8], metadata: &mut TagMap)
        ensures
            final(metadata)@ == level_walk(level, data@, 0, old(metadata)@),
        decreases data@.len(), 0nat,
    {
        let ghost m0 = metadata@;
        let mut offset: usize = 0;
        while offset < data.len()
            invariant
                level_walk(level, data@, offset as int, metadata@) == level_walk(level, data@, 0, m0),
                offset <= data@.len(),
            decreases data.len() - offset,
        {
            match Self::parse_ebml_element(data, offset) {
                Some((element_id, element_size, element_data)) => {
                    Self::process_mkv_element(level, element_id, element_data, metadata);
                    offset = offset + element_size;
                },
                None => {
                    return;
                },
            }
        }
    }

    /// Reads one element of a level.
    fn process_mkv_element(level: Level, element_id: u32, element_data: &[u8], metadata: &mut TagMap)
        ensures
            final(metadata)@ == element_effect(level, element_id, element_data@, old(metadata)@),
        decreases element_data@.len(), 2nat,
    {
        match level {
            Level::Top => {
                if element_id == 0x1A45DFA3 {
                    Self::parse_ebml_header(element_data, metadata);
                } else if element_id == 0x18538067 {
                    Self::parse_segment(element_data, metadata);
                }
            },
            Level::Header => {
                if element_id == 0x4286 {
                    Self::vint_field_of(element_data, "EBMLVersion", metadata);
                } else if element_id == 0x42F7 {
                    Self::vint_field_of(element_data, "EBMLReadVersion", metadata);
                } else if element_id == 0x42F2 {
                    Self::vint_field_of(element_data, "EBMLMaxIDLength", metadata);
                } else if element_id == 0x42F3 {
                    Self::vint_field_of(element_data, "EBMLMaxSizeLength", metadata);
                } else if element_id == 0x4282 {
                    Self::text_field_of(element_data, "DocType", metadata);
                } else if element_id == 0x4287 {
                    Self::vint_field_of(element_data, "DocTypeVersion", metadata);
                } else if element_id == 0x4285 {
                    Self::vint_field_of(element_data, "DocTypeReadVersion", metadata);
                }
            },
            Level::Segment => {
                if element_id == 0x1549A966 {
                    Self::parse_info(element_data, metadata);
                } else if element_id == 0x1654AE6B {
                    Self::parse_tracks(element_data, metadata);
                }
            },
            Level::Info => {
                if element_id == 0x2AD7B1 {
                    Self::vint_field_of(element_data, "TimecodeScale", metadata);
                } else if element_id == 0x4489 {
                    Self::vint_field_of(element_data, "Duration", metadata);
                } else if element_id == 0x7BA9 {
                    Self::text_field_of(element_data, "Title", metadata);
                } else if element_id == 0x4D80 {
                    Self::text_field_of(element_data, "MuxingApp", metadata);
                } else if element_id == 0x5741 {
                    Self::text_field_of(element_data, "WritingApp", metadata);
                } else if element_id == 0x4461 && element_data.len() == 8 {
                    let ns = read_u64_be_at(element_data, 0);
                    Self::set_dates(metadata, ns / 1_000_000_000 + 978307200);
                }
            },
            Level::Tracks => {
                if element_id == 0xAE {
                    Self::parse_track_entry(element_data, metadata);
                }
            },
            Level::TrackEntry => {
                if element_id == 0xD7 {
                    Self::vint_field_of(element_data, "TrackNumber", metadata);
                } else if element_id == 0x73C5 {
                    Self::vint_field_of(element_data, "TrackUID", metadata);
                } else if element_id == 0x83 {
                    if let Some((t, _)) = Self::parse_vint(element_data, 0) {
                        metadata.insert_str("TrackType", Self::track_type_text(t));
                    }
                } else if element_id == 0x86 {
                    Self::text_field_of(element_data, "CodecID", metadata);
                } else if element_id == 0xE0 {
                    Self::parse_video_track(element_data, metadata);
                } else if element_id == 0xE1 {
                    Self::parse_audio_track(element_data, metadata);
                }
            },
            Level::Video => {
                if element_id == 0xB0 {
                    Self::vint_field_of(element_data, "ImageWidth", metadata);
                } else if element_id == 0xBA {
                    Self::vint_field_of(element_data, "ImageHeight", metadata);
                }
            },
            Level::Audio => {
                if element_id == 0xB5 {
                    Self::vint_field_of(element_data, "SamplingFrequency", metadata);
                } else if element_id == 0x9F {
                    Self::vint_field_of(element_data, "Channels", metadata);
                }
            },
        }
    }

    /// Reads the EBML header.
    fn parse_ebml_header(data: &[u8], metadata: &mut TagMap)
        ensures
            final(metadata)@ == level_walk(Level::Header, data@, 0, old(metadata)@),
        decreases data@.len(), 1nat,
    {
        Self::walk_level(Level::Header, data, metadata)
    }

    /// Reads the segment.
    fn parse_segment(data: &[u8], metadata: &mut TagMap)
        ensures
            final(metadata)@ == level_walk(Level::Segment, data@, 0, old(metadata)@),
        decreases data@.len(), 1nat,
    {
        Self::walk_level(Level::Segment, data, metadata)
    }

    /// Reads the segment information.
    fn parse_info(data: &[u8], metadata: &mut TagMap)
        ensures
            final(metadata)@ == level_walk(Level::Info, data@, 0, old(metadata)@),
        decreases data@.len(), 1nat,
    {
        Self::walk_level(Level::Info, data, metadata)
    }

    /// Reads the tracks.
    fn parse_tracks(data: &[u8], metadata: &mut TagMap)
        ensures
            final(metadata)@ == level_walk(Level::Tracks, data@, 0, old(metadata)@),
        decreases data@.len(), 1nat,
    {
        Self::walk_level(Level::Tracks, data, metadata)
    }

    /// Reads a track entry.
    fn parse_track_entry(data: &[u8], metadata: &mut TagMap)
        ensures
            final(metadata)@ == level_walk(Level::TrackEntry, data@, 0, old(metadata)@),
        decreases data@.len(), 1nat,
    {
        Self::walk_level(Level::TrackEntry, data, metadata)
    }

    /// Reads a video track's settings.
    fn parse_video_track(data: &[u8], metadata: &mut TagMap)
        ensures
            final(metadata)@ == level_walk(Level::Video, data@, 0, old(metadata)@),
        decreases data@.len(), 1nat,
    {
        Self::walk_level(Level::Video, data, metadata)
    }

    /// Reads an audio track's settings.
    fn parse_audio_track(data: &[u8], metadata: &mut TagMap)
        ensures
            final(metadata)@ == level_walk(Level::Audio, data@, 0, old(metadata)@),
        decreases data@.len(), 1nat,
    {
        Self::walk_level(Level::Audio, data, metadata)
    }

    /// Stores the leading variable-length integer under `key`.
    fn vint_field_of(data: &[u8], key: &str, metadata: &mut TagMap)
        ensures
            final(metadata)@ == vint_field(data@, key@, old(metadata)@),
    {
        if let Some((v, _)) = Self::parse_vint(data, 0) {
            metadata.insert_text(key, u64_text(v as u64));
        }
    }

    /// Stores the contents under `key` when they are UTF-8.
    fn text_field_of(data: &[u8], key: &str, metadata: &mut TagMap)
        ensures
            final(metadata)@ == text_field(data@, key@, old(metadata)@),
    {
        if let Some(t) = utf8_text(data) {
            metadata.insert_text(key, t);
        }
    }

    /// The name of a track type.
    fn track_type_text(t: u32) -> (r: &'static str)
        ensures
            r@ == track_type_name(t),
    {
        if t == 1 {
            "Video"
        } else if t == 2 {
            "Audio"
        } else if t == 3 {
            "Complex"
        } else if t == 4 {
            "Logo"
        } else if t == 5 {
            "Subtitle"
        } else if t == 6 {
            "Buttons"
        } else if t == 7 {
            "Control"
        } else {
            "Unknown"
        }
    }

    /// Sets the three date tags to the UTC time `unix`.
    fn set_dates(metadata: &mut TagMap, unix: u64)
        requires
            unix <= 100_000_000_000,
        ensures
            final(metadata)@ == dates_set(old(metadata)@, unix as nat),
    {
        if let Some(t) = utc_datetime(unix as i64) {
            metadata.insert_text("DateTimeOriginal", t.clone());
            metadata.insert_text("CreateDate", t.clone());
            metadata.insert_text("CreationDate", t);
        }
    }

    /// The first `44 61` pair from `start`.
    fn find_pattern(data: &[u8], start: usize) -> (r: Option<usize>)
        ensures
            r matches Some(p) ==> pair_from(data@, start as int) == Some(p as int) && p + 2 <= data@.len() && start <= p,
            r is None ==> pair_from(data@, start as int) is None,
    {
        let mut i = start;
        while i < data.len() && data.len() - i >= 2
            invariant
                start <= i,
                pair_from(data@, i as int) == pair_from(data@, start as int),
            decreases data.len() - i,
        {
            if data[i] == 0x44 && data[i + 1] == 0x61 {
                return Some(i);
            }
            i = i + 1;
        }
        None
    }

    /// The size after a DateUTC pattern and the bytes it takes.
    fn date_size_at(data: &[u8], o: usize) -> (r: (usize, usize))
        requires
            o < data.len(),
        ensures
            r.0 == date_size(data@, o as int).0 && r.1 == date_size(data@, o as int).1,
            1 <= r.1 <= 4,
    {
        let b = data[o] as usize;
        let sl = Self::leading_zeros(data[o]) + 1;
        if sl == 1 {
            (b, 1)
        } else if sl == 2 && data.len() - o > 1 {
            (b * 256 + data[o + 1] as usize, 2)
        } else if sl == 3 && data.len() - o > 2 {
            (b * 65536 + data[o + 1] as usize * 256 + data[o + 2] as usize, 3)
        } else if sl == 4 && data.len() - o > 3 {
            (b * 16777216 + data[o + 1] as usize * 65536 + data[o + 2] as usize * 256 + data[o + 3] as usize, 4)
        } else {
            (0, 1)
        }
    }

    /// The first time in 2020-2027 in the element at `start`.
    fn element_time(data: &[u8], start: usize, size: usize) -> (r: Option<u64>)
        requires
            size >= 8,
            start + size <= data.len(),
        ensures
            r matches Some(t) ==> element_stamp(data@, start as int, 0, size - 8) == Some(t as nat) && t < 1800000000,
            r is None ==> element_stamp(data@, start as int, 0, size - 8) is None,
    {
        let mut i: usize = 0;
        while i <= size - 8
            invariant
                size >= 8,
                start + size <= data@.len(),
                element_stamp(data@, start as int, i as int, size - 8) == element_stamp(data@, start as int, 0, size - 8),
            decreases size - 8 - i + 1,
        {
            let ns = read_u64_be_at(data, start + i);
            let unix = ns / 1_000_000_000 + 978307200;
            let direct = ns / 1_000_000_000;
            if unix > 1600000000 && unix < 1800000000 {
                return Some(unix);
            }
            if direct > 1600000000 && direct < 1800000000 {
                return Some(direct);
            }
            i = i + 1;
        }
        None
    }

    /// Searches the bytes for DateUTC-like elements with a time in
    /// 2020-2027 and stores the first one found.
    fn search_for_date_elements(data: &[u8], metadata: &mut TagMap)
        requires
            data@.len() >= 15,
        ensures
            final(metadata)@ == (match date_search(data@, 0) {
                Some(t) => dates_set(old(metadata)@, t),
                None => old(metadata)@,
            }),
    {
        let mut offset: usize = 0;
        while offset < data.len() - 15
            invariant
                data@.len() >= 15,
                date_search(data@, offset as int) == date_search(data@, 0),
                metadata@ == old(metadata)@,
            decreases data.len() + 8 - offset,
        {
            let pos = match Self::find_pattern(data, offset) {
                Some(p) => p,
                None => {
                    return;
                },
            };
            let o = pos + 2;
            if o >= data.len() {
                return;
            }
            let (es, used) = Self::date_size_at(data, o);
            if es >= 8 {
                let o2 = o + used;
                if o2 <= data.len() && es <= data.len() - o2 {
                    match Self::element_time(data, o2, es) {
                        Some(t) => {
                            Self::set_dates(metadata, t);
                            return;
                        },
                        None => {},
                    }
                }
                offset = o2;
            } else {
                offset = o;
            }
        }
    }

    /// Adds the fields computed for every MKV file.
    fn add_computed_fields(metadata: &mut TagMap)
        ensures
            final(metadata)@ == mkv_computed(old(metadata)@),
    {
        metadata.insert_str("FileTypeExtension", "mkv");
        metadata.insert_str("MIMEType", "video/x-matroska");
        metadata.insert_str("ExifByteOrder", "Little-endian (Intel, II)");
        if !metadata.contains_key("Format") {
            metadata.insert_str("Format", "MKV");
        }
    }
}

/// The pair found from `i` is at `i` or after it.
pub proof fn lemma_pair_from_after(d: Seq<u8>, i: int)
    ensures
        pair_from(d, i) matches Some(p) ==> i <= p < d.len(),
    decreases d.len() - i,
{
    if 0 <= i && i + 2 <= d.len() && !(d[i] == 0x44 && d[i + 1] == 0x61) {
        lemma_pair_from_after(d, i + 1);
    }
}

/// `256^a <= 256^b` for `a <= b`.
proof fn lemma_p256_mono(a: nat, b: nat)
    requires
        a <= b,
    ensures
        p256(a) <= p256(b),
    decreases b,
{
    if a < b {
        lemma_p256_mono(a, (b - 1) as nat);
    }
}

} // verus!

verus! {

/// In the segment's information, the element with id `4D80` sets
/// `MuxingApp` to its text and leaves `WritingApp` as it was, and the
/// element with id `5741` sets `WritingApp` and leaves `MuxingApp`.
pub proof fn law_muxing_and_writing_apps(body: Seq<u8>, m: M)
    requires
        valid_utf8(body),
    ensures
        element_effect(Level::Info, 0x4D80, body, m).contains_key("MuxingApp"@),
        element_effect(Level::Info, 0x4D80, body, m)["MuxingApp"@] == txt(decode_utf8(body)),
        element_effect(Level::Info, 0x4D80, body, m).contains_key("WritingApp"@) == m.contains_key("WritingApp"@),
        m.contains_key("WritingApp"@) ==> element_effect(Level::Info, 0x4D80, body, m)["WritingApp"@] == m["WritingApp"@],
        element_effect(Level::Info, 0x5741, body, m).contains_key("WritingApp"@),
        element_effect(Level::Info, 0x5741, body, m)["WritingApp"@] == txt(decode_utf8(body)),
        element_effect(Level::Info, 0x5741, body, m).contains_key("MuxingApp"@) == m.contains_key("MuxingApp"@),
        m.contains_key("MuxingApp"@) ==> element_effect(Level::Info, 0x5741, body, m)["MuxingApp"@] == m["MuxingApp"@],
{
    reveal_strlit("MuxingApp");
    reveal_strlit("WritingApp");
    assert("MuxingApp"@.len() != "WritingApp"@.len());
}

} // verus!
