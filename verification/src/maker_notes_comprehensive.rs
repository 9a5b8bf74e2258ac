//! Maker-note parsing that reads Canon notes as a tag list with the Canon
//! 70D tag names.

use vstd::prelude::*;
use crate::text::{lowercase_text, str_lower_text};
use crate::maker_notes::{
    canon_bytes, canon_tag_name_text, list_note_effect, list_tag_effect, matches_at,
    nikon_bytes, nikon_effect, olympus_bytes, olympus_effect, sony_effect, ListBrand,
    MakerNoteParser,
};
use crate::metadata::{text_of, PieceModel, TagMap};
use crate::text::{contains_text, text_contains};
use crate::utils::bytes_match_at;

verus! {

/// What a maker note adds when its maker is only known from the `Make` tag.
pub open spec fn comprehensive_fallback_effect(
    data: Seq<u8>,
    m: Map<Seq<char>, Seq<PieceModel>>,
) -> Map<Seq<char>, Seq<PieceModel>> {
    match text_of(m, "Make"@) {
        Some(make) => {
            let l = str_lower_text(make);
            if contains_text(l, "canon"@) {
                list_note_effect(ListBrand::Canon, data, m)
            } else if contains_text(l, "nikon"@) {
                nikon_effect(data, m)
            } else if contains_text(l, "olympus"@) {
                olympus_effect(data, m)
            } else if contains_text(l, "sony"@) {
                sony_effect(data, m)
            } else {
                m
            }
        },
        None => m,
    }
}

/// What a maker note at `offset` adds: Canon notes are read as a tag list,
/// Nikon and Olympus notes are marked; the maker is told by the bytes at
/// `offset`, else by the `Make` tag (Sony only by the `Make` tag, as a
/// five-byte window never equals the four bytes of `Sony`).
pub open spec fn comprehensive_note_effect(
    data: Seq<u8>,
    offset: int,
    m: Map<Seq<char>, Seq<PieceModel>>,
) -> Map<Seq<char>, Seq<PieceModel>> {
    if offset + 10 > data.len() {
        m
    } else if bytes_match_at(data, offset, canon_bytes()) {
        list_note_effect(ListBrand::Canon, data, m)
    } else if bytes_match_at(data, offset, nikon_bytes()) {
        nikon_effect(data, m)
    } else if bytes_match_at(data, offset, olympus_bytes()) {
        olympus_effect(data, m)
    } else {
        comprehensive_fallback_effect(data, m)
    }
}

/// Maker-note parser with Canon tag-list support.
pub struct MakerNotesParser;

impl MakerNotesParser {
    /// Parse the maker note at `offset`.
    pub fn parse_maker_note(data: &[u8], offset: usize, _count: usize, metadata: &mut TagMap)
        ensures
            final(metadata)@ == comprehensive_note_effect(data@, offset as int, old(metadata)@),
    {
        if offset > data.len() || data.len() - offset < 10 {
            return;
        }
        let canon: [u8; 5] = [67u8, 97u8, 110u8, 111u8, 110u8];
        let nikon: [u8; 5] = [78u8, 105u8, 107u8, 111u8, 110u8];
        let olympus: [u8; 7] = [79u8, 76u8, 89u8, 77u8, 80u8, 85u8, 83u8];
        assert(canon@ =~= canon_bytes());
        assert(nikon@ =~= nikon_bytes());
        assert(olympus@ =~= olympus_bytes());
        if matches_at(data, offset, &canon) {
            Self::parse_canon_maker_note(data, metadata);
        } else if matches_at(data, offset, &nikon) {
            MakerNoteParser::parse_nikon_maker_note(data, metadata);
        } else if matches_at(data, offset, &olympus) {
            MakerNoteParser::parse_olympus_maker_note(data, metadata);
        } else {
            let make = match metadata.get_text("Make") {
                Some(m) => Some(lowercase_text(m.as_str())),
                None => None,
            };
            if let Some(l) = make {
                let l = l.as_str();
                if text_contains(l, "canon") {
                    Self::parse_canon_maker_note(data, metadata);
                } else if text_contains(l, "nikon") {
                    MakerNoteParser::parse_nikon_maker_note(data, metadata);
                } else if text_contains(l, "olympus") {
                    MakerNoteParser::parse_olympus_maker_note(data, metadata);
                } else if text_contains(l, "sony") {
                    MakerNoteParser::parse_sony_maker_note(data, metadata);
                }
            }
        }
    }

    /// Parse a Canon maker note: up to fifty twelve-byte little-endian
    /// entries from the start of the buffer, named with the Canon tag table.
    fn parse_canon_maker_note(data: &[u8], metadata: &mut TagMap)
        ensures
            final(metadata)@ == list_note_effect(ListBrand::Canon, data@, old(metadata)@),
    {
        MakerNoteParser::parse_tag_list(ListBrand::Canon, data, metadata);
    }

    /// Parse one Canon maker-note entry.
    pub fn parse_canon_tag(
        data: &[u8],
        tag_id: u16,
        data_type: u16,
        count: u32,
        value_offset: u32,
        metadata: &mut TagMap,
    )
        ensures
            final(metadata)@ == list_tag_effect(
                ListBrand::Canon,
                data@,
                tag_id,
                data_type,
                count,
                value_offset,
                old(metadata)@,
            ),
    {
        MakerNoteParser::parse_list_tag(ListBrand::Canon, data, tag_id, data_type, count, value_offset, metadata);
    }

    /// The name of a Canon maker-note tag (`CanonTag_XXXX` when unknown).
    pub fn get_canon_tag_name(tag_id: u16) -> (r: String)
        ensures
            r@ == crate::maker_notes::canon_tag_name(tag_id),
    {
        canon_tag_name_text(tag_id)
    }
}

} // verus!
