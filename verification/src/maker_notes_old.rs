//! The earlier maker-note parser: it only records which maker wrote the
//! note.

use vstd::prelude::*;
use crate::text::{lowercase_text, str_lower_text};
use crate::maker_notes::{
    canon_bytes, canon_effect, matches_at, nikon_bytes, nikon_effect, olympus_bytes,
    olympus_effect, sony_effect, MakerNoteParser as ListParser,
};
use crate::metadata::{text_of, PieceModel, TagMap};
use crate::text::{contains_text, text_contains};
use crate::utils::bytes_match_at;

verus! {

/// What a maker note adds when its maker is only known from the `Make` tag.
pub open spec fn old_fallback_effect(
    data: Seq<u8>,
    m: Map<Seq<char>, Seq<PieceModel>>,
) -> Map<Seq<char>, Seq<PieceModel>> {
    match text_of(m, "Make"@) {
        Some(make) => {
            let l = str_lower_text(make);
            if contains_text(l, "canon"@) {
                canon_effect(data, m)
            } else if contains_text(l, "nikon"@) {
                nikon_effect(data, m)
            } else if contains_text(l, "olympus"@) {
                olympus_effect(data, m)
            } else if contains_text(l, "sony"@) {
                sony_effect(data, m)
            } else {
                m
            }
        },
        None => m,
    }
}

/// What a maker note at `offset` adds: its maker's type and marker, the
/// maker told by the bytes at `offset`, else by the `Make` tag.
pub open spec fn old_note_effect(
    data: Seq<u8>,
    offset: int,
    m: Map<Seq<char>, Seq<PieceModel>>,
) -> Map<Seq<char>, Seq<PieceModel>> {
    if offset + 10 > data.len() {
        m
    } else if bytes_match_at(data, offset, canon_bytes()) {
        canon_effect(data, m)
    } else if bytes_match_at(data, offset, nikon_bytes()) {
        nikon_effect(data, m)
    } else if bytes_match_at(data, offset, olympus_bytes()) {
        olympus_effect(data, m)
    } else {
        old_fallback_effect(data, m)
    }
}

/// Maker note parser for camera manufacturer specific data.
pub struct MakerNoteParser;

impl MakerNoteParser {
    /// Parse the maker note at `offset`.
    pub fn parse_maker_note(data: &[u8], offset: usize, _count: usize, metadata: &mut TagMap)
        ensures
            final(metadata)@ == old_note_effect(data@, offset as int, old(metadata)@),
    {
        if offset > data.len() || data.len() - offset < 10 {
            return;
        }
        let canon: [u8; 5] = [67u8, 97u8, 110u8, 111u8, 110u8];
        let nikon: [u8; 5] = [78u8, 105u8, 107u8, 111u8, 110u8];
        let olympus: [u8; 7] = [79u8, 76u8, 89u8, 77u8, 80u8, 85u8, 83u8];
        assert(canon@ =~= canon_bytes());
        assert(nikon@ =~= nikon_bytes());
        assert(olympus@ =~= olympus_bytes());
        if matches_at(data, offset, &canon) {
            ListParser::parse_canon_maker_note(data, metadata);
        } else if matches_at(data, offset, &nikon) {
            ListParser::parse_nikon_maker_note(data, metadata);
        } else if matches_at(data, offset, &olympus) {
            ListParser::parse_olympus_maker_note(data, metadata);
        } else {
            let make = match metadata.get_text("Make") {
                Some(m) => Some(lowercase_text(m.as_str())),
                None => None,
            };
            if let Some(l) = make {
                let l = l.as_str();
                if text_contains(l, "canon") {
                    ListParser::parse_canon_maker_note(data, metadata);
                } else if text_contains(l, "nikon") {
                    ListParser::parse_nikon_maker_note(data, metadata);
                } else if text_contains(l, "olympus") {
                    ListParser::parse_olympus_maker_note(data, metadata);
                } else if text_contains(l, "sony") {
                    ListParser::parse_sony_maker_note(data, metadata);
                }
            }
        }
    }
}

} // verus!
