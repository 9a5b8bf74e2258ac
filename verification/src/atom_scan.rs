//! Reading a QuickTime file's atoms without loading the media data: the
//! decisions of the scan, as a machine that asks its host for the bytes
//! it needs (a header, or a leaf atom's payload) and is told what came.

use vstd::prelude::*;
use crate::bytes::read_u32;
use crate::metadata::{PieceModel, TagMap};
use crate::nikon_mov::{atom_effect, atom_size, atom_size_spec, code_at, handle_atom, is_container, is_container_code, is_leaf, is_leaf_code};
use crate::types::ExifError;

verus! {

type M = Map<Seq<char>, Seq<PieceModel>>;

/// What the scan asks its host to do next.
#[derive(Clone, Copy, PartialEq, Eq, Debug)]
pub enum ScanAction {
    /// Read up to 16 bytes at this offset and hand them to `header_read`.
    ReadHeader(u64),
    /// Read exactly this many bytes at this offset and hand them to
    /// `payload_read`.
    ReadPayload(u64, u64),
    /// The scan is over: the offset and size of the media data, if found.
    Done(Option<(u64, u64)>),
}

/// A range of atoms being walked: the next atom's offset, the range's
/// end, and its nesting depth.
#[derive(Clone, Copy, PartialEq, Eq, Debug)]
pub struct ScanFrame {
    pub pos: u64,
    pub end: u64,
    pub depth: u32,
}

/// Whether a range is walked at all: not too deep and not empty.
pub open spec fn frame_live(start: u64, end: u64, depth: nat) -> bool {
    depth <= 12 && start < end
}

/// What the scan holds: the ranges being walked (innermost last), the
/// media data found, and the leaf atom whose payload is awaited.
pub ghost struct ScanView {
    pub frames: Seq<ScanFrame>,
    pub mdat: Option<(u64, u64)>,
    pub pending: Option<(u32, u64, u64)>,
}

/// Whether every range is at most twelve levels deep.
pub open spec fn scan_wf(v: ScanView) -> bool {
    forall|i: int| 0 <= i < v.frames.len() ==> #[trigger] v.frames[i].depth <= 12
}

/// A range left after dropping the finished ones has room for a header.
proof fn lemma_settle(frames: Seq<ScanFrame>)
    ensures
        settle(frames).len() <= frames.len(),
        settle(frames) == frames.subrange(0, settle(frames).len() as int),
        settle(frames).len() > 0 ==> settle(frames).last().pos + 8 <= settle(frames).last().end,
    decreases frames.len(),
{
    if frames.len() > 0 && frames.last().pos + 8 > frames.last().end {
        lemma_settle(frames.drop_last());
    } else {
        assert(frames.subrange(0, frames.len() as int) =~= frames);
    }
}

/// The ranges with the finished innermost ones dropped.
pub open spec fn settle(frames: Seq<ScanFrame>) -> Seq<ScanFrame>
    decreases frames.len(),
{
    if frames.len() == 0 {
        frames
    } else if frames.last().pos + 8 > frames.last().end {
        settle(frames.drop_last())
    } else {
        frames
    }
}

/// The next request of a scan in state `v`.
pub open spec fn next_of(v: ScanView) -> ScanAction {
    match v.pending {
        Some((_, at, len)) => ScanAction::ReadPayload(at, len),
        None => {
            let f = settle(v.frames);
            if f.len() == 0 {
                ScanAction::Done(v.mdat)
            } else {
                ScanAction::ReadHeader(f.last().pos)
            }
        },
    }
}

/// The scan after a header of which `n` bytes were read at the innermost
/// range's next offset: the range ends when fewer than 8 bytes came or the
/// atom does not fit; the media data is noted; a container's children are
/// walked next; a leaf of at most a megabyte has its payload asked for;
/// then the range goes on after the atom. `None` when a 64-bit size was
/// cut short.
pub open spec fn after_header(v: ScanView, hdr: Seq<u8>, n: nat) -> Option<ScanView> {
    let fs = settle(v.frames);
    let top = fs.last();
    let rest = fs.drop_last();
    if n < 8 {
        Some(ScanView { frames: rest, ..v })
    } else {
        match atom_size_spec(hdr, n as int, (top.end - top.pos) as u64) {
            None => None,
            Some((size, header_len)) => {
                let atom_end = top.pos + size;
                if atom_end > u64::MAX || size < header_len || atom_end > top.end {
                    Some(ScanView { frames: rest, ..v })
                } else {
                    let moved = rest.push(ScanFrame { pos: atom_end as u64, ..top });
                    let typ = code_at(hdr, 4);
                    let payload = top.pos + header_len;
                    let payload_len = size - header_len;
                    if typ == 0x6d646174 {
                        Some(ScanView { frames: moved, mdat: Some((payload as u64, payload_len as u64)), ..v })
                    } else if is_container_code(typ) {
                        let child = if typ == 0x6d657461 {
                            if payload + 4 < atom_end { payload + 4 } else { atom_end }
                        } else {
                            payload
                        };
                        if frame_live(child as u64, atom_end as u64, (top.depth + 1) as nat) {
                            Some(ScanView {
                                frames: moved.push(ScanFrame { pos: child as u64, end: atom_end as u64, depth: (top.depth + 1) as u32 }),
                                ..v
                            })
                        } else {
                            Some(ScanView { frames: moved, ..v })
                        }
                    } else if payload_len > 0 && payload_len <= 1048576 && is_leaf_code(typ) {
                        Some(ScanView { frames: moved, pending: Some((typ as u32, payload as u64, payload_len as u64)), ..v })
                    } else {
                        Some(ScanView { frames: moved, ..v })
                    }
                }
            },
        }
    }
}

/// The scan of a QuickTime file.
pub struct AtomScanner {
    frames: Vec<ScanFrame>,
    mdat: Option<(u64, u64)>,
    pending: Option<(u32, u64, u64)>,
}

impl View for AtomScanner {
    type V = ScanView;

    closed spec fn view(&self) -> ScanView {
        ScanView { frames: self.frames@, mdat: self.mdat, pending: self.pending }
    }
}

/// Starts the scan of a file of `file_len` bytes.
pub fn scan_file(file_len: u64) -> (r: AtomScanner)
    ensures
        scan_wf(r@),
        within_file(r@, file_len),
        r@.mdat is None,
        r@.pending is None,
        r@.frames == (if frame_live(0, file_len, 0) {
            seq![ScanFrame { pos: 0, end: file_len, depth: 0 }]
        } else {
            Seq::<ScanFrame>::empty()
        }),
{
    let mut frames: Vec<ScanFrame> = Vec::new();
    if 0 < file_len {
        frames.push(ScanFrame { pos: 0, end: file_len, depth: 0 });
    }
    let r = AtomScanner { frames, mdat: None, pending: None };
    assert(r@.frames =~= (if frame_live(0, file_len, 0) {
        seq![ScanFrame { pos: 0, end: file_len, depth: 0 }]
    } else {
        Seq::<ScanFrame>::empty()
    }));
    r
}

impl AtomScanner {
    /// Drops the finished innermost ranges.
    fn settle_frames(&mut self)
        ensures
            final(self)@ == (ScanView { frames: settle(old(self)@.frames), ..old(self)@ }),
    {
        while self.frames.len() > 0
            invariant
                settle(self.frames@) == settle(old(self).frames@),
                self.frames.len() == 0 ==> settle(self.frames@) == self.frames@,
                self.mdat == old(self).mdat,
                self.pending == old(self).pending,
            decreases self.frames.len(),
        {
            let last = self.frames[self.frames.len() - 1];
            if last.end >= 8 && last.pos <= last.end - 8 {
                assert(settle(self.frames@) == self.frames@);
                return;
            }
            let ghost before = self.frames@;
            self.frames.pop();
            assert(self.frames@ =~= before.drop_last());
        }
    }

    /// What the host is to do next.
    pub fn next_action(&mut self) -> (r: ScanAction)
        requires
            scan_wf(old(self)@),
        ensures
            scan_wf(final(self)@),
            r == next_of(old(self)@),
            final(self)@ == (ScanView { frames: settle(old(self)@.frames), ..old(self)@ }),
    {
        self.settle_frames();
        proof {
            lemma_settle(old(self)@.frames);
        }
        if let Some((_, at, len)) = self.pending {
            return ScanAction::ReadPayload(at, len);
        }
        if self.frames.len() == 0 {
            ScanAction::Done(self.mdat)
        } else {
            ScanAction::ReadHeader(self.frames[self.frames.len() - 1].pos)
        }
    }

    /// Takes the header asked for: `hdr` holds the bytes read, `n` of them
    /// valid. Fails when a 64-bit size was cut short.
    pub fn header_read(&mut self, hdr: &[u8], n: usize) -> (r: Result<(), ExifError>)
        requires
            hdr@.len() >= 16,
            n <= 16,
            old(self)@.pending is None,
            settle(old(self)@.frames).len() > 0,
            scan_wf(old(self)@),
        ensures
            scan_wf(final(self)@),
            after_header(old(self)@, hdr@, n as nat) matches Some(v) ==> r is Ok && final(self)@ == v,
            after_header(old(self)@, hdr@, n as nat) is None ==> r is Err,
    {
        self.settle_frames();
        proof {
            lemma_settle(old(self)@.frames);
        }
        let ghost settled = self.frames@;
        let top = self.frames.pop().unwrap();
        assert(self.frames@ =~= settled.drop_last());
        assert(top == settled.last());
        assert(top.depth <= 12);
        if n < 8 {
            return Ok(());
        }
        let (size, header_len) = match atom_size(hdr, n, top.end - top.pos) {
            Ok(v) => v,
            Err(e) => {
                return Err(e);
            },
        };
        let atom_end = match top.pos.checked_add(size) {
            Some(x) => x,
            None => {
                return Ok(());
            },
        };
        if size < header_len || atom_end > top.end {
            return Ok(());
        }
        self.frames.push(ScanFrame { pos: atom_end, ..top });
        let typ = read_u32(hdr, 4, false);
        let payload = top.pos + header_len;
        let payload_len = size - header_len;
        if typ == 0x6d646174 {
            self.mdat = Some((payload, payload_len));
        } else if is_container(typ) {
            let child = if typ == 0x6d657461 {
                if payload < atom_end && atom_end - payload > 4 { payload + 4 } else { atom_end }
            } else {
                payload
            };
            if top.depth + 1 <= 12 && child < atom_end {
                self.frames.push(ScanFrame { pos: child, end: atom_end, depth: top.depth + 1 });
            }
        } else if payload_len > 0 && payload_len <= 1048576 && is_leaf(typ) {
            self.pending = Some((typ, payload, payload_len));
        }
        Ok(())
    }

    /// Takes the payload asked for and reads the leaf atom into `metadata`.
    pub fn payload_read(&mut self, payload: &[u8], metadata: &mut TagMap)
        requires
            old(self)@.pending is Some,
            scan_wf(old(self)@),
        ensures
            scan_wf(final(self)@),
            final(self)@ == (ScanView { pending: None, ..old(self)@ }),
            final(metadata)@ == atom_effect(old(self)@.pending.unwrap().0 as nat, payload@, old(metadata)@),
    {
        if let Some((typ, _, _)) = self.pending {
            handle_atom(typ, payload, metadata);
        }
        self.pending = None;
    }
}

/// Whether every range of the scan ends within the first `len` bytes and
/// the awaited payload, if any, is a leaf atom's of at most a megabyte
/// that ends there too.
pub open spec fn within_file(v: ScanView, len: u64) -> bool {
    &&& forall|i: int| 0 <= i < v.frames.len() ==> #[trigger] v.frames[i].end <= len
    &&& (v.pending matches Some((t, p, l)) ==> p + l <= len && l <= 1048576 && is_leaf_code(t as nat))
}

/// The scan never asks to read past the end of the file, and never for
/// more than a megabyte of a leaf atom's payload (the media data is never
/// loaded): taking a header keeps every range and the awaited payload
/// within the file.
pub proof fn law_header_keeps_reads_in_file(v: ScanView, len: u64, hdr: Seq<u8>, n: nat)
    requires
        within_file(v, len),
        v.pending is None,
        settle(v.frames).len() > 0,
    ensures
        after_header(v, hdr, n) matches Some(w) ==> within_file(w, len),
{
    lemma_settle(v.frames);
    let fs = settle(v.frames);
    assert(fs.last() == v.frames[fs.len() - 1]);
    assert forall|i: int| 0 <= i < fs.drop_last().len() implies #[trigger] fs.drop_last()[i].end <= len by {
        assert(fs.drop_last()[i] == v.frames[i]);
    }
}

/// What the scan asks for lies within the file: a header's eight bytes,
/// or a payload of at most a megabyte.
pub proof fn law_requests_in_file(v: ScanView, len: u64)
    requires
        within_file(v, len),
    ensures
        next_of(v) matches ScanAction::ReadHeader(p) ==> p + 8 <= len,
        next_of(v) matches ScanAction::ReadPayload(p, l) ==> p + l <= len && l <= 1048576,
{
    lemma_settle(v.frames);
    let fs = settle(v.frames);
    if fs.len() > 0 {
        assert(fs.last() == v.frames[fs.len() - 1]);
    }
}

} // verus!
