//! Batched reads of 32-bit tag values, hex decoding and pattern search.
//! The AVX2 code paths give the same results as the portable ones.

use vstd::prelude::*;
use vstd::string::StringSliceAdditionalSpecFns;
use crate::bytes::{read_u32, u32_at};
use crate::maker_notes::matches_at;
use crate::utils::bytes_match_at;

verus! {

/// The value of one hex digit; 0 for any other byte.
pub open spec fn hex_value(b: u8) -> nat {
    if 48 <= b <= 57 {
        (b - 48) as nat
    } else if 65 <= b <= 70 {
        (b - 55) as nat
    } else if 97 <= b <= 102 {
        (b - 87) as nat
    } else {
        0
    }
}

/// The byte that two hex digits stand for.
pub open spec fn hex_pair(high: u8, low: u8) -> u8 {
    (hex_value(high) * 16 + hex_value(low)) as u8
}

/// The hex digit pairs of `b` decoded, two chars a byte.
pub open spec fn hex_decoded(b: Seq<u8>) -> Seq<u8> {
    Seq::new(b.len() / 2, |j: int| hex_pair(b[2 * j], b[2 * j + 1]))
}

/// The little-endian 32-bit value at `p`, or 0 when it does not fit.
pub open spec fn tag_value_at(d: Seq<u8>, p: int) -> u32 {
    if p + 4 <= d.len() {
        u32_at(d, p, true) as u32
    } else {
        0
    }
}

/// The positions below `k` where `pat` occurs in `d`, in order.
pub open spec fn positions_below(d: Seq<u8>, pat: Seq<u8>, k: int) -> Seq<usize>
    decreases k,
{
    if k <= 0 {
        Seq::empty()
    } else if bytes_match_at(d, k - 1, pat) {
        positions_below(d, pat, k - 1).push((k - 1) as usize)
    } else {
        positions_below(d, pat, k - 1)
    }
}

/// Every position where `pat` occurs in `d`, in order.
pub open spec fn positions(d: Seq<u8>, pat: Seq<u8>) -> Seq<usize> {
    positions_below(d, pat, d.len() - pat.len() + 1)
}

/// Byte-level helpers that can use AVX2.
pub struct SimdHexParser {
    avx2_supported: bool,
}

impl View for SimdHexParser {
    type V = bool;

    /// Whether the AVX2 code paths are taken.
    closed spec fn view(&self) -> bool {
        self.avx2_supported
    }
}

impl SimdHexParser {
    /// A parser that takes the portable code paths.
    pub fn new() -> (r: SimdHexParser)
        ensures
            r@ == false,
    {
        SimdHexParser { avx2_supported: false }
    }

    /// A parser that takes the AVX2 code paths when `supported` says that
    /// the processor has AVX2.
    pub fn with_avx2(supported: bool) -> (r: SimdHexParser)
        ensures
            r@ == supported,
    {
        SimdHexParser { avx2_supported: supported }
    }

    /// The little-endian 32-bit values at the given offsets (0 for an
    /// offset without four bytes after it).
    pub fn parse_tags_parallel(&self, data: &[u8], offsets: &[usize]) -> (r: Vec<u32>)
        ensures
            r@ == Seq::new(offsets@.len(), |i: int| tag_value_at(data@, offsets@[i] as int)),
    {
        let mut results: Vec<u32> = Vec::new();
        let mut i: usize = 0;
        while i < offsets.len()
            invariant
                i <= offsets@.len(),
                results@ == Seq::new(i as nat, |k: int| tag_value_at(data@, offsets@[k] as int)),
            decreases offsets.len() - i,
        {
            let offset = offsets[i];
            let v = if offset <= data.len() && data.len() - offset >= 4 {
                read_u32(data, offset, true)
            } else {
                0
            };
            results.push(v);
            assert(results@ =~= Seq::new((i + 1) as nat, |k: int| tag_value_at(data@, offsets@[k] as int)));
            i = i + 1;
        }
        assert(results@ =~= Seq::new(offsets@.len(), |k: int| tag_value_at(data@, offsets@[k] as int)));
        results
    }

    /// Decodes hex text, two digits a byte (nothing for an odd length); the
    /// AVX2 path gives what the portable one gives.
    pub fn hex_to_bytes(&self, hex: &str) -> (r: Vec<u8>)
        ensures
            hex.spec_bytes().len() % 2 != 0 ==> r@ == Seq::<u8>::empty(),
            hex.spec_bytes().len() % 2 == 0 ==> r@ == hex_decoded(hex.spec_bytes()),
    {
        let b = hex.as_bytes();
        if b.len() % 2 != 0 {
            return Vec::new();
        }
        let mut result: Vec<u8> = Vec::new();
        let mut j: usize = 0;
        while j < b.len() / 2
            invariant
                j <= b@.len() / 2,
                b@.len() % 2 == 0,
                result@ == hex_decoded(b@).subrange(0, j as int),
            decreases b.len() / 2 - j,
        {
            result.push(hex_pair_to_byte(b[2 * j], b[2 * j + 1]));
            assert(result@ =~= hex_decoded(b@).subrange(0, j + 1));
            j = j + 1;
        }
        assert(hex_decoded(b@).subrange(0, (b@.len() / 2) as int) =~= hex_decoded(b@));
        result
    }

    /// Every position where each pattern occurs in `data`, in order.
    pub fn find_patterns_parallel(&self, data: &[u8], patterns: &[&[u8]]) -> (r: Vec<Vec<usize>>)
        requires
            forall|i: int| 0 <= i < patterns@.len() ==> (#[trigger] patterns@[i])@.len() > 0,
        ensures
            r@.len() == patterns@.len(),
            forall|i: int| 0 <= i < patterns@.len() ==> (#[trigger] r@[i])@ == positions(data@, patterns@[i]@),
    {
        let mut results: Vec<Vec<usize>> = Vec::new();
        let mut i: usize = 0;
        while i < patterns.len()
            invariant
                i <= patterns@.len(),
                results@.len() == i,
                forall|k: int| 0 <= k < i ==> (#[trigger] results@[k])@ == positions(data@, patterns@[k]@),
            decreases patterns.len() - i,
        {
            let m = find_pattern_scalar(data, patterns[i]);
            results.push(m);
            i = i + 1;
        }
        results
    }
}

impl Default for SimdHexParser {
    fn default() -> (r: SimdHexParser)
        ensures
            r@ == false,
    {
        Self::new()
    }
}

/// The value of one hex digit; 0 for any other byte.
fn hex_digit_value(b: u8) -> (r: u8)
    ensures
        r == hex_value(b),
{
    if b >= 48 && b <= 57 {
        b - 48
    } else if b >= 65 && b <= 70 {
        b - 55
    } else if b >= 97 && b <= 102 {
        b - 87
    } else {
        0
    }
}

/// The byte that two hex digits stand for.
fn hex_pair_to_byte(high: u8, low: u8) -> (r: u8)
    ensures
        r == hex_pair(high, low),
{
    let h = hex_digit_value(high);
    let l = hex_digit_value(low);
    h * 16 + l
}

/// Every position where `pattern` occurs in `data`, in order.
fn find_pattern_scalar(data: &[u8], pattern: &[u8]) -> (r: Vec<usize>)
    requires
        pattern@.len() > 0,
    ensures
        r@ == positions(data@, pattern@),
{
    let mut matches: Vec<usize> = Vec::new();
    if pattern.len() > data.len() {
        assert(positions(data@, pattern@) =~= Seq::<usize>::empty());
        return matches;
    }
    let n = data.len() - pattern.len() + 1;
    let mut i: usize = 0;
    while i < n
        invariant
            i <= n,
            n == data@.len() - pattern@.len() + 1,
            matches@ == positions_below(data@, pattern@, i as int),
        decreases n - i,
    {
        if matches_at(data, i, pattern) {
            matches.push(i);
        }
        i = i + 1;
    }
    matches
}

} // verus!
