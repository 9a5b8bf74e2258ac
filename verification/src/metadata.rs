//! The tag map that every parser fills: ExifTool-style tag names mapped to
//! values. A value is a run of pieces; most are plain text, and numbers whose
//! printed form needs floating point are kept as exact fractions together
//! with the way they are to be printed, so that the host prints them.

use vstd::prelude::*;
use crate::text::{str_eq, text};

verus! {

/// How a fraction is printed by the host.
#[derive(Clone, Copy, PartialEq, Eq, Debug)]
pub enum RealStyle {
    /// `format!("{:.N}", num / den)` with `N` decimals.
    Fixed(u8),
    /// ExposureTime as ExifTool prints it: a whole number of seconds, one
    /// decimal, or a simplified fraction such as `1/125`.
    ExposureTime,
    /// Rounded to a whole number when within 0.05 of one, else one decimal.
    Trim,
    /// Exposure value: no decimals when whole, else one decimal.
    Ev,
    /// Frame rate: rounded to three decimals, trailing zeros dropped.
    FrameRate,
    /// Nikon ISO code: `100 * 2^(num/12 - 5)`, rounded to a whole number.
    NikonIso,
    /// Nikon lens max aperture code: `2^(num/384 - 1)` with one decimal.
    NikonMaxAperture,
    /// Nikon focus position code: `2^((num/256 - 80)/12)` meters, printed
    /// with two, one or no decimals below 10 m, below 100 m, and above.
    NikonFocusDistance,
    /// An exposure compensation in EV printed as a signed whole number,
    /// half or third (`+1`, `-1/2`, `+2/3`), else with three decimals.
    SignedFraction,
    /// An APEX shutter value: `2^-(num/den)` seconds, printed as an
    /// exposure time.
    ApexExposure,
    /// A density in pixels per meter printed in dots per inch: divided by
    /// 39.3701 and cut to a whole number.
    PerMeterAsPerInch,
    /// A share printed in percent: `format!("{:.N}", num / den * 100)` with
    /// `N` decimals.
    Percent(u8),
}

/// An exact fraction `num / den` and how it is printed.
#[derive(Clone, Copy, PartialEq, Eq, Debug)]
pub struct Real {
    pub num: i64,
    pub den: u64,
    pub style: RealStyle,
}

/// One piece of a value: text, or a number that the host prints.
#[derive(Debug)]
pub enum Piece {
    Text(String),
    Number(Real),
}

/// What a piece means.
pub enum PieceModel {
    Text(Seq<char>),
    Number(Real),
}

impl Piece {
    pub open spec fn model(&self) -> PieceModel {
        match self {
            Piece::Text(s) => PieceModel::Text(s@),
            Piece::Number(r) => PieceModel::Number(*r),
        }
    }
}

/// A tag value: its pieces, printed one after the other.
#[derive(Debug)]
pub struct TagValue {
    pub pieces: Vec<Piece>,
}

impl View for TagValue {
    type V = Seq<PieceModel>;

    open spec fn view(&self) -> Seq<PieceModel> {
        self.pieces@.map_values(|p: Piece| p.model())
    }
}

/// A value made of one text piece.
pub open spec fn txt(s: Seq<char>) -> Seq<PieceModel> {
    seq![PieceModel::Text(s)]
}

/// A value made of one number piece.
pub open spec fn num(r: Real) -> Seq<PieceModel> {
    seq![PieceModel::Number(r)]
}

/// The text of a value made of one text piece.
pub open spec fn value_text(v: Seq<PieceModel>) -> Option<Seq<char>> {
    if v.len() == 1 {
        match v[0] {
            PieceModel::Text(s) => Some(s),
            PieceModel::Number(_) => None,
        }
    } else {
        None
    }
}

/// A value that prints as nothing: only empty text pieces.
pub open spec fn value_is_blank(v: Seq<PieceModel>) -> bool {
    forall|i: int| 0 <= i < v.len() ==> #[trigger] v[i] == PieceModel::Text(Seq::empty())
}

/// The number a value stands for: its one number piece (with a nonzero
/// denominator), or its one text piece when that is a plain decimal number
/// (an optional sign, digits and at most one point, up to eighteen digits),
/// read exactly.
pub open spec fn value_number(v: Seq<PieceModel>) -> Option<Real> {
    if v.len() != 1 {
        None
    } else {
        match v[0] {
            PieceModel::Number(r) => if r.den > 0 {
                Some(r)
            } else {
                None
            },
            PieceModel::Text(t) => match crate::text::parse_decimal(t) {
                Some((n, d)) => Some(Real { num: n as i64, den: d as u64, style: RealStyle::Fixed(0) }),
                None => None,
            },
        }
    }
}

/// The text stored under `k`, when its value is plain text.
pub open spec fn text_of(m: Map<Seq<char>, Seq<PieceModel>>, k: Seq<char>) -> Option<Seq<char>> {
    if m.contains_key(k) {
        value_text(m[k])
    } else {
        None
    }
}

impl TagValue {
    /// A value holding the text `s`.
    pub fn text(s: String) -> (v: TagValue)
        ensures
            v@ == txt(s@),
    {
        let mut pieces = Vec::new();
        pieces.push(Piece::Text(s));
        let v = TagValue { pieces };
        assert(v@ =~= txt(s@));
        v
    }

    /// A value holding the number `r`.
    pub fn number(r: Real) -> (v: TagValue)
        ensures
            v@ == num(r),
    {
        let mut pieces = Vec::new();
        pieces.push(Piece::Number(r));
        let v = TagValue { pieces };
        assert(v@ =~= num(r));
        v
    }

    /// A value with no pieces.
    pub fn empty() -> (v: TagValue)
        ensures
            v@ == Seq::<PieceModel>::empty(),
    {
        let v = TagValue { pieces: Vec::new() };
        assert(v@ =~= Seq::<PieceModel>::empty());
        v
    }

    /// Appends copies of the pieces of `other`.
    pub fn append(&mut self, other: &TagValue)
        ensures
            final(self)@ == old(self)@ + other@,
    {
        let mut i: usize = 0;
        while i < other.pieces.len()
            invariant
                i <= other.pieces@.len(),
                self@ == old(self)@ + other@.subrange(0, i as int),
            decreases other.pieces.len() - i,
        {
            assert(other@[i as int] == other.pieces@[i as int].model());
            match &other.pieces[i] {
                Piece::Text(t) => self.push_text(t.clone()),
                Piece::Number(r) => self.push_number(*r),
            }
            assert(other@.subrange(0, i + 1) =~= other@.subrange(0, i as int).push(other@[i as int]));
            i = i + 1;
        }
        assert(other@.subrange(0, other@.len() as int) =~= other@);
    }

    /// Whether the value prints as nothing: only empty text pieces.
    pub fn is_blank(&self) -> (r: bool)
        ensures
            r == value_is_blank(self@),
    {
        let mut i: usize = 0;
        while i < self.pieces.len()
            invariant
                i <= self.pieces@.len(),
                forall|j: int| 0 <= j < i ==> #[trigger] self@[j] == PieceModel::Text(Seq::empty()),
            decreases self.pieces.len() - i,
        {
            assert(self@[i as int] == self.pieces@[i as int].model());
            match &self.pieces[i] {
                Piece::Text(t) => {
                    if !t.as_str().is_empty() {
                        return false;
                    }
                    assert(t@ =~= Seq::<char>::empty());
                },
                Piece::Number(_) => {
                    return false;
                },
            }
            i = i + 1;
        }
        true
    }

    /// The number the value stands for: its one number piece, or its text
    /// when that is a plain decimal number, read exactly.
    pub fn as_number(&self) -> (r: Option<Real>)
        ensures
            r == value_number(self@),
    {
        if self.pieces.len() != 1 {
            return None;
        }
        assert(self@[0] == self.pieces@[0].model());
        match &self.pieces[0] {
            Piece::Number(r) => {
                if r.den > 0 {
                    Some(*r)
                } else {
                    None
                }
            },
            Piece::Text(t) => match crate::text::parse_decimal_text(t.as_str()) {
                Some((n, d)) => Some(Real { num: n, den: d, style: RealStyle::Fixed(0) }),
                None => None,
            },
        }
    }

    /// Appends a text piece.
    pub fn push_text(&mut self, s: String)
        ensures
            final(self)@ == old(self)@.push(PieceModel::Text(s@)),
    {
        self.pieces.push(Piece::Text(s));
        assert(final(self)@ =~= old(self)@.push(PieceModel::Text(s@)));
    }

    /// Appends a number piece.
    pub fn push_number(&mut self, r: Real)
        ensures
            final(self)@ == old(self)@.push(PieceModel::Number(r)),
    {
        self.pieces.push(Piece::Number(r));
        assert(final(self)@ =~= old(self)@.push(PieceModel::Number(r)));
    }

    /// The text of a value made of one text piece.
    pub fn as_text(&self) -> (r: Option<&String>)
        ensures
            r matches Some(s) ==> self@ == txt(s@) && value_text(self@) == Some(s@),
            r is None ==> value_text(self@) is None,
    {
        if self.pieces.len() == 1 {
            match &self.pieces[0] {
                Piece::Text(s) => {
                    assert(self@ =~= txt(s@));
                    Some(s)
                },
                Piece::Number(_) => {
                    assert(self@[0] == self.pieces@[0].model());
                    None
                },
            }
        } else {
            assert(self@.len() == self.pieces@.len());
            None
        }
    }
}

/// The map that `entries` stands for: each key to the value stored with it.
pub open spec fn model_of(e: Seq<(String, TagValue)>) -> Map<Seq<char>, Seq<PieceModel>> {
    Map::new(
        |k: Seq<char>| exists|i: int| 0 <= i < e.len() && #[trigger] e[i].0@ == k,
        |k: Seq<char>| e[choose|i: int| 0 <= i < e.len() && #[trigger] e[i].0@ == k].1@,
    )
}

/// No key is stored twice.
pub open spec fn keys_distinct(e: Seq<(String, TagValue)>) -> bool {
    forall|i: int, j: int|
        0 <= i < e.len() && 0 <= j < e.len() && i != j ==> #[trigger] e[i].0@ != #[trigger] e[j].0@
}

/// In a list without repeated keys, the map holds each stored pair.
pub proof fn lemma_model_at(e: Seq<(String, TagValue)>, i: int)
    requires
        keys_distinct(e),
        0 <= i < e.len(),
    ensures
        model_of(e).contains_key(e[i].0@),
        model_of(e)[e[i].0@] == e[i].1@,
{
    let k = e[i].0@;
    assert(e[i].0@ == k);
    let j = choose|j: int| 0 <= j < e.len() && #[trigger] e[j].0@ == k;
    assert(j == i);
}

/// ExifTool-style tag names mapped to values. Inserting a name that is
/// present replaces its value.
pub struct TagMap {
    entries: Vec<(String, TagValue)>,
}

impl View for TagMap {
    type V = Map<Seq<char>, Seq<PieceModel>>;

    closed spec fn view(&self) -> Map<Seq<char>, Seq<PieceModel>> {
        model_of(self.entries@)
    }
}

impl TagMap {
    #[verifier::type_invariant]
    closed spec fn inv(self) -> bool {
        keys_distinct(self.entries@)
    }

    /// An empty map.
    pub fn new() -> (m: TagMap)
        ensures
            m@ == Map::<Seq<char>, Seq<PieceModel>>::empty(),
    {
        let m = TagMap { entries: Vec::new() };
        assert(m@ =~= Map::<Seq<char>, Seq<PieceModel>>::empty());
        m
    }

    /// The position of `key`, if stored.
    fn find(&self, key: &str) -> (r: Option<usize>)
        ensures
            r matches Some(i) ==> i < self.entries@.len() && self.entries@[i as int].0@ == key@,
            r is None ==> !self@.contains_key(key@),
    {
        let mut i: usize = 0;
        while i < self.entries.len()
            invariant
                i <= self.entries@.len(),
                forall|j: int| 0 <= j < i ==> #[trigger] self.entries@[j].0@ != key@,
            decreases self.entries.len() - i,
        {
            if str_eq(self.entries[i].0.as_str(), key) {
                return Some(i);
            }
            i = i + 1;
        }
        None
    }

    /// The number of stored tags.
    pub fn len(&self) -> (n: usize)
        ensures
            n == self@.len(),
    {
        proof {
            use_type_invariant(self);
            self.lemma_len();
        }
        self.entries.len()
    }

    proof fn lemma_len(&self)
        requires
            keys_distinct(self.entries@),
        ensures
            self@.len() == self.entries@.len(),
    {
        let e = self.entries@;
        let f = |i: int| e[i].0@;
        let s = vstd::set_lib::set_int_range(0, e.len() as int);
        vstd::set_lib::lemma_int_range(0, e.len() as int);
        assert forall|k: Seq<char>| self@.dom().contains(k) <==> s.map(f).contains(k) by {
            if self@.dom().contains(k) {
                let i = choose|i: int| 0 <= i < e.len() && #[trigger] e[i].0@ == k;
                assert(s.contains(i) && f(i) == k);
            }
            if s.map(f).contains(k) {
                let i = choose|i: int| s.contains(i) && f(i) == k;
                assert(e[i].0@ == k);
            }
        }
        assert(self@.dom() =~= s.map(f));
        assert(vstd::relations::injective_on(f, s)) by {
            assert forall|a: int, b: int| s.contains(a) && s.contains(b) && #[trigger] f(a) == #[trigger] f(b) implies a == b by {
                if a != b {
                    assert(e[a].0@ != e[b].0@);
                }
            }
        }
        vstd::set_lib::lemma_map_size(s, s.map(f), f);
    }

    /// Whether `key` is stored.
    pub fn contains_key(&self, key: &str) -> (r: bool)
        ensures
            r == self@.contains_key(key@),
    {
        proof {
            use_type_invariant(self);
        }
        match self.find(key) {
            Some(i) => {
                proof {
                    lemma_model_at(self.entries@, i as int);
                }
                true
            },
            None => false,
        }
    }

    /// The value stored under `key`.
    pub fn get(&self, key: &str) -> (r: Option<&TagValue>)
        ensures
            r is Some <==> self@.contains_key(key@),
            r matches Some(v) ==> self@[key@] == v@,
    {
        proof {
            use_type_invariant(self);
        }
        match self.find(key) {
            Some(i) => {
                proof {
                    lemma_model_at(self.entries@, i as int);
                }
                Some(&self.entries[i].1)
            },
            None => None,
        }
    }

    /// The text stored under `key`, when the value is plain text.
    pub fn get_text(&self, key: &str) -> (r: Option<&String>)
        ensures
            r matches Some(s) ==> text_of(self@, key@) == Some(s@),
            r is None ==> text_of(self@, key@) is None,
    {
        match self.get(key) {
            Some(v) => v.as_text(),
            None => None,
        }
    }

    /// Stores `value` under `key`, replacing any earlier value.
    pub fn insert(&mut self, key: String, value: TagValue)
        ensures
            final(self)@ == old(self)@.insert(key@, value@),
    {
        proof {
            use_type_invariant(&*self);
        }
        let found = self.find(key.as_str());
        let mut entries: Vec<(String, TagValue)> = Vec::new();
        std::mem::swap(&mut entries, &mut self.entries);
        let ghost old_e = entries@;
        match found {
            Some(i) => {
                entries.set(i, (key, value));
                proof {
                    let e = entries@;
                    assert(keys_distinct(e));
                    assert forall|k: Seq<char>|
                        #![trigger model_of(e).contains_key(k)]
                        model_of(e).contains_key(k) == old(self)@.insert(key@, value@).contains_key(k)
                        && (model_of(e).contains_key(k) ==> model_of(e)[k] == old(self)@.insert(
                        key@, value@)[k]) by {
                        if k == key@ {
                            lemma_model_at(e, i as int);
                        } else if model_of(e).contains_key(k) {
                            let j = choose|j: int| 0 <= j < e.len() && #[trigger] e[j].0@ == k;
                            lemma_model_at(e, j);
                            lemma_model_at(old_e, j);
                        } else if model_of(old_e).contains_key(k) {
                            let j = choose|j: int| 0 <= j < old_e.len() && #[trigger] old_e[j].0@ == k;
                            assert(e[j].0@ == k);
                        }
                    }
                    assert(model_of(e) =~= old(self)@.insert(key@, value@));
                }
            },
            None => {
                entries.push((key, value));
                proof {
                    let e = entries@;
                    assert(keys_distinct(e)) by {
                        assert forall|a: int, b: int|
                            0 <= a < e.len() && 0 <= b < e.len() && a != b implies #[trigger] e[a].0@
                            != #[trigger] e[b].0@ by {
                            if a == e.len() - 1 {
                                assert(old_e[b].0@ == e[b].0@);
                            } else if b == e.len() - 1 {
                                assert(old_e[a].0@ == e[a].0@);
                            }
                        }
                    }
                    assert forall|k: Seq<char>|
                        #![trigger model_of(e).contains_key(k)]
                        model_of(e).contains_key(k) == old(self)@.insert(key@, value@).contains_key(k)
                        && (model_of(e).contains_key(k) ==> model_of(e)[k] == old(self)@.insert(
                        key@, value@)[k]) by {
                        if k == key@ {
                            lemma_model_at(e, e.len() - 1);
                        } else if model_of(e).contains_key(k) {
                            let j = choose|j: int| 0 <= j < e.len() && #[trigger] e[j].0@ == k;
                            lemma_model_at(e, j);
                            lemma_model_at(old_e, j);
                        } else if model_of(old_e).contains_key(k) {
                            let j = choose|j: int| 0 <= j < old_e.len() && #[trigger] old_e[j].0@ == k;
                            assert(e[j].0@ == k);
                        }
                    }
                    assert(model_of(e) =~= old(self)@.insert(key@, value@));
                }
            },
        }
        self.entries = entries;
    }

    /// Stores the text `value` under `key`.
    pub fn insert_text(&mut self, key: &str, value: String)
        ensures
            final(self)@ == old(self)@.insert(key@, txt(value@)),
    {
        self.insert(text(key), TagValue::text(value));
    }

    /// Stores the literal text `value` under `key`.
    pub fn insert_str(&mut self, key: &str, value: &str)
        ensures
            final(self)@ == old(self)@.insert(key@, txt(value@)),
    {
        self.insert(text(key), TagValue::text(text(value)));
    }

    /// Stores the number `r` under `key`.
    pub fn insert_number(&mut self, key: &str, r: Real)
        ensures
            final(self)@ == old(self)@.insert(key@, num(r)),
    {
        self.insert(text(key), TagValue::number(r));
    }

    /// Removes `key`.
    pub fn remove(&mut self, key: &str)
        ensures
            final(self)@ == old(self)@.remove(key@),
    {
        proof {
            use_type_invariant(&*self);
        }
        let found = self.find(key);
        match found {
            None => {
                assert(old(self)@.remove(key@) =~= old(self)@);
            },
            Some(i) => {
                let mut entries: Vec<(String, TagValue)> = Vec::new();
                std::mem::swap(&mut entries, &mut self.entries);
                let ghost old_e = entries@;
                let _ = entries.swap_remove(i);
                proof {
                    let e = entries@;
                    assert(forall|a: int| 0 <= a < e.len() ==> (#[trigger] e[a]) == (if a == i {
                        old_e[old_e.len() - 1]
                    } else {
                        old_e[a]
                    }));
                    assert(keys_distinct(e)) by {
                        assert forall|a: int, b: int|
                            0 <= a < e.len() && 0 <= b < e.len() && a != b implies #[trigger] e[a].0@
                            != #[trigger] e[b].0@ by {
                            let oa = if a == i { old_e.len() - 1 } else { a };
                            let ob = if b == i { old_e.len() - 1 } else { b };
                            assert(old_e[oa].0@ != old_e[ob].0@);
                        }
                    }
                    assert forall|k: Seq<char>|
                        #![trigger model_of(e).contains_key(k)]
                        model_of(e).contains_key(k) == old(self)@.remove(key@).contains_key(k)
                        && (model_of(e).contains_key(k) ==> model_of(e)[k] == old(self)@.remove(
                        key@)[k]) by {
                        if model_of(e).contains_key(k) {
                            let j = choose|j: int| 0 <= j < e.len() && #[trigger] e[j].0@ == k;
                            let oj = if j == i { old_e.len() - 1 } else { j };
                            lemma_model_at(e, j);
                            lemma_model_at(old_e, oj);
                            assert(oj != i);
                        } else if model_of(old_e).contains_key(k) && k != key@ {
                            let j = choose|j: int| 0 <= j < old_e.len() && #[trigger] old_e[j].0@ == k;
                            assert(j != i);
                            if j == old_e.len() - 1 {
                                assert(e[i as int].0@ == k);
                            } else {
                                assert(e[j].0@ == k);
                            }
                        }
                    }
                    assert(model_of(e) =~= old(self)@.remove(key@));
                }
                self.entries = entries;
            },
        }
    }

    /// The stored keys, each once, in no particular order.
    pub fn keys(&self) -> (r: Vec<String>)
        ensures
            r@.len() == self@.len(),
            forall|i: int| 0 <= i < r@.len() ==> self@.contains_key(#[trigger] r@[i]@),
            forall|k: Seq<char>| self@.contains_key(k) ==> exists|i: int| 0 <= i < r@.len() && #[trigger] r@[i]@ == k,
    {
        proof {
            use_type_invariant(self);
            self.lemma_len();
        }
        let mut r: Vec<String> = Vec::new();
        let mut i: usize = 0;
        while i < self.entries.len()
            invariant
                i <= self.entries@.len(),
                r@.len() == i,
                forall|j: int| 0 <= j < i ==> (#[trigger] r@[j])@ == self.entries@[j].0@,
            decreases self.entries.len() - i,
        {
            r.push(self.entries[i].0.clone());
            i = i + 1;
        }
        proof {
            assert forall|j: int| 0 <= j < r@.len() implies self@.contains_key(#[trigger] r@[j]@) by {
                lemma_model_at(self.entries@, j);
            }
            assert forall|k: Seq<char>| self@.contains_key(k) implies exists|j: int|
                0 <= j < r@.len() && #[trigger] r@[j]@ == k by {
                let j = choose|j: int| 0 <= j < self.entries@.len() && #[trigger] self.entries@[j].0@ == k;
                assert(r@[j]@ == k);
            }
        }
        r
    }

    /// A copy of the map.
    pub fn duplicate(&self) -> (r: TagMap)
        ensures
            r@ == self@,
    {
        proof {
            use_type_invariant(self);
        }
        let mut entries: Vec<(String, TagValue)> = Vec::new();
        let mut i: usize = 0;
        while i < self.entries.len()
            invariant
                i <= self.entries@.len(),
                keys_distinct(self.entries@),
                entries@.len() == i,
                forall|j: int| 0 <= j < i ==> (#[trigger] entries@[j]).0@ == self.entries@[j].0@ && entries@[j].1@ == self.entries@[j].1@,
            decreases self.entries.len() - i,
        {
            let k = self.entries[i].0.clone();
            let v = crate::utils::copy_value(&self.entries[i].1);
            entries.push((k, v));
            i = i + 1;
        }
        proof {
            let e = entries@;
            let o = self.entries@;
            assert(keys_distinct(e)) by {
                assert forall|a: int, b: int| 0 <= a < e.len() && 0 <= b < e.len() && a != b implies #[trigger] e[a].0@ != #[trigger] e[b].0@ by {
                    assert(o[a].0@ != o[b].0@);
                }
            }
            assert forall|k: Seq<char>|
                #![trigger model_of(e).contains_key(k)]
                model_of(e).contains_key(k) == model_of(o).contains_key(k) && (model_of(e).contains_key(k) ==> model_of(e)[k] == model_of(o)[k]) by {
                if model_of(e).contains_key(k) {
                    let j = choose|j: int| 0 <= j < e.len() && #[trigger] e[j].0@ == k;
                    lemma_model_at(e, j);
                    lemma_model_at(o, j);
                } else if model_of(o).contains_key(k) {
                    let j = choose|j: int| 0 <= j < o.len() && #[trigger] o[j].0@ == k;
                    assert(e[j].0@ == k);
                }
            }
            assert(model_of(e) =~= model_of(o));
        }
        TagMap { entries }
    }

    /// Takes every entry of `other`, in no particular order, replacing the
    /// values of keys present in both.
    pub fn extend(&mut self, other: TagMap)
        ensures
            final(self)@ == old(self)@.union_prefer_right(other@),
    {
        proof {
            use_type_invariant(&other);
        }
        let TagMap { entries } = other;
        let ghost oe = entries@;
        let mut rest = entries;
        let ghost start = self@;
        let mut taken: Ghost<Seq<(String, TagValue)>> = Ghost(Seq::empty());
        while rest.len() > 0
            invariant
                keys_distinct(oe),
                oe =~= rest@ + taken@,
                self@ == start.union_prefer_right(model_of(taken@)),
            decreases rest.len(),
        {
            let ghost before = rest@;
            let (k, v) = rest.pop().unwrap();
            let ghost kv = (k, v);
            proof {
                let t = taken@;
                let nt = seq![(k, v)] + t;
                assert(nt =~= oe.subrange(rest@.len() as int, oe.len() as int));
                assert(keys_distinct(nt)) by {
                    assert forall|a: int, b: int|
                        0 <= a < nt.len() && 0 <= b < nt.len() && a != b implies #[trigger] nt[a].0@
                        != #[trigger] nt[b].0@ by {
                        assert(nt[a] == oe[rest@.len() + a]);
                        assert(nt[b] == oe[rest@.len() + b]);
                    }
                }
                assert(keys_distinct(t)) by {
                    assert forall|a: int, b: int|
                        0 <= a < t.len() && 0 <= b < t.len() && a != b implies #[trigger] t[a].0@
                        != #[trigger] t[b].0@ by {
                        assert(t[a] == nt[a + 1]);
                        assert(t[b] == nt[b + 1]);
                    }
                }
                assert forall|kk: Seq<char>|
                    #![trigger model_of(nt).contains_key(kk)]
                    model_of(nt).contains_key(kk) == model_of(t).insert(k@, v@).contains_key(kk) && (
                    model_of(nt).contains_key(kk) ==> model_of(nt)[kk] == model_of(t).insert(
                        k@,
                        v@,
                    )[kk]) by {
                    if kk == k@ {
                        lemma_model_at(nt, 0);
                    } else if model_of(nt).contains_key(kk) {
                        let j = choose|j: int| 0 <= j < nt.len() && #[trigger] nt[j].0@ == kk;
                        assert(j != 0);
                        lemma_model_at(nt, j);
                        assert(t[j - 1] == nt[j]);
                        lemma_model_at(t, j - 1);
                    } else if model_of(t).contains_key(kk) {
                        let j = choose|j: int| 0 <= j < t.len() && #[trigger] t[j].0@ == kk;
                        assert(nt[j + 1] == t[j]);
                    }
                }
                assert(model_of(nt) =~= model_of(t).insert(k@, v@));
                assert forall|kk: Seq<char>| #[trigger] model_of(t).contains_key(kk) implies kk != k@ by {
                    let j = choose|j: int| 0 <= j < t.len() && #[trigger] t[j].0@ == kk;
                    assert(nt[j + 1] == t[j]);
                    assert(nt[0].0@ == k@);
                    assert(nt[j + 1].0@ != nt[0].0@);
                }
                assert(start.union_prefer_right(model_of(nt)) =~= start.union_prefer_right(
                    model_of(t),
                ).insert(k@, v@));
            }
            self.insert(k, v);
            proof {
                taken@ = seq![kv] + taken@;
            }
        }
    }
}

/// A value stored under a key is what reading that key gives back, and
/// every other key keeps its value.
pub proof fn law_read_back(m: Map<Seq<char>, Seq<PieceModel>>, key: Seq<char>, value: Seq<PieceModel>)
    ensures
        m.insert(key, value).contains_key(key),
        m.insert(key, value)[key] == value,
        forall|k: Seq<char>| k != key ==> (#[trigger] m.insert(key, value).contains_key(k) <==> m.contains_key(k)),
        forall|k: Seq<char>| k != key && m.contains_key(k) ==> #[trigger] m.insert(key, value)[k] == m[k],
{
}

} // verus!
