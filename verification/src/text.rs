//! Text building blocks: decimal and hexadecimal rendering of integers,
//! character-level string helpers and byte-to-text decoding.

use vstd::prelude::*;
use vstd::string::*;
use vstd::utf8::*;

verus! {

/// The ASCII digit for `d` (`d < 10`).
pub open spec fn digit_char(d: nat) -> char {
    (48 + d) as char
}

/// Decimal rendering of `n`, as `n.to_string()` prints it.
pub open spec fn dec_text(n: nat) -> Seq<char>
    decreases n,
{
    if n < 10 {
        seq![digit_char(n)]
    } else {
        dec_text(n / 10).push(digit_char(n % 10))
    }
}

/// Decimal rendering of a signed integer, with a leading `-` when negative.
pub open spec fn signed_dec_text(v: int) -> Seq<char> {
    if v < 0 {
        seq!['-'] + dec_text((-v) as nat)
    } else {
        dec_text(v as nat)
    }
}

/// The hexadecimal digit for `d` (`d < 16`), upper or lower case.
pub open spec fn hex_digit_char(d: nat, upper: bool) -> char {
    if d < 10 {
        (48 + d) as char
    } else if upper {
        (55 + d) as char
    } else {
        (87 + d) as char
    }
}

/// The lowest `width` hexadecimal digits of `n`, most significant first
/// (zero padded), as `format!("{:0w$x}")` prints a value below `16^width`.
pub open spec fn hex_text(n: nat, width: nat, upper: bool) -> Seq<char>
    decreases width,
{
    if width == 0 {
        Seq::empty()
    } else {
        hex_text(n / 16, (width - 1) as nat, upper).push(hex_digit_char(n % 16, upper))
    }
}

/// The texts of a list of strings.
pub open spec fn views(v: Seq<String>) -> Seq<Seq<char>> {
    v.map_values(|s: String| s@)
}

/// The texts of a list of string slices.
pub open spec fn str_views(v: Seq<&str>) -> Seq<Seq<char>> {
    v.map_values(|s: &str| s@)
}

/// A fixed-width hexadecimal rendering has exactly `width` chars.
pub proof fn lemma_hex_text_len(n: nat, width: nat, upper: bool)
    ensures
        hex_text(n, width, upper).len() == width,
    decreases width,
{
    if width > 0 {
        lemma_hex_text_len(n / 16, (width - 1) as nat, upper);
    }
}

/// Each byte read as the char with the same code point (Latin-1).
pub open spec fn latin1(bytes: Seq<u8>) -> Seq<char> {
    bytes.map_values(|b: u8| b as char)
}

/// The text with every trailing NUL char removed.
pub open spec fn trim_end_nul(s: Seq<char>) -> Seq<char>
    decreases s.len(),
{
    if s.len() > 0 && s.last() == '\0' {
        trim_end_nul(s.drop_last())
    } else {
        s
    }
}

pub open spec fn is_ascii_digit(c: char) -> bool {
    '0' <= c && c <= '9'
}

pub open spec fn is_ascii_alpha(c: char) -> bool {
    ('a' <= c && c <= 'z') || ('A' <= c && c <= 'Z')
}

pub open spec fn is_ascii_alnum(c: char) -> bool {
    is_ascii_digit(c) || is_ascii_alpha(c)
}

/// ASCII lower-casing of one char; other chars are unchanged.
pub open spec fn ascii_lower(c: char) -> char {
    if 'A' <= c && c <= 'Z' {
        ((c as u32) + 32) as char
    } else {
        c
    }
}

/// ASCII upper-casing of one char; other chars are unchanged.
pub open spec fn ascii_upper(c: char) -> char {
    if 'a' <= c && c <= 'z' {
        ((c as u32) - 32) as char
    } else {
        c
    }
}

pub open spec fn lower_text(s: Seq<char>) -> Seq<char> {
    s.map_values(|c: char| ascii_lower(c))
}

pub open spec fn starts_with(s: Seq<char>, prefix: Seq<char>) -> bool {
    prefix.len() <= s.len() && s.subrange(0, prefix.len() as int) == prefix
}

/// Whether `needle` occurs as a contiguous run in `hay`.
pub open spec fn contains_text(hay: Seq<char>, needle: Seq<char>) -> bool {
    exists|i: int|
        0 <= i && i + needle.len() <= hay.len() && #[trigger] hay.subrange(i, i + needle.len())
            == needle
}

/// Whether `c` is whitespace as Rust's `char::is_whitespace` defines it
/// (the Unicode `White_Space` property).
pub open spec fn is_white(c: char) -> bool {
    ('\u{9}' <= c && c <= '\u{d}') || c == ' ' || c == '\u{85}' || c == '\u{a0}' || c
        == '\u{1680}' || ('\u{2000}' <= c && c <= '\u{200a}') || c == '\u{2028}' || c
        == '\u{2029}' || c == '\u{202f}' || c == '\u{205f}' || c == '\u{3000}'
}

/// The text without leading whitespace.
pub open spec fn trim_start(s: Seq<char>) -> Seq<char>
    decreases s.len(),
{
    if s.len() > 0 && is_white(s[0]) {
        trim_start(s.drop_first())
    } else {
        s
    }
}

/// The text without trailing whitespace.
pub open spec fn trim_end(s: Seq<char>) -> Seq<char>
    decreases s.len(),
{
    if s.len() > 0 && is_white(s.last()) {
        trim_end(s.drop_last())
    } else {
        s
    }
}

/// The text without leading or trailing whitespace (`str::trim`).
pub open spec fn trim(s: Seq<char>) -> Seq<char> {
    trim_end(trim_start(s))
}

/// The value of a run of decimal digits.
pub open spec fn digits_value(s: Seq<char>) -> nat
    decreases s.len(),
{
    if s.len() == 0 {
        0
    } else {
        digits_value(s.drop_last()) * 10 + ((s.last() as u32) - 48) as nat
    }
}

pub open spec fn all_digits(s: Seq<char>) -> bool {
    forall|i: int| 0 <= i < s.len() ==> is_ascii_digit(#[trigger] s[i])
}

/// The digits that an unsigned integer parse reads: all after an optional
/// leading `+`.
pub open spec fn unsigned_digits(s: Seq<char>) -> Seq<char> {
    if s.len() > 0 && s[0] == '+' {
        s.drop_first()
    } else {
        s
    }
}

/// What `str::parse` gives for an unsigned integer type whose largest value
/// is `max`: an optional `+`, then at least one decimal digit, with a value
/// no larger than `max`.
pub open spec fn parse_unsigned(s: Seq<char>, max: nat) -> Option<nat> {
    let d = unsigned_digits(s);
    if d.len() > 0 && all_digits(d) && digits_value(d) <= max {
        Some(digits_value(d))
    } else {
        None
    }
}

/// A longer run of digits is worth at least as much as any of its prefixes.
pub proof fn lemma_digits_value_prefix(s: Seq<char>, n: int)
    requires
        0 <= n <= s.len(),
    ensures
        digits_value(s.subrange(0, n)) <= digits_value(s),
    decreases s.len() - n,
{
    if n < s.len() {
        lemma_digits_value_prefix(s, n + 1);
        assert(s.subrange(0, n + 1).drop_last() =~= s.subrange(0, n));
    } else {
        assert(s.subrange(0, n) =~= s);
    }
}

/// Appends one char (std `String::push`): the text grows by exactly that char.
#[verifier::external_body]
pub(crate) fn push_char(s: &mut String, c: char)
    ensures
        final(s)@ == old(s)@.push(c),
{
    s.push(c)
}

/// The chars of `s` in order.
pub fn chars_of(s: &str) -> (v: Vec<char>)
    ensures
        v@ == s@,
{
    let mut v: Vec<char> = Vec::new();
    for c in it: s.chars()
        invariant
            v@ == it.seq().subrange(0, it.index() as int),
    {
        v.push(c);
    }
    v
}

/// Decodes bytes as UTF-8 (std `String::from_utf8`): `Some` exactly for
/// valid UTF-8, holding the decoded chars.
#[verifier::external_body]
pub(crate) fn utf8_text(bytes: &[u8]) -> (r: Option<String>)
    ensures
        r is Some <==> valid_utf8(bytes@),
        r matches Some(s) ==> s@ == decode_utf8(bytes@),
{
    String::from_utf8(bytes.to_vec()).ok()
}

/// What std `String::from_utf8_lossy` makes of a byte sequence.
pub uninterp spec fn utf8_lossy(bytes: Seq<u8>) -> Seq<char>;

/// Decodes bytes as UTF-8, replacing invalid sequences with U+FFFD (std
/// `String::from_utf8_lossy`). The result is named by `utf8_lossy`; on valid
/// UTF-8 it is the plain decoding. How invalid sequences are replaced is
/// left to the name.
#[verifier::external_body]
pub(crate) fn utf8_lossy_text(bytes: &[u8]) -> (r: String)
    ensures
        r@ == utf8_lossy(bytes@),
        valid_utf8(bytes@) ==> r@ == decode_utf8(bytes@),
{
    String::from_utf8_lossy(bytes).into_owned()
}

/// The text without leading or trailing whitespace.
pub fn trim_text(s: &str) -> (r: String)
    ensures
        r@ == trim(s@),
{
    let v = chars_of(s);
    let mut a: usize = 0;
    assert(v@.subrange(0, v@.len() as int) =~= v@);
    while a < v.len() && is_white_char(v[a])
        invariant
            a <= v@.len(),
            trim_start(v@) == trim_start(v@.subrange(a as int, v@.len() as int)),
        decreases v.len() - a,
    {
        assert(v@.subrange(a as int, v@.len() as int).drop_first() =~= v@.subrange(a + 1, v@.len() as int));
        a = a + 1;
    }
    assert(trim_start(v@) == v@.subrange(a as int, v@.len() as int));
    let mut b: usize = v.len();
    while b > a && is_white_char(v[b - 1])
        invariant
            a <= b <= v@.len(),
            trim(v@) == trim_end(v@.subrange(a as int, b as int)),
        decreases b,
    {
        assert(v@.subrange(a as int, b as int).drop_last() =~= v@.subrange(a as int, b - 1));
        b = b - 1;
    }
    string_from_chars(sub_slice(&v, a, b))
}

/// Whether `c` is whitespace as `char::is_whitespace` defines it.
pub fn is_white_char(c: char) -> (r: bool)
    ensures
        r == is_white(c),
{
    ('\u{9}' <= c && c <= '\u{d}') || c == ' ' || c == '\u{85}' || c == '\u{a0}' || c
        == '\u{1680}' || ('\u{2000}' <= c && c <= '\u{200a}') || c == '\u{2028}' || c
        == '\u{2029}' || c == '\u{202f}' || c == '\u{205f}' || c == '\u{3000}'
}

/// `s.parse()` for an unsigned integer type whose largest value is `max`.
pub fn parse_unsigned_text(s: &str, max: u64) -> (r: Option<u64>)
    ensures
        r matches Some(n) ==> parse_unsigned(s@, max as nat) == Some(n as nat),
        r is None ==> parse_unsigned(s@, max as nat) is None,
{
    let v = chars_of(s);
    let start: usize = if v.len() > 0 && v[0] == '+' { 1 } else { 0 };
    let ghost d = unsigned_digits(s@);
    assert(d =~= v@.subrange(start as int, v@.len() as int));
    if start >= v.len() {
        return None;
    }
    let mut acc: u64 = 0;
    let mut i: usize = start;
    while i < v.len()
        invariant
            start <= i <= v@.len(),
            d =~= v@.subrange(start as int, v@.len() as int),
            all_digits(v@.subrange(start as int, i as int)),
            acc == digits_value(v@.subrange(start as int, i as int)),
            acc <= max,
        decreases v.len() - i,
    {
        let c = v[i];
        if !('0' <= c && c <= '9') {
            assert(d[i - start] == c);
            return None;
        }
        let dgt: u64 = (c as u32 - 48) as u64;
        let ghost pre = v@.subrange(start as int, i + 1);
        assert(pre.drop_last() =~= v@.subrange(start as int, i as int));
        if dgt > max || acc > (max - dgt) / 10 {
            proof {
                assert(digits_value(pre) > max);
                lemma_digits_value_prefix(d, i + 1 - start);
                assert(d.subrange(0, i + 1 - start) =~= pre);
            }
            return None;
        }
        acc = acc * 10 + dgt;
        i = i + 1;
    }
    assert(v@.subrange(start as int, v@.len() as int) =~= d);
    Some(acc)
}

/// Whether `v` equals one of `options`.
pub fn one_of(v: &str, options: &[&str]) -> (r: bool)
    ensures
        r == str_views(options@).contains(v@),
{
    let mut i: usize = 0;
    while i < options.len()
        invariant
            i <= options@.len(),
            forall|j: int| 0 <= j < i ==> (#[trigger] options@[j])@ != v@,
        decreases options.len() - i,
    {
        if str_eq(options[i], v) {
            assert(str_views(options@)[i as int] == v@);
            return true;
        }
        i = i + 1;
    }
    proof {
        if str_views(options@).contains(v@) {
            let j = choose|j: int| 0 <= j < options@.len() && str_views(options@)[j] == v@;
            assert(options@[j]@ == v@);
        }
    }
    false
}

/// A new `String` holding the chars of `v`.
pub fn string_from_chars(v: &[char]) -> (s: String)
    ensures
        s@ == v@,
{
    let mut s = String::new();
    let mut i: usize = 0;
    while i < v.len()
        invariant
            i <= v.len(),
            s@ == v@.subrange(0, i as int),
        decreases v.len() - i,
    {
        push_char(&mut s, v[i]);
        i = i + 1;
        assert(s@ =~= v@.subrange(0, i as int));
    }
    assert(v@.subrange(0, v@.len() as int) =~= v@);
    s
}

/// A new `String` equal to the literal or slice `t`.
pub fn text(t: &str) -> (s: String)
    ensures
        s@ == t@,
{
    String::from_str(t)
}

/// Appends the text of `t` to `s`.
pub fn append_str(s: &mut String, t: &str)
    ensures
        final(s)@ == old(s)@ + t@,
{
    s.append(t);
}

/// The decimal digit char of `d`.
pub fn digit(d: u64) -> (c: char)
    requires
        d < 10,
    ensures
        c == digit_char(d as nat),
{
    let b: u8 = (48 + d) as u8;
    let c = b as char;
    assert(c == digit_char(d as nat)) by {
        assert(b == 48 + d);
    }
    c
}

/// Appends the decimal rendering of `n` to `s`.
pub fn push_dec(s: &mut String, n: u64)
    ensures
        final(s)@ == old(s)@ + dec_text(n as nat),
    decreases n,
{
    if n < 10 {
        push_char(s, digit(n));
        assert(dec_text(n as nat) == seq![digit_char(n as nat)]);
        assert(final(s)@ =~= old(s)@ + dec_text(n as nat));
    } else {
        push_dec(s, n / 10);
        push_char(s, digit(n % 10));
        assert(dec_text(n as nat) == dec_text((n / 10) as nat).push(digit_char((n % 10) as nat)));
        assert(final(s)@ =~= old(s)@ + dec_text(n as nat));
    }
}

/// `n.to_string()` for unsigned integers.
pub fn u64_text(n: u64) -> (s: String)
    ensures
        s@ == dec_text(n as nat),
{
    let mut s = String::new();
    push_dec(&mut s, n);
    assert(s@ =~= dec_text(n as nat));
    s
}

/// `v.to_string()` for signed integers.
pub fn i64_text(v: i64) -> (s: String)
    ensures
        s@ == signed_dec_text(v as int),
{
    let mut s = String::new();
    if v < 0 {
        push_char(&mut s, '-');
        let m: u64 = if v == i64::MIN {
            9223372036854775808u64
        } else {
            (-v) as u64
        };
        push_dec(&mut s, m);
        assert(s@ =~= signed_dec_text(v as int));
    } else {
        push_dec(&mut s, v as u64);
        assert(s@ =~= signed_dec_text(v as int));
    }
    s
}

/// The hexadecimal digit char of `d`.
pub fn hex_digit(d: u64, upper: bool) -> (c: char)
    requires
        d < 16,
    ensures
        c == hex_digit_char(d as nat, upper),
{
    let b: u8 = if d < 10 {
        (48 + d) as u8
    } else if upper {
        (55 + d) as u8
    } else {
        (87 + d) as u8
    };
    b as char
}

/// Appends the lowest `width` hexadecimal digits of `n` to `s`.
pub fn push_hex(s: &mut String, n: u64, width: usize, upper: bool)
    ensures
        final(s)@ == old(s)@ + hex_text(n as nat, width as nat, upper),
    decreases width,
{
    if width == 0 {
        assert(final(s)@ =~= old(s)@ + hex_text(n as nat, width as nat, upper));
    } else {
        push_hex(s, n / 16, width - 1, upper);
        push_char(s, hex_digit(n % 16, upper));
        assert(final(s)@ =~= old(s)@ + hex_text(n as nat, width as nat, upper));
    }
}

/// Each byte as the char with that code point.
pub fn latin1_text(raw: &[u8]) -> (s: String)
    ensures
        s@ == latin1(raw@),
{
    let mut s = String::new();
    let mut i: usize = 0;
    while i < raw.len()
        invariant
            i <= raw.len(),
            s@ == latin1(raw@.subrange(0, i as int)),
        decreases raw.len() - i,
    {
        push_char(&mut s, raw[i] as char);
        i = i + 1;
        assert(s@ =~= latin1(raw@.subrange(0, i as int)));
    }
    assert(raw@.subrange(0, raw@.len() as int) =~= raw@);
    s
}

/// Whether two texts are equal, comparing their UTF-8 bytes.
pub fn str_eq(a: &str, b: &str) -> (r: bool)
    ensures
        r == (a@ == b@),
{
    let x = a.as_bytes();
    let y = b.as_bytes();
    proof {
        encode_utf8_decode_utf8(a@);
        encode_utf8_decode_utf8(b@);
        assert(x@ == encode_utf8(a@));
        assert(y@ == encode_utf8(b@));
    }
    if x.len() != y.len() {
        return false;
    }
    let mut i: usize = 0;
    while i < x.len()
        invariant
            i <= x.len(),
            x.len() == y.len(),
            forall|j: int| 0 <= j < i ==> x@[j] == y@[j],
        decreases x.len() - i,
    {
        if x[i] != y[i] {
            assert(x@ != y@);
            return false;
        }
        i = i + 1;
    }
    assert(x@ =~= y@);
    true
}

/// The text with all trailing NUL chars removed.
pub fn trim_nul_end(s: &str) -> (r: String)
    ensures
        r@ == trim_end_nul(s@),
{
    let v = chars_of(s);
    let mut end: usize = v.len();
    assert(v@.subrange(0, v@.len() as int) =~= v@);
    while end > 0 && v[end - 1] == '\0'
        invariant
            end <= v.len(),
            trim_end_nul(v@.subrange(0, end as int)) == trim_end_nul(v@),
        decreases end,
    {
        assert(v@.subrange(0, end as int).drop_last() =~= v@.subrange(0, end - 1));
        end = end - 1;
    }
    assert(trim_end_nul(v@.subrange(0, end as int)) == v@.subrange(0, end as int));
    assert(v@.subrange(0, v@.len() as int) =~= v@);
    string_from_chars(slice_prefix(&v, end))
}

/// The first `n` items of `v`.
pub(crate) fn slice_prefix<T>(v: &[T], n: usize) -> (r: &[T])
    requires
        n <= v@.len(),
    ensures
        r@ == v@.subrange(0, n as int),
{
    vstd::slice::slice_subrange(v, 0, n)
}

/// The items of `v` from `start` up to `end`.
pub(crate) fn sub_slice<T>(v: &[T], start: usize, end: usize) -> (r: &[T])
    requires
        start <= end <= v@.len(),
    ensures
        r@ == v@.subrange(start as int, end as int),
{
    vstd::slice::slice_subrange(v, start, end)
}

/// Whether `s` starts with `prefix`.
pub fn text_starts_with(s: &str, prefix: &str) -> (r: bool)
    ensures
        r == starts_with(s@, prefix@),
{
    let a = chars_of(s);
    let p = chars_of(prefix);
    if p.len() > a.len() {
        return false;
    }
    let mut i: usize = 0;
    while i < p.len()
        invariant
            i <= p.len() <= a.len(),
            forall|j: int| 0 <= j < i ==> a@[j] == p@[j],
        decreases p.len() - i,
    {
        if a[i] != p[i] {
            let ghost sub = a@.subrange(0, p@.len() as int);
            assert(sub[i as int] == a@[i as int]);
            assert(sub != p@);
            return false;
        }
        i = i + 1;
    }
    assert(a@.subrange(0, p@.len() as int) =~= p@);
    true
}

/// The ASCII lower-case form of `s`.
pub fn to_ascii_lower(s: &str) -> (r: String)
    ensures
        r@ == lower_text(s@),
{
    let v = chars_of(s);
    let mut out = String::new();
    let mut i: usize = 0;
    while i < v.len()
        invariant
            i <= v.len(),
            out@ == lower_text(v@.subrange(0, i as int)),
        decreases v.len() - i,
    {
        let c = v[i];
        let l = if 'A' <= c && c <= 'Z' {
            ((c as u32 + 32) as u8) as char
        } else {
            c
        };
        assert(l == ascii_lower(c));
        push_char(&mut out, l);
        i = i + 1;
        assert(out@ =~= lower_text(v@.subrange(0, i as int)));
    }
    assert(v@.subrange(0, v@.len() as int) =~= v@);
    out
}

/// Whether `needle` occurs in `hay`.
pub fn text_contains(hay: &str, needle: &str) -> (r: bool)
    ensures
        r == contains_text(hay@, needle@),
{
    let h = chars_of(hay);
    let n = chars_of(needle);
    if n.len() > h.len() {
        return false;
    }
    let mut i: usize = 0;
    while i <= h.len() - n.len()
        invariant
            n.len() <= h.len(),
            i <= h.len() - n.len() + 1,
            forall|k: int|
                0 <= k < i ==> #[trigger] h@.subrange(k, k + n@.len()) != n@,
        decreases h.len() - i,
    {
        let mut j: usize = 0;
        let mut same = true;
        while j < n.len()
            invariant
                j <= n.len(),
                i + n.len() <= h.len(),
                same <==> forall|m: int| 0 <= m < j ==> h@[i + m] == n@[m],
            decreases n.len() - j,
        {
            if h[i + j] != n[j] {
                same = false;
            }
            j = j + 1;
        }
        if same {
            assert(h@.subrange(i as int, i + n@.len()) =~= n@);
            assert(hay@.subrange(i as int, i + needle@.len()) == needle@);
            return true;
        }
        assert(h@.subrange(i as int, i + n@.len()) != n@) by {
            let m = choose|m: int| 0 <= m < n.len() && h@[i + m] != n@[m];
            assert(h@.subrange(i as int, i + n@.len())[m] != n@[m]);
        }
        i = i + 1;
    }
    false
}

/// The decimal rendering of `n` is a nonempty run of digits worth `n`.
pub proof fn lemma_dec_text_digits(n: nat)
    ensures
        dec_text(n).len() > 0,
        all_digits(dec_text(n)),
        digits_value(dec_text(n)) == n,
        dec_text(n)[0] != '+',
    decreases n,
{
    if n < 10 {
        let d = seq![digit_char(n)];
        assert(d.drop_last() =~= Seq::<char>::empty());
        assert((digit_char(n) as u32) == 48 + n);
        assert(d.last() == digit_char(n));
        assert(digits_value(d) == digits_value(d.drop_last()) * 10 + ((d.last() as u32) - 48) as nat);
    } else {
        lemma_dec_text_digits(n / 10);
        let d = dec_text(n / 10).push(digit_char(n % 10));
        assert(d.drop_last() =~= dec_text(n / 10));
        assert((digit_char(n % 10) as u32) == 48 + n % 10);
        assert forall|i: int| 0 <= i < d.len() implies is_ascii_digit(#[trigger] d[i]) by {
            if i < d.len() - 1 {
                assert(d[i] == dec_text(n / 10)[i]);
            }
        }
        assert(d[0] == dec_text(n / 10)[0]);
        assert(d.last() == digit_char(n % 10));
        assert(digits_value(d) == digits_value(d.drop_last()) * 10 + ((d.last() as u32) - 48) as nat);
    }
}

/// A number printed in decimal reads back as that number: parsing
/// `n.to_string()` as an unsigned type that can hold `n` gives `n`.
pub proof fn law_decimal_round_trip(n: nat, max: nat)
    requires
        n <= max,
    ensures
        parse_unsigned(dec_text(n), max) == Some(n),
{
    lemma_dec_text_digits(n);
}

/// What std `str::to_lowercase` gives for a text (the Unicode lower case
/// of each char, with the final-sigma rule).
pub uninterp spec fn str_lower_text(s: Seq<char>) -> Seq<char>;

/// Whether every char of `s` is ASCII.
pub open spec fn all_ascii(s: Seq<char>) -> bool {
    forall|i: int| 0 <= i < s.len() ==> (#[trigger] s[i] as u32) < 128
}

/// The lower-case form of `s` (std `str::to_lowercase`), named by
/// `str_lower_text`. For ASCII text it is the ASCII lower case: the
/// Unicode lower case of `A` to `Z` is `a` to `z`, and of every other ASCII
/// char the char itself.
#[verifier::external_body]
pub(crate) fn lowercase_text(s: &str) -> (r: String)
    ensures
        r@ == str_lower_text(s@),
        all_ascii(s@) ==> r@ == lower_text(s@),
{
    s.to_lowercase()
}

/// Ten to the power `k`.
pub open spec fn pow10(k: nat) -> nat
    decreases k,
{
    if k == 0 {
        1
    } else {
        10 * pow10((k - 1) as nat)
    }
}

/// A run of digits is worth less than ten to the power of its length.
pub proof fn lemma_digits_value_bound(s: Seq<char>)
    requires
        all_digits(s),
    ensures
        digits_value(s) < pow10(s.len()),
    decreases s.len(),
{
    if s.len() > 0 {
        lemma_digits_value_bound(s.drop_last());
        assert(is_ascii_digit(s[s.len() - 1]));
    }
}

/// The text after an optional leading `+` or `-`.
pub open spec fn unsigned_body(s: Seq<char>) -> Seq<char> {
    if s.len() > 0 && (s[0] == '+' || s[0] == '-') {
        s.drop_first()
    } else {
        s
    }
}

/// The position of the first `.` from `i` on, or the length.
pub open spec fn first_point(b: Seq<char>, i: int) -> int
    decreases b.len() - i,
{
    if i >= b.len() {
        b.len() as int
    } else if b[i] == '.' {
        i
    } else {
        first_point(b, i + 1)
    }
}

/// The digits before the first point.
pub open spec fn int_digits(s: Seq<char>) -> Seq<char> {
    let b = unsigned_body(s);
    b.subrange(0, first_point(b, 0))
}

/// The text after the first point.
pub open spec fn frac_digits(s: Seq<char>) -> Seq<char> {
    let b = unsigned_body(s);
    let p = first_point(b, 0);
    if p < b.len() {
        b.subrange(p + 1, b.len() as int)
    } else {
        Seq::empty()
    }
}

/// The exact value of a plain decimal text: an optional sign, digits, and
/// at most one point, with at least one and at most eighteen digits in
/// all; the text's digits over a power of ten.
pub open spec fn parse_decimal(s: Seq<char>) -> Option<(int, nat)> {
    let ip = int_digits(s);
    let fp = frac_digits(s);
    if all_digits(ip) && all_digits(fp) && 1 <= ip.len() + fp.len() <= 18 {
        let n = digits_value(ip + fp) as int;
        Some((if s.len() > 0 && s[0] == '-' { -n } else { n }, pow10(fp.len())))
    } else {
        None
    }
}

/// Appends the chars of `v` from `a` up to `b` when all are digits.
fn push_digits(ds: &mut Vec<char>, v: &Vec<char>, a: usize, b: usize) -> (r: bool)
    requires
        a <= b <= v@.len(),
    ensures
        r == all_digits(v@.subrange(a as int, b as int)),
        r ==> final(ds)@ == old(ds)@ + v@.subrange(a as int, b as int),
{
    let mut i: usize = a;
    while i < b
        invariant
            a <= i <= b <= v@.len(),
            ds@ == old(ds)@ + v@.subrange(a as int, i as int),
            all_digits(v@.subrange(a as int, i as int)),
        decreases b - i,
    {
        if !('0' <= v[i] && v[i] <= '9') {
            assert(v@.subrange(a as int, b as int)[i - a] == v@[i as int]);
            return false;
        }
        ds.push(v[i]);
        assert(ds@ =~= old(ds)@ + v@.subrange(a as int, i + 1));
        assert(all_digits(v@.subrange(a as int, i + 1))) by {
            assert forall|k: int| 0 <= k < i + 1 - a implies is_ascii_digit(#[trigger] v@.subrange(a as int, i + 1)[k]) by {
                if k < i - a {
                    assert(v@.subrange(a as int, i + 1)[k] == v@.subrange(a as int, i as int)[k]);
                }
            }
        }
        i = i + 1;
    }
    true
}

/// The value of at most eighteen digits.
fn digit_run_value(ds: &Vec<char>) -> (r: u64)
    requires
        all_digits(ds@),
        ds@.len() <= 18,
    ensures
        r == digits_value(ds@),
        r < 1_000_000_000_000_000_000,
{
    let mut acc: u64 = 0;
    let mut k: usize = 0;
    proof {
        lemma_pow10_18();
        lemma_pow10_mono(0, 18);
        assert(ds@.subrange(0, 0) =~= Seq::<char>::empty());
    }
    while k < ds.len()
        invariant
            k <= ds@.len() <= 18,
            all_digits(ds@),
            acc == digits_value(ds@.subrange(0, k as int)),
            acc < pow10(k as nat),
            pow10(18) == 1_000_000_000_000_000_000,
        decreases ds.len() - k,
    {
        proof {
            assert(ds@.subrange(0, k + 1).drop_last() =~= ds@.subrange(0, k as int));
            assert(is_ascii_digit(ds@[k as int]));
            lemma_pow10_mono((k + 1) as nat, 18);
        }
        acc = acc * 10 + (ds[k] as u32 - 48) as u64;
        k = k + 1;
    }
    assert(ds@.subrange(0, ds@.len() as int) =~= ds@);
    proof {
        lemma_pow10_mono(ds@.len() as nat, 18);
    }
    acc
}

/// Ten to the power `k`, for `k` up to eighteen.
fn pow10_of(k: usize) -> (r: u64)
    requires
        k <= 18,
    ensures
        r == pow10(k as nat),
{
    let mut den: u64 = 1;
    let mut q: usize = 0;
    proof {
        lemma_pow10_18();
    }
    while q < k
        invariant
            q <= k <= 18,
            den == pow10(q as nat),
            pow10(18) == 1_000_000_000_000_000_000,
        decreases k - q,
    {
        proof {
            lemma_pow10_mono((q + 1) as nat, 18);
        }
        den = den * 10;
        q = q + 1;
    }
    den
}

/// Reads a plain decimal text exactly: numerator and denominator.
pub fn parse_decimal_text(s: &str) -> (r: Option<(i64, u64)>)
    ensures
        r matches Some((n, d)) ==> parse_decimal(s@) == Some((n as int, d as nat)),
        r is None ==> parse_decimal(s@) is None,
{
    let v = chars_of(s);
    let neg = v.len() > 0 && v[0] == '-';
    let start: usize = if v.len() > 0 && (v[0] == '+' || v[0] == '-') { 1 } else { 0 };
    let ghost b = unsigned_body(s@);
    assert(b =~= v@.subrange(start as int, v@.len() as int));
    let mut p: usize = start;
    while p < v.len() && v[p] != '.'
        invariant
            start <= p <= v@.len(),
            b =~= v@.subrange(start as int, v@.len() as int),
            first_point(b, (p - start) as int) == first_point(b, 0),
        decreases v.len() - p,
    {
        p = p + 1;
    }
    assert(first_point(b, (p - start) as int) == (p - start) as int);
    let ghost ip = int_digits(s@);
    let ghost fp = frac_digits(s@);
    assert(ip =~= v@.subrange(start as int, p as int));
    let fstart: usize = if p < v.len() { p + 1 } else { v.len() };
    assert(fp =~= v@.subrange(fstart as int, v@.len() as int));
    let mut ds: Vec<char> = Vec::new();
    if !push_digits(&mut ds, &v, start, p) {
        return None;
    }
    if !push_digits(&mut ds, &v, fstart, v.len()) {
        return None;
    }
    assert(ds@ =~= ip + fp);
    if ds.len() == 0 || ds.len() > 18 {
        return None;
    }
    proof {
        assert forall|k: int| 0 <= k < ds@.len() implies is_ascii_digit(#[trigger] ds@[k]) by {
            if k < ip.len() {
                assert(ds@[k] == ip[k]);
            } else {
                assert(ds@[k] == fp[k - ip.len()]);
            }
        }
    }
    let acc = digit_run_value(&ds);
    let den = pow10_of(v.len() - fstart);
    let num: i64 = if neg { -(acc as i64) } else { acc as i64 };
    Some((num, den))
}

/// Ten to the eighteenth.
proof fn lemma_pow10_18()
    ensures
        pow10(18) == 1_000_000_000_000_000_000,
{
    assert(pow10(0) == 1);
    assert(pow10(1) == 10);
    assert(pow10(2) == 100);
    assert(pow10(3) == 1000);
    assert(pow10(4) == 10000);
    assert(pow10(5) == 100000);
    assert(pow10(6) == 1000000);
    assert(pow10(7) == 10000000);
    assert(pow10(8) == 100000000);
    assert(pow10(9) == 1000000000);
    assert(pow10(10) == 10000000000);
    assert(pow10(11) == 100000000000);
    assert(pow10(12) == 1000000000000);
    assert(pow10(13) == 10000000000000);
    assert(pow10(14) == 100000000000000);
    assert(pow10(15) == 1000000000000000);
    assert(pow10(16) == 10000000000000000);
    assert(pow10(17) == 100000000000000000);
    assert(pow10(18) == 1000000000000000000);
}

/// Powers of ten grow with the exponent.
pub proof fn lemma_pow10_mono(a: nat, b: nat)
    requires
        a <= b,
    ensures
        pow10(a) <= pow10(b),
    decreases b - a,
{
    if a < b {
        lemma_pow10_mono(a, (b - 1) as nat);
    }
}

} // verus!
