//! Characters and strings as sequences: the small vocabulary that the rest of
//! the crate states its contracts in.

use vstd::prelude::*;
use vstd::string::*;

verus! {

/// `String::push` of std: the character is appended at the end and nothing
/// else changes.
pub assume_specification[ String::push ](s: &mut String, c: char)
    ensures
        final(s)@ == old(s)@.push(c),
;

/// What `char::is_alphanumeric` of std answers for `c`: membership in the
/// Unicode classes Alphabetic, Nd, Nl or No.
pub uninterp spec fn char_is_alphanumeric(c: char) -> bool;

/// What `str::to_lowercase` of std returns for the text `s`.
pub uninterp spec fn lowercase(s: Seq<char>) -> Seq<char>;

/// `char::is_alphanumeric` of std. Within ASCII the class is exactly the
/// letters and the digits.
#[verifier::external_body]
pub(crate) fn is_alphanumeric(c: char) -> (b: bool)
    ensures
        b == char_is_alphanumeric(c),
        (c as u32) < 128 ==> b == (is_ascii_digit(c) || is_ascii_letter(c)),
{
    c.is_alphanumeric()
}

/// `str::to_lowercase` of std, which follows the Unicode lower-case mapping.
#[verifier::external_body]
pub(crate) fn to_lowercase(s: &str) -> (r: String)
    ensures
        r@ == lowercase(s@),
{
    s.to_lowercase()
}

pub open spec fn is_ascii_digit(c: char) -> bool {
    '0' <= c <= '9'
}

pub open spec fn is_ascii_letter(c: char) -> bool {
    ('a' <= c <= 'z') || ('A' <= c <= 'Z')
}

pub open spec fn is_hex_digit(c: char) -> bool {
    is_ascii_digit(c) || ('a' <= c <= 'f') || ('A' <= c <= 'F')
}

/// The number that a hexadecimal digit stands for.
pub open spec fn hex_digit_value(c: char) -> int {
    if is_ascii_digit(c) {
        c as int - '0' as int
    } else if 'a' <= c <= 'f' {
        c as int - 'a' as int + 10
    } else {
        c as int - 'A' as int + 10
    }
}

/// The characters with the Unicode property White_Space.
pub open spec fn is_whitespace(c: char) -> bool {
    let u = c as u32;
    (0x09 <= u <= 0x0d) || u == 0x20 || u == 0x85 || u == 0xa0 || u == 0x1680 || (0x2000 <= u
        <= 0x200a) || u == 0x2028 || u == 0x2029 || u == 0x202f || u == 0x205f || u == 0x3000
}

pub fn char_is_whitespace(c: char) -> (b: bool)
    ensures
        b == is_whitespace(c),
{
    let u: u32 = c as u32;
    (0x09 <= u && u <= 0x0d) || u == 0x20 || u == 0x85 || u == 0xa0 || u == 0x1680 || (0x2000
        <= u && u <= 0x200a) || u == 0x2028 || u == 0x2029 || u == 0x202f || u == 0x205f || u
        == 0x3000
}

pub fn char_is_hex_digit(c: char) -> (b: bool)
    ensures
        b == is_hex_digit(c),
{
    ('0' <= c && c <= '9') || ('a' <= c && c <= 'f') || ('A' <= c && c <= 'F')
}

pub fn hex_value_of(c: char) -> (v: u8)
    requires
        is_hex_digit(c),
    ensures
        v == hex_digit_value(c),
        v < 16,
{
    let u: u32 = c as u32;
    if '0' <= c && c <= '9' {
        (u - 0x30) as u8
    } else if 'a' <= c && c <= 'f' {
        (u - 0x61 + 10) as u8
    } else {
        (u - 0x41 + 10) as u8
    }
}

/// The characters of `s`, in order.
pub fn chars_of(s: &str) -> (v: Vec<char>)
    ensures
        v@ == s@,
{
    let mut v: Vec<char> = Vec::new();
    for c in it: s.chars()
        invariant
            it.seq() == s@,
            v@ == s@.take(it.index() as int),
    {
        v.push(c);
    }
    v
}

/// The string made of `chars`.
pub fn string_of(chars: &[char]) -> (s: String)
    ensures
        s@ == chars@,
{
    let mut s = String::new();
    let mut i: usize = 0;
    while i < chars.len()
        invariant
            i <= chars.len(),
            s@ == chars@.take(i as int),
        decreases chars.len() - i,
    {
        s.push(chars[i]);
        i += 1;
    }
    s
}

/// A copy of `chars[from..to]`.
pub fn slice_of(chars: &[char], from: usize, to: usize) -> (v: Vec<char>)
    requires
        from <= to <= chars.len(),
    ensures
        v@ == chars@.subrange(from as int, to as int),
{
    let mut v: Vec<char> = Vec::new();
    let mut i: usize = from;
    while i < to
        invariant
            from <= i <= to <= chars.len(),
            v@ == chars@.subrange(from as int, i as int),
        decreases to - i,
    {
        v.push(chars[i]);
        i += 1;
    }
    v
}

pub fn same_chars(a: &[char], b: &[char]) -> (r: bool)
    ensures
        r == (a@ == b@),
{
    if a.len() != b.len() {
        return false;
    }
    let mut i: usize = 0;
    while i < a.len()
        invariant
            i <= a.len(),
            a.len() == b.len(),
            a@.take(i as int) == b@.take(i as int),
        decreases a.len() - i,
    {
        if a[i] != b[i] {
            return false;
        }
        assert(a@.take(i + 1) == a@.take(i as int).push(a@[i as int]));
        assert(b@.take(i + 1) == b@.take(i as int).push(b@[i as int]));
        i += 1;
    }
    assert(a@.take(a.len() as int) == a@);
    assert(b@.take(b.len() as int) == b@);
    true
}

/// Whether two strings hold the same characters.
pub fn str_eq(a: &str, b: &str) -> (r: bool)
    ensures
        r == (a@ == b@),
{
    let x = chars_of(a);
    let y = chars_of(b);
    same_chars(x.as_slice(), y.as_slice())
}

/// Every character of `s` is alphanumeric.
pub open spec fn all_alphanumeric(s: Seq<char>) -> bool {
    forall|i: int| 0 <= i < s.len() ==> char_is_alphanumeric(#[trigger] s[i])
}

pub fn is_all_alphanumeric(s: &str) -> (r: bool)
    ensures
        r == all_alphanumeric(s@),
{
    for c in it: s.chars()
        invariant
            it.seq() == s@,
            all_alphanumeric(s@.take(it.index() as int)),
    {
        let ghost i = it.index() as int;
        if !is_alphanumeric(c) {
            assert(!char_is_alphanumeric(s@[i]));
            return false;
        }
        assert(all_alphanumeric(s@.take(i + 1))) by {
            assert forall|k: int| 0 <= k < i + 1 implies char_is_alphanumeric(
                #[trigger] s@.take(i + 1)[k],
            ) by {
                if k < i {
                    assert(s@.take(i + 1)[k] == s@.take(i)[k]);
                }
            }
        }
    }
    assert(s@.take(s@.len() as int) == s@);
    true
}

/// `needle` stands in `hay` at position `i`.
pub open spec fn occurs_at(hay: Seq<char>, needle: Seq<char>, i: int) -> bool {
    0 <= i && i + needle.len() <= hay.len() && hay.subrange(i, i + needle.len()) == needle
}

/// The first position at or after `from` at which `needle` stands in `hay`.
pub open spec fn find_from(hay: Seq<char>, needle: Seq<char>, from: int) -> Option<int>
    decreases hay.len() - from,
{
    if from < 0 || from + needle.len() > hay.len() {
        None
    } else if occurs_at(hay, needle, from) {
        Some(from)
    } else if from >= hay.len() {
        None
    } else {
        find_from(hay, needle, from + 1)
    }
}

/// The first position at which `needle` stands in `hay`.
pub open spec fn find(hay: Seq<char>, needle: Seq<char>) -> Option<int> {
    find_from(hay, needle, 0)
}

pub open spec fn contains(hay: Seq<char>, needle: Seq<char>) -> bool {
    find(hay, needle) is Some
}

pub fn matches_at(hay: &[char], needle: &[char], at: usize) -> (r: bool)
    ensures
        r == occurs_at(hay@, needle@, at as int),
{
    if needle.len() > hay.len() || at > hay.len() - needle.len() {
        return false;
    }
    let mut k: usize = 0;
    while k < needle.len()
        invariant
            k <= needle.len(),
            at + needle.len() <= hay.len(),
            hay@.subrange(at as int, at + k) == needle@.take(k as int),
        decreases needle.len() - k,
    {
        if hay[at + k] != needle[k] {
            assert(hay@.subrange(at as int, at + needle.len())[k as int] != needle@[k as int]);
            return false;
        }
        assert(hay@.subrange(at as int, at + k + 1) == hay@.subrange(at as int, at + k).push(
            hay@[at + k],
        ));
        assert(needle@.take(k + 1) == needle@.take(k as int).push(needle@[k as int]));
        k += 1;
    }
    assert(needle@.take(needle.len() as int) == needle@);
    true
}

pub fn find_in(hay: &[char], needle: &[char], from: usize) -> (r: Option<usize>)
    ensures
        match find_from(hay@, needle@, from as int) {
            Some(i) => from <= i && i + needle.len() <= hay.len() && r == Some(i as usize),
            None => r is None,
        },
{
    if from > hay.len() {
        return None;
    }
    let mut i: usize = from;
    while i < hay.len()
        invariant
            from <= i <= hay.len(),
            find_from(hay@, needle@, from as int) == find_from(hay@, needle@, i as int),
        decreases hay.len() - i,
    {
        if matches_at(hay, needle, i) {
            return Some(i);
        }
        i += 1;
    }
    if matches_at(hay, needle, i) {
        Some(i)
    } else {
        None
    }
}

/// Whether `needle` stands somewhere in `hay`.
pub fn includes(hay: &[char], needle: &str) -> (b: bool)
    ensures
        b == contains(hay@, needle@),
{
    let n = chars_of(needle);
    find_in(hay, n.as_slice(), 0).is_some()
}

pub fn starts_with(s: &[char], prefix: &[char]) -> (r: bool)
    ensures
        r == prefix@.is_prefix_of(s@),
{
    let r = matches_at(s, prefix, 0);
    proof {
        if prefix@.len() <= s@.len() {
            assert(s@.subrange(0, prefix@.len() as int) == s@.take(prefix@.len() as int));
        }
    }
    r
}

/// `s` without the white space at its start.
pub open spec fn trim_start(s: Seq<char>) -> Seq<char>
    decreases s.len(),
{
    if s.len() > 0 && is_whitespace(s[0]) {
        trim_start(s.drop_first())
    } else {
        s
    }
}

/// `s` without the white space at its end.
pub open spec fn trim_end(s: Seq<char>) -> Seq<char>
    decreases s.len(),
{
    if s.len() > 0 && is_whitespace(s.last()) {
        trim_end(s.drop_last())
    } else {
        s
    }
}

/// `s` without the white space at either end.
pub open spec fn trim(s: Seq<char>) -> Seq<char> {
    trim_end(trim_start(s))
}

pub fn trimmed(s: &[char]) -> (v: Vec<char>)
    ensures
        v@ == trim(s@),
{
    let mut lo: usize = 0;
    assert(s@.subrange(0, s.len() as int) == s@);
    while lo < s.len() && char_is_whitespace(s[lo])
        invariant
            lo <= s.len(),
            trim_start(s@) == trim_start(s@.subrange(lo as int, s.len() as int)),
        decreases s.len() - lo,
    {
        assert(s@.subrange(lo as int, s.len() as int).drop_first() == s@.subrange(
            lo + 1,
            s.len() as int,
        ));
        lo += 1;
    }
    assert(trim_start(s@) == s@.subrange(lo as int, s.len() as int));
    let mut hi: usize = s.len();
    while hi > lo && char_is_whitespace(s[hi - 1])
        invariant
            lo <= hi <= s.len(),
            trim(s@) == trim_end(s@.subrange(lo as int, hi as int)),
        decreases hi - lo,
    {
        assert(s@.subrange(lo as int, hi as int).drop_last() == s@.subrange(
            lo as int,
            hi - 1,
        ));
        hi -= 1;
    }
    slice_of(s, lo, hi)
}

/// The decimal digits of `n`, most significant first.
pub open spec fn decimal(n: nat) -> Seq<char>
    decreases n,
{
    if n < 10 {
        seq![digit_char(n)]
    } else {
        decimal(n / 10).push(digit_char(n % 10))
    }
}

pub open spec fn digit_char(d: nat) -> char {
    if d == 0 {
        '0'
    } else if d == 1 {
        '1'
    } else if d == 2 {
        '2'
    } else if d == 3 {
        '3'
    } else if d == 4 {
        '4'
    } else if d == 5 {
        '5'
    } else if d == 6 {
        '6'
    } else if d == 7 {
        '7'
    } else if d == 8 {
        '8'
    } else {
        '9'
    }
}

fn digit_of(d: u64) -> (c: char)
    requires
        d < 10,
    ensures
        c == digit_char(d as nat),
{
    if d == 0 {
        '0'
    } else if d == 1 {
        '1'
    } else if d == 2 {
        '2'
    } else if d == 3 {
        '3'
    } else if d == 4 {
        '4'
    } else if d == 5 {
        '5'
    } else if d == 6 {
        '6'
    } else if d == 7 {
        '7'
    } else if d == 8 {
        '8'
    } else {
        '9'
    }
}

/// Appends the decimal digits of `n` to `out`.
pub fn push_decimal(out: &mut Vec<char>, n: u64)
    ensures
        final(out)@ == old(out)@ + decimal(n as nat),
    decreases n,
{
    if n < 10 {
        out.push(digit_of(n));
    } else {
        push_decimal(out, n / 10);
        out.push(digit_of(n % 10));
    }
}

/// Appends the characters of `s` to `out`.
pub fn push_str(out: &mut Vec<char>, s: &str)
    ensures
        final(out)@ == old(out)@ + s@,
{
    let ghost before = out@;
    for c in it: s.chars()
        invariant
            it.seq() == s@,
            out@ == before + s@.take(it.index() as int),
    {
        out.push(c);
    }
}

/// Appends `s` to `out`.
pub fn push_chars(out: &mut Vec<char>, s: &[char])
    ensures
        final(out)@ == old(out)@ + s@,
{
    let ghost before = out@;
    let mut i: usize = 0;
    while i < s.len()
        invariant
            i <= s.len(),
            out@ == before + s@.take(i as int),
        decreases s.len() - i,
    {
        out.push(s[i]);
        i += 1;
    }
}

/// The items of `list` with `sep` between each two of them.
pub open spec fn join(list: Seq<Seq<char>>, sep: Seq<char>) -> Seq<char>
    decreases list.len(),
{
    if list.len() == 0 {
        Seq::empty()
    } else if list.len() == 1 {
        list[0]
    } else {
        join(list.drop_last(), sep) + sep + list.last()
    }
}

/// The views of the strings of a vector.
pub open spec fn views(list: Seq<String>) -> Seq<Seq<char>> {
    list.map_values(|s: String| s@)
}

pub proof fn lemma_views_push(list: Seq<String>, s: String)
    ensures
        views(list.push(s)) == views(list).push(s@),
{
    assert(views(list.push(s)) =~= views(list).push(s@));
}

pub fn join_strings(list: &Vec<String>, sep: &str) -> (r: String)
    ensures
        r@ == join(views(list@), sep@),
{
    let mut out: Vec<char> = Vec::new();
    let mut i: usize = 0;
    while i < list.len()
        invariant
            i <= list.len(),
            out@ == join(views(list@).take(i as int), sep@),
        decreases list.len() - i,
    {
        let ghost prev = views(list@).take(i as int);
        let ghost next = views(list@).take(i + 1);
        proof {
            assert(next.drop_last() == prev);
            assert(next.last() == list@[i as int]@);
        }
        if i > 0 {
            push_str(&mut out, sep);
        }
        push_str(&mut out, list[i].as_str());
        proof {
            if i == 0 {
                assert(prev.len() == 0);
                assert(next.len() == 1);
                assert(out@ == next[0]);
            }
        }
        i += 1;
    }
    assert(views(list@).take(list.len() as int) == views(list@));
    string_of(out.as_slice())
}

/// `line` without one carriage return at its end.
pub open spec fn strip_cr(line: Seq<char>) -> Seq<char> {
    if line.len() > 0 && line.last() == '\r' {
        line.drop_last()
    } else {
        line
    }
}

/// The position of the first line feed of `s` at or after `from`, or the
/// length of `s`.
pub open spec fn line_end(s: Seq<char>, from: int) -> int
    decreases s.len() - from,
{
    if from < 0 || from >= s.len() {
        s.len() as int
    } else if s[from] == '\n' {
        from
    } else {
        line_end(s, from + 1)
    }
}

/// The lines of the text from position `from` on. A line ends at a line feed
/// or at the end of the text; the line feed, and a carriage return right
/// before it, belong to no line. Nothing follows a final line feed.
pub open spec fn lines_from(s: Seq<char>, from: int) -> Seq<Seq<char>>
    decreases s.len() - from,
{
    if from < 0 || from >= s.len() {
        Seq::empty()
    } else {
        let e = line_end(s, from);
        if e >= s.len() {
            seq![s.subrange(from, s.len() as int)]
        } else if e < from {
            Seq::empty()
        } else {
            seq![strip_cr(s.subrange(from, e))] + lines_from(s, e + 1)
        }
    }
}

pub open spec fn lines(s: Seq<char>) -> Seq<Seq<char>> {
    lines_from(s, 0)
}

/// The views of the items of a vector of character vectors.
pub open spec fn rows(list: Seq<Vec<char>>) -> Seq<Seq<char>> {
    list.map_values(|v: Vec<char>| v@)
}

fn find_line_end(s: &[char], from: usize) -> (e: usize)
    requires
        from <= s.len(),
    ensures
        e == line_end(s@, from as int),
        from <= e <= s.len(),
{
    let mut i: usize = from;
    while i < s.len() && s[i] != '\n'
        invariant
            from <= i <= s.len(),
            line_end(s@, from as int) == line_end(s@, i as int),
        decreases s.len() - i,
    {
        i += 1;
    }
    i
}

/// The lines of a text.
pub fn split_lines(s: &[char]) -> (out: Vec<Vec<char>>)
    ensures
        rows(out@) == lines(s@),
{
    let mut out: Vec<Vec<char>> = Vec::new();
    let mut from: usize = 0;
    while from < s.len()
        invariant
            from <= s.len(),
            lines(s@) == rows(out@) + lines_from(s@, from as int),
        decreases s.len() - from,
    {
        let e = find_line_end(s, from);
        let ghost before = rows(out@);
        if e >= s.len() {
            let line = slice_of(s, from, s.len());
            out.push(line);
            assert(rows(out@) == before + seq![s@.subrange(from as int, s.len() as int)]);
            from = s.len();
        } else {
            let stop: usize = if e > from && s[e - 1] == '\r' {
                (e - 1) as usize
            } else {
                e
            };
            let line = slice_of(s, from, stop);
            assert(line@ == strip_cr(s@.subrange(from as int, e as int))) by {
                let full = s@.subrange(from as int, e as int);
                if e > from && s@[e - 1] == '\r' {
                    assert(full.last() == '\r');
                    assert(full.drop_last() == s@.subrange(from as int, e - 1));
                }
            }
            out.push(line);
            assert(rows(out@) == before + seq![strip_cr(s@.subrange(from as int, e as int))]);
            from = e + 1;
        }
    }
    out
}

} // verus!
