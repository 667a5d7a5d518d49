//! IPv6 addresses in text, as far as a URL needs them told apart: an IPv6
//! address stands in square brackets there, a host name or an IPv4 address
//! does not.

use crate::number::{digits_value, is_digit_in};
use crate::text::{
    chars_of, char_is_hex_digit, find, find_in, hex_value_of, is_hex_digit, push_chars, rows,
    slice_of, string_of,
};
use vstd::prelude::*;
use vstd::string::*;

verus! {

/// The pieces of `s` between the occurrences of `sep`. A text without the
/// separator is one piece; two separators side by side hold an empty piece.
pub open spec fn split(s: Seq<char>, sep: char) -> Seq<Seq<char>>
    decreases s.len(),
{
    if s.len() == 0 {
        seq![Seq::empty()]
    } else {
        let before = split(s.drop_last(), sep);
        if s.last() == sep {
            before.push(Seq::empty())
        } else {
            before.drop_last().push(before.last().push(s.last()))
        }
    }
}

/// The pieces of `s` between the occurrences of `sep`.
pub fn split_on(s: &[char], sep: char) -> (out: Vec<Vec<char>>)
    ensures
        rows(out@) == split(s@, sep),
        out.len() >= 1,
{
    let mut done: Vec<Vec<char>> = Vec::new();
    let mut piece: Vec<char> = Vec::new();
    let mut i: usize = 0;
    assert(rows(done@) =~= Seq::empty());
    assert(s@.take(0) =~= Seq::empty());
    while i < s.len()
        invariant
            i <= s.len(),
            split(s@.take(i as int), sep) == rows(done@).push(piece@),
        decreases s.len() - i,
    {
        let ghost before = rows(done@).push(piece@);
        proof {
            assert(s@.take(i + 1).drop_last() == s@.take(i as int));
            assert(s@.take(i + 1).last() == s@[i as int]);
        }
        if s[i] == sep {
            done.push(piece);
            piece = Vec::new();
            assert(rows(done@).push(piece@) =~= before.push(Seq::empty()));
        } else {
            piece.push(s[i]);
            assert(rows(done@).push(piece@) =~= before.drop_last().push(
                before.last().push(s@[i as int]),
            ));
        }
        i += 1;
    }
    assert(s@.take(s.len() as int) == s@);
    let ghost before = rows(done@);
    done.push(piece);
    assert(rows(done@) =~= before.push(piece@));
    done
}

/// One to four hexadecimal digits: sixteen bits of an IPv6 address.
pub open spec fn is_hex_group(s: Seq<char>) -> bool {
    1 <= s.len() <= 4 && forall|i: int| 0 <= i < s.len() ==> is_hex_digit(#[trigger] s[i])
}

/// A decimal number up to 255 in at most three digits, without a zero in
/// front of another digit.
pub open spec fn is_octet(s: Seq<char>) -> bool {
    &&& 1 <= s.len() <= 3
    &&& forall|i: int| 0 <= i < s.len() ==> is_digit_in(#[trigger] s[i], 10)
    &&& (s.len() > 1 ==> s[0] != '0')
    &&& digits_value(s, 10) <= 255
}

/// Four octets with a full stop between each two.
pub open spec fn is_ipv4(s: Seq<char>) -> bool {
    let p = split(s, '.');
    p.len() == 4 && forall|i: int| 0 <= i < p.len() ==> is_octet(#[trigger] p[i])
}

pub open spec fn all_groups(p: Seq<Seq<char>>) -> bool {
    forall|i: int| 0 <= i < p.len() ==> is_hex_group(#[trigger] p[i])
}

/// How many times sixteen bits the pieces stand for: one for each piece
/// where all are hexadecimal groups, and two for an IPv4 address in the last
/// place. `None` where the pieces are neither.
pub open spec fn units(p: Seq<Seq<char>>) -> Option<nat> {
    if all_groups(p) {
        Some(p.len())
    } else if p.len() >= 1 && is_ipv4(p.last()) && all_groups(p.drop_last()) {
        Some(p.len() + 1)
    } else {
        None
    }
}

/// The units of a text whose pieces are parted by colons; an empty text has
/// none.
pub open spec fn units_of(s: Seq<char>) -> Option<nat> {
    if s.len() == 0 {
        Some(0)
    } else {
        units(split(s, ':'))
    }
}

/// The units of the part in front of a double colon, which holds no IPv4
/// address.
pub open spec fn head_units(s: Seq<char>) -> Option<nat> {
    if s.len() == 0 {
        Some(0)
    } else if all_groups(split(s, ':')) {
        Some(split(s, ':').len())
    } else {
        None
    }
}

/// `s` is an IPv6 address in text: eight groups of up to four hexadecimal
/// digits parted by colons, of which the last two may be written as an IPv4
/// address; or fewer with one double colon, which stands for one group of
/// zeros or more, and in front of which no IPv4 address may stand.
pub open spec fn is_ipv6(s: Seq<char>) -> bool {
    match find(s, seq![':', ':']) {
        None => units(split(s, ':')) == Some(8nat),
        Some(i) => {
            let head = head_units(s.take(i));
            let tail = units_of(s.skip(i + 2));
            head is Some && tail is Some && head->0 + tail->0 <= 7
        },
    }
}

/// The address as it stands in a URL: in square brackets where it is an
/// IPv6 address, as it is otherwise.
pub open spec fn bracketed(address: Seq<char>) -> Seq<char> {
    if is_ipv6(address) {
        seq!['['] + address + seq![']']
    } else {
        address
    }
}

fn check_hex_group(s: &[char]) -> (b: bool)
    ensures
        b == is_hex_group(s@),
{
    if s.len() < 1 || s.len() > 4 {
        return false;
    }
    let mut i: usize = 0;
    while i < s.len()
        invariant
            i <= s.len(),
            forall|k: int| 0 <= k < i ==> is_hex_digit(#[trigger] s@[k]),
        decreases s.len() - i,
    {
        if !char_is_hex_digit(s[i]) {
            return false;
        }
        i += 1;
    }
    true
}

fn check_octet(s: &[char]) -> (b: bool)
    ensures
        b == is_octet(s@),
{
    if s.len() < 1 || s.len() > 3 {
        return false;
    }
    let mut value: u32 = 0;
    let mut i: usize = 0;
    assert(s@.take(0) =~= Seq::empty());
    while i < s.len()
        invariant
            i <= s.len() <= 3,
            forall|k: int| 0 <= k < i ==> is_digit_in(#[trigger] s@[k], 10),
            value == digits_value(s@.take(i as int), 10),
            value <= 999,
            i == 0 ==> value == 0,
            i == 1 ==> value <= 9,
            i == 2 ==> value <= 99,
        decreases s.len() - i,
    {
        let c = s[i];
        if !('0' <= c && c <= '9') {
            return false;
        }
        proof {
            assert(s@.take(i + 1).drop_last() == s@.take(i as int));
            assert(s@.take(i + 1).last() == c);
        }
        value = value * 10 + hex_value_of(c) as u32;
        i += 1;
    }
    assert(s@.take(s.len() as int) == s@);
    if s.len() > 1 && s[0] == '0' {
        return false;
    }
    value <= 255
}

fn check_ipv4(s: &[char]) -> (b: bool)
    ensures
        b == is_ipv4(s@),
{
    let pieces = split_on(s, '.');
    if pieces.len() != 4 {
        return false;
    }
    let mut i: usize = 0;
    while i < pieces.len()
        invariant
            i <= pieces.len(),
            rows(pieces@) == split(s@, '.'),
            forall|k: int| 0 <= k < i ==> is_octet(#[trigger] rows(pieces@)[k]),
        decreases pieces.len() - i,
    {
        if !check_octet(pieces[i].as_slice()) {
            assert(!is_octet(rows(pieces@)[i as int]));
            return false;
        }
        i += 1;
    }
    true
}

fn check_all_groups(pieces: &Vec<Vec<char>>, upto: usize) -> (b: bool)
    requires
        upto <= pieces.len(),
    ensures
        b == all_groups(rows(pieces@).take(upto as int)),
{
    let mut i: usize = 0;
    while i < upto
        invariant
            i <= upto <= pieces.len(),
            forall|k: int| 0 <= k < i ==> is_hex_group(#[trigger] rows(pieces@)[k]),
        decreases upto - i,
    {
        if !check_hex_group(pieces[i].as_slice()) {
            assert(!is_hex_group(rows(pieces@).take(upto as int)[i as int]));
            return false;
        }
        i += 1;
    }
    assert forall|k: int| 0 <= k < upto implies is_hex_group(
        #[trigger] rows(pieces@).take(upto as int)[k],
    ) by {
        assert(rows(pieces@).take(upto as int)[k] == rows(pieces@)[k]);
    }
    true
}

fn count_units(pieces: &Vec<Vec<char>>) -> (r: Option<usize>)
    requires
        pieces.len() < usize::MAX,
    ensures
        match units(rows(pieces@)) {
            Some(n) => r == Some(n as usize) && n <= pieces.len() + 1,
            None => r is None,
        },
{
    let n = pieces.len();
    proof {
        assert(rows(pieces@).take(n as int) == rows(pieces@));
        if n >= 1 {
            assert(rows(pieces@).take(n - 1) == rows(pieces@).drop_last());
        }
    }
    if check_all_groups(pieces, n) {
        Some(n)
    } else if n >= 1 && check_ipv4(pieces[n - 1].as_slice()) && check_all_groups(pieces, n - 1) {
        Some(n + 1)
    } else {
        None
    }
}

/// Whether `s` is an IPv6 address in text.
pub fn check_ipv6(s: &[char]) -> (b: bool)
    ensures
        b == is_ipv6(s@),
{
    let mut colons: Vec<char> = Vec::new();
    colons.push(':');
    colons.push(':');
    assert(colons@ =~= seq![':', ':']);
    match find_in(s, colons.as_slice(), 0) {
        None => {
            let pieces = split_on(s, ':');
            if pieces.len() > 8 {
                return false;
            }
            match count_units(&pieces) {
                Some(n) => n == 8,
                None => false,
            }
        },
        Some(i) => {
            let head_text = slice_of(s, 0, i);
            let tail_text = slice_of(s, i + 2, s.len());
            assert(head_text@ == s@.take(i as int));
            assert(tail_text@ == s@.skip(i + 2));
            let h: usize = if head_text.len() == 0 {
                0
            } else {
                let pieces = split_on(head_text.as_slice(), ':');
                proof {
                    assert(rows(pieces@).take(pieces.len() as int) == rows(pieces@));
                }
                if pieces.len() > 7 || !check_all_groups(&pieces, pieces.len()) {
                    return false;
                }
                pieces.len()
            };
            let t: usize = if tail_text.len() == 0 {
                0
            } else {
                let pieces = split_on(tail_text.as_slice(), ':');
                if pieces.len() > 7 {
                    return false;
                }
                match count_units(&pieces) {
                    Some(n) => n,
                    None => {
                        return false;
                    },
                }
            };
            h + t <= 7
        },
    }
}

/// The address as it stands in a URL: an IPv6 address in square brackets,
/// anything else as it is.
pub fn parse_registrar_address(address: String) -> (r: String)
    ensures
        r@ == bracketed(address@),
{
    let chars = chars_of(address.as_str());
    if check_ipv6(chars.as_slice()) {
        let mut out: Vec<char> = Vec::new();
        out.push('[');
        push_chars(&mut out, chars.as_slice());
        out.push(']');
        string_of(out.as_slice())
    } else {
        address
    }
}

} // verus!
