//! Unsigned numbers in text, as request parameters carry them.

use crate::text::{hex_digit_value, hex_value_of, is_hex_digit, char_is_hex_digit};
use vstd::prelude::*;

verus! {

/// `c` is a digit of the given radix; letters count in either case.
pub open spec fn is_digit_in(c: char, radix: int) -> bool {
    is_hex_digit(c) && hex_digit_value(c) < radix
}

pub open spec fn all_digits(s: Seq<char>, radix: int) -> bool {
    forall|i: int| 0 <= i < s.len() ==> is_digit_in(#[trigger] s[i], radix)
}

/// The number that the digits `s` stand for in the given radix.
pub open spec fn digits_value(s: Seq<char>, radix: int) -> int
    decreases s.len(),
{
    if s.len() == 0 {
        0
    } else {
        digits_value(s.drop_last(), radix) * radix + hex_digit_value(s.last())
    }
}

/// `s` without one plus sign at its start.
pub open spec fn unsigned_body(s: Seq<char>) -> Seq<char> {
    if s.len() > 0 && s[0] == '+' {
        s.drop_first()
    } else {
        s
    }
}

/// The number that `s` stands for: an optional plus sign, then one digit of
/// the radix or more, and nothing else.
pub open spec fn unsigned(s: Seq<char>, radix: int) -> Option<int> {
    let body = unsigned_body(s);
    if body.len() > 0 && all_digits(body, radix) {
        Some(digits_value(body, radix))
    } else {
        None
    }
}

/// The number that `s` stands for where it is at most `max`.
pub open spec fn unsigned_up_to(s: Seq<char>, radix: int, max: int) -> Option<int> {
    match unsigned(s, radix) {
        Some(v) => if v <= max {
            Some(v)
        } else {
            None
        },
        None => None,
    }
}

/// Reads the hexadecimal number in `s`, an unsigned 32-bit value.
pub fn parse_hex_u32(s: &[char]) -> (r: Option<u32>)
    ensures
        match unsigned_up_to(s@, 16, u32::MAX as int) {
            Some(v) => 0 <= v && r == Some(v as u32),
            None => r is None,
        },
{
    let start: usize = if s.len() > 0 && s[0] == '+' {
        1
    } else {
        0
    };
    let ghost body = unsigned_body(s@);
    assert(body == s@.subrange(start as int, s.len() as int));
    if start >= s.len() {
        return None;
    }
    let cap: u64 = 0x1_0000_0000;
    let mut acc: u64 = 0;
    let mut i: usize = start;
    while i < s.len()
        invariant
            start <= i <= s.len(),
            body == s@.subrange(start as int, s.len() as int),
            body == unsigned_body(s@),
            cap == 0x1_0000_0000,
            all_digits(body.take(i - start), 16),
            0 <= digits_value(body.take(i - start), 16),
            acc <= cap,
            acc == if digits_value(body.take(i - start), 16) < cap {
                digits_value(body.take(i - start), 16)
            } else {
                cap as int
            },
        decreases s.len() - i,
    {
        let c = s[i];
        let ghost seen = body.take(i - start);
        let ghost more = body.take(i - start + 1);
        proof {
            assert(more.drop_last() == seen);
            assert(more.last() == c);
        }
        if !char_is_hex_digit(c) {
            assert(!is_digit_in(body[i - start], 16));
            return None;
        }
        let d: u64 = hex_value_of(c) as u64;
        assert(all_digits(more, 16)) by {
            assert forall|k: int| 0 <= k < more.len() implies is_digit_in(
                #[trigger] more[k],
                16,
            ) by {
                if k < seen.len() {
                    assert(more[k] == seen[k]);
                }
            }
        }
        let next: u64 = acc * 16 + d;
        acc = if next > cap {
            cap
        } else {
            next
        };
        i += 1;
    }
    assert(body.take(s.len() - start) == body);
    if acc >= cap {
        None
    } else {
        Some(acc as u32)
    }
}

/// Reads the decimal number in `s`, an unsigned 64-bit value.
pub fn parse_decimal_u64(s: &[char]) -> (r: Option<u64>)
    ensures
        match unsigned_up_to(s@, 10, u64::MAX as int) {
            Some(v) => 0 <= v && r == Some(v as u64),
            None => r is None,
        },
{
    let start: usize = if s.len() > 0 && s[0] == '+' {
        1
    } else {
        0
    };
    let ghost body = unsigned_body(s@);
    assert(body == s@.subrange(start as int, s.len() as int));
    if start >= s.len() {
        return None;
    }
    let cap: u128 = 0x1_0000_0000_0000_0000;
    let mut acc: u128 = 0;
    let mut i: usize = start;
    while i < s.len()
        invariant
            start <= i <= s.len(),
            body == s@.subrange(start as int, s.len() as int),
            body == unsigned_body(s@),
            cap == 0x1_0000_0000_0000_0000,
            all_digits(body.take(i - start), 10),
            0 <= digits_value(body.take(i - start), 10),
            acc <= cap,
            acc == if digits_value(body.take(i - start), 10) < cap {
                digits_value(body.take(i - start), 10)
            } else {
                cap as int
            },
        decreases s.len() - i,
    {
        let c = s[i];
        let ghost seen = body.take(i - start);
        let ghost more = body.take(i - start + 1);
        proof {
            assert(more.drop_last() == seen);
            assert(more.last() == c);
        }
        if !('0' <= c && c <= '9') {
            assert(!is_digit_in(body[i - start], 10));
            return None;
        }
        let d: u128 = hex_value_of(c) as u128;
        assert(all_digits(more, 10)) by {
            assert forall|k: int| 0 <= k < more.len() implies is_digit_in(
                #[trigger] more[k],
                10,
            ) by {
                if k < seen.len() {
                    assert(more[k] == seen[k]);
                }
            }
        }
        let next: u128 = acc * 10 + d;
        acc = if next > cap {
            cap
        } else {
            next
        };
        i += 1;
    }
    assert(body.take(s.len() - start) == body);
    if acc >= cap {
        None
    } else {
        Some(acc as u64)
    }
}

} // verus!
