//! What the agent remembers of its measurement list between requests, so
//! that a request for the entries from some index on need not read the list
//! from its start. The list is a file that only grows; reading it is the
//! caller's.

use crate::quote::{behind_feeds, entry_count, ima_slice, line_feeds, slice_start};
use vstd::prelude::*;

verus! {

/// How far the measurement list has been read: so many bytes, which end
/// behind a line feed, and the number of entries that these bytes hold.
#[derive(Debug, Clone, Copy, PartialEq, Eq, Structural)]
pub struct ImaOffset {
    pub bytes_read: u64,
    pub last_entry_index: u64,
}

/// The number of line feeds among bytes.
pub open spec fn byte_feeds(bytes: Seq<u8>) -> nat
    decreases bytes.len(),
{
    if bytes.len() == 0 {
        0
    } else {
        byte_feeds(bytes.drop_last()) + if bytes.last() == 10u8 {
            1nat
        } else {
            0nat
        }
    }
}

/// The length of the complete entries among bytes: the position behind the
/// last line feed, or 0 where there is none.
pub open spec fn complete_len(bytes: Seq<u8>) -> nat
    decreases bytes.len(),
{
    if bytes.len() == 0 {
        0
    } else if bytes.last() == 10u8 {
        bytes.len()
    } else {
        complete_len(bytes.drop_last())
    }
}

/// What is remembered once `tail` has been read from `from` on: the
/// complete entries of `tail` are added to what was read. Where a count
/// would not fit, the start of the list is remembered.
pub open spec fn advanced(from: ImaOffset, tail: Seq<u8>) -> ImaOffset {
    if from.bytes_read + complete_len(tail) <= u64::MAX && from.last_entry_index + byte_feeds(tail)
        <= u64::MAX {
        ImaOffset {
            bytes_read: (from.bytes_read + complete_len(tail)) as u64,
            last_entry_index: (from.last_entry_index + byte_feeds(tail)) as u64,
        }
    } else {
        ImaOffset { bytes_read: 0, last_entry_index: 0 }
    }
}

/// The index within what is read from `from` on of the entry that has the
/// index `nth_entry` in the list.
pub open spec fn relative_entry(from: ImaOffset, nth_entry: u64) -> u64 {
    if nth_entry >= from.last_entry_index {
        (nth_entry - from.last_entry_index) as u64
    } else {
        0
    }
}

/// An index in the list from an index within what was read from `from` on;
/// it stays at the largest number where it would not fit.
pub open spec fn absolute_entry(from: ImaOffset, index: nat) -> u64 {
    if from.last_entry_index + index <= u64::MAX {
        (from.last_entry_index + index) as u64
    } else {
        u64::MAX
    }
}

/// Complete entries take at least a byte each, and bytes without a line
/// feed hold no complete entry.
pub proof fn lemma_complete_entries(bytes: Seq<u8>)
    ensures
        byte_feeds(bytes) <= complete_len(bytes) <= bytes.len(),
        byte_feeds(bytes) == 0 ==> complete_len(bytes) == 0,
    decreases bytes.len(),
{
    if bytes.len() > 0 {
        lemma_complete_entries(bytes.drop_last());
    }
}

impl ImaOffset {
    /// The entries that were read take at least a byte each, and where no
    /// entry was read, no byte was.
    pub open spec fn wf(&self) -> bool {
        self.last_entry_index <= self.bytes_read && (self.last_entry_index == 0
            ==> self.bytes_read == 0)
    }

    /// Nothing has been read.
    pub fn new() -> (o: ImaOffset)
        ensures
            o == (ImaOffset { bytes_read: 0, last_entry_index: 0 }),
            o.wf(),
    {
        ImaOffset { bytes_read: 0, last_entry_index: 0 }
    }

    /// Where reading starts for a request that asks for the entries from
    /// `nth_entry` on: where reading stopped, if the request asks for no
    /// entry before that, and at the start of the list otherwise. A request
    /// for the list from its first entry on reads it from its start.
    pub fn resume(&self, nth_entry: u64) -> (from: ImaOffset)
        ensures
            from == if self.last_entry_index <= nth_entry {
                *self
            } else {
                ImaOffset { bytes_read: 0, last_entry_index: 0 }
            },
            self.wf() ==> from.wf(),
            self.wf() && nth_entry == 0 ==> from.bytes_read == 0,
    {
        if self.last_entry_index <= nth_entry {
            *self
        } else {
            ImaOffset::new()
        }
    }

    /// What is remembered once `tail` has been read from here on.
    pub fn advance(&self, tail: &[u8]) -> (next: ImaOffset)
        ensures
            next == advanced(*self, tail@),
            self.wf() ==> next.wf(),
    {
        proof {
            lemma_complete_entries(tail@);
        }
        let mut feeds: usize = 0;
        let mut complete: usize = 0;
        let mut i: usize = 0;
        assert(tail@.take(0) =~= Seq::empty());
        while i < tail.len()
            invariant
                i <= tail.len(),
                feeds <= i,
                complete <= i,
                feeds == byte_feeds(tail@.take(i as int)),
                complete == complete_len(tail@.take(i as int)),
            decreases tail.len() - i,
        {
            proof {
                assert(tail@.take(i + 1).drop_last() == tail@.take(i as int));
                assert(tail@.take(i + 1).last() == tail@[i as int]);
            }
            if tail[i] == 10u8 {
                feeds += 1;
                complete = i + 1;
            }
            i += 1;
        }
        assert(tail@.take(tail.len() as int) == tail@);
        let room_bytes: u64 = u64::MAX - self.bytes_read;
        let room_entries: u64 = u64::MAX - self.last_entry_index;
        if complete as u64 <= room_bytes && feeds as u64 <= room_entries {
            ImaOffset {
                bytes_read: self.bytes_read + complete as u64,
                last_entry_index: self.last_entry_index + feeds as u64,
            }
        } else {
            ImaOffset::new()
        }
    }

    /// The slice of the list from entry `nth_entry` on, from what was read
    /// from here on: the text of these entries, the index of the entry that
    /// follows them, and how many entries the slice holds. A request for an
    /// entry before this place gets what was read.
    pub fn slice(&self, tail: &str, nth_entry: u64) -> (r: (String, u64, u64))
        ensures
            r.0@ == tail@.skip(
                behind_feeds(tail@, slice_start(tail@, relative_entry(*self, nth_entry)), 0),
            ),
            r.1 == absolute_entry(*self, entry_count(tail@)),
            r.2 == entry_count(tail@) - slice_start(tail@, relative_entry(*self, nth_entry)),
    {
        let relative: u64 = if nth_entry >= self.last_entry_index {
            nth_entry - self.last_entry_index
        } else {
            0
        };
        let (text, total, held) = ima_slice(tail, relative);
        let next: u64 = if total <= u64::MAX - self.last_entry_index {
            self.last_entry_index + total
        } else {
            u64::MAX
        };
        (text, next, held)
    }
}

/// A text of one character has one line feed if that is one, none
/// otherwise.
proof fn lemma_line_feeds_of_one(c: char)
    ensures
        line_feeds(seq![c]) == if c == '\n' {
            1nat
        } else {
            0nat
        },
{
    let s = seq![c];
    assert(s.len() == 1);
    assert(s.last() == c);
    assert(s.drop_last() =~= Seq::<char>::empty());
    assert(line_feeds(s.drop_last()) == 0);
}

/// Line feeds add up over the parts of a text.
pub proof fn lemma_line_feeds_add(head: Seq<char>, tail: Seq<char>)
    ensures
        line_feeds(head + tail) == line_feeds(head) + line_feeds(tail),
    decreases tail.len(),
{
    if tail.len() == 0 {
        assert(head + tail =~= head);
    } else {
        assert((head + tail).drop_last() =~= head + tail.drop_last());
        assert((head + tail).last() == tail.last());
        lemma_line_feeds_add(head, tail.drop_last());
    }
}

/// Walking over the line feeds of a text that starts with complete entries
/// comes to where walking over the rest of it comes, once the entries at
/// its start are walked over.
proof fn lemma_behind_feeds_resumes(head: Seq<char>, tail: Seq<char>, n: nat, at: int)
    requires
        0 <= at <= head.len(),
        head.len() == 0 || head.last() == '\n',
        n >= line_feeds(head.skip(at)),
    ensures
        behind_feeds(head + tail, n, at) == head.len() + behind_feeds(
            tail,
            (n - line_feeds(head.skip(at))) as nat,
            0,
        ),
    decreases head.len() - at,
{
    let log = head + tail;
    if at == head.len() {
        assert(head.skip(at) =~= Seq::empty());
        lemma_behind_feeds_shifts(head, tail, n, 0);
    } else {
        let rest = head.skip(at);
        let after = head.skip(at + 1);
        assert(log[at] == head[at]);
        lemma_line_feeds_add(seq![head[at]], after);
        assert(seq![head[at]] + after =~= rest);
        lemma_line_feeds_of_one(head[at]);
        if n == 0 {
            // No line feed is left in the head, yet it ends in one.
            lemma_line_feeds_add(head.skip(at).drop_last(), seq![head.last()]);
            assert(head.skip(at).drop_last() + seq![head.last()] =~= head.skip(at));
            lemma_line_feeds_of_one(head.last());
            assert(false);
        } else if head[at] == '\n' {
            lemma_behind_feeds_resumes(head, tail, (n - 1) as nat, at + 1);
        } else {
            lemma_behind_feeds_resumes(head, tail, n, at + 1);
        }
    }
}

/// Walking over line feeds in the rest of a text is walking in the text,
/// shifted by what stands in front.
proof fn lemma_behind_feeds_shifts(head: Seq<char>, tail: Seq<char>, n: nat, at: int)
    requires
        0 <= at <= tail.len(),
    ensures
        behind_feeds(head + tail, n, head.len() + at) == head.len() + behind_feeds(tail, n, at),
    decreases tail.len() - at,
{
    let log = head + tail;
    if n == 0 {
    } else if at >= tail.len() {
    } else {
        assert(log[head.len() + at] == tail[at]);
        if tail[at] == '\n' {
            lemma_behind_feeds_shifts(head, tail, (n - 1) as nat, at + 1);
        } else {
            lemma_behind_feeds_shifts(head, tail, n, at + 1);
        }
    }
}

/// Reading on from where reading stopped gives what reading the whole list
/// gives. Let the list be `head` followed by `tail`, where `head` holds
/// complete entries only, and let a request ask for the entries from
/// `nth_entry` on, none of which lies in `head`. Then the list has the
/// entries of `head` and those of `tail`, and the slice of the list from
/// `nth_entry` on is the slice of `tail` from that entry on, counted from
/// the start of `tail`.
pub proof fn lemma_resumed_slice_is_whole_slice(head: Seq<char>, tail: Seq<char>, nth_entry: u64)
    requires
        head.len() == 0 || head.last() == '\n',
        line_feeds(head) <= nth_entry,
    ensures
        entry_count(head + tail) == line_feeds(head) + entry_count(tail),
        slice_start(head + tail, nth_entry) == line_feeds(head) + slice_start(
            tail,
            (nth_entry - line_feeds(head)) as u64,
        ),
        (head + tail).skip(behind_feeds(head + tail, slice_start(head + tail, nth_entry), 0))
            == tail.skip(
            behind_feeds(tail, slice_start(tail, (nth_entry - line_feeds(head)) as u64), 0),
        ),
{
    let log = head + tail;
    let k = line_feeds(head);
    lemma_line_feeds_add(head, tail);
    if tail.len() == 0 {
        assert(log =~= head);
    } else {
        assert(log.last() == tail.last());
    }
    assert(entry_count(log) == k + entry_count(tail));
    let start = slice_start(log, nth_entry);
    let inner = slice_start(tail, (nth_entry - k) as u64);
    assert(start == k + inner);
    assert(head.skip(0) =~= head);
    lemma_behind_feeds_resumes(head, tail, start, 0);
    let p = behind_feeds(tail, inner, 0);
    lemma_behind_feeds_in_range(tail, inner, 0);
    assert(log.skip(head.len() + p) =~= tail.skip(p));
}

/// Walking over line feeds ends within the text.
pub proof fn lemma_behind_feeds_in_range(s: Seq<char>, n: nat, from: int)
    requires
        0 <= from <= s.len(),
    ensures
        from <= behind_feeds(s, n, from) <= s.len(),
    decreases s.len() - from,
{
    if n == 0 {
    } else if from >= s.len() {
    } else if s[from] == '\n' {
        lemma_behind_feeds_in_range(s, (n - 1) as nat, from + 1);
    } else {
        lemma_behind_feeds_in_range(s, n, from + 1);
    }
}

} // verus!
