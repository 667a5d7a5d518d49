use keylime_agent::measurement_list::ImaOffset;
use keylime_agent::quote::ima_slice;

const LIST: &str = "10 aa ima-ng sha256:01 boot_aggregate\n10 bb ima-ng sha256:02 /init\n10 cc ima-ng sha256:03 /bin/sh\n";

fn at(bytes_read: u64, last_entry_index: u64) -> ImaOffset {
    ImaOffset { bytes_read, last_entry_index }
}

#[test]
fn nothing_is_remembered_at_first() {
    assert_eq!(ImaOffset::new(), at(0, 0));
}

#[test]
fn reading_resumes_where_it_stopped() {
    let remembered = at(120, 3);
    assert_eq!(remembered.resume(3), remembered);
    assert_eq!(remembered.resume(7), remembered);
    assert_eq!(remembered.resume(u64::MAX), remembered);
    assert_eq!(remembered.resume(2), at(0, 0));
    assert_eq!(remembered.resume(0), at(0, 0));
    assert_eq!(ImaOffset::new().resume(0), at(0, 0));
}

#[test]
fn complete_entries_are_remembered() {
    let start = ImaOffset::new();
    assert_eq!(start.advance(LIST.as_bytes()), at(LIST.len() as u64, 3));
    assert_eq!(start.advance(b""), at(0, 0));
    assert_eq!(start.advance(b"no line feed"), at(0, 0));
    assert_eq!(start.advance(b"one\ntwo"), at(4, 1));
    assert_eq!(start.advance(b"\n\n"), at(2, 2));
    assert_eq!(at(100, 5).advance(b"one\ntwo\nthr"), at(108, 7));
    assert_eq!(at(100, 5).advance(b"thr"), at(100, 5));
}

#[test]
fn counts_that_do_not_fit_start_the_list_again() {
    assert_eq!(at(u64::MAX, 1).advance(b"a\n"), at(0, 0));
    assert_eq!(at(10, u64::MAX).advance(b"a\n"), at(0, 0));
    assert_eq!(at(u64::MAX - 2, 1).advance(b"a\n"), at(u64::MAX, 2));
    assert_eq!(at(u64::MAX, u64::MAX).advance(b"a"), at(u64::MAX, u64::MAX));
}

#[test]
fn resumed_slice_counts_from_what_was_read() {
    let lines: Vec<&str> = LIST.split_inclusive('\n').collect();
    let head = lines[0];
    let tail = format!("{}{}", lines[1], lines[2]);
    let from = ImaOffset::new().advance(head.as_bytes());
    assert_eq!(from, at(head.len() as u64, 1));
    for nth in 1..6u64 {
        assert_eq!(from.slice(&tail, nth), ima_slice(LIST, nth));
    }
    assert_eq!(from.slice(&tail, 2), (lines[2].to_string(), 3, 1));
    assert_eq!(from.slice(&tail, 0), (tail.clone(), 3, 2));
    assert_eq!(from.slice("", 1), (String::new(), 1, 0));
    assert_eq!(at(9, u64::MAX).slice("a\nb\n", u64::MAX), ("a\nb\n".to_string(), u64::MAX, 2));
}

#[test]
fn requests_in_turn_read_the_list_once() {
    let mut remembered = ImaOffset::new();
    let from = remembered.resume(0);
    let (text, next, held) = from.slice(LIST, 0);
    assert_eq!((text.as_str(), next, held), (LIST, 3, 3));
    remembered = from.advance(LIST.as_bytes());
    let grown = format!("{LIST}10 dd ima-ng sha256:04 /bin/ls\n");
    let from = remembered.resume(next);
    assert_eq!(from.bytes_read as usize, LIST.len());
    let tail = &grown[from.bytes_read as usize..];
    let (text, next, held) = from.slice(tail, next);
    assert_eq!((text.as_str(), next, held), ("10 dd ima-ng sha256:04 /bin/ls\n", 4, 1));
    assert_eq!((text, next, held), ima_slice(&grown, 3));
    remembered = from.advance(tail.as_bytes());
    assert_eq!(remembered, at(grown.len() as u64, 4));
    let from = remembered.resume(1);
    assert_eq!(from, at(0, 0));
    assert_eq!(from.slice(&grown, 1), ima_slice(&grown, 1));
}
