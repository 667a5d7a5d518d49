//! What the JSON text that the agent writes lets a reader find again.

use crate::codec::{hex_lower, json_escape, json_escape_char, json_string};
use crate::json::{member_text, members_text, separator, Layout};
use crate::quote::{quote_json, quote_members, KeylimeQuoteView};
use vstd::prelude::*;

verus! {

/// The escaped form of a text starts with the escaped form of its first
/// character.
pub proof fn lemma_escape_front(s: Seq<char>)
    requires
        s.len() > 0,
    ensures
        json_escape(s) == json_escape_char(s[0]) + json_escape(s.drop_first()),
    decreases s.len(),
{
    if s.len() == 1 {
        assert(s.drop_last() =~= Seq::empty());
        assert(s.drop_first() =~= Seq::empty());
        assert(json_escape(s) =~= json_escape_char(s[0]) + json_escape(s.drop_first()));
    } else {
        lemma_escape_front(s.drop_last());
        assert(s.drop_last().drop_first() =~= s.drop_first().drop_last());
        assert(s.drop_first().last() == s.last());
        assert(s.drop_last()[0] == s[0]);
        assert(json_escape(s) =~= json_escape_char(s[0]) + json_escape(s.drop_first()));
    }
}

/// No escaped character starts with a quotation mark.
proof fn lemma_code_is_no_quote(c: char, x: Seq<char>)
    ensures
        (json_escape_char(c) + x).len() >= 1,
        (json_escape_char(c) + x)[0] != '"',
{
    assert(json_escape_char(c).len() >= 1);
    assert((json_escape_char(c) + x)[0] == json_escape_char(c)[0]);
}

/// The escaped forms of two characters are never one the start of the
/// other: what follows an escaped character in a text is determined.
proof fn lemma_code_is_unique(c1: char, c2: char, x: Seq<char>, y: Seq<char>)
    requires
        json_escape_char(c1) + x == json_escape_char(c2) + y,
    ensures
        c1 == c2,
        x == y,
{
    let e1 = json_escape_char(c1);
    let e2 = json_escape_char(c2);
    let l = e1 + x;
    let r = e2 + y;
    assert(e1.len() == 1 || e1.len() == 2 || e1.len() == 6);
    assert(e2.len() == 1 || e2.len() == 2 || e2.len() == 6);
    assert(l[0] == e1[0]);
    assert(r[0] == e2[0]);
    if e1.len() >= 2 {
        assert(l[1] == e1[1]);
    }
    if e2.len() >= 2 {
        assert(r[1] == e2[1]);
    }
    if e1.len() == 1 {
        assert(e1[0] != '\\');
        assert(e2[0] != '\\');
        assert(e2.len() == 1);
        assert(c1 == c2);
    } else {
        assert(e1[0] == '\\');
        assert(e2[0] == '\\');
        assert(e2.len() >= 2);
        assert(e1[1] == e2[1]);
        if e1.len() == 2 {
            assert(e1[1] != 'u');
            assert(e2.len() == 2);
            assert(c1 == c2);
        } else {
            assert(e1[1] == 'u');
            assert(e2.len() == 6);
            assert(l[4] == e1[4]);
            assert(l[5] == e1[5]);
            assert(r[4] == e2[4]);
            assert(r[5] == e2[5]);
            let u1 = c1 as u32;
            let u2 = c2 as u32;
            assert(u1 < 0x20 && u2 < 0x20);
            assert(hex_lower(u1 as int / 16) == hex_lower(u2 as int / 16));
            assert(hex_lower(u1 as int % 16) == hex_lower(u2 as int % 16));
            assert(u1 as int / 16 == u2 as int / 16);
            assert(u1 as int % 16 == u2 as int % 16);
            assert(u1 == u2);
            assert(c1 == c2);
        }
    }
    assert(x =~= l.skip(e1.len() as int));
    assert(y =~= r.skip(e2.len() as int));
}

proof fn lemma_escaped_text_ends_at_its_quote(
    a: Seq<char>,
    b: Seq<char>,
    x: Seq<char>,
    y: Seq<char>,
)
    requires
        json_escape(a) + seq!['"'] + x == json_escape(b) + seq!['"'] + y,
    ensures
        a == b,
        x == y,
    decreases a.len(),
{
    let l = json_escape(a) + seq!['"'] + x;
    let r = json_escape(b) + seq!['"'] + y;
    if a.len() == 0 {
        assert(json_escape(a) =~= Seq::empty());
        assert(l =~= seq!['"'] + x);
        if b.len() == 0 {
            assert(json_escape(b) =~= Seq::empty());
            assert(r =~= seq!['"'] + y);
            assert(x =~= l.skip(1));
            assert(y =~= r.skip(1));
            assert(a =~= b);
        } else {
            lemma_escape_front(b);
            let rest = json_escape(b.drop_first()) + seq!['"'] + y;
            assert(r =~= json_escape_char(b[0]) + rest);
            lemma_code_is_no_quote(b[0], rest);
            assert(l[0] == '"');
        }
    } else {
        lemma_escape_front(a);
        let rest_a = json_escape(a.drop_first()) + seq!['"'] + x;
        assert(l =~= json_escape_char(a[0]) + rest_a);
        if b.len() == 0 {
            assert(json_escape(b) =~= Seq::empty());
            assert(r =~= seq!['"'] + y);
            lemma_code_is_no_quote(a[0], rest_a);
            assert(r[0] == '"');
        } else {
            lemma_escape_front(b);
            let rest_b = json_escape(b.drop_first()) + seq!['"'] + y;
            assert(r =~= json_escape_char(b[0]) + rest_b);
            lemma_code_is_unique(a[0], b[0], rest_a, rest_b);
            lemma_escaped_text_ends_at_its_quote(a.drop_first(), b.drop_first(), x, y);
            assert(a =~= seq![a[0]] + a.drop_first());
            assert(b =~= seq![b[0]] + b.drop_first());
        }
    }
}

/// A JSON string ends where it ends: if two texts start with the JSON
/// strings of `a` and of `b` and are the same text, then `a` is `b`, and what
/// follows the strings is the same too. No two texts have the same JSON
/// string, and a reader never has to guess where a string stops.
pub proof fn lemma_json_string_delimits(a: Seq<char>, b: Seq<char>, x: Seq<char>, y: Seq<char>)
    requires
        json_string(a) + x == json_string(b) + y,
    ensures
        a == b,
        x == y,
{
    let l = json_string(a) + x;
    let r = json_string(b) + y;
    assert(l.skip(1) =~= json_escape(a) + seq!['"'] + x);
    assert(r.skip(1) =~= json_escape(b) + seq!['"'] + y);
    lemma_escaped_text_ends_at_its_quote(a, b, x, y);
}

/// What follows the first member in the text of the members.
pub open spec fn after_first(ms: Seq<(Seq<char>, Seq<char>)>) -> Seq<char> {
    if ms.len() <= 1 {
        Seq::empty()
    } else {
        separator(Layout::Compact) + members_text(ms.drop_first(), Layout::Compact)
    }
}

proof fn lemma_members_front(ms: Seq<(Seq<char>, Seq<char>)>)
    requires
        ms.len() >= 1,
    ensures
        members_text(ms, Layout::Compact) == member_text(ms[0], Layout::Compact) + after_first(ms),
    decreases ms.len(),
{
    let layout = Layout::Compact;
    if ms.len() == 1 {
        assert(members_text(ms, layout) =~= member_text(ms[0], layout) + after_first(ms));
    } else if ms.len() == 2 {
        assert(ms.drop_last().len() == 1);
        assert(ms.drop_first().len() == 1);
        assert(ms.drop_last()[0] == ms[0]);
        assert(ms.drop_first()[0] == ms.last());
        assert(members_text(ms.drop_last(), layout) == member_text(ms[0], layout));
        assert(members_text(ms.drop_first(), layout) == member_text(ms.last(), layout));
        assert(members_text(ms, layout) =~= member_text(ms[0], layout) + after_first(ms));
    } else {
        lemma_members_front(ms.drop_last());
        assert(ms.drop_last()[0] == ms[0]);
        assert(ms.drop_last().drop_first() =~= ms.drop_first().drop_last());
        assert(ms.drop_first().last() == ms.last());
        assert(ms.drop_first().len() >= 2);
        assert(members_text(ms, layout) =~= member_text(ms[0], layout) + after_first(ms));
    }
}

/// Two lists of members that start with a string under the same key and
/// give the same text start with the same string, and what follows the first
/// member is the same text in both.
proof fn lemma_first_member_is_determined(
    ms1: Seq<(Seq<char>, Seq<char>)>,
    ms2: Seq<(Seq<char>, Seq<char>)>,
    t1: Seq<char>,
    t2: Seq<char>,
    key: Seq<char>,
    v1: Seq<char>,
    v2: Seq<char>,
)
    requires
        ms1.len() >= 1,
        ms2.len() >= 1,
        ms1[0] == (key, json_string(v1)),
        ms2[0] == (key, json_string(v2)),
        members_text(ms1, Layout::Compact) + t1 == members_text(ms2, Layout::Compact) + t2,
    ensures
        v1 == v2,
        after_first(ms1) + t1 == after_first(ms2) + t2,
{
    let layout = Layout::Compact;
    lemma_members_front(ms1);
    lemma_members_front(ms2);
    let head = json_string(key) + seq![':'];
    let l = members_text(ms1, layout) + t1;
    let r = members_text(ms2, layout) + t2;
    let x = after_first(ms1) + t1;
    let y = after_first(ms2) + t2;
    assert(l =~= head + (json_string(v1) + x));
    assert(r =~= head + (json_string(v2) + y));
    assert(json_string(v1) + x =~= l.skip(head.len() as int));
    assert(json_string(v2) + y =~= r.skip(head.len() as int));
    lemma_json_string_delimits(v1, v2, x, y);
}

/// The text of a quote determines its four required fields: two quotes
/// with the same JSON text have the same `quote`, `hash_alg`, `enc_alg` and
/// `sign_alg`. Whatever reads the text back as it was written therefore
/// finds these fields as they were.
pub proof fn lemma_quote_text_keeps_required_fields(q1: KeylimeQuoteView, q2: KeylimeQuoteView)
    requires
        quote_json(q1, Layout::Compact) == quote_json(q2, Layout::Compact),
    ensures
        q1.quote == q2.quote,
        q1.hash_alg == q2.hash_alg,
        q1.enc_alg == q2.enc_alg,
        q1.sign_alg == q2.sign_alg,
{
    let layout = Layout::Compact;
    let a = quote_members(q1, layout);
    let b = quote_members(q2, layout);
    assert(a.len() >= 4 && b.len() >= 4);
    assert(a[0] == ("quote"@, json_string(q1.quote)));
    assert(a[1] == ("hash_alg"@, json_string(q1.hash_alg)));
    assert(a[2] == ("enc_alg"@, json_string(q1.enc_alg)));
    assert(a[3] == ("sign_alg"@, json_string(q1.sign_alg)));
    assert(b[0] == ("quote"@, json_string(q2.quote)));
    assert(b[1] == ("hash_alg"@, json_string(q2.hash_alg)));
    assert(b[2] == ("enc_alg"@, json_string(q2.enc_alg)));
    assert(b[3] == ("sign_alg"@, json_string(q2.sign_alg)));
    let close = seq!['}'];
    let ta = quote_json(q1, layout);
    let tb = quote_json(q2, layout);
    assert(members_text(a, layout) + close =~= ta.skip(1));
    assert(members_text(b, layout) + close =~= tb.skip(1));

    lemma_first_member_is_determined(a, b, close, close, "quote"@, q1.quote, q2.quote);
    let a1 = a.drop_first();
    let b1 = b.drop_first();
    assert(members_text(a1, layout) + close =~= (after_first(a) + close).skip(1));
    assert(members_text(b1, layout) + close =~= (after_first(b) + close).skip(1));
    assert(a1[0] == a[1] && b1[0] == b[1]);

    lemma_first_member_is_determined(a1, b1, close, close, "hash_alg"@, q1.hash_alg, q2.hash_alg);
    let a2 = a1.drop_first();
    let b2 = b1.drop_first();
    assert(members_text(a2, layout) + close =~= (after_first(a1) + close).skip(1));
    assert(members_text(b2, layout) + close =~= (after_first(b1) + close).skip(1));
    assert(a2[0] == a[2] && b2[0] == b[2]);

    lemma_first_member_is_determined(a2, b2, close, close, "enc_alg"@, q1.enc_alg, q2.enc_alg);
    let a3 = a2.drop_first();
    let b3 = b2.drop_first();
    assert(members_text(a3, layout) + close =~= (after_first(a2) + close).skip(1));
    assert(members_text(b3, layout) + close =~= (after_first(b2) + close).skip(1));
    assert(a3[0] == a[3] && b3[0] == b[3]);

    lemma_first_member_is_determined(a3, b3, close, close, "sign_alg"@, q1.sign_alg, q2.sign_alg);
}

} // verus!
