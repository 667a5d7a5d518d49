//! JSON objects as text, compact or indented by two spaces a level.

use crate::codec::{json_string, push_json_string};
use crate::http::opt_view;
use crate::text::{push_chars, push_str, string_of};
use vstd::prelude::*;
use vstd::string::*;

verus! {

/// One member of an object: its key, and its value as JSON text.
pub struct Member {
    pub key: String,
    pub value: Vec<char>,
}

impl View for Member {
    type V = (Seq<char>, Seq<char>);

    open spec fn view(&self) -> (Seq<char>, Seq<char>) {
        (self.key@, self.value@)
    }
}

/// The views of the members of a vector.
pub open spec fn member_views(ms: Seq<Member>) -> Seq<(Seq<char>, Seq<char>)> {
    ms.map_values(|m: Member| m@)
}

/// How an object is laid out: on one line, or indented, standing at a depth.
pub enum Layout {
    Compact,
    Pretty(usize),
}

impl Layout {
    /// The layout of an object that is a member's value under this layout.
    pub fn nested(&self) -> (l: Layout)
        requires
            self matches Layout::Pretty(d) ==> d < usize::MAX,
        ensures
            l == self.nested_spec(),
    {
        match self {
            Layout::Compact => Layout::Compact,
            Layout::Pretty(d) => Layout::Pretty(*d + 1),
        }
    }

    pub open spec fn nested_spec(&self) -> Layout {
        match self {
            Layout::Compact => Layout::Compact,
            Layout::Pretty(d) => Layout::Pretty((d + 1) as usize),
        }
    }
}

/// Two spaces for each level.
pub open spec fn indent(depth: nat) -> Seq<char>
    decreases depth,
{
    if depth == 0 {
        Seq::empty()
    } else {
        indent((depth - 1) as nat) + seq![' ', ' ']
    }
}

/// A member inside an object that is laid out as `layout`.
pub open spec fn member_text(m: (Seq<char>, Seq<char>), layout: Layout) -> Seq<char> {
    match layout {
        Layout::Compact => json_string(m.0) + seq![':'] + m.1,
        Layout::Pretty(d) => indent((d + 1) as nat) + json_string(m.0) + seq![':', ' '] + m.1,
    }
}

/// What stands between two members.
pub open spec fn separator(layout: Layout) -> Seq<char> {
    match layout {
        Layout::Compact => seq![','],
        Layout::Pretty(_) => seq![',', '\n'],
    }
}

/// The members of an object one after the other, separated.
pub open spec fn members_text(ms: Seq<(Seq<char>, Seq<char>)>, layout: Layout) -> Seq<char>
    decreases ms.len(),
{
    if ms.len() == 0 {
        Seq::empty()
    } else if ms.len() == 1 {
        member_text(ms[0], layout)
    } else {
        members_text(ms.drop_last(), layout) + separator(layout) + member_text(ms.last(), layout)
    }
}

/// The text of the object with the members `ms`. An object without members
/// is `{}` under either layout.
pub open spec fn object_text(ms: Seq<(Seq<char>, Seq<char>)>, layout: Layout) -> Seq<char> {
    if ms.len() == 0 {
        seq!['{', '}']
    } else {
        match layout {
            Layout::Compact => seq!['{'] + members_text(ms, layout) + seq!['}'],
            Layout::Pretty(d) => seq!['{', '\n'] + members_text(ms, layout) + seq!['\n'] + indent(
                d as nat,
            ) + seq!['}'],
        }
    }
}

fn push_indent(out: &mut Vec<char>, depth: usize)
    ensures
        final(out)@ == old(out)@ + indent(depth as nat),
{
    let ghost before = out@;
    let mut i: usize = 0;
    while i < depth
        invariant
            i <= depth,
            out@ == before + indent(i as nat),
        decreases depth - i,
    {
        out.push(' ');
        out.push(' ');
        i += 1;
    }
}

fn push_member(out: &mut Vec<char>, m: &Member, layout: &Layout)
    requires
        layout matches Layout::Pretty(d) ==> d < usize::MAX,
    ensures
        final(out)@ == old(out)@ + member_text(m@, *layout),
{
    let ghost before = out@;
    match layout {
        Layout::Compact => {
            push_json_string(out, m.key.as_str());
            out.push(':');
        },
        Layout::Pretty(d) => {
            push_indent(out, *d + 1);
            push_json_string(out, m.key.as_str());
            out.push(':');
            out.push(' ');
        },
    }
    push_chars(out, m.value.as_slice());
    assert(out@ == before + member_text(m@, *layout));
}

/// Writes the object with the given members.
pub fn render_object(members: &Vec<Member>, layout: &Layout) -> (out: Vec<char>)
    requires
        layout matches Layout::Pretty(d) ==> d < usize::MAX,
    ensures
        out@ == object_text(member_views(members@), *layout),
{
    let mut out: Vec<char> = Vec::new();
    out.push('{');
    if members.len() == 0 {
        out.push('}');
        assert(out@ == seq!['{', '}']);
        return out;
    }
    let ghost head: Seq<char> = match layout {
        Layout::Compact => seq!['{'],
        Layout::Pretty(_) => seq!['{', '\n'],
    };
    match layout {
        Layout::Compact => {},
        Layout::Pretty(_) => {
            out.push('\n');
        },
    }
    assert(out@ == head);
    let ghost ms = member_views(members@);
    let mut i: usize = 0;
    while i < members.len()
        invariant
            i <= members.len(),
            ms == member_views(members@),
            layout matches Layout::Pretty(d) ==> d < usize::MAX,
            out@ == head + members_text(ms.take(i as int), *layout),
        decreases members.len() - i,
    {
        let ghost prev = ms.take(i as int);
        let ghost next = ms.take(i + 1);
        proof {
            assert(next.drop_last() == prev);
            assert(next.last() == members@[i as int]@);
        }
        if i > 0 {
            out.push(',');
            match layout {
                Layout::Compact => {},
                Layout::Pretty(_) => {
                    out.push('\n');
                },
            }
            assert(out@ == head + members_text(prev, *layout) + separator(*layout));
        }
        push_member(&mut out, &members[i], layout);
        proof {
            if i == 0 {
                assert(prev.len() == 0);
                assert(next.len() == 1);
                assert(members_text(next, *layout) == member_text(next[0], *layout));
            }
            assert(out@ == head + members_text(next, *layout));
        }
        i += 1;
    }
    assert(ms.take(members.len() as int) == ms);
    match layout {
        Layout::Compact => {
            out.push('}');
        },
        Layout::Pretty(d) => {
            out.push('\n');
            push_indent(&mut out, *d);
            out.push('}');
        },
    }
    assert(out@ == object_text(ms, *layout));
    out
}

/// The member for an optional string: none where the string is absent.
pub open spec fn optional_member(key: Seq<char>, value: Option<Seq<char>>) -> Seq<
    (Seq<char>, Seq<char>),
> {
    match value {
        Some(s) => seq![(key, json_string(s))],
        None => Seq::empty(),
    }
}

/// Adds a member at the end.
pub fn append(ms: &mut Vec<Member>, m: Member)
    ensures
        member_views(final(ms)@) == member_views(old(ms)@).push(m@),
{
    ms.push(m);
    assert(member_views(ms@) =~= member_views(old(ms)@).push(m@));
}

/// Adds the member for an optional string at the end.
pub fn append_optional(ms: &mut Vec<Member>, key: &str, value: &Option<String>)
    ensures
        member_views(final(ms)@) == member_views(old(ms)@) + optional_member(
            key@,
            opt_view(*value),
        ),
{
    match value {
        Some(s) => {
            append(ms, string_member(key, s.as_str()));
        },
        None => {},
    }
    assert(member_views(ms@) =~= member_views(old(ms)@) + optional_member(key@, opt_view(*value)));
}

/// A member whose value is the JSON string that holds `value`.
pub fn string_member(key: &str, value: &str) -> (m: Member)
    ensures
        m@ == (key@, json_string(value@)),
{
    let mut v: Vec<char> = Vec::new();
    push_json_string(&mut v, value);
    Member { key: String::from_str(key), value: v }
}

/// A member whose value is the given JSON text.
pub fn raw_member(key: &str, value: Vec<char>) -> (m: Member)
    ensures
        m@ == (key@, value@),
{
    Member { key: String::from_str(key), value }
}

/// A member whose value is the text `value`, taken as JSON as it stands.
pub fn text_member(key: &str, value: &str) -> (m: Member)
    ensures
        m@ == (key@, value@),
{
    let mut v: Vec<char> = Vec::new();
    push_str(&mut v, value);
    Member { key: String::from_str(key), value: v }
}

/// The string made of the characters of `text`.
pub fn finish(text: Vec<char>) -> (s: String)
    ensures
        s@ == text@,
{
    string_of(text.as_slice())
}

} // verus!
