//! The two live-event shapes and their wire frames.
//!
//! A frame is one JSON object per event. The serialization, escaping
//! included, is the library's own verified logic: `spec_topic_frame` and
//! `spec_reply_frame` state each frame exactly.

use vstd::prelude::*;

verus! {

/// A "new topic" event, broadcast once, process-wide.
#[derive(Clone)]
pub struct TopicData {
    id: String,
}

impl TopicData {
    pub closed spec fn spec_id(&self) -> Seq<char> {
        self.id@
    }

    pub fn new(id: String) -> (d: TopicData)
        ensures
            d.spec_id() == id@,
    {
        TopicData { id }
    }

    pub fn id(&self) -> (r: &str)
        ensures
            r@ == self.spec_id(),
    {
        self.id.as_str()
    }
}

/// A post event, published on its parent topic's channel: which post, what
/// happened to it, and whether the post is the topic itself or a reply.
#[derive(Clone)]
pub struct ReplyData {
    id: String,
    kind: String,
    class: String,
}

impl ReplyData {
    pub closed spec fn spec_id(&self) -> Seq<char> {
        self.id@
    }

    pub closed spec fn spec_kind(&self) -> Seq<char> {
        self.kind@
    }

    pub closed spec fn spec_class(&self) -> Seq<char> {
        self.class@
    }

    pub fn new(id: String, kind: &str, class: &str) -> (d: ReplyData)
        ensures
            d.spec_id() == id@,
            d.spec_kind() == kind@,
            d.spec_class() == class@,
    {
        ReplyData { id, kind: kind.to_owned(), class: class.to_owned() }
    }

    pub fn id(&self) -> (r: &str)
        ensures
            r@ == self.spec_id(),
    {
        self.id.as_str()
    }

    pub fn kind(&self) -> (r: &str)
        ensures
            r@ == self.spec_kind(),
    {
        self.kind.as_str()
    }

    pub fn class(&self) -> (r: &str)
        ensures
            r@ == self.spec_class(),
    {
        self.class.as_str()
    }
}

/// The lower-case hexadecimal digit of a value below sixteen.
pub open spec fn hex_digit(d: int) -> char {
    if d == 0 {
        '0'
    } else if d == 1 {
        '1'
    } else if d == 2 {
        '2'
    } else if d == 3 {
        '3'
    } else if d == 4 {
        '4'
    } else if d == 5 {
        '5'
    } else if d == 6 {
        '6'
    } else if d == 7 {
        '7'
    } else if d == 8 {
        '8'
    } else if d == 9 {
        '9'
    } else if d == 10 {
        'a'
    } else if d == 11 {
        'b'
    } else if d == 12 {
        'c'
    } else if d == 13 {
        'd'
    } else if d == 14 {
        'e'
    } else {
        'f'
    }
}

/// How one character reads inside a JSON string: quotes and backslashes are
/// escaped, control characters take their short escape or the \u00XX form,
/// and every other character stands as itself.
pub open spec fn esc_char(c: char) -> Seq<char> {
    if c == '"' {
        seq!['\\', '"']
    } else if c == '\\' {
        seq!['\\', '\\']
    } else if c == '\u{8}' {
        seq!['\\', 'b']
    } else if c == '\t' {
        seq!['\\', 't']
    } else if c == '\n' {
        seq!['\\', 'n']
    } else if c == '\u{c}' {
        seq!['\\', 'f']
    } else if c == '\r' {
        seq!['\\', 'r']
    } else if (c as u32) < 32 {
        seq!['\\', 'u', '0', '0', hex_digit((c as u32) as int / 16), hex_digit((c as u32) as int % 16)]
    } else {
        seq![c]
    }
}

/// A string's characters, each read as inside a JSON string.
pub open spec fn json_escaped(s: Seq<char>) -> Seq<char>
    decreases s.len(),
{
    if s.len() == 0 {
        Seq::empty()
    } else {
        json_escaped(s.drop_last()) + esc_char(s.last())
    }
}

/// Relies on std's `String::push`: appends exactly the one character.
#[verifier::external_body]
fn push_char(out: &mut String, c: char)
    ensures
        final(out)@ == old(out)@.push(c),
{
    out.push(c);
}

fn hex_digit_char(d: u32) -> (r: char)
    requires
        d < 16,
    ensures
        r == hex_digit(d as int),
{
    if d == 0 {
        '0'
    } else if d == 1 {
        '1'
    } else if d == 2 {
        '2'
    } else if d == 3 {
        '3'
    } else if d == 4 {
        '4'
    } else if d == 5 {
        '5'
    } else if d == 6 {
        '6'
    } else if d == 7 {
        '7'
    } else if d == 8 {
        '8'
    } else if d == 9 {
        '9'
    } else if d == 10 {
        'a'
    } else if d == 11 {
        'b'
    } else if d == 12 {
        'c'
    } else if d == 13 {
        'd'
    } else if d == 14 {
        'e'
    } else {
        'f'
    }
}

/// Appends `esc_char(c)` to `out`.
fn push_escaped(out: &mut String, c: char)
    ensures
        final(out)@ == old(out)@ + esc_char(c),
{
    if c == '"' {
        push_char(out, '\\');
        push_char(out, '"');
    } else if c == '\\' {
        push_char(out, '\\');
        push_char(out, '\\');
    } else if c == '\u{8}' {
        push_char(out, '\\');
        push_char(out, 'b');
    } else if c == '\t' {
        push_char(out, '\\');
        push_char(out, 't');
    } else if c == '\n' {
        push_char(out, '\\');
        push_char(out, 'n');
    } else if c == '\u{c}' {
        push_char(out, '\\');
        push_char(out, 'f');
    } else if c == '\r' {
        push_char(out, '\\');
        push_char(out, 'r');
    } else if (c as u32) < 32 {
        let v = c as u32;
        push_char(out, '\\');
        push_char(out, 'u');
        push_char(out, '0');
        push_char(out, '0');
        push_char(out, hex_digit_char(v / 16));
        push_char(out, hex_digit_char(v % 16));
    } else {
        push_char(out, c);
    }
    assert(final(out)@ =~= old(out)@ + esc_char(c));
}

/// Appends the JSON reading of `s` to `out`.
fn append_escaped(out: &mut String, s: &str)
    ensures
        final(out)@ == old(out)@ + json_escaped(s@),
{
    let n = s.unicode_len();
    let mut i: usize = 0;
    while i < n
        invariant
            n == s@.len(),
            i <= n,
            out@ == old(out)@ + json_escaped(s@.subrange(0, i as int)),
        decreases n - i,
    {
        let c = s.get_char(i);
        push_escaped(out, c);
        proof {
            let pre = s@.subrange(0, i as int);
            let cur = s@.subrange(0, i + 1 as int);
            assert(cur.drop_last() =~= pre);
            assert(cur.last() == s@[i as int]);
        }
        i = i + 1;
    }
    proof {
        assert(s@.subrange(0, n as int) =~= s@);
    }
}

/// The wire frame of a "new topic" event.
pub open spec fn spec_topic_frame(id: Seq<char>) -> Seq<char> {
    "{\"id\":\""@ + json_escaped(id) + "\"}"@
}

/// The wire frame of a post event.
pub open spec fn spec_reply_frame(id: Seq<char>, kind: Seq<char>, class: Seq<char>) -> Seq<char> {
    "{\"id\":\""@ + json_escaped(id) + "\",\"kind\":\""@ + json_escaped(kind) + "\",\"class\":\""@
        + json_escaped(class) + "\"}"@
}

/// Serializes a "new topic" event as its one-object JSON frame.
pub fn topic_frame(d: &TopicData) -> (r: String)
    ensures
        r@ == spec_topic_frame(d.spec_id()),
{
    let mut out = String::from_str("{\"id\":\"");
    append_escaped(&mut out, d.id());
    out.append("\"}");
    proof {
        assert(out@ =~= spec_topic_frame(d.spec_id()));
    }
    out
}

/// Serializes a post event as its one-object JSON frame.
pub fn reply_frame(d: &ReplyData) -> (r: String)
    ensures
        r@ == spec_reply_frame(d.spec_id(), d.spec_kind(), d.spec_class()),
{
    let mut out = String::from_str("{\"id\":\"");
    append_escaped(&mut out, d.id());
    out.append("\",\"kind\":\"");
    append_escaped(&mut out, d.kind());
    out.append("\",\"class\":\"");
    append_escaped(&mut out, d.class());
    out.append("\"}");
    proof {
        assert(out@ =~= spec_reply_frame(d.spec_id(), d.spec_kind(), d.spec_class()));
    }
    out
}

} // verus!
