//! The response formatter: renders a result set into one bounded display
//! string and wraps it in a reply envelope.
//!
//! Two envelopes exist: the probe acknowledgment, echoing the probe
//! discriminator, and the content envelope carrying the display string with
//! mention suppression and no rich attachments. Both are JSON text built
//! here, character by character, with a proved escape function.

use crate::index::entries_view;
use crate::index::Entry;
use crate::index::EntryView;
use vstd::prelude::*;
use vstd::string::StringExecFns;
use vstd::string::StrSliceExecFns;

verus! {

/// The decimal digit character for a value below ten.
pub open spec fn dec_digit(d: nat) -> char
    recommends
        d < 10,
{
    ((48 + d) as u8) as char
}

/// The decimal numeral of `n`, most significant digit first.
pub open spec fn dec_str(n: nat) -> Seq<char>
    decreases n,
{
    if n < 10 {
        seq![dec_digit(n)]
    } else {
        dec_str(n / 10).push(dec_digit(n % 10))
    }
}

/// The lower-case hexadecimal digit character for a value below sixteen.
pub open spec fn hex_char(d: nat) -> char
    recommends
        d < 16,
{
    if d < 10 {
        ((48 + d) as u8) as char
    } else {
        ((87 + d) as u8) as char
    }
}

/// How one character appears inside a JSON string literal: quote and
/// backslash escaped, control characters as `\u00XX`, all else verbatim.
pub open spec fn json_escaped_char(c: char) -> Seq<char> {
    if c == '"' {
        seq!['\\', '"']
    } else if c == '\\' {
        seq!['\\', '\\']
    } else if (c as int) < 32 {
        seq!['\\', 'u', '0', '0', hex_char(((c as int) / 16) as nat), hex_char(
            ((c as int) % 16) as nat,
        )]
    } else {
        seq![c]
    }
}

/// The body of the JSON string literal denoting `s`.
pub open spec fn json_escaped(s: Seq<char>) -> Seq<char>
    decreases s.len(),
{
    if s.len() == 0 {
        Seq::empty()
    } else {
        json_escaped_char(s[0]) + json_escaped(s.drop_first())
    }
}

/// The JSON string literal denoting `s`, quotes included.
pub open spec fn json_string_literal(s: Seq<char>) -> Seq<char> {
    seq!['"'] + json_escaped(s) + seq!['"']
}

proof fn lemma_json_escaped_push(s: Seq<char>, c: char)
    ensures
        json_escaped(s.push(c)) == json_escaped(s) + json_escaped_char(c),
    decreases s.len(),
{
    if s.len() == 0 {
        assert(s.push(c)[0] == c);
        assert(s.push(c).drop_first() =~= Seq::<char>::empty());
        assert(json_escaped(s.push(c)) == json_escaped_char(c) + json_escaped(
            Seq::<char>::empty(),
        ));
        assert(json_escaped(s.push(c)) =~= json_escaped(s) + json_escaped_char(c));
    } else {
        assert(s.push(c)[0] == s[0]);
        assert(s.push(c).drop_first() =~= s.drop_first().push(c));
        lemma_json_escaped_push(s.drop_first(), c);
        assert(json_escaped(s.push(c)) == json_escaped_char(s[0]) + (json_escaped(s.drop_first())
            + json_escaped_char(c)));
        assert(json_escaped(s.push(c)) =~= json_escaped(s) + json_escaped_char(c));
    }
}

/// Relies on std `String::push`: appends one character.
#[verifier::external_body]
fn push_char(s: &mut String, c: char)
    ensures
        final (s)@ == old(s)@.push(c),
{
    s.push(c);
}

/// The lower-case hexadecimal digit character of a value below sixteen.
fn hex_char_of(d: u8) -> (c: char)
    requires
        d < 16,
    ensures
        c == hex_char(d as nat),
{
    if d < 10 {
        (48 + d) as char
    } else {
        (87 + d) as char
    }
}

/// Appends one character of content in its JSON-escaped form.
fn append_escaped_char(out: &mut String, c: char)
    ensures
        final (out)@ == old(out)@ + json_escaped_char(c),
{
    if c == '"' {
        push_char(out, '\\');
        push_char(out, '"');
    } else if c == '\\' {
        push_char(out, '\\');
        push_char(out, '\\');
    } else if (c as u32) < 32 {
        let v = c as u32;
        push_char(out, '\\');
        push_char(out, 'u');
        push_char(out, '0');
        push_char(out, '0');
        let hi = hex_char_of((v / 16) as u8);
        push_char(out, hi);
        let lo = hex_char_of((v % 16) as u8);
        push_char(out, lo);
    } else {
        push_char(out, c);
    }
    proof {
        assert(out@ =~= old(out)@ + json_escaped_char(c));
    }
}

/// Escapes content for inclusion in a JSON string literal.
pub fn escape_json(s: &str) -> (r: String)
    ensures
        r@ == json_escaped(s@),
{
    let n = s.unicode_len();
    let mut out = String::new();
    let mut i: usize = 0;
    while i < n
        invariant
            n == s@.len(),
            i <= n,
            out@ == json_escaped(s@.take(i as int)),
        decreases n - i,
    {
        let c = s.get_char(i);
        append_escaped_char(&mut out, c);
        proof {
            lemma_json_escaped_push(s@.take(i as int), c);
            assert(s@.take(i + 1 as int) =~= s@.take(i as int).push(c));
        }
        i = i + 1;
    }
    proof {
        assert(s@.take(n as int) =~= s@);
    }
    out
}

/// Renders a value as its decimal numeral.
pub fn u64_to_string(n: u64) -> (r: String)
    ensures
        r@ == dec_str(n as nat),
    decreases n,
{
    if n < 10 {
        let mut s = String::new();
        push_char(&mut s, (48 + n as u8) as char);
        proof {
            assert(s@ =~= seq![dec_digit(n as nat)]);
        }
        s
    } else {
        let mut s = u64_to_string(n / 10);
        push_char(&mut s, (48 + (n % 10) as u8) as char);
        s
    }
}

/// The display string for a result set: a fixed message for no results,
/// `title - locator` for one, both joined by ` & ` for two, and for three
/// or more the first result followed by the total count (the whole count,
/// not the remainder).
pub open spec fn format_view(rs: Seq<EntryView>) -> Seq<char> {
    if rs.len() == 0 {
        "no videos found"@
    } else if rs.len() == 1 {
        rs[0].title + " - "@ + rs[0].locator
    } else if rs.len() == 2 {
        rs[0].title + " - "@ + rs[0].locator + " & "@ + rs[1].title + " - "@ + rs[1].locator
    } else {
        rs[0].title + " - "@ + rs[0].locator + " & "@ + dec_str(rs.len()) + " other videos found"@
    }
}

/// Renders a result set into its display string.
pub fn format_results(rs: &Vec<Entry>) -> (r: String)
    ensures
        r@ == format_view(entries_view(rs@)),
{
    if rs.len() == 0 {
        String::from_str("no videos found")
    } else if rs.len() == 1 {
        let e = &rs[0];
        let mut s = e.title.clone();
        s.append(" - ");
        s.append(e.locator.as_str());
        proof {
            assert(s@ =~= format_view(entries_view(rs@)));
        }
        s
    } else if rs.len() == 2 {
        let e0 = &rs[0];
        let e1 = &rs[1];
        let mut s = e0.title.clone();
        s.append(" - ");
        s.append(e0.locator.as_str());
        s.append(" & ");
        s.append(e1.title.as_str());
        s.append(" - ");
        s.append(e1.locator.as_str());
        proof {
            assert(s@ =~= format_view(entries_view(rs@)));
        }
        s
    } else {
        let e0 = &rs[0];
        let mut s = e0.title.clone();
        s.append(" - ");
        s.append(e0.locator.as_str());
        s.append(" & ");
        let count = u64_to_string(rs.len() as u64);
        s.append(count.as_str());
        s.append(" other videos found");
        proof {
            assert(s@ =~= format_view(entries_view(rs@)));
        }
        s
    }
}

/// One reply: the HTTP status, the content type, and the JSON body text.
#[derive(Debug)]
pub struct Reply {
    pub status: u16,
    pub content_type: String,
    pub body: String,
}

/// The mathematical image of a `Reply`.
pub ghost struct ReplyView {
    pub status: int,
    pub content_type: Seq<char>,
    pub body: Seq<char>,
}

impl View for Reply {
    type V = ReplyView;

    open spec fn view(&self) -> ReplyView {
        ReplyView {
            status: self.status as int,
            content_type: self.content_type@,
            body: self.body@,
        }
    }
}

/// The probe acknowledgment envelope: status 200, JSON, echoing the probe
/// discriminator.
pub open spec fn ping_reply_view() -> ReplyView {
    ReplyView { status: 200, content_type: "application/json"@, body: "{\"type\":1}"@ }
}

/// The content envelope around a display string: status 200, JSON, with
/// mention suppression and no rich attachments.
pub open spec fn message_reply_view(content: Seq<char>) -> ReplyView {
    ReplyView {
        status: 200,
        content_type: "application/json"@,
        body: "{\"type\":4,\"data\":{\"tts\":false,\"content\":"@ + json_string_literal(content)
            + ",\"embeds\":[],\"allow_mentions\":{\"parse\":[]}}}"@,
    }
}

/// Builds the probe acknowledgment.
pub fn ping_reply() -> (r: Reply)
    ensures
        r@ == ping_reply_view(),
{
    Reply {
        status: 200,
        content_type: String::from_str("application/json"),
        body: String::from_str("{\"type\":1}"),
    }
}

/// Builds the content envelope around a display string.
pub fn message_reply(content: &str) -> (r: Reply)
    ensures
        r@ == message_reply_view(content@),
{
    let mut b = String::from_str("{\"type\":4,\"data\":{\"tts\":false,\"content\":");
    push_char(&mut b, '"');
    let escaped = escape_json(content);
    b.append(escaped.as_str());
    push_char(&mut b, '"');
    b.append(",\"embeds\":[],\"allow_mentions\":{\"parse\":[]}}}");
    proof {
        assert(b@ =~= message_reply_view(content@).body);
    }
    Reply { status: 200, content_type: String::from_str("application/json"), body: b }
}

} // verus!
