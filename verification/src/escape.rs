//! Escaping of text for element bodies and for double-quoted attribute values.

use vstd::prelude::*;

verus! {

/// What one character of an element body becomes when it is escaped.
pub open spec fn escape_text_char(c: char) -> Seq<char> {
    if c == '&' {
        seq!['&', 'a', 'm', 'p', ';']
    } else if c == '<' {
        seq!['&', 'l', 't', ';']
    } else if c == '>' {
        seq!['&', 'g', 't', ';']
    } else {
        seq![c]
    }
}

/// What one character of a double-quoted attribute value becomes when it is escaped.
pub open spec fn escape_attr_char(c: char) -> Seq<char> {
    if c == '"' {
        seq!['&', 'q', 'u', 'o', 't', ';']
    } else {
        escape_text_char(c)
    }
}

/// The escaped form of text that stands in an element body.
pub open spec fn escape_text(s: Seq<char>) -> Seq<char>
    decreases s.len(),
{
    if s.len() == 0 {
        Seq::empty()
    } else {
        escape_text_char(s[0]) + escape_text(s.drop_first())
    }
}

/// The escaped form of text that stands in a double-quoted attribute value.
pub open spec fn escape_attr(s: Seq<char>) -> Seq<char>
    decreases s.len(),
{
    if s.len() == 0 {
        Seq::empty()
    } else {
        escape_attr_char(s[0]) + escape_attr(s.drop_first())
    }
}

/// Whether `s` begins with `prefix`.
pub open spec fn starts_with(s: Seq<char>, prefix: Seq<char>) -> bool {
    prefix.len() <= s.len() && s.subrange(0, prefix.len() as int) == prefix
}

/// The text that a reader of markup recovers from `s`: each of the four
/// character references `&amp;`, `&lt;`, `&gt;` and `&quot;` stands for its
/// character, every other character for itself.
pub open spec fn unescape(s: Seq<char>) -> Seq<char>
    decreases s.len(),
{
    if s.len() == 0 {
        Seq::empty()
    } else if starts_with(s, seq!['&', 'a', 'm', 'p', ';']) {
        seq!['&'] + unescape(s.subrange(5, s.len() as int))
    } else if starts_with(s, seq!['&', 'l', 't', ';']) {
        seq!['<'] + unescape(s.subrange(4, s.len() as int))
    } else if starts_with(s, seq!['&', 'g', 't', ';']) {
        seq!['>'] + unescape(s.subrange(4, s.len() as int))
    } else if starts_with(s, seq!['&', 'q', 'u', 'o', 't', ';']) {
        seq!['"'] + unescape(s.subrange(6, s.len() as int))
    } else {
        seq![s[0]] + unescape(s.drop_first())
    }
}

/// The four character references that are read back.
spec fn amp() -> Seq<char> {
    seq!['&', 'a', 'm', 'p', ';']
}

spec fn lt() -> Seq<char> {
    seq!['&', 'l', 't', ';']
}

spec fn gt() -> Seq<char> {
    seq!['&', 'g', 't', ';']
}

spec fn quot() -> Seq<char> {
    seq!['&', 'q', 'u', 'o', 't', ';']
}

/// A text does not begin with a reference from which it differs in the
/// character at `at`.
proof fn lemma_differs_at(s: Seq<char>, reference: Seq<char>, at: int)
    requires
        0 <= at < reference.len(),
        at < s.len(),
        s[at] != reference[at],
    ensures
        !starts_with(s, reference),
{
    if starts_with(s, reference) {
        assert(s.subrange(0, reference.len() as int)[at] == reference[at]);
    }
}

/// A text begins with the reference that was put before it.
proof fn lemma_begins_with(reference: Seq<char>, rest: Seq<char>)
    ensures
        starts_with(reference + rest, reference),
        (reference + rest).subrange(reference.len() as int, (reference + rest).len() as int)
            == rest,
{
    let s = reference + rest;
    assert(s.subrange(0, reference.len() as int) =~= reference);
    assert(s.subrange(reference.len() as int, s.len() as int) =~= rest);
}

/// Reading back what one escaped character and a text behind it stand for
/// gives the character and what the text stands for.
proof fn lemma_unescape_step(c: char, rest: Seq<char>)
    ensures
        unescape(escape_attr_char(c) + rest) == seq![c] + unescape(rest),
        unescape(escape_text_char(c) + rest) == seq![c] + unescape(rest),
{
    let a = escape_attr_char(c) + rest;
    let t = escape_text_char(c) + rest;
    lemma_begins_with(escape_attr_char(c), rest);
    lemma_begins_with(escape_text_char(c), rest);
    if c == '&' {
    } else if c == '<' {
        lemma_differs_at(a, amp(), 1);
    } else if c == '>' {
        lemma_differs_at(a, amp(), 1);
        lemma_differs_at(a, lt(), 1);
    } else if c == '"' {
        lemma_differs_at(a, amp(), 1);
        lemma_differs_at(a, lt(), 1);
        lemma_differs_at(a, gt(), 1);
        lemma_differs_at(t, amp(), 0);
        lemma_differs_at(t, lt(), 0);
        lemma_differs_at(t, gt(), 0);
        lemma_differs_at(t, quot(), 0);
        assert(t.drop_first() =~= rest);
    } else {
        lemma_differs_at(a, amp(), 0);
        lemma_differs_at(a, lt(), 0);
        lemma_differs_at(a, gt(), 0);
        lemma_differs_at(a, quot(), 0);
        assert(a.drop_first() =~= rest);
    }
}

/// Escaping text for an element body and reading the character references
/// back yields the text again, whatever it holds.
pub proof fn lemma_unescape_escape_text(s: Seq<char>)
    ensures
        unescape(escape_text(s)) == s,
    decreases s.len(),
{
    if s.len() > 0 {
        lemma_unescape_escape_text(s.drop_first());
        lemma_unescape_step(s[0], escape_text(s.drop_first()));
        assert(seq![s[0]] + s.drop_first() =~= s);
    }
}

/// Escaping text for a double-quoted attribute value and reading the
/// character references back yields the text again, whatever it holds.
pub proof fn lemma_unescape_escape_attr(s: Seq<char>)
    ensures
        unescape(escape_attr(s)) == s,
    decreases s.len(),
{
    if s.len() > 0 {
        lemma_unescape_escape_attr(s.drop_first());
        lemma_unescape_step(s[0], escape_attr(s.drop_first()));
        assert(seq![s[0]] + s.drop_first() =~= s);
    }
}

/// Calls `html_escape::encode_text_to_string`, which appends `text` to `out`
/// with `&`, `<` and `>` replaced by `&amp;`, `&lt;` and `&gt;` and every
/// other character copied as it is.
#[verifier::external_body]
pub(crate) fn encode_text_onto(text: &str, out: &mut String)
    ensures
        final(out)@ == old(out)@ + escape_text(text@),
{
    html_escape::encode_text_to_string(text, out);
}

/// Calls `html_escape::encode_double_quoted_attribute_to_string`, which
/// appends `text` to `out` with `&`, `<`, `>` and `"` replaced by `&amp;`,
/// `&lt;`, `&gt;` and `&quot;` and every other character copied as it is.
#[verifier::external_body]
pub(crate) fn encode_double_quoted_attribute_onto(text: &str, out: &mut String)
    ensures
        final(out)@ == old(out)@ + escape_attr(text@),
{
    html_escape::encode_double_quoted_attribute_to_string(text, out);
}

/// The escaped form of `text` for an element body.
pub fn escape_for_text(text: &str) -> (out: String)
    ensures
        out@ == escape_text(text@),
{
    let mut out = String::new();
    encode_text_onto(text, &mut out);
    out
}

/// The escaped form of `text` for a double-quoted attribute value.
pub fn escape_for_double_quoted_attribute(text: &str) -> (out: String)
    ensures
        out@ == escape_attr(text@),
{
    let mut out = String::new();
    encode_double_quoted_attribute_onto(text, &mut out);
    out
}

} // verus!
