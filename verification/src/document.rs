//! A note as a document: its lines, the title on its first line, and the body below.

use crate::text::{join, joined, text_of, texts, to_chars};
use vstd::prelude::*;

verus! {

/// The characters that count as white space: those with the Unicode property White_Space.
pub open spec fn is_space(c: char) -> bool {
    let n = c as u32;
    ||| 0x9 <= n <= 0xd
    ||| n == 0x20
    ||| n == 0x85
    ||| n == 0xa0
    ||| n == 0x1680
    ||| 0x2000 <= n <= 0x200a
    ||| n == 0x2028
    ||| n == 0x2029
    ||| n == 0x202f
    ||| n == 0x205f
    ||| n == 0x3000
}

/// The index of the first line feed in `s`, or the length of `s` if it has none.
pub open spec fn line_end(s: Seq<char>) -> int
    decreases s.len(),
{
    if s.len() == 0 || s[0] == '\n' {
        0
    } else {
        1 + line_end(s.drop_first())
    }
}

/// The first line of `s`, without its line ending: a line feed, or a carriage return and
/// a line feed. A carriage return that no line feed follows belongs to the line.
pub open spec fn first_line(s: Seq<char>) -> Seq<char> {
    let e = line_end(s);
    if 0 < e < s.len() && s[e - 1] == '\r' {
        s.take(e - 1)
    } else {
        s.take(e)
    }
}

/// What follows the first line of `s` and its line ending.
pub open spec fn after_first_line(s: Seq<char>) -> Seq<char> {
    let e = line_end(s);
    if 0 <= e < s.len() {
        s.skip(e + 1)
    } else {
        Seq::empty()
    }
}

/// The lines of `s`. An empty text has no lines, and a line ending at the very end of
/// the text starts no further line.
pub open spec fn lines(s: Seq<char>) -> Seq<Seq<char>>
    decreases s.len(),
{
    if s.len() == 0 {
        Seq::empty()
    } else {
        seq![first_line(s)] + lines(after_first_line(s))
    }
}

/// `s` without the `#` characters that it starts with.
pub open spec fn without_hashes(s: Seq<char>) -> Seq<char>
    decreases s.len(),
{
    if s.len() > 0 && s[0] == '#' {
        without_hashes(s.drop_first())
    } else {
        s
    }
}

/// `s` without the white space that it starts with.
pub open spec fn trim_start(s: Seq<char>) -> Seq<char>
    decreases s.len(),
{
    if s.len() > 0 && is_space(s[0]) {
        trim_start(s.drop_first())
    } else {
        s
    }
}

/// `s` without the white space that it ends with.
pub open spec fn trim_end(s: Seq<char>) -> Seq<char>
    decreases s.len(),
{
    if s.len() > 0 && is_space(s.last()) {
        trim_end(s.drop_last())
    } else {
        s
    }
}

/// `s` without the white space around it.
pub open spec fn trimmed(s: Seq<char>) -> Seq<char> {
    trim_end(trim_start(s))
}

/// The title that stands in for an empty document.
pub open spec fn fallback_title() -> Seq<char> {
    "Glint"@
}

/// The title of a document: its first line without leading `#` characters and without
/// the white space then left around it; the fallback title if the document is empty.
pub open spec fn title_of(doc: Seq<char>) -> Seq<char> {
    if doc.len() == 0 {
        fallback_title()
    } else {
        trimmed(without_hashes(first_line(doc)))
    }
}

/// The body of a document: the lines after the first, joined by line feeds.
pub open spec fn body_of(doc: Seq<char>) -> Seq<char> {
    joined(lines(after_first_line(doc)), seq!['\n'])
}

/// `line_end` is where the first line feed stands.
pub proof fn lemma_line_end(s: Seq<char>, e: int)
    requires
        0 <= e <= s.len(),
        forall|j: int| 0 <= j < e ==> s[j] != '\n',
        e < s.len() ==> s[e] == '\n',
    ensures
        line_end(s) == e,
    decreases s.len(),
{
    if e > 0 {
        let rest = s.drop_first();
        assert forall|j: int| 0 <= j < e - 1 implies rest[j] != '\n' by {
            assert(rest[j] == s[j + 1]);
        }
        lemma_line_end(rest, e - 1);
    }
}

fn is_space_char(c: char) -> (b: bool)
    ensures
        b == is_space(c),
{
    let n: u32 = c as u32;
    (0x9 <= n && n <= 0xd) || n == 0x20 || n == 0x85 || n == 0xa0 || n == 0x1680 || (0x2000 <= n
        && n <= 0x200a) || n == 0x2028 || n == 0x2029 || n == 0x202f || n == 0x205f || n
        == 0x3000
}

/// The index of the first line feed at or after `from`, or the length of `chars`.
fn find_line_end(chars: &Vec<char>, from: usize) -> (e: usize)
    requires
        from <= chars.len(),
    ensures
        from <= e <= chars.len(),
        e - from == line_end(chars@.skip(from as int)),
{
    let mut e: usize = from;
    while e < chars.len() && chars[e] != '\n'
        invariant
            from <= e <= chars.len(),
            forall|j: int| from <= j < e ==> chars[j] != '\n',
        decreases chars.len() - e,
    {
        e += 1;
    }
    proof {
        lemma_line_end(chars@.skip(from as int), e - from);
    }
    e
}

/// Where the content of the line `chars[from..e]` stops, `e` being the line's end as
/// `find_line_end` gives it: before a carriage return that the line feed follows.
fn content_end(chars: &Vec<char>, from: usize, e: usize) -> (stop: usize)
    requires
        from <= e <= chars.len(),
        e - from == line_end(chars@.skip(from as int)),
    ensures
        from <= stop <= e,
        chars@.subrange(from as int, stop as int) == first_line(chars@.skip(from as int)),
{
    if from < e && e < chars.len() && chars[e - 1] == '\r' {
        e - 1
    } else {
        e
    }
}

/// Where the text after the line that ends at `e` starts.
fn next_line_start(chars: &Vec<char>, from: usize, e: usize) -> (next: usize)
    requires
        from <= e <= chars.len(),
        e - from == line_end(chars@.skip(from as int)),
    ensures
        e <= next <= chars.len(),
        from < chars.len() ==> from < next,
        chars@.skip(next as int) == after_first_line(chars@.skip(from as int)),
{
    if e < chars.len() {
        assert(chars@.skip(from as int).skip(e - from + 1) == chars@.skip(e + 1));
        e + 1
    } else {
        e
    }
}

/// The lines of `chars[from..]`.
fn lines_from(chars: &Vec<char>, from: usize) -> (out: Vec<String>)
    requires
        from <= chars.len(),
    ensures
        texts(out@) == lines(chars@.skip(from as int)),
{
    let mut out: Vec<String> = Vec::new();
    let mut start: usize = from;
    while start < chars.len()
        invariant
            from <= start <= chars.len(),
            lines(chars@.skip(from as int)) == texts(out@) + lines(chars@.skip(start as int)),
        decreases chars.len() - start,
    {
        let e = find_line_end(chars, start);
        let stop = content_end(chars, start, e);
        let next = next_line_start(chars, start, e);
        let line = text_of(chars, start, stop);
        proof {
            let here = chars@.skip(start as int);
            assert(here.len() > 0);
            assert(lines(here) == seq![first_line(here)] + lines(after_first_line(here)));
            assert(texts(out@.push(line)) == texts(out@) + seq![line@]);
        }
        out.push(line);
        start = next;
    }
    assert(lines(chars@.skip(start as int)) == Seq::<Seq<char>>::empty());
    out
}

/// Splits `text` into its lines.
pub fn split_lines(text: &str) -> (out: Vec<String>)
    ensures
        texts(out@) == lines(text@),
{
    let chars = to_chars(text);
    assert(chars@.skip(0) == chars@);
    lines_from(&chars, 0)
}

/// The first index at or after `from` where `chars[..to]` holds no `#`.
fn skip_hashes(chars: &Vec<char>, from: usize, to: usize) -> (a: usize)
    requires
        from <= to <= chars.len(),
    ensures
        from <= a <= to,
        without_hashes(chars@.subrange(from as int, to as int)) == chars@.subrange(
            a as int,
            to as int,
        ),
{
    let mut a: usize = from;
    while a < to && chars[a] == '#'
        invariant
            from <= a <= to <= chars.len(),
            without_hashes(chars@.subrange(from as int, to as int)) == without_hashes(
                chars@.subrange(a as int, to as int),
            ),
        decreases to - a,
    {
        assert(chars@.subrange(a as int, to as int).drop_first() == chars@.subrange(
            a + 1,
            to as int,
        ));
        a += 1;
    }
    a
}

/// The first index at or after `from` where `chars[..to]` holds no white space.
fn skip_spaces(chars: &Vec<char>, from: usize, to: usize) -> (a: usize)
    requires
        from <= to <= chars.len(),
    ensures
        from <= a <= to,
        trim_start(chars@.subrange(from as int, to as int)) == chars@.subrange(a as int, to as int),
{
    let mut a: usize = from;
    while a < to && is_space_char(chars[a])
        invariant
            from <= a <= to <= chars.len(),
            trim_start(chars@.subrange(from as int, to as int)) == trim_start(
                chars@.subrange(a as int, to as int),
            ),
        decreases to - a,
    {
        assert(chars@.subrange(a as int, to as int).drop_first() == chars@.subrange(
            a + 1,
            to as int,
        ));
        a += 1;
    }
    a
}

/// The end of `chars[from..to]` once the white space at its end is dropped.
fn drop_trailing_spaces(chars: &Vec<char>, from: usize, to: usize) -> (b: usize)
    requires
        from <= to <= chars.len(),
    ensures
        from <= b <= to,
        trim_end(chars@.subrange(from as int, to as int)) == chars@.subrange(from as int, b as int),
{
    let mut b: usize = to;
    while from < b && is_space_char(chars[b - 1])
        invariant
            from <= b <= to <= chars.len(),
            trim_end(chars@.subrange(from as int, to as int)) == trim_end(
                chars@.subrange(from as int, b as int),
            ),
        decreases b - from,
    {
        assert(chars@.subrange(from as int, b as int).drop_last() == chars@.subrange(
            from as int,
            b - 1,
        ));
        b -= 1;
    }
    b
}

/// Splits a document into its title and its body.
pub fn split_title(doc: &str) -> (parts: (String, String))
    ensures
        parts.0@ == title_of(doc@),
        parts.1@ == body_of(doc@),
{
    let chars = to_chars(doc);
    if chars.len() == 0 {
        assert(lines(Seq::<char>::empty()) == Seq::<Seq<char>>::empty());
        return ("Glint".to_owned(), String::new());
    }
    assert(chars@.skip(0) == chars@);
    let e = find_line_end(&chars, 0);
    let stop = content_end(&chars, 0, e);
    let next = next_line_start(&chars, 0, e);
    let a = skip_hashes(&chars, 0, stop);
    let b = skip_spaces(&chars, a, stop);
    let c = drop_trailing_spaces(&chars, b, stop);
    let title = text_of(&chars, b, c);
    let rest = lines_from(&chars, next);
    let body = join(&rest, "\n");
    proof {
        reveal_strlit("\n");
        assert("\n"@ == seq!['\n']);
    }
    (title, body)
}

} // verus!
