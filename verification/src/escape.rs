//! Escaping of plain text for the display layer's inline markup.
//!
//! The five characters that the markup reserves are written as named references, and
//! control characters other than tab, line feed, carriage return and next line as
//! hexadecimal character references; every other character stands for itself.

use vstd::prelude::*;

verus! {

/// The control characters that are written as character references: U+0001 to U+001F
/// without tab, line feed and carriage return, and U+007F to U+009F without U+0085.
pub open spec fn is_escaped_control(c: char) -> bool {
    let n = c as u32;
    ||| 0x1 <= n <= 0x8
    ||| 0xb <= n <= 0xc
    ||| 0xe <= n <= 0x1f
    ||| 0x7f <= n <= 0x84
    ||| 0x86 <= n <= 0x9f
}

/// The characters that may not stand for themselves in markup text.
pub open spec fn is_reserved(c: char) -> bool {
    c == '&' || c == '<' || c == '>' || c == '\'' || c == '"'
}

/// The lower-case hexadecimal digit that stands for `d`, for `d` below sixteen.
pub open spec fn hex_digit(d: nat) -> char {
    if d < 10 {
        ((d + 48) as u8) as char
    } else {
        ((d + 87) as u8) as char
    }
}

/// `n` in lower-case hexadecimal, without leading zeros.
pub open spec fn hex(n: nat) -> Seq<char>
    decreases n,
{
    if n < 16 {
        seq![hex_digit(n)]
    } else {
        hex(n / 16).push(hex_digit(n % 16))
    }
}

/// What one character of plain text becomes in markup.
pub open spec fn escaped_char(c: char) -> Seq<char> {
    if c == '&' {
        seq!['&', 'a', 'm', 'p', ';']
    } else if c == '<' {
        seq!['&', 'l', 't', ';']
    } else if c == '>' {
        seq!['&', 'g', 't', ';']
    } else if c == '\'' {
        seq!['&', 'a', 'p', 'o', 's', ';']
    } else if c == '"' {
        seq!['&', 'q', 'u', 'o', 't', ';']
    } else if is_escaped_control(c) {
        seq!['&', '#', 'x'] + hex(c as nat) + seq![';']
    } else {
        seq![c]
    }
}

/// Plain text as markup: every character replaced by what `escaped_char` gives for it.
pub open spec fn escaped(text: Seq<char>) -> Seq<char>
    decreases text.len(),
{
    if text.len() == 0 {
        Seq::empty()
    } else {
        escaped(text.drop_last()) + escaped_char(text.last())
    }
}

/// Escaping goes character by character, so it distributes over concatenation.
pub proof fn lemma_escaped_concat(a: Seq<char>, b: Seq<char>)
    ensures
        escaped(a + b) == escaped(a) + escaped(b),
    decreases b.len(),
{
    if b.len() == 0 {
        assert(a + b == a);
    } else {
        lemma_escaped_concat(a, b.drop_last());
        assert((a + b).drop_last() == a + b.drop_last());
        assert((a + b).last() == b.last());
    }
}

fn hex_digit_of(d: u8) -> (c: char)
    requires
        d < 16,
    ensures
        c == hex_digit(d as nat),
{
    if d < 10 {
        (d + 48) as char
    } else {
        (d + 87) as char
    }
}

fn push_hex(out: &mut String, n: u32)
    ensures
        final(out)@ == old(out)@ + hex(n as nat),
    decreases n,
{
    if n >= 16 {
        push_hex(out, n / 16);
    }
    out.push(hex_digit_of((n % 16) as u8));
}

fn is_control(c: char) -> (b: bool)
    ensures
        b == is_escaped_control(c),
{
    let n: u32 = c as u32;
    (0x1 <= n && n <= 0x8) || (0xb <= n && n <= 0xc) || (0xe <= n && n <= 0x1f) || (0x7f <= n && n
        <= 0x84) || (0x86 <= n && n <= 0x9f)
}

/// Appends to `out` what `c` becomes in markup.
pub fn push_escaped(out: &mut String, c: char)
    ensures
        final(out)@ == old(out)@ + escaped_char(c),
{
    if c == '&' {
        proof {
            reveal_strlit("&amp;");
        }
        out.append("&amp;");
        assert("&amp;"@ == seq!['&', 'a', 'm', 'p', ';']);
    } else if c == '<' {
        proof {
            reveal_strlit("&lt;");
        }
        out.append("&lt;");
        assert("&lt;"@ == seq!['&', 'l', 't', ';']);
    } else if c == '>' {
        proof {
            reveal_strlit("&gt;");
        }
        out.append("&gt;");
        assert("&gt;"@ == seq!['&', 'g', 't', ';']);
    } else if c == '\'' {
        proof {
            reveal_strlit("&apos;");
        }
        out.append("&apos;");
        assert("&apos;"@ == seq!['&', 'a', 'p', 'o', 's', ';']);
    } else if c == '"' {
        proof {
            reveal_strlit("&quot;");
        }
        out.append("&quot;");
        assert("&quot;"@ == seq!['&', 'q', 'u', 'o', 't', ';']);
    } else if is_control(c) {
        proof {
            reveal_strlit("&#x");
        }
        out.append("&#x");
        assert("&#x"@ == seq!['&', '#', 'x']);
        push_hex(out, c as u32);
        out.push(';');
        assert(out@ == old(out)@ + (seq!['&', '#', 'x'] + hex(c as nat) + seq![';']));
    } else {
        out.push(c);
        assert(out@ == old(out)@ + seq![c]);
    }
}

/// Appends `text` to `out`, escaped.
pub fn push_escaped_text(out: &mut String, text: &str)
    ensures
        final(out)@ == old(out)@ + escaped(text@),
{
    for c in it: text.chars()
        invariant
            it.seq() == text@,
            out@ == old(out)@ + escaped(text@.take(it.index() as int)),
    {
        proof {
            let now = text@.take(it.index() + 1);
            assert(now.drop_last() == text@.take(it.index() as int));
            assert(now.last() == c);
        }
        push_escaped(out, c);
    }
    assert(text@.take(text@.len() as int) == text@);
}

/// Escapes `text` so that the display layer shows it letter for letter.
pub fn escape_text(text: &str) -> (out: String)
    ensures
        out@ == escaped(text@),
{
    let mut out = String::new();
    push_escaped_text(&mut out, text);
    out
}

/// The characters that the markup reads as the start or the end of a tag or of an
/// attribute's value.
pub open spec fn is_bare_markup(c: char) -> bool {
    c == '<' || c == '>' || c == '\'' || c == '"'
}

/// Whether a reference, as `escaped_char` writes one, stands in `markup` at index `i`.
pub open spec fn reference_at(markup: Seq<char>, i: int) -> bool {
    exists|c: char|
        #![trigger escaped_char(c)]
        (is_reserved(c) || is_escaped_control(c)) && 0 <= i && i + escaped_char(c).len()
            <= markup.len() && markup.subrange(i, i + escaped_char(c).len()) == escaped_char(c)
}

/// A hexadecimal number is written with digits and the letters `a` to `f` alone.
pub proof fn lemma_hex_is_plain(n: nat)
    ensures
        hex(n).len() >= 1,
        forall|k: int|
            0 <= k < hex(n).len() ==> !is_bare_markup(#[trigger] hex(n)[k]) && hex(n)[k] != '&',
    decreases n,
{
    if n >= 16 {
        lemma_hex_is_plain(n / 16);
    }
}

/// What a character becomes holds none of `<`, `>`, `'` and `"`, and holds `&` only as
/// the first character of a reference.
pub proof fn lemma_escaped_char_is_inert(c: char)
    ensures
        escaped_char(c).len() >= 1,
        forall|k: int|
            0 <= k < escaped_char(c).len() ==> !is_bare_markup(#[trigger] escaped_char(c)[k]),
        forall|k: int|
            0 <= k < escaped_char(c).len() && #[trigger] escaped_char(c)[k] == '&' ==> k == 0 && (
            is_reserved(c) || is_escaped_control(c)),
{
    if !is_reserved(c) && is_escaped_control(c) {
        lemma_hex_is_plain(c as nat);
        let h = hex(c as nat);
        let e = escaped_char(c);
        assert(e == seq!['&', '#', 'x'] + h + seq![';']);
        assert forall|k: int| 0 <= k < e.len() implies !is_bare_markup(#[trigger] e[k]) && (e[k]
            == '&' ==> k == 0) by {
            if 3 <= k < 3 + h.len() {
                assert(e[k] == h[k - 3]);
            }
        }
    }
}

/// Escaped text cannot be mistaken for markup: it holds none of `<`, `>`, `'` and `"`, and
/// every `&` in it starts a reference that `escaped_char` wrote.
pub proof fn escaped_text_is_inert(text: Seq<char>)
    ensures
        forall|i: int|
            0 <= i < escaped(text).len() ==> !is_bare_markup(#[trigger] escaped(text)[i]),
        forall|i: int|
            0 <= i < escaped(text).len() && #[trigger] escaped(text)[i] == '&' ==> reference_at(
                escaped(text),
                i,
            ),
    decreases text.len(),
{
    if text.len() > 0 {
        let a = escaped(text.drop_last());
        let b = escaped_char(text.last());
        escaped_text_is_inert(text.drop_last());
        lemma_escaped_char_is_inert(text.last());
        assert(escaped(text) == a + b);
        assert forall|i: int| 0 <= i < (a + b).len() implies !is_bare_markup(#[trigger] (a + b)[i])
            && ((a + b)[i] == '&' ==> reference_at(a + b, i)) by {
            if i < a.len() {
                assert((a + b)[i] == a[i]);
                if a[i] == '&' {
                    let c = choose|c: char|
                        #![trigger escaped_char(c)]
                        (is_reserved(c) || is_escaped_control(c)) && 0 <= i && i + escaped_char(
                            c,
                        ).len() <= a.len() && a.subrange(i, i + escaped_char(c).len())
                            == escaped_char(c);
                    assert((a + b).subrange(i, i + escaped_char(c).len()) == a.subrange(
                        i,
                        i + escaped_char(c).len(),
                    ));
                }
            } else {
                assert((a + b)[i] == b[i - a.len()]);
                if b[i - a.len()] == '&' {
                    assert((a + b).subrange(i, i + b.len()) == b);
                }
            }
        }
    }
}

/// The value of a lower-case hexadecimal digit.
pub open spec fn hex_value(c: char) -> Option<nat> {
    let n = c as u32;
    if 48 <= n <= 57 {
        Some((n - 48) as nat)
    } else if 97 <= n <= 102 {
        Some((n - 87) as nat)
    } else {
        None
    }
}

/// What stands at the front of a non-empty markup text: the character that it means, and
/// how many characters of markup it takes. A named reference or a hexadecimal reference
/// of one or two digits means its character; anything else means itself.
pub open spec fn first_unescaped(markup: Seq<char>) -> (char, int) {
    if seq!['&', 'a', 'm', 'p', ';'].is_prefix_of(markup) {
        ('&', 5)
    } else if seq!['&', 'l', 't', ';'].is_prefix_of(markup) {
        ('<', 4)
    } else if seq!['&', 'g', 't', ';'].is_prefix_of(markup) {
        ('>', 4)
    } else if seq!['&', 'a', 'p', 'o', 's', ';'].is_prefix_of(markup) {
        ('\'', 6)
    } else if seq!['&', 'q', 'u', 'o', 't', ';'].is_prefix_of(markup) {
        ('"', 6)
    } else if markup.len() >= 5 && markup[0] == '&' && markup[1] == '#' && markup[2] == 'x'
        && hex_value(markup[3]) is Some && markup[4] == ';' {
        ((hex_value(markup[3])->0 as u8) as char, 5)
    } else if markup.len() >= 6 && markup[0] == '&' && markup[1] == '#' && markup[2] == 'x'
        && hex_value(markup[3]) is Some && hex_value(markup[4]) is Some && markup[5] == ';' {
        (((16 * hex_value(markup[3])->0 + hex_value(markup[4])->0) as u8) as char, 6)
    } else {
        (markup[0], 1)
    }
}

/// Markup text read back as plain text: every reference replaced by the character that
/// it means.
pub open spec fn unescaped(markup: Seq<char>) -> Seq<char>
    decreases markup.len(),
{
    if markup.len() == 0 {
        Seq::empty()
    } else {
        let (c, taken) = first_unescaped(markup);
        if 1 <= taken <= markup.len() {
            seq![c] + unescaped(markup.skip(taken))
        } else {
            seq![c]
        }
    }
}

/// What a character becomes, read back, is the character.
pub proof fn lemma_first_unescaped(c: char, rest: Seq<char>)
    ensures
        first_unescaped(escaped_char(c) + rest) == (c, escaped_char(c).len() as int),
{
    let e = escaped_char(c);
    let m = e + rest;
    if is_reserved(c) {
        assert(e.is_prefix_of(m));
        assert(m[1] == e[1]);
        assert(m[2] == e[2]);
    } else if is_escaped_control(c) {
        let n = c as nat;
        reveal_with_fuel(hex, 2);
        assert(m[0] == '&' && m[1] == '#' && m[2] == 'x');
        if n < 16 {
            assert(e == seq!['&', '#', 'x', hex_digit(n), ';']);
            assert(m[3] == hex_digit(n) && m[4] == ';');
            assert(hex_value(hex_digit(n)) == Some(n));
        } else {
            assert(n / 16 < 16);
            assert(e == seq!['&', '#', 'x', hex_digit(n / 16), hex_digit(n % 16), ';']);
            assert(m[3] == hex_digit(n / 16) && m[4] == hex_digit(n % 16) && m[5] == ';');
            assert(hex_value(hex_digit(n / 16)) == Some(n / 16));
            assert(hex_value(hex_digit(n % 16)) == Some(n % 16));
            assert(16 * (n / 16) + n % 16 == n);
        }
    } else {
        assert(m[0] == c);
    }
}

/// Escaping loses nothing: escaped text, read back, is the text.
pub proof fn unescape_inverts_escape(text: Seq<char>)
    ensures
        unescaped(escaped(text)) == text,
    decreases text.len(),
{
    if text.len() > 0 {
        let c = text[0];
        let tail = text.drop_first();
        let e = escaped_char(c);
        assert(escaped(seq![c]) == e) by {
            assert(seq![c].drop_last() == Seq::<char>::empty());
            assert(escaped(Seq::<char>::empty()) == Seq::<char>::empty());
        }
        assert(text == seq![c] + tail);
        lemma_escaped_concat(seq![c], tail);
        lemma_first_unescaped(c, escaped(tail));
        lemma_escaped_char_is_inert(c);
        unescape_inverts_escape(tail);
        assert((e + escaped(tail)).skip(e.len() as int) == escaped(tail));
    }
}

} // verus!
