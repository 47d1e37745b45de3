//! Text helpers: characters of a string, placeholder substitution and
//! previews for the log.

use vstd::prelude::*;
use vstd::std_specs::iter::IteratorSpec;
use vstd::string::StringExecFns;

verus! {

/// Appends one character with `String::push`. Trusted: the string afterwards
/// is the string before followed by that character.
#[verifier::external_body]
pub(crate) fn push_char(s: &mut String, c: char)
    ensures
        final(s)@ == old(s)@.push(c),
{
    s.push(c);
}

/// The characters of a string, in order.
pub fn chars_of(s: &str) -> (r: Vec<char>)
    ensures
        r@ == s@,
{
    let mut out: Vec<char> = Vec::new();
    let mut it = s.chars();
    loop
        invariant
            it.obeys_prophetic_iter_laws(),
            it.decrease() is Some,
            out@ + it.remaining() == s@,
        decreases it.decrease()->0,
    {
        match it.next() {
            Some(c) => {
                out.push(c);
                assert(out@ + it.remaining() =~= s@);
            },
            None => {
                assert(out@ =~= s@);
                return out;
            },
        }
    }
}

/// The string made of `chars[from..to]`.
pub fn string_of(chars: &Vec<char>, from: usize, to: usize) -> (r: String)
    requires
        from <= to <= chars@.len(),
    ensures
        r@ == chars@.subrange(from as int, to as int),
{
    let mut out = String::new();
    let mut i: usize = from;
    while i < to
        invariant
            from <= i <= to <= chars@.len(),
            out@ == chars@.subrange(from as int, i as int),
        decreases to - i,
    {
        push_char(&mut out, chars[i]);
        i += 1;
        assert(out@ =~= chars@.subrange(from as int, i as int));
    }
    out
}

/// Whether `token` stands in `text` at place `at`.
pub open spec fn occurs_at(text: Seq<char>, token: Seq<char>, at: int) -> bool {
    &&& 0 <= at
    &&& at + token.len() <= text.len()
    &&& text.subrange(at, at + token.len()) == token
}

/// `text` from place `from` on, with every occurrence of the non-empty
/// `token` replaced by `value`: occurrences are found from left to right and
/// do not overlap, and what was put in is not searched again.
pub open spec fn replaced_from(text: Seq<char>, token: Seq<char>, value: Seq<char>, from: int) -> Seq<char>
    decreases text.len() - from,
{
    if from < 0 || from >= text.len() || token.len() == 0 {
        Seq::<char>::empty()
    } else if occurs_at(text, token, from) {
        value + replaced_from(text, token, value, from + token.len())
    } else {
        seq![text[from]] + replaced_from(text, token, value, from + 1)
    }
}

/// `text` with every occurrence of `token` replaced by `value`; an empty
/// token replaces nothing.
pub open spec fn replaced(text: Seq<char>, token: Seq<char>, value: Seq<char>) -> Seq<char> {
    if token.len() == 0 {
        text
    } else {
        replaced_from(text, token, value, 0)
    }
}

/// Whether `token` stands in `text` at place `at`.
fn matches_at(text: &Vec<char>, token: &Vec<char>, at: usize) -> (r: bool)
    ensures
        r == occurs_at(text@, token@, at as int),
{
    if token.len() > text.len() || at > text.len() - token.len() {
        return false;
    }
    let mut j: usize = 0;
    while j < token.len()
        invariant
            at + token@.len() <= text@.len() <= usize::MAX,
            j <= token@.len(),
            forall|k: int| 0 <= k < j ==> text@[at + k] == token@[k],
        decreases token@.len() - j,
    {
        if text[at + j] != token[j] {
            assert(text@.subrange(at as int, at + token@.len())[j as int] != token@[j as int]);
            return false;
        }
        j += 1;
    }
    assert(text@.subrange(at as int, at + token@.len()) =~= token@);
    true
}

/// Replaces every occurrence of `token` in `text` by `value`, in one pass
/// from left to right.
pub fn replace_all(text: &str, token: &str, value: &str) -> (r: String)
    ensures
        r@ == replaced(text@, token@, value@),
{
    let source = chars_of(text);
    let pattern = chars_of(token);
    if pattern.len() == 0 {
        return String::from_str(text);
    }
    let mut out = String::new();
    let mut i: usize = 0;
    while i < source.len()
        invariant
            source@ == text@,
            pattern@ == token@,
            pattern@.len() > 0,
            i <= source@.len(),
            out@ + replaced_from(text@, token@, value@, i as int) == replaced_from(
                text@,
                token@,
                value@,
                0,
            ),
        decreases source@.len() - i,
    {
        let ghost rest = replaced_from(text@, token@, value@, i as int);
        let ghost before = out@;
        if matches_at(&source, &pattern, i) {
            out.append(value);
            i += pattern.len();
            assert(out@ + replaced_from(text@, token@, value@, i as int) =~= before + rest);
        } else {
            push_char(&mut out, source[i]);
            i += 1;
            assert(out@ + replaced_from(text@, token@, value@, i as int) =~= before + rest);
        }
    }
    assert(out@ =~= replaced_from(text@, token@, value@, 0));
    out
}

/// The lines joined, with `separator` between each two.
pub open spec fn joined(lines: Seq<Seq<char>>, separator: Seq<char>) -> Seq<char>
    decreases lines.len(),
{
    if lines.len() == 0 {
        Seq::<char>::empty()
    } else if lines.len() == 1 {
        lines[0]
    } else {
        joined(lines.drop_last(), separator) + separator + lines.last()
    }
}

/// The views of the strings of a list.
pub open spec fn line_views(lines: Seq<String>) -> Seq<Seq<char>> {
    Seq::new(lines.len(), |i: int| lines[i]@)
}

/// Joins the lines, with `separator` between each two.
pub fn join_lines(lines: &Vec<String>, separator: &str) -> (r: String)
    ensures
        r@ == joined(line_views(lines@), separator@),
{
    let mut out = String::new();
    let mut i: usize = 0;
    while i < lines.len()
        invariant
            i <= lines@.len(),
            out@ == joined(line_views(lines@).take(i as int), separator@),
        decreases lines@.len() - i,
    {
        let ghost upto = line_views(lines@).take(i + 1);
        assert(upto.drop_last() =~= line_views(lines@).take(i as int));
        assert(upto.last() == lines@[i as int]@);
        if i > 0 {
            out.append(separator);
        }
        out.append(lines[i].as_str());
        i += 1;
        assert(out@ =~= joined(upto, separator@));
    }
    assert(line_views(lines@).take(i as int) =~= line_views(lines@));
    out
}

/// The number of bytes that a character takes in UTF-8.
pub open spec fn utf8_width(c: char) -> nat {
    if (c as u32) < 0x80 {
        1
    } else if (c as u32) < 0x800 {
        2
    } else if (c as u32) < 0x10000 {
        3
    } else {
        4
    }
}

/// The number of bytes that a text takes in UTF-8.
pub open spec fn byte_len(text: Seq<char>) -> nat
    decreases text.len(),
{
    if text.len() == 0 {
        0
    } else {
        byte_len(text.drop_last()) + utf8_width(text.last())
    }
}

/// How many characters a preview keeps, counting on from character `i`,
/// which starts at byte `offset`: every character that starts before byte
/// `max_len` is kept.
pub open spec fn kept_from(text: Seq<char>, i: int, offset: nat, max_len: nat) -> int
    decreases text.len() - i,
{
    if 0 <= i < text.len() && offset < max_len {
        kept_from(text, i + 1, offset + utf8_width(text[i]), max_len)
    } else {
        i
    }
}

/// A text with its line feeds and carriage returns written out as `\n`
/// and `\r`.
pub open spec fn escaped(text: Seq<char>) -> Seq<char> {
    replaced(replaced(text, "\n"@, "\\n"@), "\r"@, "\\r"@)
}

/// The preview of a text for the log: the text itself where it takes at
/// most `max_len` bytes, else its characters that start before byte
/// `max_len`, followed by three dots; line breaks are written out.
pub open spec fn truncated(text: Seq<char>, max_len: nat) -> Seq<char> {
    if byte_len(text) <= max_len {
        escaped(text)
    } else {
        escaped(text.take(kept_from(text, 0, 0, max_len))) + "..."@
    }
}

proof fn lemma_byte_len_grows(text: Seq<char>, i: int)
    requires
        0 <= i <= text.len(),
    ensures
        byte_len(text.take(i)) <= byte_len(text),
    decreases text.len() - i,
{
    if i < text.len() {
        assert(text.take(i + 1).drop_last() =~= text.take(i));
        lemma_byte_len_grows(text, i + 1);
    } else {
        assert(text.take(i) =~= text);
    }
}

fn width_of(c: char) -> (r: u128)
    ensures
        r == utf8_width(c),
{
    let code = c as u32;
    if code < 0x80 {
        1
    } else if code < 0x800 {
        2
    } else if code < 0x10000 {
        3
    } else {
        4
    }
}

fn escape(text: &str) -> (r: String)
    ensures
        r@ == escaped(text@),
{
    let first = replace_all(text, "\n", "\\n");
    replace_all(first.as_str(), "\r", "\\r")
}

/// Shortens a text for the log.
pub fn truncate_text(text: &str, max_len: usize) -> (r: String)
    ensures
        r@ == truncated(text@, max_len as nat),
{
    let chars = chars_of(text);
    let mut i: usize = 0;
    let mut offset: u128 = 0;
    while i < chars.len() && offset < max_len as u128
        invariant
            chars@ == text@,
            i <= chars@.len(),
            offset == byte_len(chars@.take(i as int)),
            offset <= max_len + 3,
            kept_from(chars@, i as int, offset as nat, max_len as nat) == kept_from(
                chars@,
                0,
                0,
                max_len as nat,
            ),
        decreases chars@.len() - i,
    {
        assert(chars@.take(i + 1).drop_last() =~= chars@.take(i as int));
        offset = offset + width_of(chars[i]);
        i += 1;
    }
    proof {
        if i < chars@.len() {
            assert(chars@.take(i + 1).drop_last() =~= chars@.take(i as int));
            lemma_byte_len_grows(chars@, i + 1);
        } else {
            assert(chars@.take(i as int) =~= chars@);
        }
    }
    if i == chars.len() && offset <= max_len as u128 {
        escape(text)
    } else {
        let head = string_of(&chars, 0, i);
        assert(head@ =~= text@.take(i as int));
        let mut preview = escape(head.as_str());
        preview.append("...");
        preview
    }
}

} // verus!
