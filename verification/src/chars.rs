//! Plain text: the character-level operations that the rest of the library
//! applies to pasted text, to environment variable names and to diff output.

use vstd::prelude::*;

verus! {

/// `String::push` appends one character: the string afterwards is the string
/// before with `c` behind it.
pub assume_specification[ String::push ](s: &mut String, c: char)
    ensures
        final(s)@ == old(s)@.push(c),
;

// ---------------------------------------------------------------------------
// Characters
// ---------------------------------------------------------------------------

/// A character that has the Unicode property `White_Space`.
pub open spec fn is_white_space(c: char) -> bool {
    ||| '\u{0009}' <= c <= '\u{000D}'
    ||| c == '\u{0020}'
    ||| c == '\u{0085}'
    ||| c == '\u{00A0}'
    ||| c == '\u{1680}'
    ||| '\u{2000}' <= c <= '\u{200A}'
    ||| c == '\u{2028}'
    ||| c == '\u{2029}'
    ||| c == '\u{202F}'
    ||| c == '\u{205F}'
    ||| c == '\u{3000}'
}

/// The upper-case form of an ASCII letter; any other character is itself.
pub open spec fn ascii_upper(c: char) -> char {
    if 'a' <= c <= 'z' {
        (c as u8 - 32) as u8 as char
    } else {
        c
    }
}

fn char_is_white_space(c: char) -> (r: bool)
    ensures
        r == is_white_space(c),
{
    ('\u{0009}' <= c && c <= '\u{000D}') || c == '\u{0020}' || c == '\u{0085}' || c == '\u{00A0}'
        || c == '\u{1680}' || ('\u{2000}' <= c && c <= '\u{200A}') || c == '\u{2028}' || c
        == '\u{2029}' || c == '\u{202F}' || c == '\u{205F}' || c == '\u{3000}'
}

fn char_to_ascii_upper(c: char) -> (r: char)
    ensures
        r == ascii_upper(c),
{
    if 'a' <= c && c <= 'z' {
        (c as u8 - 32) as char
    } else {
        c
    }
}

// ---------------------------------------------------------------------------
// Strings and character vectors
// ---------------------------------------------------------------------------

/// The characters of `s`, in order.
pub fn chars_of(s: &str) -> (r: Vec<char>)
    ensures
        r@ == s@,
{
    let mut r: Vec<char> = Vec::new();
    for c in it: s.chars()
        invariant
            it.seq() == s@,
            r@ == s@.take(it.index() as int),
    {
        r.push(c);
    }
    r
}

/// The string made of the first `end` characters of `chars`.
fn string_of(chars: &Vec<char>, end: usize) -> (r: String)
    requires
        end <= chars@.len(),
    ensures
        r@ == chars@.take(end as int),
{
    let mut r = String::new();
    for i in 0..end
        invariant
            end <= chars@.len(),
            r@ == chars@.take(i as int),
    {
        r.push(chars[i]);
    }
    r
}

/// Whether `a` and `b` hold the same characters.
pub fn same_text(a: &str, b: &str) -> (r: bool)
    ensures
        r == (a@ == b@),
{
    a.to_string() == b.to_string()
}

// ---------------------------------------------------------------------------
// Case-insensitive prefixes
// ---------------------------------------------------------------------------

/// `s` with every ASCII letter in upper case.
pub open spec fn ascii_uppercase(s: Seq<char>) -> Seq<char> {
    s.map_values(|c: char| ascii_upper(c))
}

/// Whether `s`, once its ASCII letters are in upper case, starts with `prefix`.
pub fn uppercase_starts_with(s: &str, prefix: &str) -> (r: bool)
    ensures
        r == prefix@.is_prefix_of(ascii_uppercase(s@)),
{
    let chars = chars_of(s);
    let wanted = chars_of(prefix);
    if wanted.len() > chars.len() {
        return false;
    }
    for i in 0..wanted.len()
        invariant
            chars@ == s@,
            wanted@ == prefix@,
            wanted@.len() <= chars@.len(),
            forall|j: int| 0 <= j < i ==> ascii_upper(#[trigger] chars@[j]) == wanted@[j],
    {
        if char_to_ascii_upper(chars[i]) != wanted[i] {
            proof {
                let upper = ascii_uppercase(s@);
                assert(upper[i as int] != prefix@[i as int]);
                if prefix@.is_prefix_of(upper) {
                    assert(upper.subrange(0, prefix@.len() as int)[i as int] == upper[i as int]);
                }
            }
            return false;
        }
    }
    proof {
        assert(prefix@ =~= ascii_uppercase(s@).subrange(0, prefix@.len() as int));
    }
    true
}

// ---------------------------------------------------------------------------
// Pasted text
// ---------------------------------------------------------------------------

/// `text` with every carriage return replaced by a line feed.
pub open spec fn with_line_feeds(text: Seq<char>) -> Seq<char> {
    text.map_values(
        |c: char|
            if c == '\r' {
                '\n'
            } else {
                c
            },
    )
}

/// Replaces each carriage return by a line feed. Terminals often send `\r` for
/// the line breaks of pasted text, while the composer works with `\n`.
pub fn normalize_pasted(text: &str) -> (r: String)
    ensures
        r@ == with_line_feeds(text@),
{
    let mut r = String::new();
    for c in it: text.chars()
        invariant
            it.seq() == text@,
            r@ =~= with_line_feeds(text@.take(it.index() as int)),
    {
        if c == '\r' {
            r.push('\n');
        } else {
            r.push(c);
        }
        proof {
            assert(text@.take(it.index() + 1) =~= text@.take(it.index() as int).push(c));
        }
    }
    proof {
        assert(text@.take(text@.len() as int) =~= text@);
    }
    r
}

/// Pasted text has no carriage return left, and a line feed wherever it had
/// one; its other characters stay where they are. Text without a carriage
/// return, such as text that went through this before, is not changed.
pub proof fn law_pasted_text_keeps_its_characters(text: Seq<char>)
    ensures
        with_line_feeds(text).len() == text.len(),
        !with_line_feeds(text).contains('\r'),
        forall|i: int|
            0 <= i < text.len() ==> #[trigger] with_line_feeds(text)[i] == (if text[i] == '\r' {
                '\n'
            } else {
                text[i]
            }),
        !text.contains('\r') ==> with_line_feeds(text) == text,
        with_line_feeds(with_line_feeds(text)) == with_line_feeds(text),
{
    let r = with_line_feeds(text);
    assert(!r.contains('\r'));
    assert(with_line_feeds(r) =~= r);
    if !text.contains('\r') {
        assert forall|i: int| 0 <= i < text.len() implies r[i] == text[i] by {
            assert(text.contains(text[i]));
        }
        assert(r =~= text);
    }
}

// ---------------------------------------------------------------------------
// Blank text and lines
// ---------------------------------------------------------------------------

/// Nothing but white space.
pub open spec fn is_blank_text(text: Seq<char>) -> bool {
    forall|i: int| 0 <= i < text.len() ==> is_white_space(#[trigger] text[i])
}

/// Whether `text` holds nothing but white space.
pub fn is_blank(text: &str) -> (r: bool)
    ensures
        r == is_blank_text(text@),
{
    let chars = chars_of(text);
    for i in 0..chars.len()
        invariant
            chars@ == text@,
            forall|j: int| 0 <= j < i ==> is_white_space(#[trigger] chars@[j]),
    {
        if !char_is_white_space(chars[i]) {
            return false;
        }
    }
    true
}

/// `line` without one carriage return at its end.
pub open spec fn without_trailing_cr(line: Seq<char>) -> Seq<char> {
    if line.len() > 0 && line.last() == '\r' {
        line.drop_last()
    } else {
        line
    }
}

/// The lines of `text`: each ends at `\n` or `\r\n`, which is not part of it.
/// The last line needs no ending; an ending at the very end opens no new line.
pub open spec fn lines_of(text: Seq<char>) -> Seq<Seq<char>>
    decreases text.len(),
{
    if text.len() == 0 {
        seq![]
    } else if !text.contains('\n') {
        seq![text]
    } else {
        let end = text.index_of_first('\n')->0;
        if 0 <= end < text.len() {
            seq![without_trailing_cr(text.take(end))] + lines_of(text.skip(end + 1))
        } else {
            seq![]
        }
    }
}

/// The characters of each of `strings`.
pub open spec fn texts(strings: Seq<String>) -> Seq<Seq<char>> {
    strings.map_values(|s: String| s@)
}

proof fn lemma_first_line(line: Seq<char>, rest: Seq<char>)
    requires
        !line.contains('\n'),
    ensures
        lines_of(line.push('\n') + rest) == seq![without_trailing_cr(line)] + lines_of(rest),
{
    let text = line.push('\n') + rest;
    let n = line.len() as int;
    assert(text[n] == '\n');
    text.index_of_first_ensures('\n');
    let end = text.index_of_first('\n')->0;
    assert(end == n) by {
        if end < n {
            assert(line[end] == text[end]);
        }
    }
    assert(text.take(end) =~= line);
    assert(text.skip(end + 1) =~= rest);
}

/// Splits `text` into its lines.
pub fn split_lines(text: &str) -> (r: Vec<String>)
    ensures
        texts(r@) == lines_of(text@),
{
    let chars = chars_of(text);
    let mut r: Vec<String> = Vec::new();
    let mut line: Vec<char> = Vec::new();
    proof {
        assert(texts(r@) + lines_of(line@ + chars@.skip(0)) =~= lines_of(text@)) by {
            assert(line@ + chars@.skip(0) =~= text@);
        }
    }
    for i in 0..chars.len()
        invariant
            chars@ == text@,
            !line@.contains('\n'),
            texts(r@) + lines_of(line@ + chars@.skip(i as int)) == lines_of(text@),
    {
        let c = chars[i];
        let ghost rest = chars@.skip(i + 1);
        proof {
            assert(chars@.skip(i as int) =~= seq![c] + rest);
        }
        if c == '\n' {
            let end: usize = if line.len() > 0 && line[line.len() - 1] == '\r' {
                line.len() - 1
            } else {
                line.len()
            };
            let done = string_of(&line, end);
            proof {
                lemma_first_line(line@, rest);
                assert(line@ + (seq![c] + rest) =~= line@.push('\n') + rest);
                assert(done@ =~= without_trailing_cr(line@));
                assert(texts(r@.push(done)) =~= texts(r@).push(done@));
                assert(Seq::<char>::empty() + rest =~= rest);
                assert(texts(r@).push(done@) + lines_of(rest) =~= texts(r@) + (seq![done@]
                    + lines_of(rest)));
            }
            r.push(done);
            line = Vec::new();
        } else {
            proof {
                assert(line@ + (seq![c] + rest) =~= line@.push(c) + rest);
                assert forall|x: int| 0 <= x < line@.push(c).len() implies line@.push(c)[x]
                    != '\n' by {
                    if x < line@.len() {
                        assert(line@.contains(line@[x]));
                    }
                }
            }
            line.push(c);
        }
    }
    proof {
        assert(line@ + chars@.skip(chars@.len() as int) =~= line@);
    }
    if line.len() > 0 {
        let done = string_of(&line, line.len());
        proof {
            assert(done@ =~= line@);
            assert(texts(r@.push(done)) =~= texts(r@) + seq![line@]);
        }
        r.push(done);
    }
    r
}

// ---------------------------------------------------------------------------
// Laws
// ---------------------------------------------------------------------------

/// Every character that has the Unicode property `White_Space`.
pub open spec fn white_space_characters() -> Seq<u32> {
    seq![
        0x9, 0xA, 0xB, 0xC, 0xD, 0x20, 0x85, 0xA0, 0x1680, 0x2000, 0x2001, 0x2002, 0x2003, 0x2004,
        0x2005, 0x2006, 0x2007, 0x2008, 0x2009, 0x200A, 0x2028, 0x2029, 0x202F, 0x205F, 0x3000,
    ]
}

/// White space is what Unicode says, and nothing else.
pub proof fn law_white_space_is_what_unicode_says(c: char)
    ensures
        is_white_space(c) <==> white_space_characters().contains(c as u32),
{
    let all = white_space_characters();
    let x = c as u32;
    if is_white_space(c) {
        assert(all[0] == 0x9 && all[1] == 0xA && all[2] == 0xB && all[3] == 0xC && all[4] == 0xD);
        assert(all[5] == 0x20 && all[6] == 0x85 && all[7] == 0xA0 && all[8] == 0x1680);
        assert(all[9] == 0x2000 && all[10] == 0x2001 && all[11] == 0x2002 && all[12] == 0x2003);
        assert(all[13] == 0x2004 && all[14] == 0x2005 && all[15] == 0x2006 && all[16] == 0x2007);
        assert(all[17] == 0x2008 && all[18] == 0x2009 && all[19] == 0x200A && all[20] == 0x2028);
        assert(all[21] == 0x2029 && all[22] == 0x202F && all[23] == 0x205F && all[24] == 0x3000);
        assert(exists|i: int| 0 <= i < 25 && all[i] == x);
    }
}

/// Text without characters is blank; a longer text is blank where both of any
/// two parts of it are; a character is blank where it is white space.
pub proof fn law_blank_text_is_blank_in_every_part(a: Seq<char>, b: Seq<char>, c: char)
    ensures
        is_blank_text(Seq::empty()),
        is_blank_text(a + b) <==> is_blank_text(a) && is_blank_text(b),
        is_blank_text(seq![c]) <==> white_space_characters().contains(c as u32),
{
    law_white_space_is_what_unicode_says(c);
    if is_blank_text(seq![c]) {
        assert(is_white_space(seq![c][0]));
    }
    if is_blank_text(a + b) {
        assert forall|i: int| 0 <= i < a.len() implies is_white_space(#[trigger] a[i]) by {
            assert((a + b)[i] == a[i]);
        }
        assert forall|i: int| 0 <= i < b.len() implies is_white_space(#[trigger] b[i]) by {
            assert((a + b)[i + a.len()] == b[i]);
        }
    }
}

/// The letters from `a` to `z` go to those from `A` to `Z`, each to the one at
/// the same place, and every other character stays as it is.
pub proof fn law_only_ascii_letters_change_case(text: Seq<char>, i: int)
    requires
        0 <= i < text.len(),
    ensures
        ascii_uppercase(text).len() == text.len(),
        'a' <= text[i] <= 'z' ==> ascii_uppercase(text)[i] as int - 'A' as int == text[i] as int
            - 'a' as int,
        !('a' <= text[i] <= 'z') ==> ascii_uppercase(text)[i] == text[i],
{
}

/// A line that is ended, by `\n` or by `\r\n`.
pub struct EndedLine {
    pub text: Seq<char>,
    pub with_return: bool,
}

/// Each line holds no `\n`, and one that is ended by `\n` alone does not end
/// with `\r`.
pub open spec fn are_lines(lines: Seq<EndedLine>) -> bool {
    forall|i: int|
        0 <= i < lines.len() ==> !(#[trigger] lines[i]).text.contains('\n') && (
        lines[i].with_return || lines[i].text.len() == 0 || lines[i].text.last() != '\r')
}

/// The text that is made of `lines` with their endings, and of `rest`.
pub open spec fn joined(lines: Seq<EndedLine>, rest: Seq<char>) -> Seq<char>
    decreases lines.len(),
{
    if lines.len() == 0 {
        rest
    } else {
        let line = lines.first();
        line.text + (if line.with_return {
            seq!['\r', '\n']
        } else {
            seq!['\n']
        }) + joined(lines.drop_first(), rest)
    }
}

pub(crate) proof fn lemma_lines_of_joined(lines: Seq<EndedLine>, rest: Seq<char>)
    requires
        are_lines(lines),
        !rest.contains('\n'),
    ensures
        lines_of(joined(lines, rest)) == lines.map_values(|line: EndedLine| line.text)
            + if rest.len() == 0 {
            Seq::<Seq<char>>::empty()
        } else {
            seq![rest]
        },
    decreases lines.len(),
{
    let text_of = |line: EndedLine| line.text;
    let after = if rest.len() == 0 {
        Seq::<Seq<char>>::empty()
    } else {
        seq![rest]
    };
    if lines.len() == 0 {
        assert(lines.map_values(text_of) + after =~= after);
    } else {
        let tail = lines.drop_first();
        let line = lines[0];
        assert forall|i: int| 0 <= i < tail.len() implies !(
        #[trigger] tail[i]).text.contains('\n') && (tail[i].with_return || tail[i].text.len() == 0
            || tail[i].text.last() != '\r') by {
            assert(tail[i] == lines[i + 1]);
        }
        lemma_lines_of_joined(tail, rest);
        let more = joined(tail, rest);
        let body = if line.with_return {
            line.text.push('\r')
        } else {
            line.text
        };
        assert forall|i: int| 0 <= i < body.len() implies body[i] != '\n' by {
            if i < line.text.len() {
                assert(line.text.contains(line.text[i]));
            }
        }
        assert(joined(lines, rest) =~= body.push('\n') + more);
        lemma_first_line(body, more);
        assert(without_trailing_cr(body) =~= line.text);
        assert(lines.map_values(text_of) + after =~= seq![line.text] + (tail.map_values(text_of)
            + after));
    }
}

/// Splitting a text undoes putting it together: every line comes back whole, in
/// order, and no other; nothing but the endings is lost. What follows the last
/// ending is one more line, unless it is empty.
pub proof fn law_splitting_undoes_joining(
    text: &str,
    r: Vec<String>,
    lines: Seq<EndedLine>,
    rest: Seq<char>,
)
    requires
        call_ensures(split_lines, (text,), r),
        text@ == joined(lines, rest),
        are_lines(lines),
        !rest.contains('\n'),
    ensures
        r@.len() == lines.len() + if rest.len() == 0 {
            0int
        } else {
            1
        },
        forall|i: int| 0 <= i < lines.len() ==> (#[trigger] r@[i])@ == lines[i].text,
        rest.len() > 0 ==> r@[lines.len() as int]@ == rest,
{
    lemma_lines_of_joined(lines, rest);
    let shown = texts(r@);
    assert forall|i: int| 0 <= i < r@.len() implies shown[i] == (#[trigger] r@[i])@ by {}
    assert(shown.len() == r@.len());
}

/// A text starts with a prefix of capital letters just where each character at
/// its beginning is the one of the prefix, or the small letter for it.
pub proof fn law_prefix_ignores_the_case_of_letters(s: &str, prefix: &str, r: bool)
    requires
        call_ensures(uppercase_starts_with, (s, prefix), r),
    ensures
        r <==> prefix@.len() <= s@.len() && forall|i: int|
            0 <= i < prefix@.len() ==> #[trigger] prefix@[i] == (if 'a' <= s@[i] <= 'z' {
                (s@[i] as u32 - 32) as u32 as char
            } else {
                s@[i]
            }),
{
    let upper = ascii_uppercase(s@);
    assert forall|c: char| 'a' <= c <= 'z' implies #[trigger] ascii_upper(c) == (c as u32
        - 32) as u32 as char by {}
    if prefix@.len() <= s@.len() {
        let start = upper.subrange(0, prefix@.len() as int);
        if r {
            assert forall|i: int| 0 <= i < prefix@.len() implies #[trigger] prefix@[i]
                == ascii_upper(s@[i]) by {
                assert(start[i] == upper[i]);
            }
        } else if forall|i: int|
            0 <= i < prefix@.len() ==> #[trigger] prefix@[i] == ascii_upper(s@[i]) {
            assert(start =~= prefix@);
        } else {
            let i = choose|i: int|
                0 <= i < prefix@.len() && #[trigger] prefix@[i] != ascii_upper(s@[i]);
            assert(prefix@[i] != ascii_upper(s@[i]));
        }
    }
}

/// Two texts are the same just where they have the same characters in the same
/// places, and a text has just its characters.
pub proof fn law_text_is_its_characters(a: &str, b: &str, same: bool, listed: Vec<char>)
    requires
        call_ensures(same_text, (a, b), same),
        call_ensures(chars_of, (a,), listed),
    ensures
        same <==> a@.len() == b@.len() && forall|i: int|
            0 <= i < a@.len() ==> #[trigger] a@[i] == b@[i],
        listed@.len() == a@.len(),
        forall|i: int| 0 <= i < a@.len() ==> #[trigger] listed@[i] == a@[i],
{
    if a@.len() == b@.len() && forall|i: int| 0 <= i < a@.len() ==> #[trigger] a@[i] == b@[i] {
        assert(a@ =~= b@);
    }
}

/// A text is taken to be blank just where all its characters are white space.
pub proof fn law_blank_means_white_space(text: &str, r: bool)
    requires
        call_ensures(is_blank, (text,), r),
    ensures
        r <==> forall|i: int|
            0 <= i < text@.len() ==> white_space_characters().contains(#[trigger] text@[i] as u32),
{
    assert forall|i: int| 0 <= i < text@.len() implies is_white_space(text@[i])
        == white_space_characters().contains(#[trigger] text@[i] as u32) by {
        law_white_space_is_what_unicode_says(text@[i]);
    }
    if r {
        assert forall|i: int| 0 <= i < text@.len() implies white_space_characters().contains(
            #[trigger] text@[i] as u32,
        ) by {
            assert(is_white_space(text@[i]));
        }
    } else {
        let i = choose|i: int| 0 <= i < text@.len() && !is_white_space(#[trigger] text@[i]);
        assert(!white_space_characters().contains(text@[i] as u32));
    }
}

/// Pasted text comes back with every character in its place, but for the
/// carriage returns, which are line feeds.
pub proof fn law_pasted_text_is_normalised(text: &str, r: String)
    requires
        call_ensures(normalize_pasted, (text,), r),
    ensures
        r@.len() == text@.len(),
        forall|i: int|
            0 <= i < text@.len() ==> #[trigger] r@[i] == (if text@[i] == '\r' {
                '\n'
            } else {
                text@[i]
            }),
{
    law_pasted_text_keeps_its_characters(text@);
}

} // verus!
