//! Styled lines of text, as the terminal shows them.

use ratatui::style::Stylize;
use ratatui::text::Line;
use vstd::prelude::*;

use crate::chars;
use crate::chars::{are_lines, is_blank_text, joined, EndedLine};

verus! {

/// A line of styled text is carried through and never looked into.
#[verifier::external_type_specification]
#[verifier::external_body]
pub struct ExLine<'a>(ratatui::text::Line<'a>);

/// `Line` derives `Clone`: the clone has the same spans, style and alignment,
/// so it is the same line.
pub assume_specification<'a>[ <Line<'a> as Clone>::clone ](line: &Line<'a>) -> (res: Line<'a>)
    ensures
        res == *line,
;

/// The spans that a line holds: the text of each, with the bits of the
/// modifiers that its style adds.
pub uninterp spec fn line_spans(line: Line<'static>) -> Seq<(Seq<char>, u16)>;

/// The bit of the modifier that sets text in italics.
pub const ITALIC: u16 = 0b0000_0000_0100;

/// `Stylize::italic` on a string gives one span that holds the string, with a
/// style that adds the italic modifier and no other; `Line::from` makes a line
/// of that one span. Nothing is claimed of the span's colours, of the line's
/// own style or of its alignment.
#[verifier::external_body]
fn italic_line(text: &'static str) -> (line: Line<'static>)
    ensures
        line_spans(line) == seq![(text@, ITALIC)],
{
    text.italic().into()
}

/// A copy of `lines`.
pub fn clone_lines(lines: &Vec<Line<'static>>) -> (r: Vec<Line<'static>>)
    ensures
        r@ == lines@,
{
    lines.clone()
}

// ---------------------------------------------------------------------------
// The pager that shows a diff
// ---------------------------------------------------------------------------

/// A line of a pager: one that is styled already, or one whose text holds
/// terminal escape sequences that still have to be turned into styles.
pub enum PagerLine {
    Styled(Line<'static>),
    Ansi(String),
}

/// What a [`PagerLine`] shows.
pub enum PagerLineView {
    Styled(Seq<(Seq<char>, u16)>),
    Ansi(Seq<char>),
}

impl View for PagerLine {
    type V = PagerLineView;

    open spec fn view(&self) -> PagerLineView {
        match self {
            PagerLine::Styled(line) => PagerLineView::Styled(line_spans(*line)),
            PagerLine::Ansi(text) => PagerLineView::Ansi(text@),
        }
    }
}

/// What each of `lines` shows.
pub open spec fn pager_views(lines: Seq<PagerLine>) -> Seq<PagerLineView> {
    lines.map_values(|line: PagerLine| line@)
}

/// What the pager shows for a diff: its lines, or a note that there are none.
pub open spec fn diff_pager(diff: Seq<char>) -> Seq<PagerLineView> {
    if chars::is_blank_text(diff) {
        seq![PagerLineView::Styled(seq![("No changes detected."@, ITALIC)])]
    } else {
        chars::lines_of(diff).map_values(|line: Seq<char>| PagerLineView::Ansi(line))
    }
}

/// The lines that the pager shows for `diff`.
pub fn diff_pager_lines(diff: &str) -> (r: Vec<PagerLine>)
    ensures
        pager_views(r@) == diff_pager(diff@),
{
    let mut r: Vec<PagerLine> = Vec::new();
    if chars::is_blank(diff) {
        let line = PagerLine::Styled(italic_line("No changes detected."));
        r.push(line);
        assert(pager_views(r@) =~= seq![line@]);
        return r;
    }
    let lines = chars::split_lines(diff);
    for i in 0..lines.len()
        invariant
            chars::texts(lines@) == chars::lines_of(diff@),
            r@.len() == i,
            forall|j: int|
                0 <= j < i ==> (#[trigger] r@[j])@ == PagerLineView::Ansi(
                    chars::texts(lines@)[j],
                ),
    {
        assert(chars::texts(lines@)[i as int] == lines@[i as int]@);
        r.push(PagerLine::Ansi(lines[i].clone()));
    }
    assert(pager_views(r@) =~= diff_pager(diff@));
    r
}

// ---------------------------------------------------------------------------
// Laws
// ---------------------------------------------------------------------------

/// The pager shows a diff that is not blank line by line: as many lines as the
/// diff has, the first one first, and nothing but the line endings is missing.
pub proof fn law_pager_shows_every_line(
    diff: &str,
    r: Vec<PagerLine>,
    lines: Seq<EndedLine>,
    rest: Seq<char>,
)
    requires
        call_ensures(diff_pager_lines, (diff,), r),
        diff@ == joined(lines, rest),
        are_lines(lines),
        !rest.contains('\n'),
        !is_blank_text(diff@),
    ensures
        r@.len() == lines.len() + if rest.len() == 0 {
            0int
        } else {
            1
        },
        forall|i: int|
            0 <= i < lines.len() ==> (#[trigger] r@[i] matches PagerLine::Ansi(text) && text@
                == lines[i].text),
        rest.len() > 0 ==> (r@[lines.len() as int] matches PagerLine::Ansi(text) && text@ == rest),
{
    chars::lemma_lines_of_joined(lines, rest);
    let shown = pager_views(r@);
    assert(shown.len() == r@.len());
    assert forall|i: int| 0 <= i < r@.len() implies shown[i] == (#[trigger] r@[i])@ by {}
}

/// A diff of nothing but white space is shown as one line in italics that says
/// that there are no changes; any other diff is not.
pub proof fn law_blank_diff_is_noted(diff: &str, r: Vec<PagerLine>)
    requires
        call_ensures(diff_pager_lines, (diff,), r),
    ensures
        (forall|i: int|
            0 <= i < diff@.len() ==> chars::white_space_characters().contains(
                #[trigger] diff@[i] as u32,
            )) ==> r@.len() == 1 && (r@[0] matches PagerLine::Styled(line) && line_spans(line)
            == seq![("No changes detected."@, 4u16)]),
        (exists|i: int|
            0 <= i < diff@.len() && !chars::white_space_characters().contains(
                #[trigger] diff@[i] as u32,
            )) ==> forall|i: int| 0 <= i < r@.len() ==> #[trigger] r@[i] is Ansi,
{
    assert forall|c: char| is_white_space_character(c) == chars::is_white_space(c) by {
        chars::law_white_space_is_what_unicode_says(c);
    }
    let shown = pager_views(r@);
    assert(shown.len() == r@.len());
    assert forall|i: int| 0 <= i < r@.len() implies shown[i] == (#[trigger] r@[i])@ by {}
    if forall|i: int|
        0 <= i < diff@.len() ==> chars::white_space_characters().contains(
            #[trigger] diff@[i] as u32,
        ) {
        assert forall|i: int| 0 <= i < diff@.len() implies chars::is_white_space(
            #[trigger] diff@[i],
        ) by {
            assert(is_white_space_character(diff@[i]));
        }
        assert(shown[0] == r@[0]@);
    }
    if exists|i: int|
        0 <= i < diff@.len() && !chars::white_space_characters().contains(
            #[trigger] diff@[i] as u32,
        ) {
        let i = choose|i: int|
            0 <= i < diff@.len() && !chars::white_space_characters().contains(
                #[trigger] diff@[i] as u32,
            );
        assert(!is_white_space_character(diff@[i]));
        assert(!is_blank_text(diff@));
    }
}

spec fn is_white_space_character(c: char) -> bool {
    chars::white_space_characters().contains(c as u32)
}

/// A copy has the same lines, as many and in the same order.
pub proof fn law_copy_has_the_same_lines(lines: &Vec<Line<'static>>, r: Vec<Line<'static>>)
    requires
        call_ensures(clone_lines, (lines,), r),
    ensures
        r@.len() == lines@.len(),
        forall|i: int| 0 <= i < lines@.len() ==> #[trigger] r@[i] == lines@[i],
{
}

} // verus!
