//! Description blocks: a description is shown line by line, and a line of
//! the form `label: value` with a short label is shown as a labelled pair.

use vstd::prelude::*;
use vstd::utf8::encode_utf8;
use crate::text::{
    chars_blank, chars_range, find_colon_space, find_separator, is_blank, lemma_trim_keeps_text,
    lines, split_lines,
    string_of, trim, trim_bounds, trimmed, utf8_len_at_most, views,
};

verus! {

/// The longest label, in UTF-8 bytes, that is shown as a labelled pair.
pub const MAX_LABEL_BYTES: usize = 24;

/// One shown line of a description block.
pub enum InfoLine {
    /// A `label: value` line: the label is shown as `label:`, the value
    /// beside it.
    Labeled { label: String, value: String },
    /// Any other line, shown as it is.
    Plain { text: String },
}

/// What an [`InfoLine`] holds, as character sequences.
pub enum InfoView {
    Labeled(Seq<char>, Seq<char>),
    Plain(Seq<char>),
}

impl View for InfoLine {
    type V = InfoView;

    open spec fn view(&self) -> InfoView {
        match self {
            InfoLine::Labeled { label, value } => InfoView::Labeled(label@, value@),
            InfoLine::Plain { text } => InfoView::Plain(text@),
        }
    }
}

/// How a trimmed line is shown: split at its first `": "` into a labelled
/// pair when the label is non-empty, at most [`MAX_LABEL_BYTES`] bytes long,
/// and the value is not blank; shown whole otherwise.
pub open spec fn classify(line: Seq<char>) -> InfoView {
    match find_colon_space(line, 0) {
        Some(k) => {
            let label = line.take(k);
            let value = line.skip(k + 2);
            if label.len() > 0 && encode_utf8(label).len() <= MAX_LABEL_BYTES && !is_blank(value) {
                InfoView::Labeled(label, trim(value))
            } else {
                InfoView::Plain(line)
            }
        },
        None => InfoView::Plain(line),
    }
}

/// The shown lines of a block made of `lines`: blank lines are left out, the
/// others are trimmed and classified, in order.
pub open spec fn info_views(lines: Seq<Seq<char>>) -> Seq<InfoView>
    decreases lines.len(),
{
    if lines.len() == 0 {
        seq![]
    } else if is_blank(lines.last()) {
        info_views(lines.drop_last())
    } else {
        info_views(lines.drop_last()).push(classify(trim(lines.last())))
    }
}

/// Whether a shown line has visible text: a plain line that is not blank,
/// or a labelled pair with a non-empty label and a non-blank value.
pub open spec fn visible(v: InfoView) -> bool {
    match v {
        InfoView::Labeled(label, value) => label.len() > 0 && !is_blank(value),
        InfoView::Plain(text) => !is_blank(text),
    }
}

/// Every line of a description block has visible text: blank lines are
/// never shown, and no more lines are shown than the text has.
pub proof fn lemma_block_lines_visible(lines: Seq<Seq<char>>)
    ensures
        info_views(lines).len() <= lines.len(),
        forall|i: int| 0 <= i < info_views(lines).len() ==> visible(#[trigger] info_views(lines)[i]),
    decreases lines.len(),
{
    if lines.len() > 0 {
        lemma_block_lines_visible(lines.drop_last());
        if !is_blank(lines.last()) {
            let t = trim(lines.last());
            lemma_trim_keeps_text(lines.last());
            let rest = info_views(lines.drop_last());
            match find_colon_space(t, 0) {
                Some(k) => {
                    let value = t.skip(k + 2);
                    if !is_blank(value) {
                        lemma_trim_keeps_text(value);
                    }
                },
                None => {},
            }
            assert(visible(classify(t)));
            assert forall|i: int| 0 <= i < rest.push(classify(t)).len() implies visible(
                #[trigger] rest.push(classify(t))[i],
            ) by {
                if i < rest.len() {
                    assert(rest.push(classify(t))[i] == rest[i]);
                }
            }
        }
    }
}

/// The views of a sequence of shown lines.
pub open spec fn line_views(lines: Seq<InfoLine>) -> Seq<InfoView> {
    lines.map_values(|l: InfoLine| l@)
}

/// Classifies one trimmed line.
pub fn info_line(line: &[char]) -> (r: InfoLine)
    ensures
        r@ == classify(line@),
{
    let n = line.len();
    match find_separator(line) {
        Some(k) => {
            assert(k + 1 < n) by {
                lemma_find_in_range(line@, 0);
            }
            let fits = k > 0 && utf8_len_at_most(line, 0, k, MAX_LABEL_BYTES);
            if fits && !chars_blank(line, k + 2, n) {
                let label = string_of(line, 0, k);
                let value = trimmed(line, k + 2, n);
                assert(line@.take(k as int) =~= line@.subrange(0, k as int));
                assert(line@.skip(k + 2) =~= line@.subrange(k + 2, n as int));
                InfoLine::Labeled { label, value }
            } else {
                assert(line@.take(k as int) =~= line@.subrange(0, k as int));
                assert(line@.skip(k + 2) =~= line@.subrange(k + 2, n as int));
                assert(line@.subrange(0, n as int) =~= line@);
                InfoLine::Plain { text: string_of(line, 0, n) }
            }
        },
        None => {
            assert(line@.subrange(0, n as int) =~= line@);
            InfoLine::Plain { text: string_of(line, 0, n) }
        },
    }
}

/// A found separator lies inside the sequence with room for the space.
pub proof fn lemma_find_in_range(s: Seq<char>, from: int)
    ensures
        find_colon_space(s, from) matches Some(k) ==> from <= k && k + 1 < s.len() && s[k] == ':'
            && s[k + 1] == ' ',
    decreases s.len() - from,
{
    if from >= 0 && from + 1 < s.len() && !(s[from] == ':' && s[from + 1] == ' ') {
        lemma_find_in_range(s, from + 1);
    }
}

/// The shown lines of a block made of `lines`.
pub fn info_block(lines: &Vec<Vec<char>>) -> (r: Vec<InfoLine>)
    ensures
        line_views(r@) == info_views(views(lines@)),
{
    let mut r: Vec<InfoLine> = Vec::new();
    let mut i: usize = 0;
    while i < lines.len()
        invariant
            i <= lines@.len(),
            line_views(r@) == info_views(views(lines@).take(i as int)),
        decreases lines.len() - i,
    {
        let line = &lines[i];
        let ghost pre = views(lines@).take(i as int);
        assert(views(lines@).take(i + 1).drop_last() =~= pre);
        assert(views(lines@).take(i + 1).last() == line@);
        let n = line.len();
        assert(line@.subrange(0, n as int) =~= line@);
        if !chars_blank(line.as_slice(), 0, n) {
            let (a, b) = trim_bounds(line.as_slice(), 0, n);
            let t = chars_range(line.as_slice(), a, b);
            let shown = info_line(t.as_slice());
            let ghost old_views = line_views(r@);
            r.push(shown);
            assert(line_views(r@) =~= old_views.push(shown@));
        }
        i = i + 1;
    }
    assert(views(lines@).take(lines@.len() as int) =~= views(lines@));
    r
}

/// The shown lines of a description text.
pub fn description_block(description: &str) -> (r: Vec<InfoLine>)
    ensures
        line_views(r@) == info_views(lines(description@)),
{
    let lines = split_lines(description);
    info_block(&lines)
}

} // verus!
