//! The normal form of a finished document.

use crate::lines::{
    is_plain_line, join_lines, joined, lemma_lines_of_joined, lemma_text_lines_hold_no_line_feed,
    line_views, split_lines, text_lines,
};
use crate::text::{chars_of, is_whitespace, lemma_trim_end_is_prefix, trim_end, trim_end_bound};
use vstd::prelude::*;

verus! {

/// The number of empty lines at the end of `lines`.
pub open spec fn blank_tail(lines: Seq<Seq<char>>) -> nat
    decreases lines.len(),
{
    if lines.len() > 0 && lines.last().len() == 0 {
        1 + blank_tail(lines.drop_last())
    } else {
        0
    }
}

/// Each line without its trailing white space.
pub open spec fn trimmed_lines(lines: Seq<Seq<char>>) -> Seq<Seq<char>> {
    lines.map_values(|line: Seq<char>| trim_end(line))
}

/// `lines` without every empty line that follows two empty lines.
pub open spec fn collapse_blank_runs(lines: Seq<Seq<char>>) -> Seq<Seq<char>>
    decreases lines.len(),
{
    if lines.len() == 0 {
        lines
    } else if blank_tail(lines) > 2 {
        collapse_blank_runs(lines.drop_last())
    } else {
        collapse_blank_runs(lines.drop_last()).push(lines.last())
    }
}

/// `lines` without the empty lines at its end.
pub open spec fn strip_blank_tail(lines: Seq<Seq<char>>) -> Seq<Seq<char>>
    decreases lines.len(),
{
    if lines.len() > 0 && lines.last().len() == 0 {
        strip_blank_tail(lines.drop_last())
    } else {
        lines
    }
}

/// The lines of the normal form of `text`: the lines of `text`, each without
/// trailing white space, runs of empty lines cut down to two, and no empty
/// line at the end.
pub open spec fn normalized_lines(text: Seq<char>) -> Seq<Seq<char>> {
    strip_blank_tail(collapse_blank_runs(trimmed_lines(text_lines(text))))
}

/// The normal form of a document: its normalized lines, each ended by one
/// line feed; a single line feed where no line is left.
pub open spec fn normalized(text: Seq<char>) -> Seq<char> {
    let lines = normalized_lines(text);
    if lines.len() == 0 {
        seq!['\n']
    } else {
        join_lines(lines)
    }
}

/// A line in normal form: no line feed in it, no white space at its end.
pub open spec fn is_clean_line(line: Seq<char>) -> bool {
    &&& forall|i: int| 0 <= i < line.len() ==> line[i] != '\n'
    &&& line.len() > 0 ==> !is_whitespace(line.last())
}

/// Whether every line is in normal form.
pub open spec fn all_clean(lines: Seq<Seq<char>>) -> bool {
    forall|i: int| 0 <= i < lines.len() ==> is_clean_line(#[trigger] lines[i])
}

/// No more than two empty lines follow each other anywhere in `lines`.
pub open spec fn runs_are_short(lines: Seq<Seq<char>>) -> bool
    decreases lines.len(),
{
    lines.len() == 0 || (blank_tail(lines) <= 2 && runs_are_short(lines.drop_last()))
}

/// The lines of a document in normal form.
pub open spec fn is_normal_form(lines: Seq<Seq<char>>) -> bool {
    &&& all_clean(lines)
    &&& runs_are_short(lines)
    &&& lines.len() > 0 ==> lines.last().len() > 0
}

proof fn lemma_trimmed_lines_are_clean(text: Seq<char>)
    ensures
        all_clean(trimmed_lines(text_lines(text))),
{
    let raw = text_lines(text);
    let lines = trimmed_lines(raw);
    assert forall|i: int| 0 <= i < lines.len() implies is_clean_line(#[trigger] lines[i]) by {
        lemma_trim_end_is_prefix(raw[i]);
        assert forall|j: int| 0 <= j < lines[i].len() implies lines[i][j] != '\n' by {
            lemma_text_lines_hold_no_line_feed(text, i, j);
            assert(lines[i][j] == raw[i][j]);
        }
    }
}

proof fn lemma_collapse(lines: Seq<Seq<char>>)
    requires
        all_clean(lines),
    ensures
        all_clean(collapse_blank_runs(lines)),
        runs_are_short(collapse_blank_runs(lines)),
        blank_tail(collapse_blank_runs(lines)) == if blank_tail(lines) <= 2 {
            blank_tail(lines)
        } else {
            2
        },
    decreases lines.len(),
{
    if lines.len() > 0 {
        let init = lines.drop_last();
        assert forall|i: int| 0 <= i < init.len() implies is_clean_line(#[trigger] init[i]) by {
            assert(init[i] == lines[i]);
        }
        lemma_collapse(init);
        let rest = collapse_blank_runs(init);
        if blank_tail(lines) > 2 {
        } else {
            let out = rest.push(lines.last());
            assert(out.drop_last() =~= rest);
            assert(out.last() == lines.last());
            assert(is_clean_line(lines[lines.len() - 1]));
            assert forall|i: int| 0 <= i < out.len() implies is_clean_line(#[trigger] out[i]) by {
                if i < rest.len() {
                    assert(out[i] == rest[i]);
                }
            }
        }
    }
}

proof fn lemma_collapse_fixed(lines: Seq<Seq<char>>)
    requires
        runs_are_short(lines),
    ensures
        collapse_blank_runs(lines) == lines,
    decreases lines.len(),
{
    if lines.len() > 0 {
        lemma_collapse_fixed(lines.drop_last());
        assert(lines.drop_last().push(lines.last()) =~= lines);
    }
}

proof fn lemma_strip_blank_tail(lines: Seq<Seq<char>>)
    requires
        all_clean(lines),
        runs_are_short(lines),
    ensures
        is_normal_form(strip_blank_tail(lines)),
    decreases lines.len(),
{
    if lines.len() > 0 && lines.last().len() == 0 {
        let init = lines.drop_last();
        assert forall|i: int| 0 <= i < init.len() implies is_clean_line(#[trigger] init[i]) by {
            assert(init[i] == lines[i]);
        }
        lemma_strip_blank_tail(init);
    }
}

/// The normalized lines of any text are in normal form.
pub proof fn lemma_normalized_lines_are_normal(text: Seq<char>)
    ensures
        is_normal_form(normalized_lines(text)),
{
    lemma_trimmed_lines_are_clean(text);
    lemma_collapse(trimmed_lines(text_lines(text)));
    lemma_strip_blank_tail(collapse_blank_runs(trimmed_lines(text_lines(text))));
}

/// Lines in normal form, written out and read again, are their own
/// normalized lines.
pub proof fn lemma_normal_form_is_kept(lines: Seq<Seq<char>>)
    requires
        is_normal_form(lines),
    ensures
        normalized_lines(join_lines(lines)) == lines,
{
    assert forall|i: int| 0 <= i < lines.len() implies is_plain_line(#[trigger] lines[i]) by {
        assert(is_clean_line(lines[i]));
    }
    lemma_lines_of_joined(lines);
    let trimmed = trimmed_lines(lines);
    assert(trimmed =~= lines) by {
        assert forall|i: int| 0 <= i < lines.len() implies trimmed[i] == lines[i] by {
            assert(is_clean_line(lines[i]));
        }
    }
    lemma_collapse_fixed(lines);
}

/// Normalizing is idempotent: the normal form of a document is its own
/// normal form.
pub proof fn lemma_normalize_idempotent(text: Seq<char>)
    ensures
        normalized(normalized(text)) == normalized(text),
{
    let lines = normalized_lines(text);
    lemma_normalized_lines_are_normal(text);
    if lines.len() == 0 {
        let s = seq!['\n'];
        let empty = Seq::<char>::empty();
        assert(s.skip(1) =~= empty);
        assert(s.take(0) =~= empty);
        assert(text_lines(s.skip(1)) =~= Seq::<Seq<char>>::empty());
        let raw = text_lines(s);
        assert(raw =~= seq![empty]);
        let trimmed = trimmed_lines(raw);
        assert(trimmed =~= seq![empty]);
        assert(trimmed.drop_last() =~= Seq::<Seq<char>>::empty());
        assert(blank_tail(trimmed.drop_last()) == 0);
        assert(blank_tail(trimmed) == 1);
        assert(collapse_blank_runs(trimmed.drop_last()) =~= Seq::<Seq<char>>::empty());
        let collapsed = collapse_blank_runs(trimmed);
        assert(collapsed =~= seq![empty]);
        assert(collapsed.drop_last() =~= Seq::<Seq<char>>::empty());
        assert(strip_blank_tail(collapsed.drop_last()) =~= Seq::<Seq<char>>::empty());
        assert(strip_blank_tail(collapsed) =~= Seq::<Seq<char>>::empty());
    } else {
        lemma_normal_form_is_kept(lines);
    }
}

/// Brings a document into its normal form.
pub fn normalize_md_file(text: &str) -> (r: String)
    ensures
        r@ == normalized(text@),
{
    let v = chars_of(text);
    let lines = split_lines(&v);
    let ghost trimmed = trimmed_lines(text_lines(text@));
    let mut kept: Vec<Vec<char>> = Vec::new();
    let mut run: usize = 0;
    let mut k: usize = 0;
    assert(trimmed.take(0) =~= Seq::<Seq<char>>::empty());
    assert(line_views(kept@) =~= collapse_blank_runs(trimmed.take(0)));
    while k < lines.len()
        invariant
            k <= lines.len(),
            line_views(lines@) == text_lines(text@),
            trimmed == trimmed_lines(text_lines(text@)),
            run <= k,
            run == blank_tail(trimmed.take(k as int)),
            line_views(kept@) == collapse_blank_runs(trimmed.take(k as int)),
        decreases lines.len() - k,
    {
        let line = &lines[k];
        let end = trim_end_bound(line, 0, line.len());
        let ghost prefix = trimmed.take(k as int);
        let ghost next = trimmed.take(k + 1);
        proof {
            assert(line@.subrange(0, line.len() as int) =~= line@);
            assert(line_views(lines@)[k as int] == line@);
            assert(next.drop_last() =~= prefix);
            assert(next.last() == trim_end(line@));
            assert(line@.subrange(0, end as int).len() == end);
        }
        if end == 0 {
            run = run + 1;
        } else {
            run = 0;
        }
        if run <= 2 {
            let mut t: Vec<char> = Vec::new();
            let mut j: usize = 0;
            while j < end
                invariant
                    j <= end <= line.len(),
                    t@ == line@.subrange(0, j as int),
                decreases end - j,
            {
                t.push(line[j]);
                j = j + 1;
                assert(t@ =~= line@.subrange(0, j as int));
            }
            let ghost before = line_views(kept@);
            kept.push(t);
            assert(line_views(kept@) =~= before.push(t@));
        }
        k = k + 1;
    }
    assert(trimmed.take(k as int) =~= trimmed);
    let ghost collapsed = collapse_blank_runs(trimmed);
    while kept.len() > 0 && kept[kept.len() - 1].len() == 0
        invariant
            strip_blank_tail(line_views(kept@)) == strip_blank_tail(collapsed),
        decreases kept.len(),
    {
        let ghost before = line_views(kept@);
        kept.pop();
        assert(line_views(kept@) =~= before.drop_last());
    }
    proof {
        let left = line_views(kept@);
        if left.len() > 0 {
            assert(left.last() == kept@[kept.len() - 1]@);
        }
        assert(left == normalized_lines(text@));
    }
    if kept.len() == 0 {
        let mut r = String::new();
        r.push('\n');
        assert(r@ =~= seq!['\n']);
        r
    } else {
        joined(&kept)
    }
}

} // verus!
