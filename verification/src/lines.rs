//! Text as a sequence of lines.

use crate::text::string_of_range;
use vstd::prelude::*;

verus! {

/// The length of the first line of `s`: the index of its first line feed, or
/// the length of `s` where it holds none.
pub open spec fn line_end(s: Seq<char>) -> int
    decreases s.len(),
{
    if s.len() == 0 || s[0] == '\n' {
        0
    } else {
        1 + line_end(s.drop_first())
    }
}

/// A line as it was terminated by a line feed: without the carriage return
/// that stood before the line feed, where there was one.
pub open spec fn without_carriage_return(line: Seq<char>) -> Seq<char> {
    if line.len() > 0 && line.last() == '\r' {
        line.drop_last()
    } else {
        line
    }
}

/// The lines of `s`. A line ends at a line feed, or at a carriage return
/// followed by a line feed; neither belongs to the line. What follows the
/// last line feed is a line too, unless it is empty.
pub open spec fn text_lines(s: Seq<char>) -> Seq<Seq<char>>
    decreases s.len(),
{
    if s.len() == 0 {
        Seq::empty()
    } else {
        let n = line_end(s);
        if 0 <= n < s.len() {
            seq![without_carriage_return(s.take(n))] + text_lines(s.skip(n + 1))
        } else {
            seq![s]
        }
    }
}

/// The text whose lines are `lines`, each ended by a line feed.
pub open spec fn join_lines(lines: Seq<Seq<char>>) -> Seq<char>
    decreases lines.len(),
{
    if lines.len() == 0 {
        Seq::empty()
    } else {
        lines.first() + seq!['\n'] + join_lines(lines.drop_first())
    }
}

/// Whether `line` can be a line of a text that is written with line feeds:
/// it holds no line feed and does not end in a carriage return.
pub open spec fn is_plain_line(line: Seq<char>) -> bool {
    &&& forall|i: int| 0 <= i < line.len() ==> line[i] != '\n'
    &&& line.len() > 0 ==> line.last() != '\r'
}

/// The first line of `s` ends where its first line feed stands.
pub proof fn lemma_line_end(s: Seq<char>, n: int)
    requires
        0 <= n <= s.len(),
        forall|j: int| 0 <= j < n ==> s[j] != '\n',
        n == s.len() || s[n] == '\n',
    ensures
        line_end(s) == n,
    decreases n,
{
    if n > 0 {
        let t = s.drop_first();
        assert forall|j: int| 0 <= j < n - 1 implies t[j] != '\n' by {
            assert(t[j] == s[j + 1]);
        }
        lemma_line_end(t, n - 1);
    }
}

/// The first line of a text is found within the text, before any line feed.
pub proof fn lemma_line_end_bounds(s: Seq<char>)
    ensures
        0 <= line_end(s) <= s.len(),
        forall|j: int| 0 <= j < line_end(s) ==> s[j] != '\n',
        line_end(s) < s.len() ==> s[line_end(s)] == '\n',
    decreases s.len(),
{
    if s.len() == 0 || s[0] == '\n' {
    } else {
        let t = s.drop_first();
        lemma_line_end_bounds(t);
        assert forall|j: int| 0 <= j < line_end(s) implies s[j] != '\n' by {
            if j > 0 {
                assert(t[j - 1] == s[j]);
            }
        }
    }
}

/// No line of a text holds a line feed.
pub proof fn lemma_text_lines_hold_no_line_feed(s: Seq<char>, i: int, j: int)
    requires
        0 <= i < text_lines(s).len(),
        0 <= j < text_lines(s)[i].len(),
    ensures
        text_lines(s)[i][j] != '\n',
    decreases s.len(),
{
    lemma_line_end_bounds(s);
    let n = line_end(s);
    if n == s.len() {
    } else if i == 0 {
    } else {
        lemma_text_lines_hold_no_line_feed(s.skip(n + 1), i - 1, j);
    }
}

/// Reading the lines of what `join_lines` wrote gives the lines back.
pub proof fn lemma_lines_of_joined(lines: Seq<Seq<char>>)
    requires
        forall|i: int| 0 <= i < lines.len() ==> is_plain_line(#[trigger] lines[i]),
    ensures
        text_lines(join_lines(lines)) == lines,
    decreases lines.len(),
{
    if lines.len() == 0 {
        assert(text_lines(join_lines(lines)) =~= lines);
    } else {
        let first = lines.first();
        let rest = lines.drop_first();
        let s = join_lines(lines);
        assert(is_plain_line(lines[0]));
        assert forall|i: int| 0 <= i < rest.len() implies is_plain_line(#[trigger] rest[i]) by {
            assert(rest[i] == lines[i + 1]);
        }
        lemma_lines_of_joined(rest);
        let n = first.len() as int;
        assert(s[n] == '\n');
        assert forall|j: int| 0 <= j < n implies s[j] != '\n' by {
            assert(s[j] == first[j]);
        }
        lemma_line_end(s, n);
        assert(s.take(n) =~= first);
        assert(s.skip(n + 1) =~= join_lines(rest));
        assert(without_carriage_return(first) == first);
        assert(text_lines(s) =~= seq![first] + rest);
        assert(seq![first] + rest =~= lines);
    }
}

/// The lines of two texts set one after the other are the lines of the first
/// and then the lines of the second, where the first ends its last line.
pub proof fn lemma_lines_of_concat(a: Seq<char>, b: Seq<char>)
    requires
        a.len() == 0 || a.last() == '\n',
    ensures
        text_lines(a + b) == text_lines(a) + text_lines(b),
    decreases a.len(),
{
    if a.len() == 0 {
        assert(a + b =~= b);
        assert(text_lines(a) + text_lines(b) =~= text_lines(b));
    } else {
        lemma_line_end_bounds(a);
        let n = line_end(a);
        if n == a.len() {
            assert(a[a.len() - 1] != '\n');
        }
        let s = a + b;
        assert forall|j: int| 0 <= j < n implies s[j] != '\n' by {
            assert(s[j] == a[j]);
        }
        assert(s[n] == a[n]);
        lemma_line_end(s, n);
        let rest = a.skip(n + 1);
        assert(s.take(n) =~= a.take(n));
        assert(s.skip(n + 1) =~= rest + b);
        if rest.len() > 0 {
            assert(rest.last() == a.last());
        }
        lemma_lines_of_concat(rest, b);
        assert(text_lines(s) =~= text_lines(a) + text_lines(b));
    }
}

/// The texts of a vector of lines.
pub open spec fn line_views(lines: Seq<Vec<char>>) -> Seq<Seq<char>> {
    lines.map_values(|l: Vec<char>| l@)
}

fn copy_range(v: &Vec<char>, from: usize, to: usize) -> (r: Vec<char>)
    requires
        from <= to <= v.len(),
    ensures
        r@ == v@.subrange(from as int, to as int),
{
    let mut r: Vec<char> = Vec::new();
    let mut i: usize = from;
    while i < to
        invariant
            from <= i <= to <= v.len(),
            r@ == v@.subrange(from as int, i as int),
        decreases to - i,
    {
        r.push(v[i]);
        i = i + 1;
        assert(r@ =~= v@.subrange(from as int, i as int));
    }
    assert(r@ =~= v@.subrange(from as int, to as int));
    r
}

/// Splits a text into its lines.
pub fn split_lines(v: &Vec<char>) -> (lines: Vec<Vec<char>>)
    ensures
        line_views(lines@) == text_lines(v@),
{
    let mut lines: Vec<Vec<char>> = Vec::new();
    let mut start: usize = 0;
    let mut i: usize = 0;
    assert(v@.skip(0) =~= v@);
    assert(line_views(lines@) + text_lines(v@.skip(0)) =~= text_lines(v@));
    while i < v.len()
        invariant
            start <= i <= v.len(),
            forall|j: int| start <= j < i ==> v@[j] != '\n',
            line_views(lines@) + text_lines(v@.skip(start as int)) == text_lines(v@),
        decreases v.len() - i,
    {
        if v[i] == '\n' {
            let ghost rest = v@.skip(start as int);
            let ghost n = i - start;
            proof {
                assert forall|j: int| 0 <= j < n implies rest[j] != '\n' by {
                    assert(rest[j] == v@[start + j]);
                }
                assert(rest[n] == '\n');
                lemma_line_end(rest, n);
                assert(rest.take(n) =~= v@.subrange(start as int, i as int));
                assert(rest.skip(n + 1) =~= v@.skip(i + 1));
            }
            let end: usize = if i > start && v[i - 1] == '\r' {
                i - 1
            } else {
                i
            };
            let line = copy_range(v, start, end);
            proof {
                let raw = v@.subrange(start as int, i as int);
                if i > start {
                    assert(raw.last() == v@[i - 1]);
                }
                assert(line@ =~= without_carriage_return(raw));
            }
            let ghost before = line_views(lines@);
            lines.push(line);
            proof {
                assert(line_views(lines@) =~= before + seq![line@]);
                assert(line_views(lines@) + text_lines(v@.skip(i + 1)) =~= before + text_lines(
                    rest,
                ));
            }
            start = i + 1;
        }
        i = i + 1;
    }
    if start < v.len() {
        let ghost rest = v@.skip(start as int);
        proof {
            assert forall|j: int| 0 <= j < rest.len() implies rest[j] != '\n' by {
                assert(rest[j] == v@[start + j]);
            }
            lemma_line_end(rest, rest.len() as int);
            assert(text_lines(rest) =~= seq![rest]);
        }
        let line = copy_range(v, start, v.len());
        let ghost before = line_views(lines@);
        lines.push(line);
        proof {
            assert(line@ =~= rest);
            assert(line_views(lines@) =~= before + seq![line@]);
        }
    } else {
        assert(v@.skip(start as int) =~= Seq::<char>::empty());
        assert(line_views(lines@) + text_lines(v@.skip(start as int)) =~= line_views(lines@));
    }
    lines
}

/// Writes lines as one text, each line ended by a line feed.
pub fn joined(lines: &Vec<Vec<char>>) -> (r: String)
    ensures
        r@ == join_lines(line_views(lines@)),
{
    let mut r = String::new();
    let ghost all = line_views(lines@);
    let mut k: usize = 0;
    assert(all.skip(0) =~= all);
    while k < lines.len()
        invariant
            k <= lines.len(),
            all == line_views(lines@),
            r@ + join_lines(all.skip(k as int)) == join_lines(all),
        decreases lines.len() - k,
    {
        let ghost before = r@;
        let ghost rest = all.skip(k as int);
        let line = &lines[k];
        let mut t = string_of_range(line, 0, line.len());
        t.push('\n');
        proof {
            assert(line@.subrange(0, line.len() as int) =~= line@);
            assert(rest.first() == line@);
            assert(rest.drop_first() =~= all.skip(k + 1));
            assert(t@ =~= line@ + seq!['\n']);
        }
        r = concat(r, &t);
        proof {
            assert(r@ + join_lines(all.skip(k + 1)) =~= before + join_lines(rest));
        }
        k = k + 1;
    }
    assert(r@ + join_lines(all.skip(k as int)) =~= r@);
    r
}

fn concat(a: String, b: &String) -> (r: String)
    ensures
        r@ == a@ + b@,
{
    let mut r = a;
    let v = crate::text::chars_of(b.as_str());
    crate::text::push_range(&mut r, &v, 0, v.len());
    assert(v@.subrange(0, v.len() as int) =~= v@);
    r
}

} // verus!
