//! Lists of addresses and pages made of a template.

use crate::lines::{line_views, split_lines, text_lines};
use crate::text::{
    chars_of, replace_all, replaced, string_of_range, texts, trim, trim_end_bound, trim_start_bound,
};
use vstd::prelude::*;

verus! {

/// The links of a list: every line, trimmed, that is not empty then.
pub open spec fn links_of_lines(lines: Seq<Seq<char>>) -> Seq<Seq<char>>
    decreases lines.len(),
{
    if lines.len() == 0 {
        lines
    } else if trim(lines.last()).len() == 0 {
        links_of_lines(lines.drop_last())
    } else {
        links_of_lines(lines.drop_last()).push(trim(lines.last()))
    }
}

/// The links that a text holds, one on each line.
pub open spec fn links_of(content: Seq<char>) -> Seq<Seq<char>> {
    links_of_lines(text_lines(content))
}

/// Reads a list of links, one on each line; empty lines are passed over.
pub fn read_links_from_file(content: &str) -> (links: Vec<String>)
    ensures
        texts(links@) == links_of(content@),
{
    let v = chars_of(content);
    let lines = split_lines(&v);
    let ghost all = line_views(lines@);
    let mut links: Vec<String> = Vec::new();
    let mut k: usize = 0;
    assert(all.take(0) =~= Seq::<Seq<char>>::empty());
    assert(texts(links@) =~= links_of_lines(all.take(0)));
    while k < lines.len()
        invariant
            k <= lines.len(),
            all == line_views(lines@),
            texts(links@) == links_of_lines(all.take(k as int)),
        decreases lines.len() - k,
    {
        let line = &lines[k];
        let end = trim_end_bound(line, 0, line.len());
        let start = trim_start_bound(line, 0, end);
        let ghost before = texts(links@);
        proof {
            assert(line@.subrange(0, line.len() as int) =~= line@);
            assert(all[k as int] == line@);
            assert(all.take(k + 1).drop_last() =~= all.take(k as int));
            assert(all.take(k + 1).last() == line@);
            assert(line@.subrange(0, end as int).subrange(start as int, end as int)
                =~= line@.subrange(start as int, end as int));
        }
        if start < end {
            links.push(string_of_range(line, start, end));
            assert(texts(links@) =~= before.push(trim(line@)));
        }
        k = k + 1;
    }
    assert(all.take(k as int) =~= all);
    links
}

/// The placeholder that stands, in a page template, for the page's content.
pub open spec fn content_placeholder() -> Seq<char> {
    "{content}"@
}

/// A page: the template with the rendered content in the place of every
/// placeholder.
pub open spec fn page(template: Seq<char>, html: Seq<char>) -> Seq<char> {
    replace_all(template, content_placeholder(), html)
}

/// Sets the rendered content of a document into a page template.
pub fn convert_markdown_file_to_html(template: &str, html: &str) -> (r: String)
    ensures
        r@ == page(template@, html@),
{
    replaced(template, "{content}", html)
}

} // verus!
