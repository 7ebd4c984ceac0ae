//! The comment tree flattener: the content items of a thread of comments,
//! in reading order, each text marked with its depth, date and author.

use crate::content::{
    item_view, items_view, lemma_items_view, lemma_items_view_push, ContentItem, ContentItemView,
};
use crate::outside::{format_utc_default, format_utc_time, utc_time_text};
use crate::text::{chars_of, owned, push_range, starts_with, text_equal, text_starts_with};
use crate::walker::{block_end, content_plan, process_content_items, action_views, ItemAction};
use vstd::prelude::*;
use vstd::string::StringExecFns;

verus! {

/// One comment of a thread, with the replies to it.
#[derive(Debug, PartialEq, Eq)]
pub struct Comment {
    /// The name of the author.
    pub author: String,
    /// When the comment was written, in seconds since the Unix epoch.
    pub created_at: u64,
    /// The content of the comment.
    pub items: Vec<ContentItem>,
    /// Whether the comment is flagged as not available.
    pub not_available: bool,
    /// The replies, in their order.
    pub replies: Vec<Comment>,
}

/// The mathematical form of `Comment`.
pub struct CommentView {
    pub author: Seq<char>,
    pub created_at: u64,
    pub items: Seq<ContentItemView>,
    pub not_available: bool,
    pub replies: Seq<CommentView>,
}

/// The mathematical form of one comment.
pub open spec fn comment_view(comment: Comment) -> CommentView
    decreases comment, 0nat,
{
    CommentView {
        author: comment.author@,
        created_at: comment.created_at,
        items: items_view(comment.items@),
        not_available: comment.not_available,
        replies: comments_view(comment.replies@),
    }
}

/// The mathematical form of a sequence of comments.
pub open spec fn comments_view(comments: Seq<Comment>) -> Seq<CommentView>
    decreases comments, 0nat,
{
    if comments.len() == 0 {
        Seq::empty()
    } else {
        comments_view(comments.drop_last()).push(comment_view(comments.last()))
    }
}

impl View for Comment {
    type V = CommentView;

    open spec fn view(&self) -> CommentView {
        comment_view(*self)
    }
}

/// The form of a sequence of comments holds the form of each comment at its
/// place.
pub proof fn lemma_comments_view(comments: Seq<Comment>)
    ensures
        comments_view(comments).len() == comments.len(),
        forall|i: int|
            0 <= i < comments.len() ==> comments_view(comments)[i] == comment_view(
                #[trigger] comments[i],
            ),
    decreases comments.len(),
{
    if comments.len() > 0 {
        lemma_comments_view(comments.drop_last());
        assert forall|i: int| 0 <= i < comments.len() implies comments_view(comments)[i]
            == comment_view(#[trigger] comments[i]) by {
            if i < comments.len() - 1 {
                assert(comments.drop_last()[i] == comments[i]);
            }
        }
    }
}

/// The glyph that marks one level of nesting.
pub open spec fn indent_glyph() -> char {
    '↳'
}

/// The indent marker of a comment at nesting depth `depth`: the glyph,
/// `depth` times.
pub open spec fn indent(depth: nat) -> Seq<char> {
    Seq::new(depth, |i: int| indent_glyph())
}

/// The pattern after which the time of a comment is written.
pub open spec fn stamp_pattern() -> Seq<char> {
    "%Y.%m.%d %H:%M"@
}

/// The time of a comment as it stands in the tag: the UTC date and minute of
/// `created_at`, read as a signed number of seconds; the first minute of
/// 1970 where that moment cannot be represented.
pub open spec fn comment_stamp(created_at: u64) -> Seq<char> {
    match utc_time_text(created_at as i64, stamp_pattern()) {
        Some(text) => text,
        None => "1970.01.01 00:00"@,
    }
}

/// The tag of a comment: the indent marker of its depth, then its time and
/// the name of its author, each in square brackets, then a space.
pub open spec fn comment_tag(depth: nat, created_at: u64, author: Seq<char>) -> Seq<char> {
    indent(depth) + "["@ + comment_stamp(created_at) + "]["@ + author + "] "@
}

/// How the JSON content of a text item begins: an array whose first element
/// is a string.
pub open spec fn text_opening() -> Seq<char> {
    "[\""@
}

/// Whether an item is tagged: it is a text, no paragraph break, and its
/// content begins as a JSON array of strings does.
pub open spec fn takes_tag(item: ContentItemView) -> bool {
    match item {
        ContentItemView::Text { modificator, content } => modificator != block_end()
            && content.len() > 0 && starts_with(content, text_opening()),
        _ => false,
    }
}

/// `content` with `tag` set in after its first two characters, that is, at
/// the start of the first string of the JSON array.
pub open spec fn with_tag(content: Seq<char>, tag: Seq<char>) -> Seq<char> {
    content.take(2) + tag + content.skip(2)
}

/// An item as it leaves the flattener: a text that takes the tag has the tag
/// in front of its text; every other item is as it was.
pub open spec fn tagged(item: ContentItemView, tag: Seq<char>) -> ContentItemView {
    match item {
        ContentItemView::Text { modificator, content } => if takes_tag(item) {
            ContentItemView::Text { modificator: modificator, content: with_tag(content, tag) }
        } else {
            item
        },
        _ => item,
    }
}

/// The items of one comment, tagged.
pub open spec fn tagged_items(items: Seq<ContentItemView>, tag: Seq<char>) -> Seq<
    ContentItemView,
> {
    items.map_values(|item: ContentItemView| tagged(item, tag))
}

/// The items of a comment at depth `depth` and of the replies below it: the
/// comment's own items first, then those of its replies, one level deeper.
pub open spec fn flatten_comment(comment: CommentView, depth: nat) -> Seq<ContentItemView>
    decreases comment, 0nat,
{
    tagged_items(comment.items, comment_tag(depth, comment.created_at, comment.author))
        + flatten_replies(comment.replies, depth + 1)
}

/// The items of a sequence of replies at depth `depth`, reply after reply.
pub open spec fn flatten_replies(replies: Seq<CommentView>, depth: nat) -> Seq<ContentItemView>
    decreases replies, 0nat,
{
    if replies.len() == 0 {
        Seq::empty()
    } else {
        flatten_replies(replies.drop_last(), depth) + flatten_comment(replies.last(), depth)
    }
}

/// The items of a thread: those of every top-level comment that is not
/// flagged as not available, at depth `0`, comment after comment.
pub open spec fn flatten_thread(comments: Seq<CommentView>) -> Seq<ContentItemView>
    decreases comments.len(),
{
    if comments.len() == 0 {
        Seq::empty()
    } else if comments.last().not_available {
        flatten_thread(comments.drop_last())
    } else {
        flatten_thread(comments.drop_last()) + flatten_comment(comments.last(), 0)
    }
}

/// Whether a thread has anything to process: it holds a top-level comment
/// that is not flagged as not available.
pub open spec fn thread_is_available(comments: Seq<CommentView>) -> bool {
    exists|i: int| 0 <= i < comments.len() && !(#[trigger] comments[i]).not_available
}

/// A text at depth `depth` carries, after the opening of its JSON content,
/// exactly `depth` indent glyphs, then the bracketed time and author, then
/// the text it had.
pub proof fn lemma_tag_stands_before_text(
    modificator: Seq<char>,
    content: Seq<char>,
    depth: nat,
    created_at: u64,
    author: Seq<char>,
)
    requires
        takes_tag(ContentItemView::Text { modificator, content }),
    ensures
        ({
            let tag = comment_tag(depth, created_at, author);
            let out = tagged(ContentItemView::Text { modificator, content }, tag);
            &&& out matches ContentItemView::Text { modificator: m, content: c }
            &&& m == modificator
            &&& c == text_opening() + indent(depth) + ("["@ + comment_stamp(created_at) + "]["@
                + author + "] "@) + content.skip(2)
            &&& indent(depth).len() == depth
            &&& forall|i: int| 0 <= i < depth ==> indent(depth)[i] == indent_glyph()
        }),
{
    reveal_strlit("[\"");
    let tag = comment_tag(depth, created_at, author);
    assert(content.take(2) =~= text_opening());
    assert(with_tag(content, tag) =~= text_opening() + indent(depth) + ("["@ + comment_stamp(
        created_at,
    ) + "]["@ + author + "] "@) + content.skip(2));
}

/// Replies are read in their order: what stands in `a` comes before what
/// stands in `b`.
pub proof fn lemma_replies_in_order(a: Seq<CommentView>, b: Seq<CommentView>, depth: nat)
    ensures
        flatten_replies(a + b, depth) == flatten_replies(a, depth) + flatten_replies(b, depth),
    decreases b.len(),
{
    if b.len() == 0 {
        assert(a + b =~= a);
        assert(flatten_replies(a, depth) + flatten_replies(b, depth) =~= flatten_replies(
            a,
            depth,
        ));
    } else {
        lemma_replies_in_order(a, b.drop_last(), depth);
        assert((a + b).drop_last() =~= a + b.drop_last());
        assert((a + b).last() == b.last());
        assert(flatten_replies(a + b, depth) =~= flatten_replies(a, depth) + flatten_replies(
            b,
            depth,
        ));
    }
}

/// A comment comes before its replies, and a reply before the replies to it:
/// the items of a comment with one reply are the comment's own items, tagged
/// at its depth, then the reply's own items, tagged one level deeper, then
/// what lies below the reply.
pub proof fn lemma_parent_before_children(comment: CommentView, depth: nat)
    requires
        comment.replies.len() == 1,
    ensures
        flatten_comment(comment, depth) == tagged_items(
            comment.items,
            comment_tag(depth, comment.created_at, comment.author),
        ) + tagged_items(
            comment.replies[0].items,
            comment_tag(depth + 1, comment.replies[0].created_at, comment.replies[0].author),
        ) + flatten_replies(comment.replies[0].replies, depth + 2),
{
    let reply = comment.replies[0];
    assert(comment.replies.drop_last() =~= Seq::<CommentView>::empty());
    assert(flatten_replies(comment.replies.drop_last(), depth + 1) =~= Seq::<
        ContentItemView,
    >::empty());
    assert(comment.replies.last() == reply);
    assert(flatten_replies(comment.replies, depth + 1) =~= flatten_comment(reply, depth + 1));
    assert(flatten_comment(comment, depth) =~= tagged_items(
        comment.items,
        comment_tag(depth, comment.created_at, comment.author),
    ) + tagged_items(reply.items, comment_tag(depth + 1, reply.created_at, reply.author))
        + flatten_replies(reply.replies, depth + 2));
}

/// An item that takes no tag leaves the flattener as it came.
pub proof fn lemma_untagged_item_is_kept(item: ContentItemView, tag: Seq<char>)
    requires
        !takes_tag(item),
    ensures
        tagged(item, tag) == item,
{
}

/// Writes the time of a comment.
pub fn comment_time(created_at: u64) -> (r: String)
    ensures
        r@ == comment_stamp(created_at),
{
    let secs: i64 = #[verifier::truncate]
    (created_at as i64);
    match format_utc_time(secs, "%Y.%m.%d %H:%M") {
        Some(text) => text,
        None => format_utc_default("%Y.%m.%d %H:%M"),
    }
}

/// Sets `tag` in after the first two characters of `content`.
fn insert_tag(content: &str, tag: &str) -> (r: String)
    requires
        content@.len() >= 2,
    ensures
        r@ == with_tag(content@, tag@),
{
    let v = chars_of(content);
    let mut r = String::new();
    push_range(&mut r, &v, 0, 2);
    r.append(tag);
    push_range(&mut r, &v, 2, v.len());
    proof {
        assert(v@.subrange(0, 2) =~= content@.take(2));
        assert(v@.subrange(2, v.len() as int) =~= content@.skip(2));
        assert(r@ =~= with_tag(content@, tag@));
    }
    r
}

/// Tags one item.
pub fn tag_item(item: ContentItem, tag: &str) -> (out: ContentItem)
    ensures
        item_view(out) == tagged(item_view(item), tag@),
{
    match item {
        ContentItem::Text { modificator, content } => {
            if !text_equal(modificator.as_str(), "BLOCK_END") && !content.as_str().is_empty()
                && text_starts_with(content.as_str(), "[\"") {
                proof {
                    reveal_strlit("[\"");
                }
                let tagged_content = insert_tag(content.as_str(), tag);
                ContentItem::Text { modificator, content: tagged_content }
            } else {
                ContentItem::Text { modificator, content }
            }
        },
        other => other,
    }
}

/// Tags the text items of one comment with the comment's author, time and
/// nesting depth; `indent` is the indent marker of that depth.
pub fn modify_text_content(
    items: Vec<ContentItem>,
    author: &str,
    created_at: u64,
    indent: &str,
) -> (out: Vec<ContentItem>)
    ensures
        items_view(out@) == tagged_items(
            items_view(items@),
            indent@ + "["@ + comment_stamp(created_at) + "]["@ + author@ + "] "@,
        ),
{
    let mut tag = owned(indent);
    tag.append("[");
    tag.append(comment_time(created_at).as_str());
    tag.append("][");
    tag.append(author);
    tag.append("] ");
    let ghost all = items@;
    let mut out: Vec<ContentItem> = Vec::new();
    for item in it: items
        invariant
            it.seq() == all,
            out@.len() == it.index(),
            forall|j: int|
                0 <= j < it.index() ==> item_view(#[trigger] out@[j]) == tagged(
                    item_view(all[j]),
                    tag@,
                ),
    {
        let t = tag_item(item, tag.as_str());
        out.push(t);
    }
    proof {
        lemma_items_view(out@);
        lemma_items_view(all);
        assert(out@.len() == all.len());
        let want = tagged_items(items_view(all), tag@);
        assert forall|j: int| 0 <= j < out@.len() implies items_view(out@)[j] == want[j] by {
            assert(item_view(out@[j]) == tagged(item_view(all[j]), tag@));
            assert(items_view(all)[j] == item_view(all[j]));
        }
        assert(items_view(out@) =~= want);
    }
    out
}

/// The indent marker one level deeper.
fn deeper(indent: &str, Ghost(depth): Ghost<nat>) -> (r: String)
    requires
        indent@ == self::indent(depth),
    ensures
        r@ == self::indent(depth + 1),
{
    let mut r = owned(indent);
    r.append("↳");
    proof {
        reveal_strlit("↳");
        assert(r@ =~= self::indent(depth + 1));
    }
    r
}

/// Appends to `out` the items of `comment`, which stands at depth `depth`,
/// and of the replies below it.
fn collect_items_from_comment(
    comment: Comment,
    indent: &str,
    Ghost(depth): Ghost<nat>,
    out: &mut Vec<ContentItem>,
)
    requires
        indent@ == self::indent(depth),
    ensures
        items_view(final(out)@) == items_view(old(out)@) + flatten_comment(
            comment_view(comment),
            depth,
        ),
    decreases comment, 1nat,
{
    let ghost start = items_view(out@);
    let Comment { author, created_at, items, not_available: _, replies } = comment;
    let own = modify_text_content(items, author.as_str(), created_at, indent);
    append_items(out, own);
    let next = deeper(indent, Ghost(depth));
    collect_items_from_replies(replies, next.as_str(), Ghost(depth + 1), out);
    proof {
        assert(items_view(out@) =~= start + flatten_comment(comment_view(comment), depth));
    }
}

/// Appends to `out` the items of `replies`, which stand at depth `depth`.
fn collect_items_from_replies(
    replies: Vec<Comment>,
    indent: &str,
    Ghost(depth): Ghost<nat>,
    out: &mut Vec<ContentItem>,
)
    requires
        indent@ == self::indent(depth),
    ensures
        items_view(final(out)@) == items_view(old(out)@) + flatten_replies(
            comments_view(replies@),
            depth,
        ),
    decreases replies, 1nat,
{
    let ghost all = replies@;
    assert(all.take(0) =~= Seq::<Comment>::empty());
    assert(items_view(out@) =~= items_view(old(out)@) + flatten_replies(
        comments_view(all.take(0)),
        depth,
    ));
    for reply in it: replies
        invariant
            it.seq() == all,
            indent@ == self::indent(depth),
            items_view(out@) == items_view(old(out)@) + flatten_replies(
                comments_view(all.take(it.index() as int)),
                depth,
            ),
    {
        let ghost i = it.index() as int;
        proof {
            assert(all.take(i + 1) =~= all.take(i).push(reply));
            assert(all.take(i + 1).drop_last() =~= all.take(i));
            let grown = comments_view(all.take(i)).push(comment_view(reply));
            assert(grown.drop_last() =~= comments_view(all.take(i)));
        }
        collect_items_from_comment(reply, indent, Ghost(depth), out);
        assert(items_view(out@) =~= items_view(old(out)@) + flatten_replies(
            comments_view(all.take(i + 1)),
            depth,
        ));
    }
    assert(all.take(all.len() as int) =~= all);
}

/// Moves the items of `more` to the end of `out`.
fn append_items(out: &mut Vec<ContentItem>, more: Vec<ContentItem>)
    ensures
        items_view(final(out)@) == items_view(old(out)@) + items_view(more@),
{
    let ghost all = more@;
    assert(all.take(0) =~= Seq::<ContentItem>::empty());
    assert(items_view(out@) =~= items_view(old(out)@) + items_view(all.take(0)));
    for item in it: more
        invariant
            it.seq() == all,
            items_view(out@) == items_view(old(out)@) + items_view(all.take(it.index() as int)),
    {
        let ghost i = it.index() as int;
        let ghost before = out@;
        out.push(item);
        proof {
            lemma_items_view_push(before, item);
            assert(all.take(i + 1) =~= all.take(i).push(item));
            lemma_items_view_push(all.take(i), item);
            assert(items_view(out@) =~= items_view(old(out)@) + items_view(all.take(i + 1)));
        }
    }
    assert(all.take(all.len() as int) =~= all);
}

/// Whether a thread has anything to process.
pub fn check_available_comments(comments: &Vec<Comment>) -> (r: bool)
    ensures
        r == thread_is_available(comments_view(comments@)),
{
    proof {
        lemma_comments_view(comments@);
    }
    let mut i: usize = 0;
    while i < comments.len()
        invariant
            i <= comments.len(),
            comments_view(comments@).len() == comments.len(),
            forall|j: int|
                0 <= j < comments.len() ==> comments_view(comments@)[j] == comment_view(
                    #[trigger] comments@[j],
                ),
            forall|j: int| 0 <= j < i ==> (#[trigger] comments_view(comments@)[j]).not_available,
        decreases comments.len() - i,
    {
        if !comments[i].not_available {
            assert(!comments_view(comments@)[i as int].not_available);
            return true;
        }
        i = i + 1;
    }
    false
}

/// Flattens a thread of comments into the content items to process, in
/// reading order: each comment before its replies, depth first.
pub fn flatten_comments(comments: Vec<Comment>) -> (out: Vec<ContentItem>)
    ensures
        items_view(out@) == flatten_thread(comments_view(comments@)),
{
    let mut out: Vec<ContentItem> = Vec::new();
    let root = String::new();
    assert(root@ =~= indent(0));
    let ghost all = comments@;
    assert(all.take(0) =~= Seq::<Comment>::empty());
    assert(items_view(out@) =~= flatten_thread(comments_view(all.take(0))));
    for comment in it: comments
        invariant
            it.seq() == all,
            root@ == indent(0),
            items_view(out@) == flatten_thread(comments_view(all.take(it.index() as int))),
    {
        let ghost i = it.index() as int;
        proof {
            assert(all.take(i + 1) =~= all.take(i).push(comment));
            assert(all.take(i + 1).drop_last() =~= all.take(i));
            let grown = comments_view(all.take(i)).push(comment_view(comment));
            assert(grown.drop_last() =~= comments_view(all.take(i)));
            assert(comment_view(comment).not_available == comment.not_available);
        }
        if !comment.not_available {
            collect_items_from_comment(comment, root.as_str(), Ghost(0), &mut out);
        }
        assert(items_view(out@) =~= flatten_thread(comments_view(all.take(i + 1))));
    }
    assert(all.take(all.len() as int) =~= all);
    out
}

/// The actions for a thread of comments: `None` where the thread has nothing
/// to process, so that nothing is touched for it; else the actions for its
/// flattened items. Comments carry no authorization suffix.
pub fn plan_thread(comments: Vec<Comment>) -> (plan: Option<Vec<ItemAction>>)
    ensures
        plan is Some == thread_is_available(comments_view(comments@)),
        plan matches Some(actions) ==> action_views(actions@) == content_plan(
            flatten_thread(comments_view(comments@)),
            None,
        ),
{
    if !check_available_comments(&comments) {
        return None;
    }
    let items = flatten_comments(comments);
    Some(process_content_items(items, None))
}

} // verus!
