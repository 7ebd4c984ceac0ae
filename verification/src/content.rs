//! The content tree: its items, their mathematical form, and the order in
//! which they are processed.

use vstd::prelude::*;

verus! {

/// One unit of a post's or a comment's content.
#[derive(Debug, PartialEq, Eq)]
pub enum ContentItem {
    /// A picture, saved under its identifier.
    Image { url: String, id: String },
    /// A video hosted elsewhere; it is embedded, not downloaded.
    Video { url: String },
    /// A downloadable video with its title and video identifier.
    OkVideo { url: String, title: String, vid: String },
    /// An audio file; its download may need authorization.
    Audio { url: String, title: String },
    /// A text fragment: `content` is a JSON array whose first element is the
    /// text; `modificator` is an out-of-band tag.
    Text { modificator: String, content: String },
    /// A small picture standing for an emotion.
    Smile { url: String, name: String },
    /// A text fragment that points to a URL.
    Link { content: String, url: String },
    /// An attached file; its download may need authorization.
    File { url: String, title: String },
    /// Groups of nested items.
    List { items: Vec<Vec<ContentItem>> },
    /// An item of a shape that is not recognized.
    Unknown,
}

/// The mathematical form of `ContentItem`.
pub enum ContentItemView {
    Image { url: Seq<char>, id: Seq<char> },
    Video { url: Seq<char> },
    OkVideo { url: Seq<char>, title: Seq<char>, vid: Seq<char> },
    Audio { url: Seq<char>, title: Seq<char> },
    Text { modificator: Seq<char>, content: Seq<char> },
    Smile { url: Seq<char>, name: Seq<char> },
    Link { content: Seq<char>, url: Seq<char> },
    File { url: Seq<char>, title: Seq<char> },
    List { items: Seq<Seq<ContentItemView>> },
    Unknown,
}

/// The mathematical form of one item.
pub open spec fn item_view(item: ContentItem) -> ContentItemView
    decreases item, 0nat,
{
    match item {
        ContentItem::Image { url, id } => ContentItemView::Image { url: url@, id: id@ },
        ContentItem::Video { url } => ContentItemView::Video { url: url@ },
        ContentItem::OkVideo { url, title, vid } => ContentItemView::OkVideo {
            url: url@,
            title: title@,
            vid: vid@,
        },
        ContentItem::Audio { url, title } => ContentItemView::Audio { url: url@, title: title@ },
        ContentItem::Text { modificator, content } => ContentItemView::Text {
            modificator: modificator@,
            content: content@,
        },
        ContentItem::Smile { url, name } => ContentItemView::Smile { url: url@, name: name@ },
        ContentItem::Link { content, url } => ContentItemView::Link {
            content: content@,
            url: url@,
        },
        ContentItem::File { url, title } => ContentItemView::File { url: url@, title: title@ },
        ContentItem::List { items } => ContentItemView::List { items: groups_view(items@) },
        ContentItem::Unknown => ContentItemView::Unknown,
    }
}

/// The mathematical form of a sequence of items.
pub open spec fn items_view(items: Seq<ContentItem>) -> Seq<ContentItemView>
    decreases items, 0nat,
{
    if items.len() == 0 {
        Seq::empty()
    } else {
        items_view(items.drop_last()).push(item_view(items.last()))
    }
}

/// The mathematical form of the groups of a list.
pub open spec fn groups_view(groups: Seq<Vec<ContentItem>>) -> Seq<Seq<ContentItemView>>
    decreases groups, 0nat,
{
    if groups.len() == 0 {
        Seq::empty()
    } else {
        groups_view(groups.drop_last()).push(items_view(groups.last()@))
    }
}

impl View for ContentItem {
    type V = ContentItemView;

    open spec fn view(&self) -> ContentItemView {
        item_view(*self)
    }
}

/// The form of a sequence of items holds the form of each item at its place.
pub proof fn lemma_items_view(items: Seq<ContentItem>)
    ensures
        items_view(items).len() == items.len(),
        forall|i: int| 0 <= i < items.len() ==> items_view(items)[i] == item_view(#[trigger] items[i]),
    decreases items.len(),
{
    if items.len() > 0 {
        lemma_items_view(items.drop_last());
        assert forall|i: int| 0 <= i < items.len() implies items_view(items)[i] == item_view(
            #[trigger] items[i],
        ) by {
            if i < items.len() - 1 {
                assert(items.drop_last()[i] == items[i]);
            }
        }
    }
}

/// The form of a sequence with one more item.
pub proof fn lemma_items_view_push(items: Seq<ContentItem>, item: ContentItem)
    ensures
        items_view(items.push(item)) == items_view(items).push(item_view(item)),
{
    assert(items.push(item).drop_last() =~= items);
}

/// The form of a list with one more group.
pub proof fn lemma_groups_view_push(groups: Seq<Vec<ContentItem>>, group: Vec<ContentItem>)
    ensures
        groups_view(groups.push(group)) == groups_view(groups).push(items_view(group@)),
{
    assert(groups.push(group).drop_last() =~= groups);
}

/// The items of `items` in processing order: depth first, every list
/// replaced, in place, by the items of its groups, group after group.
pub open spec fn linearize(items: Seq<ContentItemView>) -> Seq<ContentItemView>
    decreases items, 0nat,
{
    if items.len() == 0 {
        Seq::empty()
    } else {
        linearize(items.drop_last()) + linearize_item(items.last())
    }
}

/// The items of a list's groups in processing order.
pub open spec fn linearize_groups(groups: Seq<Seq<ContentItemView>>) -> Seq<ContentItemView>
    decreases groups, 0nat,
{
    if groups.len() == 0 {
        Seq::empty()
    } else {
        linearize_groups(groups.drop_last()) + linearize(groups.last())
    }
}

/// A list stands for the items of its groups; any other item for itself.
pub open spec fn linearize_item(item: ContentItemView) -> Seq<ContentItemView>
    decreases item, 0nat,
{
    match item {
        ContentItemView::List { items } => linearize_groups(items),
        _ => seq![item],
    }
}

/// Processing order respects concatenation: what stands in `a` is processed
/// before what stands in `b`.
pub proof fn lemma_linearize_concat(a: Seq<ContentItemView>, b: Seq<ContentItemView>)
    ensures
        linearize(a + b) == linearize(a) + linearize(b),
    decreases b.len(),
{
    if b.len() == 0 {
        assert(a + b =~= a);
        assert(linearize(a) + linearize(b) =~= linearize(a));
    } else {
        lemma_linearize_concat(a, b.drop_last());
        assert((a + b).drop_last() =~= a + b.drop_last());
        assert((a + b).last() == b.last());
        assert(linearize(a + b) =~= linearize(a) + linearize(b));
    }
}

/// The groups of a list are processed one after the other.
pub proof fn lemma_linearize_groups_concat(
    a: Seq<Seq<ContentItemView>>,
    b: Seq<Seq<ContentItemView>>,
)
    ensures
        linearize_groups(a + b) == linearize_groups(a) + linearize_groups(b),
    decreases b.len(),
{
    if b.len() == 0 {
        assert(a + b =~= a);
        assert(linearize_groups(a) + linearize_groups(b) =~= linearize_groups(a));
    } else {
        lemma_linearize_groups_concat(a, b.drop_last());
        assert((a + b).drop_last() =~= a + b.drop_last());
        assert((a + b).last() == b.last());
        assert(linearize_groups(a + b) =~= linearize_groups(a) + linearize_groups(b));
    }
}

/// A sequence of one item is processed as that item.
pub proof fn lemma_linearize_one(item: ContentItemView)
    ensures
        linearize(seq![item]) == linearize_item(item),
{
    let s = seq![item];
    assert(s.drop_last() =~= Seq::<ContentItemView>::empty());
    assert(linearize(s.drop_last()) =~= Seq::<ContentItemView>::empty());
    assert(s.last() == item);
    assert(linearize(s) =~= linearize_item(item));
}

/// A list of one group is processed as that group.
pub proof fn lemma_linearize_one_group(group: Seq<ContentItemView>)
    ensures
        linearize_groups(seq![group]) == linearize(group),
{
    let s = seq![group];
    assert(s.drop_last() =~= Seq::<Seq<ContentItemView>>::empty());
    assert(linearize_groups(s.drop_last()) =~= Seq::<ContentItemView>::empty());
    assert(s.last() == group);
    assert(linearize_groups(s) =~= linearize(group));
}

/// The order of processing around a list: first what stands before the list,
/// then the items of its groups, group after group and each group in its own
/// order, then what stands after the list.
pub proof fn lemma_list_is_processed_in_place(
    before: Seq<ContentItemView>,
    groups: Seq<Seq<ContentItemView>>,
    after: Seq<ContentItemView>,
)
    ensures
        linearize(before + seq![ContentItemView::List { items: groups }] + after) == linearize(
            before,
        ) + linearize_groups(groups) + linearize(after),
{
    let list = ContentItemView::List { items: groups };
    lemma_linearize_concat(before + seq![list], after);
    lemma_linearize_concat(before, seq![list]);
    lemma_linearize_one(list);
}

/// Items that are no lists are processed one by one, in their order.
pub proof fn lemma_linearize_without_lists(items: Seq<ContentItemView>)
    requires
        forall|i: int| 0 <= i < items.len() ==> !(#[trigger] items[i] is List),
    ensures
        linearize(items) == items,
    decreases items.len(),
{
    if items.len() == 0 {
        assert(linearize(items) =~= items);
    } else {
        let init = items.drop_last();
        assert forall|i: int| 0 <= i < init.len() implies !(#[trigger] init[i] is List) by {
            assert(init[i] == items[i]);
        }
        lemma_linearize_without_lists(init);
        assert(!(items[items.len() - 1] is List));
        assert(linearize_item(items.last()) =~= seq![items.last()]);
        assert(init + seq![items.last()] =~= items);
    }
}

/// A list of two groups between two items: where none of the items is
/// itself a list, the item before the list is processed first, then the items
/// of the first group in their order, then those of the second group, then
/// the item after the list.
pub proof fn lemma_groups_are_processed_in_order(
    x: ContentItemView,
    a: ContentItemView,
    b: ContentItemView,
    c: ContentItemView,
    y: ContentItemView,
)
    requires
        !(x is List),
        !(a is List),
        !(b is List),
        !(c is List),
        !(y is List),
    ensures
        linearize(seq![x, ContentItemView::List { items: seq![seq![a, b], seq![c]] }, y]) == seq![
            x,
            a,
            b,
            c,
            y,
        ],
{
    let first = seq![a, b];
    let second = seq![c];
    let groups = seq![first, second];
    let list = ContentItemView::List { items: groups };
    lemma_list_is_processed_in_place(seq![x], groups, seq![y]);
    lemma_linearize_without_lists(seq![x]);
    lemma_linearize_without_lists(seq![y]);
    lemma_linearize_without_lists(first);
    lemma_linearize_without_lists(second);
    lemma_linearize_one_group(first);
    lemma_linearize_one_group(second);
    lemma_linearize_groups_concat(seq![first], seq![second]);
    assert(seq![first] + seq![second] =~= groups);
    assert(seq![x] + seq![list] + seq![y] =~= seq![x, list, y]);
    assert(seq![x] + (first + second) + seq![y] =~= seq![x, a, b, c, y]);
}

/// No list is left in the processing order.
pub proof fn lemma_linearize_has_no_list(items: Seq<ContentItemView>, i: int)
    requires
        0 <= i < linearize(items).len(),
    ensures
        !(linearize(items)[i] is List),
    decreases items, 1nat,
{
    if items.len() > 0 {
        let head = linearize(items.drop_last());
        let tail = linearize_item(items.last());
        assert(linearize(items) == head + tail);
        if i < head.len() {
            lemma_linearize_has_no_list(items.drop_last(), i);
        } else {
            assert(linearize(items)[i] == tail[i - head.len()]);
            match items.last() {
                ContentItemView::List { items: groups } => {
                    lemma_linearize_groups_have_no_list(groups, i - head.len());
                },
                _ => {},
            }
        }
    }
}

/// No list is left in the processing order of a list's groups.
pub proof fn lemma_linearize_groups_have_no_list(groups: Seq<Seq<ContentItemView>>, i: int)
    requires
        0 <= i < linearize_groups(groups).len(),
    ensures
        !(linearize_groups(groups)[i] is List),
    decreases groups, 1nat,
{
    if groups.len() > 0 {
        let head = linearize_groups(groups.drop_last());
        let tail = linearize(groups.last());
        assert(linearize_groups(groups) == head + tail);
        if i < head.len() {
            lemma_linearize_groups_have_no_list(groups.drop_last(), i);
        } else {
            assert(linearize_groups(groups)[i] == tail[i - head.len()]);
            lemma_linearize_has_no_list(groups.last(), i - head.len());
        }
    }
}

/// Appends the items of `items` to `out` in processing order.
pub fn flatten_into(items: Vec<ContentItem>, out: &mut Vec<ContentItem>)
    ensures
        items_view(final(out)@) == items_view(old(out)@) + linearize(items_view(items@)),
    decreases items, 1nat,
{
    let ghost all = items@;
    assert(all.take(0) =~= Seq::<ContentItem>::empty());
    assert(items_view(out@) =~= items_view(old(out)@) + linearize(items_view(all.take(0))));
    for item in it: items
        invariant
            it.seq() == all,
            items_view(out@) == items_view(old(out)@) + linearize(
                items_view(all.take(it.index() as int)),
            ),
    {
        let ghost i = it.index() as int;
        let ghost before = out@;
        proof {
            assert(all.take(i + 1) =~= all.take(i).push(item));
            lemma_items_view_push(all.take(i), item);
            let grown = items_view(all.take(i)).push(item_view(item));
            assert(grown.drop_last() =~= items_view(all.take(i)));
            assert(grown.last() == item_view(item));
        }
        match item {
            ContentItem::List { items: groups } => {
                flatten_groups_into(groups, out);
            },
            other => {
                out.push(other);
                proof {
                    lemma_items_view_push(before, other);
                    assert(items_view(out@) =~= items_view(before) + seq![item_view(other)]);
                }
            },
        }
        assert(items_view(out@) =~= items_view(before) + linearize_item(item_view(item)));
        assert(items_view(out@) =~= items_view(old(out)@) + linearize(
            items_view(all.take(i + 1)),
        ));
    }
    assert(all.take(all.len() as int) =~= all);
}

/// Appends the items of a list's groups to `out` in processing order.
pub fn flatten_groups_into(groups: Vec<Vec<ContentItem>>, out: &mut Vec<ContentItem>)
    ensures
        items_view(final(out)@) == items_view(old(out)@) + linearize_groups(groups_view(groups@)),
    decreases groups, 1nat,
{
    let ghost all = groups@;
    assert(all.take(0) =~= Seq::<Vec<ContentItem>>::empty());
    assert(items_view(out@) =~= items_view(old(out)@) + linearize_groups(
        groups_view(all.take(0)),
    ));
    for group in it: groups
        invariant
            it.seq() == all,
            items_view(out@) == items_view(old(out)@) + linearize_groups(
                groups_view(all.take(it.index() as int)),
            ),
    {
        let ghost i = it.index() as int;
        let ghost before = out@;
        proof {
            assert(all.take(i + 1) =~= all.take(i).push(group));
            lemma_groups_view_push(all.take(i), group);
            let grown = groups_view(all.take(i)).push(items_view(group@));
            assert(grown.drop_last() =~= groups_view(all.take(i)));
            assert(grown.last() == items_view(group@));
        }
        flatten_into(group, out);
        assert(items_view(out@) =~= items_view(old(out)@) + linearize_groups(
            groups_view(all.take(i + 1)),
        ));
    }
    assert(all.take(all.len() as int) =~= all);
}

/// The items of a content tree in the order in which they are processed.
pub fn linearize_items(items: Vec<ContentItem>) -> (out: Vec<ContentItem>)
    ensures
        items_view(out@) == linearize(items_view(items@)),
        forall|i: int| 0 <= i < out@.len() ==> !(#[trigger] out@[i] is List),
{
    let mut out: Vec<ContentItem> = Vec::new();
    flatten_into(items, &mut out);
    proof {
        assert(items_view(out@) =~= linearize(items_view(items@)));
        lemma_items_view(out@);
        assert forall|i: int| 0 <= i < out@.len() implies !(#[trigger] out@[i] is List) by {
            lemma_linearize_has_no_list(items_view(items@), i);
            assert(items_view(out@)[i] == item_view(out@[i]));
        }
    }
    out
}

} // verus!
