//! The content tree walker: what is to be done for each item of a content
//! tree, in processing order.

use crate::content::{
    item_view, items_view, lemma_items_view, linearize, linearize_items, ContentItem,
    ContentItemView,
};
use crate::download::{attempt_view, Attempt, AttemptView, DownloadResult, DownloadResultView};
use crate::names::{sanitize_name, sanitized};
use crate::outside::{json_array_strings, read_json_array};
use crate::text::{
    contains, lemma_replace_all_absent, opt_str, opt_text, opt_texts, owned, replace_all, replaced,
    text_contains, text_equal,
};
use vstd::prelude::*;
use vstd::string::StringExecFns;

verus! {

/// The tag of a text item that stands for a paragraph break.
pub open spec fn block_end() -> Seq<char> {
    "BLOCK_END"@
}

/// The first element of a JSON array of strings, where there is one, it is
/// a string, and that string is not empty.
pub open spec fn first_text(parsed: Option<Seq<Option<Seq<char>>>>) -> Option<Seq<char>> {
    match parsed {
        Some(elements) => if elements.len() > 0 && elements[0] is Some && elements[0]->0.len()
            > 0 {
            elements[0]
        } else {
            None
        },
        None => None,
    }
}

/// The text that a text item contributes: a line break for a paragraph
/// break, else the first string of its JSON content.
pub open spec fn text_content(content: Seq<char>, modificator: Seq<char>) -> Option<Seq<char>> {
    if modificator == block_end() {
        Some("\n"@)
    } else {
        first_text(json_array_strings(content))
    }
}

/// The text that a link item contributes: the first string of its JSON
/// content, followed by the URL in parentheses.
pub open spec fn link_content(content: Seq<char>, url: Seq<char>) -> Option<Seq<char>> {
    match first_text(json_array_strings(content)) {
        Some(text) => Some(text + " ("@ + url + ")"@),
        None => None,
    }
}

/// Picks the text out of a parsed JSON array.
pub fn first_text_of(parsed: Option<Vec<Option<String>>>) -> (r: Option<String>)
    ensures
        opt_text(r) == first_text(
            match parsed {
                Some(v) => Some(opt_texts(v@)),
                None => None,
            },
        ),
{
    match parsed {
        Some(mut elements) => {
            if elements.len() == 0 {
                return None;
            }
            let ghost all = elements@;
            let first = elements.swap_remove(0);
            assert(opt_texts(all)[0] == opt_text(first));
            match first {
                Some(text) => {
                    if text.as_str().is_empty() {
                        None
                    } else {
                        Some(text)
                    }
                },
                None => None,
            }
        },
        None => None,
    }
}

/// Reads the text of a text item.
pub fn parse_text_content(content: &str, modificator: &str) -> (r: Option<String>)
    ensures
        opt_text(r) == text_content(content@, modificator@),
{
    if text_equal(modificator, "BLOCK_END") {
        return Some(owned("\n"));
    }
    first_text_of(read_json_array(content))
}

/// Reads the text of a link item.
pub fn parse_link_content(content: &str, url: &str) -> (r: Option<String>)
    ensures
        opt_text(r) == link_content(content@, url@),
{
    match first_text_of(read_json_array(content)) {
        Some(text) => {
            let mut line = text;
            line.append(" (");
            line.append(url);
            line.append(")");
            Some(line)
        },
        None => None,
    }
}

/// The placeholder that stands, in an embedding fragment, for the path of
/// the downloaded file.
pub open spec fn rel_placeholder() -> Seq<char> {
    "{rel}"@
}

/// The address under which a video can be embedded: a watch-page address is
/// turned into the embed address of the same video.
pub open spec fn embed_url(url: Seq<char>) -> Seq<char> {
    if contains(url, "youtube.com/watch?v="@) {
        replace_all(url, "youtube.com/watch?v="@, "youtube.com/embed/"@)
    } else if contains(url, "youtu.be/"@) {
        replace_all(url, "youtu.be/"@, "youtube.com/embed/"@)
    } else {
        url
    }
}

/// Turns the address of a video into the address under which it is embedded.
pub fn video_embed_url(url: &str) -> (r: String)
    ensures
        r@ == embed_url(url@),
{
    if text_contains(url, "youtube.com/watch?v=") {
        replaced(url, "youtube.com/watch?v=", "youtube.com/embed/")
    } else if text_contains(url, "youtu.be/") {
        replaced(url, "youtu.be/", "youtube.com/embed/")
    } else {
        owned(url)
    }
}

/// The fragment that embeds a picture.
pub open spec fn image_fragment(id: Seq<char>) -> Seq<char> {
    "<img src=\"{rel}\" alt=\""@ + id + "\" class=\"thumbnail\">\n"@
}

/// The fragment that embeds a video hosted elsewhere.
pub open spec fn video_fragment(embed: Seq<char>) -> Seq<char> {
    "<iframe src=\""@ + embed + "\" frameborder=\"0\" allowfullscreen></iframe>\n"@
}

/// The fragment that embeds a downloaded video.
pub open spec fn ok_video_fragment() -> Seq<char> {
    "<video controls>\n  <source src=\"{rel}\" type=\"video/mp4\">\n  Ваш браузер не поддерживает видео.\n</video>\n"@
}

/// The fragment that embeds an audio file.
pub open spec fn audio_fragment() -> Seq<char> {
    "<audio controls>\n  <source src=\"{rel}\" type=\"audio/mpeg\">\n  Ваш браузер не поддерживает аудио.\n</audio>\n"@
}

/// The fragment that links to a downloaded file.
pub open spec fn file_fragment(title: Seq<char>) -> Seq<char> {
    "<a href=\"{rel}\" download>"@ + title + "</a>\n"@
}

/// The fragment that embeds a smile.
pub open spec fn smile_fragment(name: Seq<char>) -> Seq<char> {
    "!["@ + name + "]({rel})\n"@
}

/// What is to be done for one item of the processing order.
#[derive(Debug, PartialEq, Eq)]
pub enum ItemAction {
    /// Fetch `url`, with the authorization suffix where one is asked for,
    /// into the file named after `file_name`; then add `fragment` to the
    /// document, its placeholder resolved. `label` names the item in reports.
    Asset {
        url: String,
        file_name: String,
        fragment: String,
        signed_query: Option<String>,
        label: String,
    },
    /// Add `text` to the document.
    Text { text: String, modificator: Option<String> },
    /// Report that an item of unknown shape was met.
    Notice,
    /// Nothing is written and nothing is reported.
    Nothing,
}

/// The mathematical form of `ItemAction`.
pub enum ItemActionView {
    Asset {
        url: Seq<char>,
        file_name: Seq<char>,
        fragment: Seq<char>,
        signed_query: Option<Seq<char>>,
        label: Seq<char>,
    },
    Text { text: Seq<char>, modificator: Option<Seq<char>> },
    Notice,
    Nothing,
}

impl View for ItemAction {
    type V = ItemActionView;

    open spec fn view(&self) -> ItemActionView {
        match *self {
            ItemAction::Asset { url, file_name, fragment, signed_query, label } => {
                ItemActionView::Asset {
                    url: url@,
                    file_name: file_name@,
                    fragment: fragment@,
                    signed_query: opt_text(signed_query),
                    label: label@,
                }
            },
            ItemAction::Text { text, modificator } => ItemActionView::Text {
                text: text@,
                modificator: opt_text(modificator),
            },
            ItemAction::Notice => ItemActionView::Notice,
            ItemAction::Nothing => ItemActionView::Nothing,
        }
    }
}

/// What is to be done for `item`, given the authorization suffix of the post
/// (`None` where no authorization is asked for).
///
/// Pictures, videos with a file, audio, files and smiles are assets; only
/// audio and files carry the authorization suffix. An embedded video, a text
/// and a link are text; a text or a link whose content cannot be read is
/// nothing. A list is nothing by itself: its items stand in the processing
/// order in its place.
pub open spec fn item_action(
    item: ContentItemView,
    signed_query: Option<Seq<char>>,
) -> ItemActionView {
    match item {
        ContentItemView::Image { url, id } => ItemActionView::Asset {
            url: url,
            file_name: id + ".jpg"@,
            fragment: image_fragment(id),
            signed_query: None,
            label: id,
        },
        ContentItemView::Video { url } => ItemActionView::Text {
            text: video_fragment(embed_url(url)),
            modificator: None,
        },
        ContentItemView::OkVideo { url, title, vid } => ItemActionView::Asset {
            url: url,
            file_name: title + "("@ + vid + ").mp4"@,
            fragment: ok_video_fragment(),
            signed_query: None,
            label: title + "("@ + vid + ").mp4"@,
        },
        ContentItemView::Audio { url, title } => ItemActionView::Asset {
            url: url,
            file_name: title,
            fragment: audio_fragment(),
            signed_query: signed_query,
            label: title,
        },
        ContentItemView::File { url, title } => ItemActionView::Asset {
            url: url,
            file_name: title,
            fragment: file_fragment(title),
            signed_query: signed_query,
            label: title,
        },
        ContentItemView::Text { modificator, content } => match text_content(
            content,
            modificator,
        ) {
            Some(text) => ItemActionView::Text { text: text, modificator: Some(modificator) },
            None => ItemActionView::Nothing,
        },
        ContentItemView::Smile { url, name } => ItemActionView::Asset {
            url: url,
            file_name: name + ".png"@,
            fragment: smile_fragment(name),
            signed_query: None,
            label: name,
        },
        ContentItemView::Link { content, url } => match link_content(content, url) {
            Some(text) => ItemActionView::Text { text: text, modificator: None },
            None => ItemActionView::Nothing,
        },
        ContentItemView::List { .. } => ItemActionView::Nothing,
        ContentItemView::Unknown => ItemActionView::Notice,
    }
}

fn owned_option(o: Option<&str>) -> (r: Option<String>)
    ensures
        opt_text(r) == opt_str(o),
{
    match o {
        Some(s) => Some(owned(s)),
        None => None,
    }
}

/// Decides what is to be done for one item.
pub fn plan_item(item: &ContentItem, signed_query: Option<&str>) -> (action: ItemAction)
    ensures
        action@ == item_action(item@, opt_str(signed_query)),
{
    match item {
        ContentItem::Image { url, id } => {
            let mut file_name = id.clone();
            file_name.append(".jpg");
            let mut fragment = owned("<img src=\"{rel}\" alt=\"");
            fragment.append(id.as_str());
            fragment.append("\" class=\"thumbnail\">\n");
            ItemAction::Asset {
                url: url.clone(),
                file_name,
                fragment,
                signed_query: None,
                label: id.clone(),
            }
        },
        ContentItem::Video { url } => {
            let embed = video_embed_url(url.as_str());
            let mut text = owned("<iframe src=\"");
            text.append(embed.as_str());
            text.append("\" frameborder=\"0\" allowfullscreen></iframe>\n");
            ItemAction::Text { text, modificator: None }
        },
        ContentItem::OkVideo { url, title, vid } => {
            let mut file_name = title.clone();
            file_name.append("(");
            file_name.append(vid.as_str());
            file_name.append(").mp4");
            let label = file_name.clone();
            ItemAction::Asset {
                url: url.clone(),
                file_name,
                fragment: owned(
                    "<video controls>\n  <source src=\"{rel}\" type=\"video/mp4\">\n  Ваш браузер не поддерживает видео.\n</video>\n",
                ),
                signed_query: None,
                label,
            }
        },
        ContentItem::Audio { url, title } => ItemAction::Asset {
            url: url.clone(),
            file_name: title.clone(),
            fragment: owned(
                "<audio controls>\n  <source src=\"{rel}\" type=\"audio/mpeg\">\n  Ваш браузер не поддерживает аудио.\n</audio>\n",
            ),
            signed_query: owned_option(signed_query),
            label: title.clone(),
        },
        ContentItem::File { url, title } => {
            let mut fragment = owned("<a href=\"{rel}\" download>");
            fragment.append(title.as_str());
            fragment.append("</a>\n");
            ItemAction::Asset {
                url: url.clone(),
                file_name: title.clone(),
                fragment,
                signed_query: owned_option(signed_query),
                label: title.clone(),
            }
        },
        ContentItem::Text { modificator, content } => {
            match parse_text_content(content.as_str(), modificator.as_str()) {
                Some(text) => ItemAction::Text { text, modificator: Some(modificator.clone()) },
                None => ItemAction::Nothing,
            }
        },
        ContentItem::Smile { url, name } => {
            let mut file_name = name.clone();
            file_name.append(".png");
            let mut fragment = owned("![");
            fragment.append(name.as_str());
            fragment.append("]({rel})\n");
            ItemAction::Asset {
                url: url.clone(),
                file_name,
                fragment,
                signed_query: None,
                label: name.clone(),
            }
        },
        ContentItem::Link { content, url } => {
            match parse_link_content(content.as_str(), url.as_str()) {
                Some(text) => ItemAction::Text { text, modificator: None },
                None => ItemAction::Nothing,
            }
        },
        ContentItem::List { .. } => ItemAction::Nothing,
        ContentItem::Unknown => ItemAction::Notice,
    }
}

/// The actions for a content tree: one for each item of its processing
/// order, in that order.
pub open spec fn content_plan(
    items: Seq<ContentItemView>,
    signed_query: Option<Seq<char>>,
) -> Seq<ItemActionView> {
    linearize(items).map_values(|item: ContentItemView| item_action(item, signed_query))
}

/// The views of a sequence of actions.
pub open spec fn action_views(actions: Seq<ItemAction>) -> Seq<ItemActionView> {
    actions.map_values(|a: ItemAction| a@)
}

/// Walks a content tree: linearizes it and decides, item by item and in
/// processing order, what is to be done.
pub fn process_content_items(items: Vec<ContentItem>, signed_query: Option<&str>) -> (plan: Vec<
    ItemAction,
>)
    ensures
        action_views(plan@) == content_plan(items_view(items@), opt_str(signed_query)),
{
    let order = linearize_items(items);
    let mut plan: Vec<ItemAction> = Vec::new();
    let mut i: usize = 0;
    while i < order.len()
        invariant
            i <= order.len(),
            plan@.len() == i,
            forall|j: int|
                0 <= j < i ==> (#[trigger] plan@[j])@ == item_action(
                    item_view(order@[j]),
                    opt_str(signed_query),
                ),
        decreases order.len() - i,
    {
        let action = plan_item(&order[i], signed_query);
        plan.push(action);
        i = i + 1;
    }
    proof {
        lemma_items_view(order@);
        assert(action_views(plan@) =~= items_view(order@).map_values(
            |item: ContentItemView| item_action(item, opt_str(signed_query)),
        ));
    }
    plan
}

/// The embedding fragment of an asset with its placeholder resolved to the
/// name under which the asset is stored.
pub open spec fn resolved_fragment(fragment: Seq<char>, file_name: Seq<char>) -> Seq<char> {
    replace_all(fragment, rel_placeholder(), sanitized(file_name))
}

/// What follows the download of an asset.
#[derive(Debug, PartialEq, Eq)]
pub enum AssetFollowUp {
    /// The asset is in place: add this text to the document.
    Embed { text: String },
    /// The download failed: report this message and go on with the next item.
    Report { message: String },
    /// The download could not be carried out: give up the walk with this
    /// message.
    Abort { message: String },
}

/// The mathematical form of `AssetFollowUp`.
pub enum AssetFollowUpView {
    Embed { text: Seq<char> },
    Report { message: Seq<char> },
    Abort { message: Seq<char> },
}

impl View for AssetFollowUp {
    type V = AssetFollowUpView;

    open spec fn view(&self) -> AssetFollowUpView {
        match *self {
            AssetFollowUp::Embed { text } => AssetFollowUpView::Embed { text: text@ },
            AssetFollowUp::Report { message } => AssetFollowUpView::Report { message: message@ },
            AssetFollowUp::Abort { message } => AssetFollowUpView::Abort { message: message@ },
        }
    }
}

/// The words with which a walk is given up at an asset.
pub open spec fn abort_text(
    file_name: Seq<char>,
    post_title: Seq<char>,
    cause: Seq<char>,
) -> Seq<char> {
    "Failed to download file '"@ + file_name + "' for post '"@ + post_title + "': "@ + cause
}

/// After a download that succeeded or was skipped, the resolved fragment is
/// added to the document. After one that ended in an error result, the error
/// is reported, nothing is added, and the walk goes on. After one that could
/// not be carried out, because of the network or the file system, the walk
/// is given up.
pub open spec fn follow_up(
    outcome: AttemptView,
    fragment: Seq<char>,
    file_name: Seq<char>,
    post_title: Seq<char>,
) -> AssetFollowUpView {
    match outcome {
        Err(cause) => AssetFollowUpView::Abort {
            message: abort_text(file_name, post_title, cause),
        },
        Ok(DownloadResultView::Error(message)) => AssetFollowUpView::Report { message: message },
        Ok(_) => AssetFollowUpView::Embed { text: resolved_fragment(fragment, file_name) },
    }
}

/// Decides what follows the download of an asset.
pub fn process_file_and_markdown(
    outcome: Attempt,
    fragment: &str,
    file_name: &str,
    post_title: &str,
) -> (r: AssetFollowUp)
    ensures
        r@ == follow_up(attempt_view(outcome), fragment@, file_name@, post_title@),
{
    match outcome {
        Err(cause) => {
            let mut message = owned("Failed to download file '");
            message.append(file_name);
            message.append("' for post '");
            message.append(post_title);
            message.append("': ");
            message.append(cause.as_str());
            AssetFollowUp::Abort { message }
        },
        Ok(DownloadResult::Error(message)) => AssetFollowUp::Report { message },
        Ok(_) => {
            let rel = sanitize_name(file_name);
            AssetFollowUp::Embed { text: replaced(fragment, "{rel}", rel.as_str()) }
        },
    }
}

/// A fragment without a placeholder is embedded as it is.
pub proof fn lemma_fragment_without_placeholder(fragment: Seq<char>, file_name: Seq<char>)
    requires
        !contains(fragment, rel_placeholder()),
    ensures
        resolved_fragment(fragment, file_name) == fragment,
{
    lemma_replace_all_absent(fragment, rel_placeholder(), sanitized(file_name));
}

} // verus!
