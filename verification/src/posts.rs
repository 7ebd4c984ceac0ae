//! Posts: where a post is stored and what is to be done for its content.

use crate::comments::{
    comments_view, flatten_thread, plan_thread, thread_is_available, Comment, CommentView,
};
use crate::content::{items_view, ContentItem, ContentItemView};
use crate::names::{sanitize_name, sanitized};
use crate::outside::{format_utc_time, utc_time_text};
use crate::report::{
    comments_for_post_empty_or_not_available, post_not_available_or_without_content, warning,
    LogLevel, LogMessage, LogMessageView,
};
use crate::text::{opt_text, owned};
use crate::walker::{action_views, content_plan, process_content_items, ItemAction, ItemActionView};
use vstd::prelude::*;
use vstd::string::StringExecFns;

verus! {

/// The pattern after which the day of a post is written.
pub open spec fn day_pattern() -> Seq<char> {
    "%Y.%m.%d"@
}

/// The name of the folder of a post: the day on which the post was made, a
/// space, and the sanitized title. There is none where the day is not known.
pub open spec fn folder_name(day: Option<Seq<char>>, post_title: Seq<char>) -> Option<Seq<char>> {
    match day {
        Some(day) => Some(day + " "@ + sanitized(post_title)),
        None => None,
    }
}

/// Names the folder of a post, given the day on which the post was made.
pub fn folder_name_of(day: Option<String>, post_title: &str) -> (r: Option<String>)
    ensures
        opt_text(r) == folder_name(opt_text(day), post_title@),
{
    match day {
        Some(day) => {
            let mut name = day;
            name.append(" ");
            name.append(sanitize_name(post_title).as_str());
            Some(name)
        },
        None => None,
    }
}

/// Names the folder of a post made `created_at` seconds after the Unix
/// epoch; `None` where that moment cannot be represented.
pub fn prepare_folder_path(post_title: &str, created_at: i64) -> (r: Option<String>)
    ensures
        opt_text(r) == folder_name(utc_time_text(created_at, day_pattern()), post_title@),
{
    folder_name_of(format_utc_time(created_at, "%Y.%m.%d"), post_title)
}

/// The name of the folder, inside the folder of a post, that holds the
/// post's comments.
pub fn prepare_folder_path_for_comments() -> (r: String)
    ensures
        r@ == "comments"@,
{
    owned("comments")
}

/// A post as far as the walker reads it.
#[derive(Debug, PartialEq, Eq)]
pub struct Post {
    /// The identifier of the post.
    pub id: String,
    /// The title, used for the folder and for the document.
    pub title: String,
    /// The name of the blog.
    pub blog_url: String,
    /// When the post was made, in seconds since the Unix epoch.
    pub created_at: i64,
    /// The authorization suffix for the post's files; empty where the reader
    /// has no access.
    pub signed_query: String,
    /// The content of the post.
    pub items: Vec<ContentItem>,
    /// Whether the post is flagged as not available.
    pub not_available: bool,
}

/// The mathematical form of `Post`.
pub struct PostView {
    pub id: Seq<char>,
    pub title: Seq<char>,
    pub blog_url: Seq<char>,
    pub created_at: i64,
    pub signed_query: Seq<char>,
    pub items: Seq<ContentItemView>,
    pub not_available: bool,
}

impl View for Post {
    type V = PostView;

    open spec fn view(&self) -> PostView {
        PostView {
            id: self.id@,
            title: self.title@,
            blog_url: self.blog_url@,
            created_at: self.created_at,
            signed_query: self.signed_query@,
            items: items_view(self.items@),
            not_available: self.not_available,
        }
    }
}

/// What is to be done for one post.
#[derive(Debug, PartialEq, Eq)]
pub enum PostOutcome {
    /// The post is not available: report `notice` and touch nothing.
    Unavailable { notice: LogMessage },
    /// The time of the post cannot be represented, so its folder cannot be
    /// named.
    InvalidTimestamp,
    /// Carry out `actions`, in order, in the folder `folder` of the folder
    /// `blog`, on the document named after `title`; then normalize the
    /// document.
    Planned { blog: String, title: String, folder: String, actions: Vec<ItemAction> },
}

/// The mathematical form of `PostOutcome`.
pub enum PostOutcomeView {
    Unavailable { notice: LogMessageView },
    InvalidTimestamp,
    Planned { blog: Seq<char>, title: Seq<char>, folder: Seq<char>, actions: Seq<ItemActionView> },
}

impl View for PostOutcome {
    type V = PostOutcomeView;

    open spec fn view(&self) -> PostOutcomeView {
        match *self {
            PostOutcome::Unavailable { notice } => PostOutcomeView::Unavailable {
                notice: notice@,
            },
            PostOutcome::InvalidTimestamp => PostOutcomeView::InvalidTimestamp,
            PostOutcome::Planned { blog, title, folder, actions } => PostOutcomeView::Planned {
                blog: blog@,
                title: title@,
                folder: folder@,
                actions: action_views(actions@),
            },
        }
    }
}

/// What is to be done for `post`: nothing but a notice where it is not
/// available; else the walk over its content, with the post's authorization
/// suffix, in the folder named after its day and title.
pub open spec fn post_outcome(post: PostView) -> PostOutcomeView {
    if post.not_available {
        PostOutcomeView::Unavailable {
            notice: warning("Post '"@ + post.title + "' not available or has no content"@),
        }
    } else {
        match folder_name(utc_time_text(post.created_at, day_pattern()), post.title) {
            Some(folder) => PostOutcomeView::Planned {
                blog: post.blog_url,
                title: post.title,
                folder: folder,
                actions: content_plan(post.items, Some(post.signed_query)),
            },
            None => PostOutcomeView::InvalidTimestamp,
        }
    }
}

/// Whether a post has anything to process; where it has not, the notice to
/// report.
pub fn check_available_post(post: &Post) -> (r: Result<(), LogMessage>)
    ensures
        r is Ok == !post.not_available,
        r matches Err(notice) ==> notice@ == warning(
            "Post '"@ + post.title@ + "' not available or has no content"@,
        ),
{
    if post.not_available {
        Err(post_not_available_or_without_content(post.title.as_str()))
    } else {
        Ok(())
    }
}

/// Decides what is to be done for one post.
pub fn process_post(post: Post) -> (outcome: PostOutcome)
    ensures
        outcome@ == post_outcome(post@),
{
    match check_available_post(&post) {
        Err(notice) => {
            return PostOutcome::Unavailable { notice };
        },
        Ok(()) => {},
    }
    let folder = match prepare_folder_path(post.title.as_str(), post.created_at) {
        Some(folder) => folder,
        None => {
            return PostOutcome::InvalidTimestamp;
        },
    };
    let Post { id: _, title, blog_url, created_at: _, signed_query, items, not_available: _ } = post;
    let actions = process_content_items(items, Some(signed_query.as_str()));
    PostOutcome::Planned { blog: blog_url, title, folder, actions }
}

/// The posts that an address led to.
#[derive(Debug, PartialEq, Eq)]
pub enum PostsResult {
    /// The posts of a blog.
    Multiple(Vec<Post>),
    /// One post.
    Single(Box<Post>),
}

/// Whether a result is one post that was asked for by itself.
pub open spec fn is_single(result: PostsResult) -> bool {
    result is Single
}

/// The posts of a result, in their order.
pub open spec fn posts_of(result: PostsResult) -> Seq<PostView> {
    match result {
        PostsResult::Multiple(posts) => posts@.map_values(|p: Post| p@),
        PostsResult::Single(post) => seq![post@],
    }
}

/// The outcomes for a sequence of posts, post by post.
pub open spec fn outcome_views(outcomes: Seq<PostOutcome>) -> Seq<PostOutcomeView> {
    outcomes.map_values(|o: PostOutcome| o@)
}

/// Decides, post by post and in order, what is to be done for the posts of a
/// result. Whoever carries the outcomes out stops at the first that fails.
pub fn process_posts(result: PostsResult) -> (outcomes: Vec<PostOutcome>)
    ensures
        outcome_views(outcomes@) == posts_of(result).map_values(|p: PostView| post_outcome(p)),
{
    let mut outcomes: Vec<PostOutcome> = Vec::new();
    match result {
        PostsResult::Multiple(posts) => {
            let ghost all = posts@;
            for post in it: posts
                invariant
                    it.seq() == all,
                    outcomes@.len() == it.index(),
                    forall|j: int|
                        0 <= j < it.index() ==> (#[trigger] outcomes@[j])@ == post_outcome(
                            all[j]@,
                        ),
            {
                let outcome = process_post(post);
                outcomes.push(outcome);
            }
            assert(outcome_views(outcomes@) =~= posts_of(result).map_values(
                |p: PostView| post_outcome(p),
            ));
        },
        PostsResult::Single(post) => {
            let outcome = process_post(*post);
            outcomes.push(outcome);
            assert(outcome_views(outcomes@) =~= posts_of(result).map_values(
                |p: PostView| post_outcome(p),
            ));
        },
    }
    outcomes
}

/// The comments of one post, with what names the folder of the post.
#[derive(Debug, PartialEq, Eq)]
pub struct CommentsResult {
    /// The top-level comments, each with its replies.
    pub comments: Vec<Comment>,
    /// The name of the blog.
    pub blog_url: String,
    /// The title of the post.
    pub safe_post_title: String,
    /// When the post was made, in seconds since the Unix epoch.
    pub created_at: i64,
}

/// The mathematical form of `CommentsResult`.
pub struct CommentsResultView {
    pub comments: Seq<CommentView>,
    pub blog_url: Seq<char>,
    pub safe_post_title: Seq<char>,
    pub created_at: i64,
}

impl View for CommentsResult {
    type V = CommentsResultView;

    open spec fn view(&self) -> CommentsResultView {
        CommentsResultView {
            comments: comments_view(self.comments@),
            blog_url: self.blog_url@,
            safe_post_title: self.safe_post_title@,
            created_at: self.created_at,
        }
    }
}

/// What is to be done for the comments of one post.
#[derive(Debug, PartialEq, Eq)]
pub enum CommentsOutcome {
    /// The thread has nothing to process: report `notice` and touch nothing.
    Unavailable { notice: LogMessage },
    /// The time of the post cannot be represented, so its folder cannot be
    /// named.
    InvalidTimestamp,
    /// Carry out `actions`, in order, in the folder `subfolder` of the folder
    /// `folder` of the folder `blog`, on the document named after `title`;
    /// then normalize the document and render it as a page.
    Planned { blog: String, title: String, folder: String, subfolder: String, actions: Vec<
        ItemAction,
    > },
}

/// The mathematical form of `CommentsOutcome`.
pub enum CommentsOutcomeView {
    Unavailable { notice: LogMessageView },
    InvalidTimestamp,
    Planned {
        blog: Seq<char>,
        title: Seq<char>,
        folder: Seq<char>,
        subfolder: Seq<char>,
        actions: Seq<ItemActionView>,
    },
}

impl View for CommentsOutcome {
    type V = CommentsOutcomeView;

    open spec fn view(&self) -> CommentsOutcomeView {
        match *self {
            CommentsOutcome::Unavailable { notice } => CommentsOutcomeView::Unavailable {
                notice: notice@,
            },
            CommentsOutcome::InvalidTimestamp => CommentsOutcomeView::InvalidTimestamp,
            CommentsOutcome::Planned { blog, title, folder, subfolder, actions } => {
                CommentsOutcomeView::Planned {
                    blog: blog@,
                    title: title@,
                    folder: folder@,
                    subfolder: subfolder@,
                    actions: action_views(actions@),
                }
            },
        }
    }
}

/// What is to be done for the comments of one post: nothing but a notice
/// where the thread is empty or none of its top-level comments is available;
/// else the walk over the flattened thread, without authorization suffix, in
/// the comments folder of the post's folder.
pub open spec fn comments_outcome(result: CommentsResultView) -> CommentsOutcomeView {
    if !thread_is_available(result.comments) {
        CommentsOutcomeView::Unavailable {
            notice: warning(
                "Comments for post '"@ + result.safe_post_title
                    + "' are empty or not available"@,
            ),
        }
    } else {
        match folder_name(
            utc_time_text(result.created_at, day_pattern()),
            result.safe_post_title,
        ) {
            Some(folder) => CommentsOutcomeView::Planned {
                blog: result.blog_url,
                title: result.safe_post_title,
                folder: folder,
                subfolder: "comments"@,
                actions: content_plan(flatten_thread(result.comments), None),
            },
            None => CommentsOutcomeView::InvalidTimestamp,
        }
    }
}

/// Decides what is to be done for the comments of one post.
pub fn process_post_comments(result: CommentsResult) -> (outcome: CommentsOutcome)
    ensures
        outcome@ == comments_outcome(result@),
{
    let CommentsResult { comments, blog_url, safe_post_title, created_at } = result;
    let actions = match plan_thread(comments) {
        Some(actions) => actions,
        None => {
            return CommentsOutcome::Unavailable {
                notice: comments_for_post_empty_or_not_available(safe_post_title.as_str()),
            };
        },
    };
    let folder = match prepare_folder_path(safe_post_title.as_str(), created_at) {
        Some(folder) => folder,
        None => {
            return CommentsOutcome::InvalidTimestamp;
        },
    };
    CommentsOutcome::Planned {
        blog: blog_url,
        title: safe_post_title,
        folder,
        subfolder: prepare_folder_path_for_comments(),
        actions,
    }
}

/// The outcomes for a sequence of threads, thread by thread.
pub open spec fn comments_outcome_views(outcomes: Seq<CommentsOutcome>) -> Seq<
    CommentsOutcomeView,
> {
    outcomes.map_values(|o: CommentsOutcome| o@)
}

/// Decides, post by post and in order, what is to be done for the comments
/// of each post. Whoever carries the outcomes out stops at the first that
/// fails.
pub fn process_comments(results: Vec<CommentsResult>) -> (outcomes: Vec<CommentsOutcome>)
    ensures
        comments_outcome_views(outcomes@) == results@.map_values(
            |r: CommentsResult| comments_outcome(r@),
        ),
{
    let ghost all = results@;
    let mut outcomes: Vec<CommentsOutcome> = Vec::new();
    for result in it: results
        invariant
            it.seq() == all,
            outcomes@.len() == it.index(),
            forall|j: int|
                0 <= j < it.index() ==> (#[trigger] outcomes@[j])@ == comments_outcome(all[j]@),
    {
        let outcome = process_post_comments(result);
        outcomes.push(outcome);
    }
    assert(comments_outcome_views(outcomes@) =~= all.map_values(
        |r: CommentsResult| comments_outcome(r@),
    ));
    outcomes
}

/// The notice for a post that is passed over before anything is fetched
/// for it.
pub open spec fn skip_notice(post_id: Seq<char>) -> LogMessageView {
    warning("Post '"@ + post_id + "' is not available, skipping."@)
}

/// The places, in a sequence of posts, of the posts that are available.
pub open spec fn available_places(posts: Seq<PostView>) -> Seq<int>
    decreases posts.len(),
{
    if posts.len() == 0 {
        Seq::empty()
    } else if posts.last().not_available {
        available_places(posts.drop_last())
    } else {
        available_places(posts.drop_last()).push(posts.len() - 1)
    }
}

/// The notices for the posts of a sequence that are not available, in the
/// order of the posts.
pub open spec fn skip_notices(posts: Seq<PostView>) -> Seq<LogMessageView>
    decreases posts.len(),
{
    if posts.len() == 0 {
        Seq::empty()
    } else if posts.last().not_available {
        skip_notices(posts.drop_last()).push(skip_notice(posts.last().id))
    } else {
        skip_notices(posts.drop_last())
    }
}

/// For which posts comments are fetched.
#[derive(Debug, PartialEq, Eq)]
pub struct CommentsPlan {
    /// Whether anything is done at all.
    pub proceed: bool,
    /// The places, in the sequence of posts, of the posts whose comments
    /// are fetched.
    pub fetch: Vec<usize>,
    /// What is to be reported.
    pub notices: Vec<LogMessage>,
}

/// The mathematical form of `CommentsPlan`.
pub struct CommentsPlanView {
    pub proceed: bool,
    pub fetch: Seq<int>,
    pub notices: Seq<LogMessageView>,
}

impl View for CommentsPlan {
    type V = CommentsPlanView;

    open spec fn view(&self) -> CommentsPlanView {
        CommentsPlanView {
            proceed: self.proceed,
            fetch: self.fetch@.map_values(|i: usize| i as int),
            notices: self.notices@.map_values(|m: LogMessage| m@),
        }
    }
}

/// Comments are fetched for every post that is available; every other post
/// is reported. Where one post was asked for by itself and is not
/// available, nothing is done at all.
pub open spec fn comments_plan(posts: Seq<PostView>, single: bool) -> CommentsPlanView {
    CommentsPlanView {
        proceed: !(single && skip_notices(posts).len() > 0),
        fetch: if single && skip_notices(posts).len() > 0 {
            Seq::empty()
        } else {
            available_places(posts)
        },
        notices: skip_notices(posts),
    }
}

/// Decides for which of the posts of a result comments are fetched.
pub fn plan_comments(result: &PostsResult) -> (plan: CommentsPlan)
    ensures
        plan@ == comments_plan(posts_of(*result), is_single(*result)),
{
    let mut fetch: Vec<usize> = Vec::new();
    let mut notices: Vec<LogMessage> = Vec::new();
    match result {
        PostsResult::Single(post) => {
            let ghost posts = posts_of(*result);
            proof {
                assert(posts.drop_last() =~= Seq::<PostView>::empty());
                assert(posts.last() == post@);
                assert(skip_notices(posts.drop_last()) =~= Seq::<LogMessageView>::empty());
                assert(available_places(posts.drop_last()) =~= Seq::<int>::empty());
            }
            if post.not_available {
                notices.push(post_skipped(post.id.as_str()));
                let plan = CommentsPlan { proceed: false, fetch, notices };
                proof {
                    assert(plan@.notices =~= skip_notices(posts));
                    assert(plan@.fetch =~= Seq::<int>::empty());
                }
                plan
            } else {
                fetch.push(0);
                let plan = CommentsPlan { proceed: true, fetch, notices };
                proof {
                    assert(plan@.notices =~= skip_notices(posts));
                    assert(plan@.fetch =~= available_places(posts));
                }
                plan
            }
        },
        PostsResult::Multiple(posts) => {
            let ghost all = posts_of(*result);
            let mut i: usize = 0;
            assert(all.take(0) =~= Seq::<PostView>::empty());
            while i < posts.len()
                invariant
                    i <= posts.len(),
                    all == posts@.map_values(|p: Post| p@),
                    fetch@.map_values(|k: usize| k as int) == available_places(all.take(i as int)),
                    notices@.map_values(|m: LogMessage| m@) == skip_notices(all.take(i as int)),
                decreases posts.len() - i,
            {
                let ghost before_fetch = fetch@.map_values(|k: usize| k as int);
                let ghost before_notices = notices@.map_values(|m: LogMessage| m@);
                proof {
                    assert(all.take(i + 1).drop_last() =~= all.take(i as int));
                    assert(all.take(i + 1).last() == posts@[i as int]@);
                }
                if posts[i].not_available {
                    notices.push(post_skipped(posts[i].id.as_str()));
                    assert(notices@.map_values(|m: LogMessage| m@) =~= before_notices.push(
                        skip_notice(posts@[i as int].id@),
                    ));
                } else {
                    fetch.push(i);
                    assert(fetch@.map_values(|k: usize| k as int) =~= before_fetch.push(i as int));
                }
                i = i + 1;
            }
            assert(all.take(i as int) =~= all);
            CommentsPlan { proceed: true, fetch, notices }
        },
    }
}

/// Reports a post that is passed over before anything is fetched for it.
pub fn post_skipped(post_id: &str) -> (r: LogMessage)
    ensures
        r@ == skip_notice(post_id@),
{
    let mut m = owned("Post '");
    m.append(post_id);
    m.append("' is not available, skipping.");
    LogMessage { level: LogLevel::Warn, message: m }
}

} // verus!
