use boosty_downloader::comments::{
    check_available_comments, comment_time, flatten_comments, modify_text_content, plan_thread,
    tag_item, Comment,
};
use boosty_downloader::posts::{
    process_comments, process_post_comments, CommentsOutcome, CommentsResult,
};
use boosty_downloader::report::{LogLevel, LogMessage};
use boosty_downloader::content::ContentItem;
use boosty_downloader::walker::{parse_text_content, ItemAction};

fn text(s: &str) -> ContentItem {
    ContentItem::Text { modificator: String::new(), content: format!("[\"{s}\",\"unstyled\",[]]") }
}

fn comment(author: &str, created_at: u64, items: Vec<ContentItem>, replies: Vec<Comment>) -> Comment {
    Comment { author: author.to_string(), created_at, items, not_available: false, replies }
}

fn content_of(item: &ContentItem) -> String {
    match item {
        ContentItem::Text { content, .. } => content.clone(),
        other => panic!("not a text: {other:?}"),
    }
}

// 2015-05-15 00:00:00 UTC
const T: u64 = 1431648000;

#[test]
fn comment_time_is_the_utc_minute() {
    assert_eq!(comment_time(T), "2015.05.15 00:00");
    assert_eq!(comment_time(T + 3600 * 13 + 60 * 7 + 59), "2015.05.15 13:07");
    assert_eq!(comment_time(0), "1970.01.01 00:00");
}

#[test]
fn comment_time_out_of_range_is_the_default_time() {
    assert_eq!(comment_time(u64::MAX), "1969.12.31 23:59");
    assert_eq!(comment_time(1u64 << 63), "1970.01.01 00:00");
    assert_eq!(comment_time(i64::MAX as u64), "1970.01.01 00:00");
}

#[test]
fn reply_at_depth_two_carries_two_indent_markers() {
    let thread = vec![comment(
        "root",
        T,
        vec![text("zero")],
        vec![comment("mid", T, vec![text("one")], vec![comment("leaf", T + 60, vec![text("two")], vec![])])],
    )];
    let items = flatten_comments(thread);
    assert_eq!(items.len(), 3);
    assert_eq!(content_of(&items[0]), "[\"[2015.05.15 00:00][root] zero\",\"unstyled\",[]]");
    assert_eq!(content_of(&items[1]), "[\"↳[2015.05.15 00:00][mid] one\",\"unstyled\",[]]");
    let deep = content_of(&items[2]);
    assert_eq!(deep, "[\"↳↳[2015.05.15 00:01][leaf] two\",\"unstyled\",[]]");
    assert_eq!(deep.matches('↳').count(), 2);
    let tag_at = deep.find("[2015.05.15 00:01][leaf] ").unwrap();
    assert!(deep.find("↳↳").unwrap() < tag_at);
    assert!(tag_at < deep.find("two").unwrap());
    assert_eq!(
        parse_text_content(&deep, ""),
        Some("↳↳[2015.05.15 00:01][leaf] two".to_string())
    );
}

#[test]
fn parent_comes_before_children_depth_first() {
    let thread = vec![
        comment(
            "a",
            T,
            vec![text("a1"), text("a2")],
            vec![
                comment("b", T, vec![text("b1")], vec![comment("c", T, vec![text("c1")], vec![])]),
                comment("d", T, vec![text("d1")], vec![]),
            ],
        ),
        comment("e", T, vec![text("e1")], vec![]),
    ];
    let texts: Vec<String> = flatten_comments(thread)
        .iter()
        .map(|i| parse_text_content(&content_of(i), "").unwrap())
        .collect();
    assert_eq!(
        texts,
        vec![
            "[2015.05.15 00:00][a] a1",
            "[2015.05.15 00:00][a] a2",
            "↳[2015.05.15 00:00][b] b1",
            "↳↳[2015.05.15 00:00][c] c1",
            "↳[2015.05.15 00:00][d] d1",
            "[2015.05.15 00:00][e] e1",
        ]
    );
}

#[test]
fn only_texts_with_json_content_are_tagged() {
    let image = || ContentItem::Image { url: "u".to_string(), id: "i".to_string() };
    let block_end = || ContentItem::Text {
        modificator: "BLOCK_END".to_string(),
        content: "[\"x\"]".to_string(),
    };
    let empty = || ContentItem::Text { modificator: String::new(), content: String::new() };
    let odd = || ContentItem::Text { modificator: String::new(), content: "[1]".to_string() };
    let list = || ContentItem::List { items: vec![vec![text("inner")]] };
    let link = || ContentItem::Link { content: "[\"l\"]".to_string(), url: "u".to_string() };
    let items = vec![image(), block_end(), empty(), odd(), list(), link(), text("t")];
    let out = modify_text_content(items, "me", T, "↳");
    assert_eq!(out.len(), 7);
    assert_eq!(out[0], image());
    assert_eq!(out[1], block_end());
    assert_eq!(out[2], empty());
    assert_eq!(out[3], odd());
    assert_eq!(out[4], list());
    assert_eq!(out[5], link());
    assert_eq!(content_of(&out[6]), "[\"↳[2015.05.15 00:00][me] t\",\"unstyled\",[]]");
}

#[test]
fn tag_is_set_in_after_the_opening() {
    let item = tag_item(text("body"), "TAG ");
    assert_eq!(content_of(&item), "[\"TAG body\",\"unstyled\",[]]");
    let short = ContentItem::Text { modificator: "m".to_string(), content: "[\"".to_string() };
    assert_eq!(
        tag_item(short, "T"),
        ContentItem::Text { modificator: "m".to_string(), content: "[\"T".to_string() }
    );
}

#[test]
fn unavailable_top_level_comments_are_left_out() {
    let mut hidden = comment("x", T, vec![text("hidden")], vec![comment("y", T, vec![text("reply")], vec![])]);
    hidden.not_available = true;
    let mut flagged_reply = comment("r", T, vec![text("kept")], vec![]);
    flagged_reply.not_available = true;
    let shown = comment("z", T, vec![text("shown")], vec![flagged_reply]);
    let texts: Vec<String> = flatten_comments(vec![hidden, shown])
        .iter()
        .map(|i| parse_text_content(&content_of(i), "").unwrap())
        .collect();
    assert_eq!(texts, vec!["[2015.05.15 00:00][z] shown", "↳[2015.05.15 00:00][r] kept"]);
}

#[test]
fn thread_without_available_comment_is_not_processed() {
    assert!(!check_available_comments(&vec![]));
    let mut a = comment("a", T, vec![], vec![]);
    a.not_available = true;
    let mut b = comment("b", T, vec![text("x")], vec![]);
    b.not_available = true;
    assert!(!check_available_comments(&vec![a, b]));
    let mut a = comment("a", T, vec![], vec![]);
    a.not_available = true;
    assert_eq!(plan_thread(vec![a]), None);
    assert_eq!(plan_thread(vec![]), None);
}

#[test]
fn available_thread_is_planned_without_authorization() {
    let mut a = comment("a", T, vec![], vec![]);
    a.not_available = true;
    let b = comment(
        "b",
        T,
        vec![text("x"), ContentItem::File { url: "u".to_string(), title: "f".to_string() }],
        vec![],
    );
    assert!(check_available_comments(&vec![comment("c", T, vec![], vec![])]));
    let plan = plan_thread(vec![a, b]).unwrap();
    assert_eq!(plan.len(), 2);
    assert_eq!(
        plan[0],
        ItemAction::Text {
            text: "[2015.05.15 00:00][b] x".to_string(),
            modificator: Some(String::new())
        }
    );
    match &plan[1] {
        ItemAction::Asset { signed_query, file_name, .. } => {
            assert_eq!(signed_query, &None);
            assert_eq!(file_name, "f");
        }
        other => panic!("unexpected {other:?}"),
    }
}

fn result(title: &str, created_at: i64, comments: Vec<Comment>) -> CommentsResult {
    CommentsResult {
        comments,
        blog_url: "blog".to_string(),
        safe_post_title: title.to_string(),
        created_at,
    }
}

#[test]
fn comments_of_a_post_go_to_the_comments_folder() {
    let outcome = process_post_comments(result(
        "My post?",
        T as i64,
        vec![comment("a", T, vec![text("hello")], vec![])],
    ));
    assert_eq!(
        outcome,
        CommentsOutcome::Planned {
            blog: "blog".to_string(),
            title: "My post?".to_string(),
            folder: "2015.05.15 My post_".to_string(),
            subfolder: "comments".to_string(),
            actions: vec![ItemAction::Text {
                text: "[2015.05.15 00:00][a] hello".to_string(),
                modificator: Some(String::new()),
            }],
        }
    );
}

#[test]
fn nothing_is_touched_for_an_unavailable_thread() {
    let notice = || LogMessage {
        level: LogLevel::Warn,
        message: "Comments for post 'P' are empty or not available".to_string(),
    };
    assert_eq!(
        process_post_comments(result("P", 0, vec![])),
        CommentsOutcome::Unavailable { notice: notice() }
    );
    let mut hidden = comment("a", T, vec![text("x")], vec![]);
    hidden.not_available = true;
    assert_eq!(
        process_post_comments(result("P", i64::MAX, vec![hidden])),
        CommentsOutcome::Unavailable { notice: notice() }
    );
}

#[test]
fn comments_of_a_post_with_unrepresentable_time_fail() {
    assert_eq!(
        process_post_comments(result("P", i64::MAX, vec![comment("a", T, vec![], vec![])])),
        CommentsOutcome::InvalidTimestamp
    );
}

#[test]
fn threads_are_processed_in_order() {
    let outcomes = process_comments(vec![
        result("A", 0, vec![]),
        result("B", 0, vec![comment("a", T, vec![], vec![])]),
        result("C", i64::MIN, vec![comment("a", T, vec![], vec![])]),
    ]);
    assert_eq!(outcomes.len(), 3);
    assert!(matches!(outcomes[0], CommentsOutcome::Unavailable { .. }));
    assert_eq!(
        outcomes[1],
        CommentsOutcome::Planned {
            blog: "blog".to_string(),
            title: "B".to_string(),
            folder: "1970.01.01 B".to_string(),
            subfolder: "comments".to_string(),
            actions: vec![],
        }
    );
    assert_eq!(outcomes[2], CommentsOutcome::InvalidTimestamp);
    assert_eq!(process_comments(vec![]), vec![]);
}
