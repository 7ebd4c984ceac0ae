use boosty_downloader::content::ContentItem;
use boosty_downloader::links::{convert_markdown_file_to_html, read_links_from_file};
use boosty_downloader::posts::{
    check_available_post, folder_name_of, plan_comments, post_skipped, prepare_folder_path,
    prepare_folder_path_for_comments, process_post, process_posts, CommentsPlan, Post,
    PostOutcome, PostsResult,
};
use boosty_downloader::report::{LogLevel, LogMessage};
use boosty_downloader::walker::ItemAction;

fn post(title: &str, created_at: i64, signed_query: &str, items: Vec<ContentItem>) -> Post {
    Post {
        id: format!("id-{title}"),
        title: title.to_string(),
        blog_url: "blog".to_string(),
        created_at,
        signed_query: signed_query.to_string(),
        items,
        not_available: false,
    }
}

#[test]
fn folder_is_named_after_day_and_title() {
    assert_eq!(
        prepare_folder_path("My post: part 1.", 1431648000),
        Some("2015.05.15 My post_ part 1".to_string())
    );
    assert_eq!(prepare_folder_path("", 0), Some("1970.01.01 _".to_string()));
    assert_eq!(prepare_folder_path("x", -1), Some("1969.12.31 x".to_string()));
    assert_eq!(prepare_folder_path("x", 86399), Some("1970.01.01 x".to_string()));
    assert_eq!(prepare_folder_path("x", 86400), Some("1970.01.02 x".to_string()));
}

#[test]
fn folder_cannot_be_named_for_an_unrepresentable_time() {
    assert_eq!(prepare_folder_path("x", i64::MAX), None);
    assert_eq!(prepare_folder_path("x", i64::MIN), None);
}

#[test]
fn folder_name_from_a_given_day() {
    assert_eq!(folder_name_of(Some("D".to_string()), "a/b"), Some("D a_b".to_string()));
    assert_eq!(folder_name_of(None, "a/b"), None);
    assert_eq!(prepare_folder_path_for_comments(), "comments");
}

#[test]
fn unavailable_post_is_only_reported() {
    let mut p = post("T", 0, "", vec![ContentItem::Unknown]);
    p.not_available = true;
    let notice = LogMessage {
        level: LogLevel::Warn,
        message: "Post 'T' not available or has no content".to_string(),
    };
    assert_eq!(check_available_post(&p), Err(notice));
    let notice = LogMessage {
        level: LogLevel::Warn,
        message: "Post 'T' not available or has no content".to_string(),
    };
    assert_eq!(process_post(p), PostOutcome::Unavailable { notice });
    assert_eq!(check_available_post(&post("T", 0, "", vec![])), Ok(()));
}

#[test]
fn post_with_unrepresentable_time_fails() {
    assert_eq!(process_post(post("T", i64::MAX, "", vec![])), PostOutcome::InvalidTimestamp);
}

#[test]
fn post_is_planned_with_its_authorization_suffix() {
    let items = vec![
        ContentItem::File { url: "u".to_string(), title: "f.zip".to_string() },
        ContentItem::Unknown,
    ];
    match process_post(post("T", 0, "?sig", items)) {
        PostOutcome::Planned { blog, title, folder, actions } => {
            assert_eq!(blog, "blog");
            assert_eq!(title, "T");
            assert_eq!(folder, "1970.01.01 T");
            assert_eq!(actions.len(), 2);
            match &actions[0] {
                ItemAction::Asset { signed_query, .. } => {
                    assert_eq!(signed_query, &Some("?sig".to_string()))
                }
                other => panic!("unexpected {other:?}"),
            }
            assert_eq!(actions[1], ItemAction::Notice);
        }
        other => panic!("unexpected {other:?}"),
    }
}

#[test]
fn post_without_access_asks_for_authorization_with_an_empty_suffix() {
    let items = vec![ContentItem::Audio { url: "u".to_string(), title: "a".to_string() }];
    match process_post(post("T", 0, "", items)) {
        PostOutcome::Planned { actions, .. } => match &actions[0] {
            ItemAction::Asset { signed_query, .. } => assert_eq!(signed_query, &Some(String::new())),
            other => panic!("unexpected {other:?}"),
        },
        other => panic!("unexpected {other:?}"),
    }
}

#[test]
fn posts_are_processed_in_order() {
    let mut hidden = post("B", 0, "", vec![]);
    hidden.not_available = true;
    let outcomes = process_posts(PostsResult::Multiple(vec![
        post("A", 0, "", vec![]),
        hidden,
        post("C", i64::MIN, "", vec![]),
    ]));
    assert_eq!(outcomes.len(), 3);
    assert_eq!(
        outcomes[0],
        PostOutcome::Planned {
            blog: "blog".to_string(),
            title: "A".to_string(),
            folder: "1970.01.01 A".to_string(),
            actions: vec![],
        }
    );
    assert!(matches!(outcomes[1], PostOutcome::Unavailable { .. }));
    assert_eq!(outcomes[2], PostOutcome::InvalidTimestamp);
    let single = process_posts(PostsResult::Single(Box::new(post("S", 86400, "", vec![]))));
    assert_eq!(
        single,
        vec![PostOutcome::Planned {
            blog: "blog".to_string(),
            title: "S".to_string(),
            folder: "1970.01.02 S".to_string(),
            actions: vec![],
        }]
    );
    assert_eq!(process_posts(PostsResult::Multiple(vec![])), vec![]);
}

fn skipped(id: &str) -> LogMessage {
    LogMessage {
        level: LogLevel::Warn,
        message: format!("Post '{id}' is not available, skipping."),
    }
}

#[test]
fn comments_are_fetched_for_available_posts() {
    let mut b = post("B", 0, "", vec![]);
    b.not_available = true;
    let mut d = post("D", 0, "", vec![]);
    d.not_available = true;
    let result = PostsResult::Multiple(vec![
        post("A", 0, "", vec![]),
        b,
        post("C", 0, "", vec![]),
        d,
    ]);
    assert_eq!(
        plan_comments(&result),
        CommentsPlan {
            proceed: true,
            fetch: vec![0, 2],
            notices: vec![skipped("id-B"), skipped("id-D")],
        }
    );
    assert_eq!(
        plan_comments(&PostsResult::Multiple(vec![])),
        CommentsPlan { proceed: true, fetch: vec![], notices: vec![] }
    );
    assert_eq!(post_skipped("7"), skipped("7"));
}

#[test]
fn single_unavailable_post_stops_everything() {
    let mut p = post("P", 0, "", vec![]);
    p.not_available = true;
    assert_eq!(
        plan_comments(&PostsResult::Single(Box::new(p))),
        CommentsPlan { proceed: false, fetch: vec![], notices: vec![skipped("id-P")] }
    );
    assert_eq!(
        plan_comments(&PostsResult::Single(Box::new(post("P", 0, "", vec![])))),
        CommentsPlan { proceed: true, fetch: vec![0], notices: vec![] }
    );
}

#[test]
fn links_are_read_one_on_each_line() {
    assert_eq!(
        read_links_from_file("  https://a \n\n\t\nhttps://b\r\n   \nhttps://c"),
        vec!["https://a", "https://b", "https://c"]
    );
    assert_eq!(read_links_from_file(""), Vec::<String>::new());
    assert_eq!(read_links_from_file(" \n\n"), Vec::<String>::new());
}

#[test]
fn page_is_the_template_with_the_content_set_in() {
    assert_eq!(
        convert_markdown_file_to_html("<html><body>{content}</body></html>", "<p>hi</p>"),
        "<html><body><p>hi</p></body></html>"
    );
    assert_eq!(convert_markdown_file_to_html("{content}{content}", "x"), "xx");
    assert_eq!(convert_markdown_file_to_html("no placeholder", "x"), "no placeholder");
}
