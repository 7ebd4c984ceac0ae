use boosty_downloader::content::{linearize_items, ContentItem};
use boosty_downloader::download::DownloadResult;
use boosty_downloader::walker::{
    first_text_of, parse_link_content, parse_text_content, plan_item, process_content_items,
    process_file_and_markdown, video_embed_url, AssetFollowUp, ItemAction,
};

fn image(id: &str) -> ContentItem {
    ContentItem::Image { url: format!("https://img/{id}"), id: id.to_string() }
}

fn text(s: &str) -> ContentItem {
    ContentItem::Text { modificator: String::new(), content: format!("[\"{s}\",\"unstyled\",[]]") }
}

#[test]
fn list_items_are_processed_in_place() {
    let items = vec![
        image("X"),
        ContentItem::List { items: vec![vec![image("A"), image("B")], vec![image("C")]] },
        image("Y"),
    ];
    let order = linearize_items(items);
    assert_eq!(order, vec![image("X"), image("A"), image("B"), image("C"), image("Y")]);
}

#[test]
fn nested_lists_are_processed_depth_first() {
    let items = vec![
        ContentItem::List {
            items: vec![
                vec![
                    image("1"),
                    ContentItem::List { items: vec![vec![image("2")], vec![], vec![image("3")]] },
                    image("4"),
                ],
                vec![image("5")],
            ],
        },
        image("6"),
        ContentItem::List { items: vec![] },
        ContentItem::Unknown,
    ];
    let order = linearize_items(items);
    assert_eq!(
        order,
        vec![
            image("1"),
            image("2"),
            image("3"),
            image("4"),
            image("5"),
            image("6"),
            ContentItem::Unknown
        ]
    );
}

#[test]
fn empty_tree_has_no_items() {
    assert_eq!(linearize_items(vec![]), vec![]);
    assert_eq!(process_content_items(vec![], None), vec![]);
}

#[test]
fn image_is_an_asset_without_authorization() {
    let action = plan_item(&image("42"), Some("?sig=1"));
    assert_eq!(
        action,
        ItemAction::Asset {
            url: "https://img/42".to_string(),
            file_name: "42.jpg".to_string(),
            fragment: "<img src=\"{rel}\" alt=\"42\" class=\"thumbnail\">\n".to_string(),
            signed_query: None,
            label: "42".to_string(),
        }
    );
}

#[test]
fn ok_video_is_an_asset_named_after_title_and_id() {
    let item = ContentItem::OkVideo {
        url: "https://v/1".to_string(),
        title: "Clip".to_string(),
        vid: "77".to_string(),
    };
    assert_eq!(
        plan_item(&item, Some("?s")),
        ItemAction::Asset {
            url: "https://v/1".to_string(),
            file_name: "Clip(77).mp4".to_string(),
            fragment: "<video controls>\n  <source src=\"{rel}\" type=\"video/mp4\">\n  Ваш браузер не поддерживает видео.\n</video>\n".to_string(),
            signed_query: None,
            label: "Clip(77).mp4".to_string(),
        }
    );
}

#[test]
fn audio_and_file_carry_the_authorization_suffix() {
    let audio = ContentItem::Audio { url: "https://a/1".to_string(), title: "song.mp3".to_string() };
    assert_eq!(
        plan_item(&audio, Some("?sig=abc")),
        ItemAction::Asset {
            url: "https://a/1".to_string(),
            file_name: "song.mp3".to_string(),
            fragment: "<audio controls>\n  <source src=\"{rel}\" type=\"audio/mpeg\">\n  Ваш браузер не поддерживает аудио.\n</audio>\n".to_string(),
            signed_query: Some("?sig=abc".to_string()),
            label: "song.mp3".to_string(),
        }
    );
    let file = ContentItem::File { url: "https://f/1".to_string(), title: "doc.pdf".to_string() };
    assert_eq!(
        plan_item(&file, Some("")),
        ItemAction::Asset {
            url: "https://f/1".to_string(),
            file_name: "doc.pdf".to_string(),
            fragment: "<a href=\"{rel}\" download>doc.pdf</a>\n".to_string(),
            signed_query: Some(String::new()),
            label: "doc.pdf".to_string(),
        }
    );
    assert_eq!(
        plan_item(&file, None),
        ItemAction::Asset {
            url: "https://f/1".to_string(),
            file_name: "doc.pdf".to_string(),
            fragment: "<a href=\"{rel}\" download>doc.pdf</a>\n".to_string(),
            signed_query: None,
            label: "doc.pdf".to_string(),
        }
    );
}

#[test]
fn smile_is_an_asset_with_a_markdown_fragment() {
    let item = ContentItem::Smile { url: "https://s/1".to_string(), name: "joy".to_string() };
    assert_eq!(
        plan_item(&item, Some("?s")),
        ItemAction::Asset {
            url: "https://s/1".to_string(),
            file_name: "joy.png".to_string(),
            fragment: "![joy]({rel})\n".to_string(),
            signed_query: None,
            label: "joy".to_string(),
        }
    );
}

#[test]
fn video_is_embedded_not_downloaded() {
    let item = ContentItem::Video { url: "https://www.youtube.com/watch?v=abc".to_string() };
    assert_eq!(
        plan_item(&item, None),
        ItemAction::Text {
            text: "<iframe src=\"https://www.youtube.com/embed/abc\" frameborder=\"0\" allowfullscreen></iframe>\n".to_string(),
            modificator: None,
        }
    );
}

#[test]
fn watch_addresses_become_embed_addresses() {
    assert_eq!(
        video_embed_url("https://www.youtube.com/watch?v=abc"),
        "https://www.youtube.com/embed/abc"
    );
    assert_eq!(video_embed_url("https://youtu.be/abc"), "https://youtube.com/embed/abc");
    assert_eq!(video_embed_url("https://vimeo.com/1"), "https://vimeo.com/1");
    assert_eq!(video_embed_url(""), "");
}

#[test]
fn text_is_read_from_its_json_array() {
    assert_eq!(parse_text_content("[\"Hello\",\"unstyled\",[]]", ""), Some("Hello".to_string()));
    assert_eq!(parse_text_content("[\"a \\\"b\\\" \\u0041\"]", ""), Some("a \"b\" A".to_string()));
}

#[test]
fn unreadable_or_empty_text_is_passed_over() {
    assert_eq!(parse_text_content("", ""), None);
    assert_eq!(parse_text_content("not json", ""), None);
    assert_eq!(parse_text_content("[]", ""), None);
    assert_eq!(parse_text_content("[\"\"]", ""), None);
    assert_eq!(parse_text_content("[1,\"x\"]", ""), None);
    assert_eq!(parse_text_content("{\"a\":1}", ""), None);
    assert_eq!(parse_text_content("\"x\"", ""), None);
    assert_eq!(parse_text_content("[\"x\"] trailing", ""), None);
}

#[test]
fn paragraph_break_is_a_line_feed_whatever_the_content() {
    assert_eq!(parse_text_content("", "BLOCK_END"), Some("\n".to_string()));
    assert_eq!(parse_text_content("garbage", "BLOCK_END"), Some("\n".to_string()));
    assert_eq!(parse_text_content("[\"x\"]", "block_end"), Some("x".to_string()));
}

#[test]
fn link_is_written_with_its_address() {
    assert_eq!(
        parse_link_content("[\"site\",\"unstyled\",[]]", "https://x.y"),
        Some("site (https://x.y)".to_string())
    );
    assert_eq!(parse_link_content("[\"\"]", "https://x.y"), None);
    assert_eq!(parse_link_content("oops", "https://x.y"), None);
}

#[test]
fn first_text_of_a_parsed_array() {
    assert_eq!(first_text_of(None), None);
    assert_eq!(first_text_of(Some(vec![])), None);
    assert_eq!(first_text_of(Some(vec![None, Some("x".to_string())])), None);
    assert_eq!(first_text_of(Some(vec![Some(String::new())])), None);
    assert_eq!(
        first_text_of(Some(vec![Some("x".to_string()), None])),
        Some("x".to_string())
    );
}

#[test]
fn text_item_keeps_its_modificator() {
    let item = ContentItem::Text {
        modificator: "BLOCK_END".to_string(),
        content: String::new(),
    };
    assert_eq!(
        plan_item(&item, None),
        ItemAction::Text { text: "\n".to_string(), modificator: Some("BLOCK_END".to_string()) }
    );
    assert_eq!(
        plan_item(&text("hi"), None),
        ItemAction::Text { text: "hi".to_string(), modificator: Some(String::new()) }
    );
    let broken = ContentItem::Text { modificator: String::new(), content: "[".to_string() };
    assert_eq!(plan_item(&broken, None), ItemAction::Nothing);
}

#[test]
fn link_item_has_no_modificator() {
    let item = ContentItem::Link {
        content: "[\"here\"]".to_string(),
        url: "https://x".to_string(),
    };
    assert_eq!(
        plan_item(&item, None),
        ItemAction::Text { text: "here (https://x)".to_string(), modificator: None }
    );
    let broken = ContentItem::Link { content: "[]".to_string(), url: "https://x".to_string() };
    assert_eq!(plan_item(&broken, None), ItemAction::Nothing);
}

#[test]
fn unknown_item_is_a_notice_and_list_is_nothing() {
    assert_eq!(plan_item(&ContentItem::Unknown, None), ItemAction::Notice);
    assert_eq!(plan_item(&ContentItem::List { items: vec![] }, None), ItemAction::Nothing);
}

#[test]
fn plan_follows_the_processing_order() {
    let items = vec![
        text("one"),
        ContentItem::List { items: vec![vec![text("two"), ContentItem::Unknown], vec![text("three")]] },
        text("four"),
    ];
    let plan = process_content_items(items, Some("?s"));
    let texts: Vec<String> = plan
        .iter()
        .map(|a| match a {
            ItemAction::Text { text, .. } => text.clone(),
            ItemAction::Notice => "notice".to_string(),
            _ => "other".to_string(),
        })
        .collect();
    assert_eq!(texts, vec!["one", "two", "notice", "three", "four"]);
}

#[test]
fn fragment_is_embedded_after_success_and_after_skip() {
    let fragment = "<img src=\"{rel}\" alt=\"a/b\" class=\"thumbnail\">\n";
    let expected = AssetFollowUp::Embed {
        text: "<img src=\"a_b.jpg\" alt=\"a/b\" class=\"thumbnail\">\n".to_string(),
    };
    assert_eq!(
        process_file_and_markdown(Ok(DownloadResult::Success), fragment, "a/b.jpg", "P"),
        expected
    );
    assert_eq!(
        process_file_and_markdown(Ok(DownloadResult::Skipped), fragment, "a/b.jpg", "P"),
        expected
    );
}

#[test]
fn every_placeholder_is_resolved() {
    assert_eq!(
        process_file_and_markdown(Ok(DownloadResult::Success), "{rel} {rel}{rel", "x?.", "P"),
        AssetFollowUp::Embed { text: "x_ x_{rel".to_string() }
    );
}

#[test]
fn walk_is_given_up_when_the_download_cannot_be_carried_out() {
    assert_eq!(
        process_file_and_markdown(Err("disk full".to_string()), "![x]({rel})\n", "x.png", "Post"),
        AssetFollowUp::Abort {
            message: "Failed to download file 'x.png' for post 'Post': disk full".to_string()
        }
    );
}

#[test]
fn failed_download_is_reported_and_nothing_is_embedded() {
    let result = Ok(DownloadResult::Error("HTTP 404".to_string()));
    assert_eq!(
        process_file_and_markdown(result, "![x]({rel})\n", "x.png", "Post"),
        AssetFollowUp::Report { message: "HTTP 404".to_string() }
    );
}
