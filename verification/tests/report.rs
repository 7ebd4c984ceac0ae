use boosty_downloader::download::DownloadResult;
use boosty_downloader::report::{
    access_token_set, client_id_set, comments_for_post_empty_or_not_available, masked_str,
    post_not_available_or_without_content, print_error, refresh_token_set, show_download_result,
    tokens_and_client_id_cleared, unknown_content_item, ConsoleLogger, LogLevel, LogMessage,
};

fn message(level: LogLevel, text: &str) -> LogMessage {
    LogMessage { level, message: text.to_string() }
}

#[test]
fn download_results_are_reported() {
    assert_eq!(
        show_download_result(DownloadResult::Skipped, "a.jpg", "Post"),
        message(LogLevel::Info, "File 'a.jpg' skipped")
    );
    assert_eq!(
        show_download_result(DownloadResult::Success, "a.jpg", "Post"),
        message(LogLevel::Info, "File 'a.jpg' downloaded for post Post")
    );
    assert_eq!(
        show_download_result(DownloadResult::Error("HTTP 500".to_string()), "a.jpg", "Post"),
        message(LogLevel::Error, "HTTP 500")
    );
}

#[test]
fn secrets_are_masked() {
    assert_eq!(masked_str(""), "");
    assert_eq!(masked_str("a"), "a****");
    assert_eq!(masked_str("abcd"), "abcd****");
    assert_eq!(masked_str("abcdefgh"), "abcd****");
    assert_eq!(masked_str("ключ-секрет"), "ключ****");
}

#[test]
fn settings_messages() {
    assert_eq!(access_token_set("secret-token"), message(LogLevel::Info, "Access token set: secr****"));
    assert_eq!(
        refresh_token_set("refresh"),
        message(LogLevel::Info, "Refresh token set: refr****")
    );
    assert_eq!(client_id_set("device-1"), message(LogLevel::Info, "Client id set: device-1"));
    assert_eq!(
        tokens_and_client_id_cleared(),
        message(LogLevel::Info, "Tokens and client id cleared")
    );
}

#[test]
fn content_messages() {
    assert_eq!(unknown_content_item(), message(LogLevel::Info, "Post item with unknown content"));
    assert_eq!(
        post_not_available_or_without_content("T"),
        message(LogLevel::Warn, "Post 'T' not available or has no content")
    );
    assert_eq!(
        comments_for_post_empty_or_not_available("T"),
        message(LogLevel::Warn, "Comments for post 'T' are empty or not available")
    );
}

#[test]
fn errors_are_reported_with_or_without_their_causes() {
    let chain = vec!["outer".to_string(), "middle".to_string(), "inner".to_string()];
    assert_eq!(
        print_error(&chain, true),
        vec![
            message(LogLevel::Error, "Caused by: outer"),
            message(LogLevel::Error, "Caused by: middle"),
            message(LogLevel::Error, "Caused by: inner"),
        ]
    );
    assert_eq!(print_error(&chain, false), vec![message(LogLevel::Error, "outer")]);
    assert_eq!(print_error(&vec![], false), vec![]);
    assert_eq!(print_error(&vec![], true), vec![]);
}

#[test]
fn console_lines_carry_a_coloured_tag() {
    let console = ConsoleLogger;
    assert_eq!(console.line(LogLevel::Info, "hi"), "\x1b[34mInfo:\x1b[0m hi");
    assert_eq!(console.line(LogLevel::Warn, "hi"), "\x1b[33mWarning:\x1b[0m hi");
    assert_eq!(console.line(LogLevel::Error, "hi"), "\x1b[31mError:\x1b[0m hi");
}
