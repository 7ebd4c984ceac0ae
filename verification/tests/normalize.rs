use boosty_downloader::lines::{joined, split_lines};
use boosty_downloader::normalize::normalize_md_file;
use boosty_downloader::text::chars_of;

#[test]
fn five_blank_lines_collapse_to_two() {
    assert_eq!(normalize_md_file("a\n\n\n\n\n\nb\n"), "a\n\n\nb\n");
}

#[test]
fn normalizing_twice_changes_nothing() {
    for text in [
        "",
        "\n",
        "\n\n\n\n",
        "a",
        "a\n",
        "a  \n\n\n\n\nb\t\n\n",
        "  lead\r\n\r\n\r\n\r\ntrail  \r\n",
        "\n\n\n\nx\n\n\n\ny\n\n\n\n",
        " \n \n \nonly\n",
        "tab\there \u{a0}\nnext\u{3000}",
    ] {
        let once = normalize_md_file(text);
        let twice = normalize_md_file(&once);
        assert_eq!(once, twice, "{text:?}");
    }
}

#[test]
fn trailing_white_space_is_cut_from_every_line() {
    assert_eq!(normalize_md_file("a  \nb\t\n  c \u{a0}\n"), "a\nb\n  c\n");
}

#[test]
fn lines_of_white_space_count_as_blank() {
    assert_eq!(normalize_md_file("a\n \n\t\n  \n \nb"), "a\n\n\nb\n");
}

#[test]
fn document_ends_with_exactly_one_line_feed() {
    assert_eq!(normalize_md_file("a"), "a\n");
    assert_eq!(normalize_md_file("a\n"), "a\n");
    assert_eq!(normalize_md_file("a\n\n\n\n"), "a\n");
    assert_eq!(normalize_md_file("a\n\nb\n \n"), "a\n\nb\n");
}

#[test]
fn empty_and_blank_documents_become_one_line_feed() {
    assert_eq!(normalize_md_file(""), "\n");
    assert_eq!(normalize_md_file("\n"), "\n");
    assert_eq!(normalize_md_file("\n\n\n\n\n"), "\n");
    assert_eq!(normalize_md_file("  \n\t"), "\n");
}

#[test]
fn leading_blank_lines_are_kept_up_to_two() {
    assert_eq!(normalize_md_file("\na"), "\na\n");
    assert_eq!(normalize_md_file("\n\n\n\na"), "\n\na\n");
}

#[test]
fn carriage_returns_go_with_the_line_ends() {
    assert_eq!(normalize_md_file("a\r\nb\r\n\r\n\r\n\r\nc\r"), "a\nb\n\n\nc\n");
}

#[test]
fn one_and_two_blank_lines_are_kept() {
    assert_eq!(normalize_md_file("a\n\nb\n\n\nc\n"), "a\n\nb\n\n\nc\n");
}

#[test]
fn lines_agree_with_the_standard_library() {
    for text in ["", "a", "a\n", "a\nb", "a\r\nb\r\n", "\n", "\n\n", "a\r", "a\r\n\rb\n\r", "\r\n"] {
        let lines: Vec<String> =
            split_lines(&chars_of(text)).iter().map(|l| l.iter().collect()).collect();
        let expected: Vec<String> = text.lines().map(str::to_string).collect();
        assert_eq!(lines, expected, "{text:?}");
    }
}

#[test]
fn joined_ends_every_line_with_a_line_feed() {
    let lines = vec![chars_of("a"), chars_of(""), chars_of("b c")];
    assert_eq!(joined(&lines), "a\n\nb c\n");
    assert_eq!(joined(&vec![]), "");
}
