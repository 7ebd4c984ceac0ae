use boosty_downloader::document::{
    document_file_name, download_text_content, ArchiveFile, FileWrite, TextWrite,
};
use boosty_downloader::download::DownloadResult;
use boosty_downloader::ledger::{hash_of, ledger_file_name, HashLedger};

const ABC: &str = "ba7816bf8f01cfea414140de5dae2223b00361a396177a9cb410ff61f20015ad";
const EMPTY: &str = "e3b0c44298fc1c149afbf4c8996fb92427ae41e4649b934ca495991b7852b855";

fn skipped() -> TextWrite {
    TextWrite { result: DownloadResult::Skipped, writes: vec![] }
}

fn document(text: &str) -> FileWrite {
    FileWrite { file: ArchiveFile::Document, text: text.to_string() }
}

fn ledger_line(hash: &str) -> FileWrite {
    FileWrite { file: ArchiveFile::Ledger, text: format!("{hash}\n") }
}

/// A folder held in memory: the two files of it that the materializer writes.
struct Folder {
    document: String,
    ledger: String,
}

impl Folder {
    fn new() -> Folder {
        Folder { document: String::new(), ledger: String::new() }
    }

    fn append_text(&mut self, content: &str, modificator: Option<&str>) -> DownloadResult {
        let mut ledger = HashLedger::parse(&self.ledger);
        let write = download_text_content(&mut ledger, content, modificator);
        for w in write.writes {
            match w.file {
                ArchiveFile::Document => self.document.push_str(&w.text),
                ArchiveFile::Ledger => self.ledger.push_str(&w.text),
            }
        }
        write.result
    }
}

#[test]
fn hash_is_sha256_of_the_trimmed_text() {
    assert_eq!(hash_of("abc"), ABC);
    assert_eq!(hash_of("  abc\n"), ABC);
    assert_eq!(hash_of(""), EMPTY);
    assert_eq!(hash_of(" \t "), EMPTY);
    assert_eq!(hash_of("abc").len(), 64);
    assert_ne!(hash_of("abc"), hash_of("abd"));
}

#[test]
fn append_text_twice_succeeds_then_skips() {
    let mut folder = Folder::new();
    assert_eq!(folder.append_text("  Hello world \n", None), DownloadResult::Success);
    assert_eq!(folder.append_text("Hello world", None), DownloadResult::Skipped);
    assert_eq!(folder.append_text("Hello world", Some("")), DownloadResult::Skipped);
    assert_eq!(folder.document, "Hello world\n");
    assert_eq!(folder.document.matches("Hello world").count(), 1);
    assert_eq!(folder.ledger, format!("{}\n", hash_of("Hello world")));
}

#[test]
fn document_is_written_before_the_ledger() {
    let mut ledger = HashLedger::new();
    let write = download_text_content(&mut ledger, " abc ", None);
    assert_eq!(
        write,
        TextWrite { result: DownloadResult::Success, writes: vec![document("abc\n"), ledger_line(ABC)] }
    );
}

#[test]
fn a_document_grows_block_by_block() {
    let mut folder = Folder::new();
    for (content, modificator) in [
        ("Title", None),
        ("\n", Some("BLOCK_END")),
        ("First paragraph", Some("")),
        ("\n", Some("BLOCK_END")),
        ("Title", None),
        ("  ", None),
        ("Second paragraph", None),
    ] {
        folder.append_text(content, modificator);
    }
    assert_eq!(folder.document, "Title\n\nFirst paragraph\n\nSecond paragraph\n");
    assert_eq!(folder.ledger.lines().count(), 3);
    let before = folder.document.clone();
    for content in ["Title", "First paragraph", "Second paragraph"] {
        assert_eq!(folder.append_text(content, None), DownloadResult::Skipped);
    }
    assert_eq!(folder.document, before);
}

#[test]
fn text_is_skipped_across_runs() {
    let mut ledger = HashLedger::new();
    let first = download_text_content(&mut ledger, "abc", Some(""));
    assert_eq!(first.result, DownloadResult::Success);
    assert_eq!(first.writes[1], ledger_line(ABC));

    let mut reloaded = HashLedger::parse(&first.writes[1].text);
    assert!(reloaded.contains(ABC));
    assert_eq!(download_text_content(&mut reloaded, " abc ", None), skipped());
}

#[test]
fn different_texts_are_both_written() {
    let mut ledger = HashLedger::new();
    assert_eq!(download_text_content(&mut ledger, "one", None).writes[0], document("one\n"));
    assert_eq!(download_text_content(&mut ledger, "two", None).writes[0], document("two\n"));
    assert_eq!(download_text_content(&mut ledger, "one", None), skipped());
    assert_eq!(download_text_content(&mut ledger, "two", None), skipped());
}

#[test]
fn empty_text_is_skipped_and_not_recorded() {
    let mut ledger = HashLedger::new();
    assert_eq!(download_text_content(&mut ledger, "", None), skipped());
    assert_eq!(download_text_content(&mut ledger, " \n\t ", None), skipped());
    assert!(!ledger.contains(EMPTY));
}

#[test]
fn paragraph_break_is_always_written_and_never_recorded() {
    let mut ledger = HashLedger::new();
    let expected = || TextWrite { result: DownloadResult::Success, writes: vec![document("\n")] };
    assert_eq!(download_text_content(&mut ledger, "\n", Some("BLOCK_END")), expected());
    assert_eq!(download_text_content(&mut ledger, "\n", Some("BLOCK_END")), expected());
    assert_eq!(download_text_content(&mut ledger, "abc", Some("BLOCK_END")), expected());
    assert!(!ledger.contains(ABC));
}

#[test]
fn ledger_is_read_line_by_line() {
    let ledger = HashLedger::parse("aa\nbb\r\ncc");
    assert!(ledger.contains("aa"));
    assert!(ledger.contains("bb"));
    assert!(ledger.contains("cc"));
    assert!(!ledger.contains("bb\r"));
    assert!(!ledger.contains(""));
    assert!(!ledger.contains("a"));
}

#[test]
fn ledger_of_a_missing_or_empty_file_is_empty() {
    assert!(!HashLedger::new().contains(""));
    assert!(!HashLedger::parse("").contains(""));
    assert!(HashLedger::parse("\n").contains(""));
}

#[test]
fn record_returns_the_line_and_remembers_the_hash() {
    let mut ledger = HashLedger::new();
    assert!(!ledger.contains("ff"));
    assert_eq!(ledger.record("ff"), "ff\n");
    assert!(ledger.contains("ff"));
    assert!(!ledger.contains("f"));
}

#[test]
fn file_names_of_a_folder() {
    assert_eq!(document_file_name("My: post."), "My_ post.md");
    assert_eq!(document_file_name(""), "_.md");
    assert_eq!(ledger_file_name(), ".hashes");
}
