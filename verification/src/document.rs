//! The text materializer: what is appended to a post's document and to the
//! hash ledger beside it, in which order, and when.

use crate::download::{DownloadResult, DownloadResultView};
use crate::ledger::{content_hash, lemma_recorded_hash_is_read_back, ledger_line, HashLedger};
use crate::lines::{is_plain_line, text_lines};
use crate::names::{sanitize_name, sanitized};
use crate::outside::hash_str;
use crate::text::{opt_str, owned, text_equal, trim, trimmed};
use crate::walker::block_end;
use vstd::prelude::*;
use vstd::string::StringExecFns;

verus! {

/// The name of the document file of a post.
pub open spec fn document_name(title: Seq<char>) -> Seq<char> {
    sanitized(title) + ".md"@
}

/// Derives the name of the document file of a post from the post's title.
pub fn document_file_name(title: &str) -> (r: String)
    ensures
        r@ == document_name(title@),
{
    let mut r = sanitize_name(title);
    r.append(".md");
    r
}

/// The two files of a folder that the text materializer writes.
#[derive(Clone, Copy, Debug, PartialEq, Eq, Structural)]
pub enum ArchiveFile {
    /// The document of the post.
    Document,
    /// The hash ledger.
    Ledger,
}

/// One write: `text` is appended at the end of `file`.
#[derive(Debug, PartialEq, Eq)]
pub struct FileWrite {
    pub file: ArchiveFile,
    pub text: String,
}

/// The mathematical form of `FileWrite`.
pub struct FileWriteView {
    pub file: ArchiveFile,
    pub text: Seq<char>,
}

impl View for FileWrite {
    type V = FileWriteView;

    open spec fn view(&self) -> FileWriteView {
        FileWriteView { file: self.file, text: self.text@ }
    }
}

/// What one call of the text materializer asks for: the writes, to be made
/// in their order, and the result to report.
#[derive(Debug, PartialEq, Eq)]
pub struct TextWrite {
    pub result: DownloadResult,
    pub writes: Vec<FileWrite>,
}

/// The mathematical form of `TextWrite`.
pub struct TextWriteView {
    pub result: DownloadResultView,
    pub writes: Seq<FileWriteView>,
}

impl View for TextWrite {
    type V = TextWriteView;

    open spec fn view(&self) -> TextWriteView {
        TextWriteView {
            result: self.result@,
            writes: self.writes@.map_values(|w: FileWrite| w@),
        }
    }
}

/// Whether a text block is new to a folder: it is no paragraph break, it is
/// not empty once trimmed, and its content hash is not recorded.
pub open spec fn is_new_text(
    ledger: Set<Seq<char>>,
    text: Seq<char>,
    modificator: Option<Seq<char>>,
) -> bool {
    modificator != Some(block_end()) && trim(text).len() > 0 && !ledger.contains(
        content_hash(text),
    )
}

/// What is written for a text block.
///
/// A paragraph break is one line feed in the document, always. Any other
/// block is trimmed; an empty block and a block whose hash is recorded are
/// skipped, and nothing is written for them; a new block is written to the
/// document as one line, and after that its hash is written to the ledger.
pub open spec fn text_write(
    ledger: Set<Seq<char>>,
    text: Seq<char>,
    modificator: Option<Seq<char>>,
) -> TextWriteView {
    if modificator == Some(block_end()) {
        TextWriteView {
            result: DownloadResultView::Success,
            writes: seq![FileWriteView { file: ArchiveFile::Document, text: "\n"@ }],
        }
    } else if is_new_text(ledger, text, modificator) {
        TextWriteView {
            result: DownloadResultView::Success,
            writes: seq![
                FileWriteView { file: ArchiveFile::Document, text: trim(text) + "\n"@ },
                FileWriteView { file: ArchiveFile::Ledger, text: ledger_line(content_hash(text)) },
            ],
        }
    } else {
        TextWriteView { result: DownloadResultView::Skipped, writes: Seq::empty() }
    }
}

/// The hashes recorded after a text block was handled.
pub open spec fn ledger_after(
    ledger: Set<Seq<char>>,
    text: Seq<char>,
    modificator: Option<Seq<char>>,
) -> Set<Seq<char>> {
    if is_new_text(ledger, text, modificator) {
        ledger.insert(content_hash(text))
    } else {
        ledger
    }
}

/// What a sequence of writes appends to one of the two files.
pub open spec fn appended(writes: Seq<FileWriteView>, file: ArchiveFile) -> Seq<char>
    decreases writes.len(),
{
    if writes.len() == 0 {
        Seq::empty()
    } else if writes.last().file == file {
        appended(writes.drop_last(), file) + writes.last().text
    } else {
        appended(writes.drop_last(), file)
    }
}

/// Handles one text block of a document: decides what is written, and
/// records the hash of a block that is written.
pub fn download_text_content(
    ledger: &mut HashLedger,
    content: &str,
    modificator: Option<&str>,
) -> (write: TextWrite)
    ensures
        write@ == text_write(old(ledger)@, content@, opt_str(modificator)),
        final(ledger)@ == ledger_after(old(ledger)@, content@, opt_str(modificator)),
{
    let mut writes: Vec<FileWrite> = Vec::new();
    match modificator {
        Some(m) => {
            if text_equal(m, "BLOCK_END") {
                writes.push(FileWrite { file: ArchiveFile::Document, text: owned("\n") });
                let write = TextWrite { result: DownloadResult::Success, writes };
                assert(write@.writes =~= text_write(
                    old(ledger)@,
                    content@,
                    opt_str(modificator),
                ).writes);
                return write;
            }
        },
        None => {},
    }
    let text = trimmed(content);
    if text.as_str().is_empty() {
        let write = TextWrite { result: DownloadResult::Skipped, writes };
        assert(write@.writes =~= Seq::<FileWriteView>::empty());
        return write;
    }
    let hash = hash_str(text.as_str());
    if ledger.contains(hash.as_str()) {
        let write = TextWrite { result: DownloadResult::Skipped, writes };
        assert(write@.writes =~= Seq::<FileWriteView>::empty());
        return write;
    }
    let mut document = text;
    document.append("\n");
    let line = ledger.record(hash.as_str());
    writes.push(FileWrite { file: ArchiveFile::Document, text: document });
    writes.push(FileWrite { file: ArchiveFile::Ledger, text: line });
    let write = TextWrite { result: DownloadResult::Success, writes };
    assert(write@.writes =~= text_write(old(ledger)@, content@, opt_str(modificator)).writes);
    write
}

/// A text block is written at most once: whatever the ledger held before,
/// after a block was handled, a block with the same trimmed text is skipped,
/// writes nothing and leaves the ledger as it is.
pub proof fn lemma_text_is_written_once(
    ledger: Set<Seq<char>>,
    first: Seq<char>,
    second: Seq<char>,
    modificator: Option<Seq<char>>,
    again: Option<Seq<char>>,
)
    requires
        trim(first) == trim(second),
        modificator != Some(block_end()),
        again != Some(block_end()),
    ensures
        ({
            let seen = ledger_after(ledger, first, modificator);
            &&& text_write(seen, second, again).result == DownloadResultView::Skipped
            &&& text_write(seen, second, again).writes == Seq::<FileWriteView>::empty()
            &&& ledger_after(seen, second, again) == seen
        }),
{
}

/// A text block whose hash is recorded is never written again: however the
/// ledger has grown since, the block is skipped and nothing is written.
pub proof fn lemma_recorded_text_is_skipped(
    ledger: Set<Seq<char>>,
    later: Set<Seq<char>>,
    text: Seq<char>,
    modificator: Option<Seq<char>>,
)
    requires
        ledger.contains(content_hash(text)),
        ledger.subset_of(later),
        modificator != Some(block_end()),
    ensures
        text_write(later, text, modificator).result == DownloadResultView::Skipped,
        text_write(later, text, modificator).writes == Seq::<FileWriteView>::empty(),
        ledger_after(later, text, modificator) == later,
{
}

/// A new text block, handled twice, succeeds and is then skipped; both calls
/// together append the trimmed text and one line feed to the document, once,
/// and one line with the block's hash to the ledger.
pub proof fn lemma_new_text_then_skipped(
    ledger: Set<Seq<char>>,
    text: Seq<char>,
    modificator: Option<Seq<char>>,
)
    requires
        is_new_text(ledger, text, modificator),
    ensures
        ({
            let once = text_write(ledger, text, modificator);
            let seen = ledger_after(ledger, text, modificator);
            let twice = text_write(seen, text, modificator);
            let both = once.writes + twice.writes;
            &&& once.result == DownloadResultView::Success
            &&& twice.result == DownloadResultView::Skipped
            &&& appended(both, ArchiveFile::Document) == trim(text) + "\n"@
            &&& appended(both, ArchiveFile::Ledger) == ledger_line(content_hash(text))
        }),
{
    let once = text_write(ledger, text, modificator);
    let seen = ledger_after(ledger, text, modificator);
    let twice = text_write(seen, text, modificator);
    let both = once.writes + twice.writes;
    assert(both =~= once.writes);
    let one = both.drop_last();
    assert(one =~= seq![both[0]]);
    assert(one.drop_last() =~= Seq::<FileWriteView>::empty());
    assert(appended(one.drop_last(), ArchiveFile::Document) =~= Seq::<char>::empty());
    assert(appended(one.drop_last(), ArchiveFile::Ledger) =~= Seq::<char>::empty());
    assert(appended(one, ArchiveFile::Document) =~= trim(text) + "\n"@);
    assert(appended(one, ArchiveFile::Ledger) =~= Seq::<char>::empty());
    assert(appended(both, ArchiveFile::Document) =~= trim(text) + "\n"@);
    assert(appended(both, ArchiveFile::Ledger) =~= ledger_line(content_hash(text)));
}

/// The document is written before the ledger: no write to the ledger comes
/// without a write to the document before it. A run that is cut short
/// between the two writes the text again next time; it never loses it.
pub proof fn lemma_document_is_written_first(
    ledger: Set<Seq<char>>,
    text: Seq<char>,
    modificator: Option<Seq<char>>,
    i: int,
)
    requires
        0 <= i < text_write(ledger, text, modificator).writes.len(),
        text_write(ledger, text, modificator).writes[i].file == ArchiveFile::Ledger,
    ensures
        i > 0,
        text_write(ledger, text, modificator).writes[i - 1].file == ArchiveFile::Document,
        text_write(ledger, text, modificator).writes[i - 1].text == trim(text) + "\n"@,
{
}

/// The ledger file keeps up with the ledger: where the ledger is what a
/// ledger file holds, the file with the writes of one call appended holds
/// the ledger after that call. So a later run, which reads the file anew,
/// skips what an earlier run wrote.
pub proof fn lemma_ledger_file_keeps_up(
    file: Seq<char>,
    text: Seq<char>,
    modificator: Option<Seq<char>>,
)
    requires
        file.len() == 0 || file.last() == '\n',
        is_plain_line(content_hash(text)),
    ensures
        ({
            let ledger = text_lines(file).to_set();
            let written = file + appended(
                text_write(ledger, text, modificator).writes,
                ArchiveFile::Ledger,
            );
            &&& text_lines(written).to_set() == ledger_after(ledger, text, modificator)
            &&& written.len() == 0 || written.last() == '\n'
        }),
{
    let ledger = text_lines(file).to_set();
    let writes = text_write(ledger, text, modificator).writes;
    let none = Seq::<FileWriteView>::empty();
    if modificator == Some(block_end()) {
        assert(writes.drop_last() =~= none);
        assert(appended(writes.drop_last(), ArchiveFile::Ledger) =~= Seq::<char>::empty());
        assert(file + appended(writes, ArchiveFile::Ledger) =~= file);
    } else if is_new_text(ledger, text, modificator) {
        let one = writes.drop_last();
        assert(one.drop_last() =~= none);
        assert(appended(one.drop_last(), ArchiveFile::Ledger) =~= Seq::<char>::empty());
        assert(appended(one, ArchiveFile::Ledger) =~= Seq::<char>::empty());
        assert(appended(writes, ArchiveFile::Ledger) =~= ledger_line(content_hash(text)));
        lemma_recorded_hash_is_read_back(file, content_hash(text));
    } else {
        assert(file + appended(writes, ArchiveFile::Ledger) =~= file);
    }
}

/// A paragraph break is written whenever it is asked for, and never
/// recorded.
pub proof fn lemma_paragraph_break(ledger: Set<Seq<char>>, text: Seq<char>)
    ensures
        text_write(ledger, text, Some(block_end())).result == DownloadResultView::Success,
        text_write(ledger, text, Some(block_end())).writes == (seq![
            FileWriteView { file: ArchiveFile::Document, text: "\n"@ },
        ]),
        ledger_after(ledger, text, Some(block_end())) == ledger,
{
}

/// The ledger only grows.
pub proof fn lemma_ledger_grows(
    ledger: Set<Seq<char>>,
    text: Seq<char>,
    modificator: Option<Seq<char>>,
)
    ensures
        ledger.subset_of(ledger_after(ledger, text, modificator)),
{
}

} // verus!
