//! Messages for the person who runs the program.

use crate::download::{DownloadResult, DownloadResultView};
use crate::text::{chars_of, owned, string_of_range};
use vstd::prelude::*;
use vstd::string::StringExecFns;

verus! {

/// How serious a message is.
#[derive(Clone, Copy, Debug, PartialEq, Eq, Structural)]
pub enum LogLevel {
    Info,
    Warn,
    Error,
}

/// A message and its level.
#[derive(Debug, PartialEq, Eq)]
pub struct LogMessage {
    pub level: LogLevel,
    pub message: String,
}

/// The mathematical form of `LogMessage`.
pub struct LogMessageView {
    pub level: LogLevel,
    pub message: Seq<char>,
}

impl View for LogMessage {
    type V = LogMessageView;

    open spec fn view(&self) -> LogMessageView {
        LogMessageView { level: self.level, message: self.message@ }
    }
}

/// How far a download has come: the bytes received so far and the bytes
/// expected in all, `0` where the total is not known.
#[derive(Clone, Copy, Debug, PartialEq, Eq, Structural)]
pub struct ProgressMessage {
    pub current: u64,
    pub total: u64,
}

/// A message of level `Info`.
pub open spec fn info(message: Seq<char>) -> LogMessageView {
    LogMessageView { level: LogLevel::Info, message }
}

/// A message of level `Warn`.
pub open spec fn warning(message: Seq<char>) -> LogMessageView {
    LogMessageView { level: LogLevel::Warn, message }
}

/// A message of level `Error`.
pub open spec fn error(message: Seq<char>) -> LogMessageView {
    LogMessageView { level: LogLevel::Error, message }
}

/// The line that a console shows for a message: the level's coloured tag,
/// then the message.
pub open spec fn console_line(level: LogLevel, message: Seq<char>) -> Seq<char> {
    match level {
        LogLevel::Info => "\x1b[34mInfo:\x1b[0m "@ + message,
        LogLevel::Warn => "\x1b[33mWarning:\x1b[0m "@ + message,
        LogLevel::Error => "\x1b[31mError:\x1b[0m "@ + message,
    }
}

/// A logger that writes to the console.
pub struct ConsoleLogger;

impl ConsoleLogger {
    /// The line to print for a message. Messages of level `Error` belong on
    /// the error stream, all others on the output stream.
    pub fn line(&self, level: LogLevel, message: &str) -> (r: String)
        ensures
            r@ == console_line(level, message@),
    {
        let mut r = match level {
            LogLevel::Info => owned("\x1b[34mInfo:\x1b[0m "),
            LogLevel::Warn => owned("\x1b[33mWarning:\x1b[0m "),
            LogLevel::Error => owned("\x1b[31mError:\x1b[0m "),
        };
        r.append(message);
        r
    }
}

/// The message for the outcome of one item.
pub open spec fn download_result_message(
    result: DownloadResultView,
    file_name: Seq<char>,
    post_title: Seq<char>,
) -> LogMessageView {
    match result {
        DownloadResultView::Skipped => info("File '"@ + file_name + "' skipped"@),
        DownloadResultView::Error(err) => error(err),
        DownloadResultView::Success => info(
            "File '"@ + file_name + "' downloaded for post "@ + post_title,
        ),
    }
}

/// Reports the outcome of one item.
pub fn show_download_result(result: DownloadResult, file_name: &str, post_title: &str) -> (r:
    LogMessage)
    ensures
        r@ == download_result_message(result@, file_name@, post_title@),
{
    match result {
        DownloadResult::Skipped => {
            let mut m = owned("File '");
            m.append(file_name);
            m.append("' skipped");
            LogMessage { level: LogLevel::Info, message: m }
        },
        DownloadResult::Error(err) => LogMessage { level: LogLevel::Error, message: err },
        DownloadResult::Success => {
            let mut m = owned("File '");
            m.append(file_name);
            m.append("' downloaded for post ");
            m.append(post_title);
            LogMessage { level: LogLevel::Info, message: m }
        },
    }
}

/// Reports an item of unknown shape.
pub fn unknown_content_item() -> (r: LogMessage)
    ensures
        r@ == info("Post item with unknown content"@),
{
    LogMessage { level: LogLevel::Info, message: owned("Post item with unknown content") }
}

/// A secret shown in part: its first four characters and four asterisks; the
/// empty text stays empty.
pub open spec fn masked(s: Seq<char>) -> Seq<char> {
    if s.len() == 0 {
        s
    } else if s.len() <= 4 {
        s + "****"@
    } else {
        s.take(4) + "****"@
    }
}

/// Shows a secret in part.
pub fn masked_str(s: &str) -> (r: String)
    ensures
        r@ == masked(s@),
{
    let v = chars_of(s);
    if v.len() == 0 {
        assert(s@ =~= Seq::<char>::empty());
        return String::new();
    }
    let n: usize = if v.len() <= 4 {
        v.len()
    } else {
        4
    };
    let mut r = string_of_range(&v, 0, n);
    assert(v@.subrange(0, n as int) =~= v@.take(n as int));
    assert(v@.take(v.len() as int) =~= v@);
    r.append("****");
    r
}

/// Reports that an access token was set, without giving it away.
pub fn access_token_set(token: &str) -> (r: LogMessage)
    ensures
        r@ == info("Access token set: "@ + masked(token@)),
{
    let mut m = owned("Access token set: ");
    m.append(masked_str(token).as_str());
    LogMessage { level: LogLevel::Info, message: m }
}

/// Reports that a refresh token was set, without giving it away.
pub fn refresh_token_set(token: &str) -> (r: LogMessage)
    ensures
        r@ == info("Refresh token set: "@ + masked(token@)),
{
    let mut m = owned("Refresh token set: ");
    m.append(masked_str(token).as_str());
    LogMessage { level: LogLevel::Info, message: m }
}

/// Reports that a client id was set.
pub fn client_id_set(client_id: &str) -> (r: LogMessage)
    ensures
        r@ == info("Client id set: "@ + client_id@),
{
    let mut m = owned("Client id set: ");
    m.append(client_id);
    LogMessage { level: LogLevel::Info, message: m }
}

/// Reports that the tokens and the client id were cleared.
pub fn tokens_and_client_id_cleared() -> (r: LogMessage)
    ensures
        r@ == info("Tokens and client id cleared"@),
{
    LogMessage { level: LogLevel::Info, message: owned("Tokens and client id cleared") }
}

/// Reports a post that is passed over.
pub fn post_not_available_or_without_content(post_title: &str) -> (r: LogMessage)
    ensures
        r@ == warning("Post '"@ + post_title@ + "' not available or has no content"@),
{
    let mut m = owned("Post '");
    m.append(post_title);
    m.append("' not available or has no content");
    LogMessage { level: LogLevel::Warn, message: m }
}

/// Reports a post whose comments are passed over.
pub fn comments_for_post_empty_or_not_available(post_title: &str) -> (r: LogMessage)
    ensures
        r@ == warning("Comments for post '"@ + post_title@ + "' are empty or not available"@),
{
    let mut m = owned("Comments for post '");
    m.append(post_title);
    m.append("' are empty or not available");
    LogMessage { level: LogLevel::Warn, message: m }
}

/// The messages for an error, given as the chain of its causes, outermost
/// first: with `verbose`, one message for every cause; else one message, for
/// the outermost.
pub open spec fn error_messages(chain: Seq<Seq<char>>, verbose: bool) -> Seq<LogMessageView> {
    if verbose {
        chain.map_values(|cause: Seq<char>| error("Caused by: "@ + cause))
    } else if chain.len() > 0 {
        seq![error(chain[0])]
    } else {
        Seq::empty()
    }
}

/// The views of a sequence of messages.
pub open spec fn message_views(messages: Seq<LogMessage>) -> Seq<LogMessageView> {
    messages.map_values(|m: LogMessage| m@)
}

/// Reports an error, given as the chain of its causes.
pub fn print_error(chain: &Vec<String>, verbose: bool) -> (messages: Vec<LogMessage>)
    ensures
        message_views(messages@) == error_messages(chain@.map_values(|c: String| c@), verbose),
{
    let mut messages: Vec<LogMessage> = Vec::new();
    if verbose {
        let mut i: usize = 0;
        while i < chain.len()
            invariant
                i <= chain.len(),
                messages@.len() == i,
                forall|j: int|
                    0 <= j < i ==> (#[trigger] messages@[j])@ == error(
                        "Caused by: "@ + chain@[j]@,
                    ),
            decreases chain.len() - i,
        {
            let mut m = owned("Caused by: ");
            m.append(chain[i].as_str());
            messages.push(LogMessage { level: LogLevel::Error, message: m });
            i = i + 1;
        }
        assert(message_views(messages@) =~= error_messages(
            chain@.map_values(|c: String| c@),
            verbose,
        ));
    } else if chain.len() > 0 {
        messages.push(LogMessage { level: LogLevel::Error, message: chain[0].clone() });
        assert(message_views(messages@) =~= error_messages(
            chain@.map_values(|c: String| c@),
            verbose,
        ));
    } else {
        assert(message_views(messages@) =~= error_messages(
            chain@.map_values(|c: String| c@),
            verbose,
        ));
    }
    messages
}

/// Where messages and progress go. A front end implements it; the library
/// hands it every message it has to report.
pub trait Logger {
    /// Takes a message.
    fn log(&self, level: LogLevel, message: &str);

    /// Takes the progress of a download.
    fn progress(&self, message: ProgressMessage);
}

} // verus!
