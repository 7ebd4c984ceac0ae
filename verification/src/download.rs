//! The download engine's decisions: when a request is made and to which
//! address, what a response means, and when a failed attempt is repeated.

use crate::names::{sanitize_name, sanitized};
use crate::numbers::{decimal, decimal_text};
use crate::report::{LogLevel, LogMessage, LogMessageView, ProgressMessage};
use crate::text::{opt_str, owned};
use vstd::prelude::*;
use vstd::string::StringExecFns;

verus! {

/// Outcome of one attempt to materialize a content item.
#[derive(Debug, PartialEq, Eq)]
pub enum DownloadResult {
    /// The item could not be materialized; the message says why.
    Error(String),
    /// The item was written.
    Success,
    /// Nothing was written: the item is already there, or it is empty.
    Skipped,
}

/// The mathematical form of `DownloadResult`.
pub enum DownloadResultView {
    Error(Seq<char>),
    Success,
    Skipped,
}

impl View for DownloadResult {
    type V = DownloadResultView;

    open spec fn view(&self) -> DownloadResultView {
        match *self {
            DownloadResult::Error(message) => DownloadResultView::Error(message@),
            DownloadResult::Success => DownloadResultView::Success,
            DownloadResult::Skipped => DownloadResultView::Skipped,
        }
    }
}

/// The first step of one download attempt.
#[derive(Debug, PartialEq, Eq)]
pub enum DownloadStep {
    /// The attempt ends here, without any request.
    Finish(DownloadResult),
    /// Send a GET request to `url` and store the body in the file named
    /// `file_name`.
    Fetch { url: String, file_name: String },
}

/// The mathematical form of `DownloadStep`.
pub enum DownloadStepView {
    Finish(DownloadResultView),
    Fetch { url: Seq<char>, file_name: Seq<char> },
}

impl View for DownloadStep {
    type V = DownloadStepView;

    open spec fn view(&self) -> DownloadStepView {
        match *self {
            DownloadStep::Finish(result) => DownloadStepView::Finish(result@),
            DownloadStep::Fetch { url, file_name } => DownloadStepView::Fetch {
                url: url@,
                file_name: file_name@,
            },
        }
    }
}

/// The message of a download that needs authorization and has none.
pub open spec fn authorization_required(title: Seq<char>) -> Seq<char> {
    "Authorization required: to download file '"@ + title
        + "' an access token must be provided"@
}

/// How one download attempt begins.
///
/// Where the target file exists already, the attempt is skipped. Else, where
/// an authorization suffix is asked for (`Some`) and empty, the attempt
/// fails. In both cases no request is made. Else the request goes to the
/// address followed by the suffix as it stands, or to the address alone where
/// no suffix is asked for.
pub open spec fn first_step(
    target_exists: bool,
    url: Seq<char>,
    title: Seq<char>,
    signed_query: Option<Seq<char>>,
) -> DownloadStepView {
    if target_exists {
        DownloadStepView::Finish(DownloadResultView::Skipped)
    } else {
        match signed_query {
            Some(suffix) => if suffix.len() == 0 {
                DownloadStepView::Finish(DownloadResultView::Error(authorization_required(title)))
            } else {
                DownloadStepView::Fetch { url: url + suffix, file_name: sanitized(title) }
            },
            None => DownloadStepView::Fetch { url: url, file_name: sanitized(title) },
        }
    }
}

/// The name of the file in which the asset with this title is stored.
pub fn asset_file_name(title: &str) -> (r: String)
    ensures
        r@ == sanitized(title@),
{
    sanitize_name(title)
}

/// Begins one download attempt: `target_exists` says whether the file named
/// `asset_file_name(title)` exists in the folder.
pub fn download_file_once(
    target_exists: bool,
    url: &str,
    title: &str,
    signed_query: Option<&str>,
) -> (step: DownloadStep)
    ensures
        step@ == first_step(target_exists, url@, title@, opt_str(signed_query)),
        target_exists ==> step@ == DownloadStepView::Finish(DownloadResultView::Skipped),
        !target_exists && opt_str(signed_query) == Some(Seq::<char>::empty()) ==> step@
            == DownloadStepView::Finish(DownloadResultView::Error(authorization_required(title@))),
        !target_exists && signed_query is None ==> step@ == (DownloadStepView::Fetch {
            url: url@,
            file_name: sanitized(title@),
        }),
        !target_exists && signed_query is Some && opt_str(signed_query)->0.len() > 0 ==> step@
            == (DownloadStepView::Fetch {
            url: url@ + opt_str(signed_query)->0,
            file_name: sanitized(title@),
        }),
{
    if target_exists {
        return DownloadStep::Finish(DownloadResult::Skipped);
    }
    match signed_query {
        Some(suffix) => {
            if suffix.is_empty() {
                let mut m = owned("Authorization required: to download file '");
                m.append(title);
                m.append("' an access token must be provided");
                DownloadStep::Finish(DownloadResult::Error(m))
            } else {
                let mut full = owned(url);
                full.append(suffix);
                DownloadStep::Fetch { url: full, file_name: sanitize_name(title) }
            }
        },
        None => {
            let full = owned(url);
            DownloadStep::Fetch { url: full, file_name: sanitize_name(title) }
        },
    }
}

/// The result of an attempt whose response has no success status: an error
/// that carries the body of the response.
pub open spec fn http_error(body: Seq<char>) -> DownloadResultView {
    DownloadResultView::Error("HTTP "@ + body)
}

/// Makes the result of an attempt whose response has no success status.
pub fn http_failure(body: &str) -> (r: DownloadResult)
    ensures
        r@ == http_error(body@),
{
    let mut m = owned("HTTP ");
    m.append(body);
    DownloadResult::Error(m)
}

/// The number of attempts after which a download is given up.
pub const MAX_RETRIES: u32 = 5;

/// How one attempt ended.
#[derive(Debug, PartialEq, Eq)]
pub enum AttemptEnd {
    /// Before any request: the file is there already, or authorization is
    /// asked for and missing.
    Settled(DownloadResult),
    /// The response was stored in the file.
    Stored,
    /// The server answered without a success status; `body` is what it
    /// answered.
    Refused { body: String },
    /// The network failed: no connection, or a chunk that broke off.
    NetworkError { cause: String },
    /// The file system failed: no permission, or a full disk.
    FileError { cause: String },
}

/// The mathematical form of `AttemptEnd`.
pub enum AttemptEndView {
    Settled(DownloadResultView),
    Stored,
    Refused { body: Seq<char> },
    NetworkError { cause: Seq<char> },
    FileError { cause: Seq<char> },
}

impl View for AttemptEnd {
    type V = AttemptEndView;

    open spec fn view(&self) -> AttemptEndView {
        match *self {
            AttemptEnd::Settled(result) => AttemptEndView::Settled(result@),
            AttemptEnd::Stored => AttemptEndView::Stored,
            AttemptEnd::Refused { body } => AttemptEndView::Refused { body: body@ },
            AttemptEnd::NetworkError { cause } => AttemptEndView::NetworkError { cause: cause@ },
            AttemptEnd::FileError { cause } => AttemptEndView::FileError { cause: cause@ },
        }
    }
}

/// What a download ended in: a result, or the message of the network or
/// file error that it was given up with.
pub type Attempt = Result<DownloadResult, String>;

/// The mathematical form of what a download ended in.
pub type AttemptView = Result<DownloadResultView, Seq<char>>;

/// The mathematical form of what a download ended in.
pub open spec fn attempt_view(attempt: Attempt) -> AttemptView {
    match attempt {
        Ok(result) => Ok(result@),
        Err(message) => Err(message@),
    }
}

/// An attempt may be repeated where the server refused or the network
/// failed. An attempt that was settled before any request, one that stored
/// the file, and one at which the file system failed are never repeated.
pub open spec fn is_retryable(end: AttemptEndView) -> bool {
    end is Refused || end is NetworkError
}

/// What a download ends in where its last attempt ended in `end`.
pub open spec fn final_outcome(end: AttemptEndView) -> AttemptView {
    match end {
        AttemptEndView::Settled(result) => Ok(result),
        AttemptEndView::Stored => Ok(DownloadResultView::Success),
        AttemptEndView::Refused { body } => Ok(http_error(body)),
        AttemptEndView::NetworkError { cause } => Err(cause),
        AttemptEndView::FileError { cause } => Err(cause),
    }
}

/// `2` to the power `n`.
pub open spec fn pow2(n: nat) -> nat
    decreases n,
{
    if n == 0 {
        1
    } else {
        2 * pow2((n - 1) as nat)
    }
}

/// What follows an attempt.
#[derive(Debug, PartialEq, Eq)]
pub enum RetryStep {
    /// The download ends with this outcome.
    Return(Attempt),
    /// Report `notice`, remove what the attempt left of the target file, wait
    /// `delay_secs` seconds, then make the next attempt.
    Retry { delay_secs: u64, notice: LogMessage },
}

/// The mathematical form of `RetryStep`.
pub enum RetryStepView {
    Return(AttemptView),
    Retry { delay_secs: nat, notice: LogMessageView },
}

impl View for RetryStep {
    type V = RetryStepView;

    open spec fn view(&self) -> RetryStepView {
        match *self {
            RetryStep::Return(outcome) => RetryStepView::Return(attempt_view(outcome)),
            RetryStep::Retry { delay_secs, notice } => RetryStepView::Retry {
                delay_secs: delay_secs as nat,
                notice: notice@,
            },
        }
    }
}

/// The notice that goes with a repeated attempt.
pub open spec fn retry_notice(attempt: nat, end: AttemptEndView) -> LogMessageView {
    match end {
        AttemptEndView::NetworkError { cause } => LogMessageView {
            level: LogLevel::Error,
            message: "Download attempt "@ + decimal(attempt) + " failed with error: "@ + cause,
        },
        _ => LogMessageView {
            level: LogLevel::Warn,
            message: "Download attempt "@ + decimal(attempt)
                + " failed (logical error), retrying..."@,
        },
    }
}

/// What follows attempt number `attempt` (the first is number 1) that ended
/// in `end`: an attempt that may be repeated and is not the last one is
/// repeated after `2` to the power `attempt` seconds; after every other
/// attempt the download ends with what that attempt ended in.
pub open spec fn after_attempt(attempt: nat, end: AttemptEndView) -> RetryStepView {
    if is_retryable(end) && attempt < MAX_RETRIES {
        RetryStepView::Retry { delay_secs: pow2(attempt), notice: retry_notice(attempt, end) }
    } else {
        RetryStepView::Return(final_outcome(end))
    }
}

proof fn lemma_pow2_small()
    ensures
        pow2(0) == 1,
        pow2(1) == 2,
        pow2(2) == 4,
        pow2(3) == 8,
        pow2(4) == 16,
{
    reveal_with_fuel(pow2, 6);
}

/// The wait after attempt number `attempt`, in seconds.
fn backoff(attempt: u32) -> (delay_secs: u64)
    requires
        attempt < MAX_RETRIES,
    ensures
        delay_secs == pow2(attempt as nat),
{
    proof {
        lemma_pow2_small();
    }
    if attempt == 0 {
        1
    } else if attempt == 1 {
        2
    } else if attempt == 2 {
        4
    } else if attempt == 3 {
        8
    } else {
        16
    }
}

/// Decides what follows attempt number `attempt`, which ended in `end`.
pub fn download_file_content(attempt: u32, end: AttemptEnd) -> (step: RetryStep)
    ensures
        step@ == after_attempt(attempt as nat, end@),
{
    match end {
        AttemptEnd::Settled(result) => RetryStep::Return(Ok(result)),
        AttemptEnd::Stored => RetryStep::Return(Ok(DownloadResult::Success)),
        AttemptEnd::Refused { body } => {
            if attempt < MAX_RETRIES {
                let mut m = owned("Download attempt ");
                m.append(decimal_text(attempt as u64).as_str());
                m.append(" failed (logical error), retrying...");
                RetryStep::Retry {
                    delay_secs: backoff(attempt),
                    notice: LogMessage { level: LogLevel::Warn, message: m },
                }
            } else {
                RetryStep::Return(Ok(http_failure(body.as_str())))
            }
        },
        AttemptEnd::NetworkError { cause } => {
            if attempt < MAX_RETRIES {
                let mut m = owned("Download attempt ");
                m.append(decimal_text(attempt as u64).as_str());
                m.append(" failed with error: ");
                m.append(cause.as_str());
                RetryStep::Retry {
                    delay_secs: backoff(attempt),
                    notice: LogMessage { level: LogLevel::Error, message: m },
                }
            } else {
                RetryStep::Return(Err(cause))
            }
        },
        AttemptEnd::FileError { cause } => RetryStep::Return(Err(cause)),
    }
}

/// Where a download stands: the number of the attempt that is made next.
pub struct RetrySchedule {
    attempt: u32,
}

impl RetrySchedule {
    /// The number of the attempt that is made next; the first is number 1.
    pub closed spec fn attempt(&self) -> nat {
        self.attempt as nat
    }

    /// No download makes an attempt beyond the last one.
    #[verifier::type_invariant]
    spec fn well_formed(&self) -> bool {
        1 <= self.attempt <= MAX_RETRIES
    }

    /// The schedule of a download of which no attempt was made yet.
    pub fn new() -> (schedule: Self)
        ensures
            schedule.attempt() == 1,
    {
        RetrySchedule { attempt: 1 }
    }

    /// The number of the attempt that is made next.
    pub fn number(&self) -> (r: u32)
        ensures
            r == self.attempt(),
    {
        self.attempt
    }

    /// Takes what the attempt that was just made ended in and says what
    /// follows; where the attempt is repeated, the next attempt has the next
    /// number.
    pub fn record(&mut self, end: AttemptEnd) -> (step: RetryStep)
        ensures
            1 <= old(self).attempt() <= MAX_RETRIES,
            step@ == after_attempt(old(self).attempt(), end@),
            final(self).attempt() == if step@ is Retry {
                old(self).attempt() + 1
            } else {
                old(self).attempt()
            },
    {
        proof {
            use_type_invariant(&*self);
        }
        let step = download_file_content(self.attempt, end);
        match &step {
            RetryStep::Retry { .. } => {
                self.attempt = self.attempt + 1;
            },
            RetryStep::Return(_) => {},
        }
        step
    }
}

/// The course of one download: how many attempts were made, the waits
/// between them in seconds, and the outcome that was returned (`None` where
/// the record of attempts ended before the download did).
pub struct RetryTrace {
    pub attempts: nat,
    pub delays: Seq<nat>,
    pub result: Option<AttemptView>,
}

/// The course of a download whose next attempt has number `attempt` and
/// whose attempts end, one after the other, in `ends`.
pub open spec fn retry_trace(ends: Seq<AttemptEndView>, attempt: nat) -> RetryTrace
    decreases ends.len(),
{
    if ends.len() == 0 {
        RetryTrace { attempts: 0, delays: Seq::empty(), result: None }
    } else {
        match after_attempt(attempt, ends[0]) {
            RetryStepView::Return(outcome) => RetryTrace {
                attempts: 1,
                delays: Seq::empty(),
                result: Some(outcome),
            },
            RetryStepView::Retry { delay_secs, .. } => {
                let rest = retry_trace(ends.drop_first(), attempt + 1);
                RetryTrace {
                    attempts: 1 + rest.attempts,
                    delays: seq![delay_secs] + rest.delays,
                    result: rest.result,
                }
            },
        }
    }
}

/// Against an endpoint that always fails, a download makes exactly five
/// attempts, waits 2, 4, 8 and 16 seconds between them, and ends with what
/// the fifth attempt ended in.
pub proof fn lemma_always_failing_download(ends: Seq<AttemptEndView>)
    requires
        ends.len() >= 5,
        forall|i: int| 0 <= i < 5 ==> is_retryable(#[trigger] ends[i]),
    ensures
        retry_trace(ends, 1).attempts == 5,
        retry_trace(ends, 1).delays == seq![2nat, 4nat, 8nat, 16nat],
        retry_trace(ends, 1).result == Some(final_outcome(ends[4])),
{
    lemma_pow2_small();
    let e1 = ends.drop_first();
    let e2 = e1.drop_first();
    let e3 = e2.drop_first();
    let e4 = e3.drop_first();
    assert(is_retryable(ends[0]));
    assert(e1[0] == ends[1] && is_retryable(ends[1]));
    assert(e2[0] == ends[2] && is_retryable(ends[2]));
    assert(e3[0] == ends[3] && is_retryable(ends[3]));
    assert(e4[0] == ends[4] && is_retryable(ends[4]));
    let last = Some(final_outcome(ends[4]));
    let t4 = retry_trace(e4, 5);
    assert(t4.attempts == 1 && t4.delays == Seq::<nat>::empty() && t4.result == last);
    let t3 = retry_trace(e3, 4);
    assert(t3.attempts == 2 && t3.delays =~= seq![16nat] && t3.result == last);
    let t2 = retry_trace(e2, 3);
    assert(t2.attempts == 3 && t2.delays =~= seq![8nat, 16nat] && t2.result == last);
    let t1 = retry_trace(e1, 2);
    assert(t1.attempts == 4 && t1.delays =~= seq![4nat, 8nat, 16nat] && t1.result == last);
    let t0 = retry_trace(ends, 1);
    assert(t0.delays =~= seq![2nat, 4nat, 8nat, 16nat]);
}

/// No download makes more attempts than `MAX_RETRIES`, counted from the
/// first, and between two attempts there is one wait.
pub proof fn lemma_attempts_bounded(ends: Seq<AttemptEndView>, attempt: nat)
    requires
        1 <= attempt <= MAX_RETRIES,
    ensures
        retry_trace(ends, attempt).attempts <= MAX_RETRIES - attempt + 1,
        retry_trace(ends, attempt).result is Some ==> retry_trace(ends, attempt).delays.len() + 1
            == retry_trace(ends, attempt).attempts,
    decreases ends.len(),
{
    if ends.len() > 0 {
        match after_attempt(attempt, ends[0]) {
            RetryStepView::Return(_) => {},
            RetryStepView::Retry { .. } => {
                lemma_attempts_bounded(ends.drop_first(), attempt + 1);
            },
        }
    }
}

/// An attempt that may not be repeated ends the download at once: one that
/// stored the file, one that was settled before any request, and one at
/// which the file system failed.
pub proof fn lemma_settled_attempt_ends_download(ends: Seq<AttemptEndView>, attempt: nat)
    requires
        ends.len() > 0,
        !is_retryable(ends[0]),
    ensures
        retry_trace(ends, attempt).attempts == 1,
        retry_trace(ends, attempt).delays.len() == 0,
        retry_trace(ends, attempt).result == Some(final_outcome(ends[0])),
{
}

/// A download that finds its file in place, and one that needs
/// authorization and has none, ends at its first attempt, without a request
/// and without a wait.
pub proof fn lemma_no_request_no_retry(
    target_exists: bool,
    url: Seq<char>,
    title: Seq<char>,
    signed_query: Option<Seq<char>>,
    later: Seq<AttemptEndView>,
)
    requires
        target_exists || signed_query == Some(Seq::<char>::empty()),
    ensures
        first_step(target_exists, url, title, signed_query) is Finish,
        ({
            let result = first_step(target_exists, url, title, signed_query)->Finish_0;
            let trace = retry_trace(seq![AttemptEndView::Settled(result)] + later, 1);
            &&& target_exists ==> result == DownloadResultView::Skipped
            &&& !target_exists ==> result == DownloadResultView::Error(
                authorization_required(title),
            )
            &&& trace.attempts == 1
            &&& trace.delays.len() == 0
            &&& trace.result == Some(Ok::<DownloadResultView, Seq<char>>(result))
        }),
{
}

/// The headers that go with every download request.
pub open spec fn download_headers() -> Seq<(Seq<char>, Seq<char>)> {
    seq![
        (
            "user-agent"@,
            "Mozilla/5.0 (X11; Linux x86_64) AppleWebKit/537.36 (KHTML, like Gecko) Chrome/136.0.0.0 Safari/537.36"@,
        ),
        (
            "accept"@,
            "text/html,application/xhtml+xml,application/xml;q=0.9,image/avif,image/webp,image/apng,*/*;q=0.8,application/signed-exchange;v=b3;q=0.7"@,
        ),
        ("accept-encoding"@, "gzip, deflate, br, zstd"@),
    ]
}

/// The mathematical form of a list of headers.
pub open spec fn header_views(headers: Seq<(String, String)>) -> Seq<(Seq<char>, Seq<char>)> {
    headers.map_values(|h: (String, String)| (h.0@, h.1@))
}

/// The headers that go with every download request, as pairs of name and
/// value.
pub fn default_download_headers() -> (headers: Vec<(String, String)>)
    ensures
        header_views(headers@) == download_headers(),
{
    let mut headers: Vec<(String, String)> = Vec::new();
    headers.push(
        (
            owned("user-agent"),
            owned(
                "Mozilla/5.0 (X11; Linux x86_64) AppleWebKit/537.36 (KHTML, like Gecko) Chrome/136.0.0.0 Safari/537.36",
            ),
        ),
    );
    headers.push(
        (
            owned("accept"),
            owned(
                "text/html,application/xhtml+xml,application/xml;q=0.9,image/avif,image/webp,image/apng,*/*;q=0.8,application/signed-exchange;v=b3;q=0.7",
            ),
        ),
    );
    headers.push((owned("accept-encoding"), owned("gzip, deflate, br, zstd")));
    assert(header_views(headers@) =~= download_headers());
    headers
}

/// Counts the bytes of one download as they arrive.
pub struct ProgressReporter {
    total: u64,
    downloaded: u64,
}

impl ProgressReporter {
    /// The bytes expected in all; `0` where the length is not known.
    pub closed spec fn total(&self) -> nat {
        self.total as nat
    }

    /// The bytes counted so far.
    pub closed spec fn downloaded(&self) -> nat {
        self.downloaded as nat
    }

    /// A reporter for a body of `total` bytes (`0`: of unknown length), with
    /// nothing counted yet.
    pub fn new(total: u64) -> (r: Self)
        ensures
            r.total() == total,
            r.downloaded() == 0,
    {
        ProgressReporter { total, downloaded: 0 }
    }

    /// The bytes expected in all; `0` where the length is not known.
    pub fn total_bytes(&self) -> (r: u64)
        ensures
            r == self.total(),
    {
        self.total
    }

    /// The bytes counted so far.
    pub fn downloaded_bytes(&self) -> (r: u64)
        ensures
            r == self.downloaded(),
    {
        self.downloaded
    }

    /// Whether the total is known, so that progress can be shown as a share
    /// of it; else only the running count can be shown.
    pub fn is_determinate(&self) -> (r: bool)
        ensures
            r == (self.total() > 0),
    {
        self.total > 0
    }

    /// Counts a chunk of `bytes` bytes and says how far the download has
    /// come. The count stops at the largest number a `u64` holds.
    pub fn inc(&mut self, bytes: u64) -> (message: ProgressMessage)
        ensures
            final(self).total() == old(self).total(),
            final(self).downloaded() == if old(self).downloaded() + bytes <= u64::MAX {
                old(self).downloaded() + bytes
            } else {
                u64::MAX as int
            },
            message.current == final(self).downloaded(),
            message.total == final(self).total(),
    {
        self.downloaded = self.downloaded.saturating_add(bytes);
        ProgressMessage { current: self.downloaded, total: self.total }
    }
}

} // verus!
