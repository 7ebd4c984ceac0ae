//! The trusted base: every call that leaves this crate.
//!
//! Nothing in this file is proved. Each item states what the rest of the
//! crate assumes of a function of the standard library or of another crate.
//! Where a result cannot be stated in a few lines but depends on the
//! arguments alone, it is given a name (a spec function without a body), and
//! the contracts of the crate speak of that name.

use crate::text::{opt_text, opt_texts, texts};
use sha2::Digest;
use vstd::prelude::*;

verus! {

/// `String::push` of the standard library: the string afterwards is the
/// string before with `ch` appended as its last character.
pub assume_specification[ String::push ](s: &mut String, ch: char)
    ensures
        final(s)@ == old(s)@.push(ch),
;

/// The SHA-256 digest of the UTF-8 encoding of `text`, written as lower-case
/// hexadecimal digits.
pub uninterp spec fn sha256_hex(text: Seq<char>) -> Seq<char>;

/// Calls `sha2::Sha256::digest` on the bytes of `text` and formats the digest
/// with `{:x}`. The claim: the result is `sha256_hex` of the text, that is,
/// the same text always gives the same digest.
#[verifier::external_body]
pub(crate) fn hash_str(text: &str) -> (r: String)
    ensures
        r@ == sha256_hex(text@),
{
    format!("{:x}", sha2::Sha256::digest(text.as_bytes()))
}

/// What `serde_json` reads from `content` as a JSON array: `None` where
/// `serde_json` does not accept `content` as one JSON array, else the
/// elements of the array in order, each the text of the element where the
/// element is a JSON string and `None` where it is any other JSON value.
pub uninterp spec fn json_array_strings(content: Seq<char>) -> Option<Seq<Option<Seq<char>>>>;

/// Calls `serde_json::from_str` for a vector of `serde_json::Value` and
/// `Value::as_str` on each element. The claim: the result is
/// `json_array_strings` of the content.
#[verifier::external_body]
pub(crate) fn read_json_array(content: &str) -> (r: Option<Vec<Option<String>>>)
    ensures
        match r {
            Some(v) => json_array_strings(content@) == Some(opt_texts(v@)),
            None => json_array_strings(content@) is None,
        },
{
    match serde_json::from_str::<Vec<serde_json::Value>>(content) {
        Ok(values) => Some(values.iter().map(|v| v.as_str().map(str::to_owned)).collect()),
        Err(_) => None,
    }
}

/// The two `strftime` patterns this crate formats time stamps with.
pub open spec fn is_time_pattern(pattern: Seq<char>) -> bool {
    pattern == "%Y.%m.%d"@ || pattern == "%Y.%m.%d %H:%M"@
}

/// The UTC date and time that lie `secs` seconds after the Unix epoch,
/// written by `chrono` after `pattern`; `None` where `chrono` cannot
/// represent that moment.
pub uninterp spec fn utc_time_text(secs: i64, pattern: Seq<char>) -> Option<Seq<char>>;

/// Calls `chrono::DateTime::from_timestamp(secs, 0)` and, on a result,
/// `DateTime::format` with `pattern`. The claim: the result is
/// `utc_time_text` of the two arguments. The pattern is held to the two that
/// are known to be well formed, since formatting fails on a malformed one.
#[verifier::external_body]
pub(crate) fn format_utc_time(secs: i64, pattern: &str) -> (r: Option<String>)
    requires
        is_time_pattern(pattern@),
    ensures
        opt_text(r) == utc_time_text(secs, pattern@),
{
    match chrono::DateTime::from_timestamp(secs, 0) {
        Some(t) => Some(t.format(pattern).to_string()),
        None => None,
    }
}

/// Calls `Default::default` of `chrono::DateTime<Utc>` and `DateTime::format`
/// with `pattern`. The claim: the default value is the first of January 1970
/// at 00:00:00 UTC, and the pattern writes year, month, day, hour and minute
/// of it with leading zeros.
#[verifier::external_body]
pub(crate) fn format_utc_default(pattern: &str) -> (r: String)
    requires
        pattern@ == "%Y.%m.%d %H:%M"@,
    ensures
        r@ == "1970.01.01 00:00"@,
{
    chrono::DateTime::<chrono::Utc>::default().format(pattern).to_string()
}

/// The parts of a parsed URL that this crate reads.
#[derive(Debug, PartialEq, Eq)]
pub struct UrlParts {
    /// The host, where the URL has one.
    pub host: Option<String>,
    /// The path segments, where the URL can be a base.
    pub segments: Option<Vec<String>>,
}

/// The mathematical form of `UrlParts`.
pub struct UrlPartsView {
    pub host: Option<Seq<char>>,
    pub segments: Option<Seq<Seq<char>>>,
}

impl View for UrlParts {
    type V = UrlPartsView;

    open spec fn view(&self) -> UrlPartsView {
        UrlPartsView {
            host: opt_text(self.host),
            segments: match self.segments {
                Some(v) => Some(texts(v@)),
                None => None,
            },
        }
    }
}

/// What the `url` crate reads from `text`: `None` where `text` is no
/// absolute URL, else the URL's host and path segments.
pub uninterp spec fn url_parts(text: Seq<char>) -> Option<UrlPartsView>;

/// Calls `url::Url::parse`, and on a parsed URL `Url::host_str` and
/// `Url::path_segments`. The claim: the result is `url_parts` of the text.
#[verifier::external_body]
pub(crate) fn read_url(text: &str) -> (r: Option<UrlParts>)
    ensures
        match r {
            Some(parts) => url_parts(text@) == Some(parts@),
            None => url_parts(text@) is None,
        },
{
    match url::Url::parse(text) {
        Ok(u) => Some(
            UrlParts {
                host: u.host_str().map(str::to_owned),
                segments: u.path_segments().map(|parts| parts.map(str::to_owned).collect()),
            },
        ),
        Err(_) => None,
    }
}

} // verus!
