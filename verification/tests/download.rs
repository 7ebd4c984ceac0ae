use boosty_downloader::download::{
    asset_file_name, default_download_headers, download_file_content, download_file_once,
    http_failure, AttemptEnd, DownloadResult, DownloadStep, ProgressReporter, RetrySchedule,
    RetryStep, MAX_RETRIES,
};
use boosty_downloader::report::{LogLevel, ProgressMessage};

#[test]
fn existing_file_is_skipped_without_a_request() {
    for signed_query in [None, Some(""), Some("?sig=1")] {
        assert_eq!(
            download_file_once(true, "https://x/y", "name", signed_query),
            DownloadStep::Finish(DownloadResult::Skipped)
        );
    }
}

#[test]
fn missing_authorization_fails_without_a_request() {
    assert_eq!(
        download_file_once(false, "https://x/y", "doc.pdf", Some("")),
        DownloadStep::Finish(DownloadResult::Error(
            "Authorization required: to download file 'doc.pdf' an access token must be provided"
                .to_string()
        ))
    );
}

#[test]
fn authorization_suffix_is_appended_verbatim() {
    assert_eq!(
        download_file_once(false, "https://x/y", "a/b.pdf", Some("?sign=a b&c=%20")),
        DownloadStep::Fetch {
            url: "https://x/y?sign=a b&c=%20".to_string(),
            file_name: "a_b.pdf".to_string(),
        }
    );
}

#[test]
fn no_suffix_where_none_is_asked_for() {
    assert_eq!(
        download_file_once(false, "https://x/y", "pic.jpg", None),
        DownloadStep::Fetch { url: "https://x/y".to_string(), file_name: "pic.jpg".to_string() }
    );
}

#[test]
fn asset_file_name_is_the_sanitized_title() {
    assert_eq!(asset_file_name("a:b?.mp3 "), "a_b_.mp3");
}

#[test]
fn http_failure_carries_the_body() {
    assert_eq!(http_failure("not found"), DownloadResult::Error("HTTP not found".to_string()));
    assert_eq!(http_failure(""), DownloadResult::Error("HTTP ".to_string()));
}

fn refused(body: &str) -> AttemptEnd {
    AttemptEnd::Refused { body: body.to_string() }
}

fn network(cause: &str) -> AttemptEnd {
    AttemptEnd::NetworkError { cause: cause.to_string() }
}

fn run(
    end_of: impl Fn(u32) -> AttemptEnd,
) -> (u32, Vec<u64>, Vec<LogLevel>, Result<DownloadResult, String>) {
    let mut schedule = RetrySchedule::new();
    let mut delays = Vec::new();
    let mut levels = Vec::new();
    let mut attempts = 0;
    loop {
        attempts += 1;
        assert_eq!(schedule.number(), attempts);
        match schedule.record(end_of(attempts)) {
            RetryStep::Return(outcome) => return (attempts, delays, levels, outcome),
            RetryStep::Retry { delay_secs, notice } => {
                delays.push(delay_secs);
                levels.push(notice.level);
            }
        }
    }
}

#[test]
fn always_failing_endpoint_is_tried_five_times() {
    let (attempts, delays, levels, outcome) = run(|n| refused(&format!("fail {n}")));
    assert_eq!(attempts, 5);
    assert_eq!(MAX_RETRIES, 5);
    assert_eq!(delays, vec![2, 4, 8, 16]);
    assert_eq!(levels, vec![LogLevel::Warn; 4]);
    assert_eq!(outcome, Ok(DownloadResult::Error("HTTP fail 5".to_string())));
}

#[test]
fn network_errors_are_retried_like_logical_errors() {
    let (attempts, delays, levels, outcome) = run(|n| network(&format!("connection reset {n}")));
    assert_eq!(attempts, 5);
    assert_eq!(delays, vec![2, 4, 8, 16]);
    assert_eq!(levels, vec![LogLevel::Error; 4]);
    assert_eq!(outcome, Err("connection reset 5".to_string()));
}

#[test]
fn mixed_failures_are_counted_together() {
    let (attempts, delays, levels, outcome) = run(|n| {
        if n % 2 == 1 {
            network("timeout")
        } else {
            refused("busy")
        }
    });
    assert_eq!(attempts, 5);
    assert_eq!(delays, vec![2, 4, 8, 16]);
    assert_eq!(levels, vec![LogLevel::Error, LogLevel::Warn, LogLevel::Error, LogLevel::Warn]);
    assert_eq!(outcome, Err("timeout".to_string()));
}

#[test]
fn stored_file_ends_the_download_at_once() {
    let (attempts, delays, _, outcome) = run(|_| AttemptEnd::Stored);
    assert_eq!((attempts, delays, outcome), (1, vec![], Ok(DownloadResult::Success)));
}

#[test]
fn skip_ends_the_download_at_once() {
    let end = || match download_file_once(true, "https://x/y", "t", None) {
        DownloadStep::Finish(result) => AttemptEnd::Settled(result),
        other => panic!("unexpected {other:?}"),
    };
    let (attempts, delays, _, outcome) = run(|_| end());
    assert_eq!((attempts, delays, outcome), (1, vec![], Ok(DownloadResult::Skipped)));
}

#[test]
fn missing_authorization_is_not_retried() {
    let end = || match download_file_once(false, "https://x/y", "t", Some("")) {
        DownloadStep::Finish(result) => AttemptEnd::Settled(result),
        other => panic!("unexpected {other:?}"),
    };
    let (attempts, delays, _, outcome) = run(|_| end());
    assert_eq!(attempts, 1);
    assert_eq!(delays, Vec::<u64>::new());
    assert_eq!(
        outcome,
        Ok(DownloadResult::Error(
            "Authorization required: to download file 't' an access token must be provided"
                .to_string()
        ))
    );
}

#[test]
fn file_errors_are_not_retried() {
    let (attempts, delays, _, outcome) =
        run(|_| AttemptEnd::FileError { cause: "disk full".to_string() });
    assert_eq!((attempts, delays, outcome), (1, vec![], Err("disk full".to_string())));
}

#[test]
fn success_after_two_failures() {
    let (attempts, delays, _, outcome) = run(|n| {
        if n < 3 {
            network("timeout")
        } else {
            AttemptEnd::Stored
        }
    });
    assert_eq!((attempts, delays, outcome), (3, vec![2, 4], Ok(DownloadResult::Success)));
}

#[test]
fn retry_notices_name_the_attempt() {
    match download_file_content(3, refused("x")) {
        RetryStep::Retry { delay_secs, notice } => {
            assert_eq!(delay_secs, 8);
            assert_eq!(notice.level, LogLevel::Warn);
            assert_eq!(notice.message, "Download attempt 3 failed (logical error), retrying...");
        }
        other => panic!("unexpected {other:?}"),
    }
    match download_file_content(1, network("broken pipe")) {
        RetryStep::Retry { delay_secs, notice } => {
            assert_eq!(delay_secs, 2);
            assert_eq!(notice.level, LogLevel::Error);
            assert_eq!(notice.message, "Download attempt 1 failed with error: broken pipe");
        }
        other => panic!("unexpected {other:?}"),
    }
}

#[test]
fn attempts_past_the_limit_return_at_once() {
    for attempt in [5u32, 6, 100, u32::MAX] {
        assert_eq!(
            download_file_content(attempt, network("e")),
            RetryStep::Return(Err("e".to_string()))
        );
        assert_eq!(
            download_file_content(attempt, refused("b")),
            RetryStep::Return(Ok(DownloadResult::Error("HTTP b".to_string())))
        );
    }
}

#[test]
fn schedule_stays_at_the_attempt_that_ended_the_download() {
    let mut schedule = RetrySchedule::new();
    assert!(matches!(schedule.record(refused("x")), RetryStep::Retry { delay_secs: 2, .. }));
    assert_eq!(schedule.number(), 2);
    assert_eq!(
        schedule.record(AttemptEnd::Stored),
        RetryStep::Return(Ok(DownloadResult::Success))
    );
    assert_eq!(schedule.number(), 2);
}

#[test]
fn download_headers_mimic_a_browser() {
    let headers = default_download_headers();
    assert_eq!(headers.len(), 3);
    assert_eq!(headers[0].0, "user-agent");
    assert_eq!(
        headers[0].1,
        "Mozilla/5.0 (X11; Linux x86_64) AppleWebKit/537.36 (KHTML, like Gecko) Chrome/136.0.0.0 Safari/537.36"
    );
    assert_eq!(headers[1].0, "accept");
    assert_eq!(
        headers[1].1,
        "text/html,application/xhtml+xml,application/xml;q=0.9,image/avif,image/webp,image/apng,*/*;q=0.8,application/signed-exchange;v=b3;q=0.7"
    );
    assert_eq!(headers[2], ("accept-encoding".to_string(), "gzip, deflate, br, zstd".to_string()));
}

#[test]
fn progress_counts_the_bytes_of_every_chunk() {
    let mut reporter = ProgressReporter::new(100);
    assert!(reporter.is_determinate());
    assert_eq!(reporter.inc(30), ProgressMessage { current: 30, total: 100 });
    assert_eq!(reporter.inc(0), ProgressMessage { current: 30, total: 100 });
    assert_eq!(reporter.inc(70), ProgressMessage { current: 100, total: 100 });
}

#[test]
fn progress_of_unknown_length_is_indeterminate() {
    let mut reporter = ProgressReporter::new(0);
    assert!(!reporter.is_determinate());
    assert_eq!(reporter.inc(5), ProgressMessage { current: 5, total: 0 });
}

#[test]
fn progress_count_stops_at_the_largest_number() {
    let mut reporter = ProgressReporter::new(0);
    reporter.inc(u64::MAX - 1);
    assert_eq!(reporter.inc(10), ProgressMessage { current: u64::MAX, total: 0 });
}
