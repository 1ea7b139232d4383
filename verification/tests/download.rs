//! Downloads over connections that are lost.

use gnosis_vpn_update::update::download::{
    is_retryable, range_header, strong_validator, DownloadError, Fetch, FetchAction, FetchEvent, RetryPolicy,
    TransferFailure,
};

const MILLI: u64 = 1_000_000;

fn fast_policy(budget_ms: u64) -> RetryPolicy {
    RetryPolicy { retry_interval: 10 * MILLI, reconnect_budget: budget_ms * MILLI }
}

fn payload() -> Vec<u8> {
    (0..1000u32).map(|i| (i % 251) as u8).collect()
}

/// One answer of a server: its status, its entity tag, the bytes it sends, and
/// whether it sends all that it announced.
struct Answer {
    status: u16,
    etag: Option<&'static str>,
    body: Vec<u8>,
    complete: bool,
}

fn answer(status: u16, body: &[u8], complete: bool) -> Answer {
    Answer { status, etag: None, body: body.to_vec(), complete }
}

/// What a server does once it has given all its answers.
#[derive(Clone, Copy)]
enum AfterScript {
    /// Take connections and close them.
    CloseConnections,
    /// Give the last answer over and over.
    RepeatLastAnswer,
}

/// A request, as the server sees it.
#[derive(Debug, PartialEq)]
struct Request {
    range_from: Option<u64>,
    if_range: Option<Vec<u8>>,
}

fn dropped() -> TransferFailure {
    TransferFailure {
        is_status: false,
        is_builder: false,
        is_redirect: false,
        text: "connection closed".into(),
    }
}

/// Runs a download against a server. Each request takes a millisecond.
fn fetch(
    script: Vec<Answer>,
    after: AfterScript,
    expected: u64,
    policy: RetryPolicy,
) -> (Result<u64, DownloadError>, Vec<u8>, Vec<Request>) {
    let mut fetch = Fetch::new(expected, policy);
    let mut file: Vec<u8> = Vec::new();
    let mut requests: Vec<Request> = Vec::new();
    let mut now: u64 = 5_000_000_000;
    let mut served: usize = 0;
    // The answer that is being sent, and whether its body has been.
    let mut connection: (usize, bool) = (0, false);
    let mut action = fetch.step(FetchEvent::Begin, now);
    loop {
        let event = match action {
            FetchAction::Pause(n) => {
                now += n;
                FetchEvent::Woke
            }
            FetchAction::Send { range_from, if_range, limit } => {
                now += MILLI;
                requests.push(Request { range_from, if_range });
                let index = if served < script.len() {
                    Some(served)
                } else {
                    match after {
                        AfterScript::CloseConnections => None,
                        AfterScript::RepeatLastAnswer => Some(script.len() - 1),
                    }
                };
                served += 1;
                match index {
                    Some(index) => {
                        connection = (index, false);
                        let a = &script[index];
                        FetchEvent::Response {
                            status: a.status,
                            etag: a.etag.map(|t| t.as_bytes().to_vec()),
                            last_modified: None,
                            status_error: format!("HTTP status client error ({})", a.status),
                        }
                    }
                    None if limit.is_some_and(|n| n < MILLI) => FetchEvent::SendTimedOut,
                    None => FetchEvent::SendFailed(dropped()),
                }
            }
            FetchAction::Empty => {
                file.clear();
                FetchEvent::Emptied(Ok(()))
            }
            FetchAction::Read => {
                let (index, sent) = connection;
                let a = &script[index];
                if !sent && !a.body.is_empty() {
                    connection = (index, true);
                    FetchEvent::Chunk(a.body.len() as u64)
                } else if a.complete {
                    FetchEvent::End
                } else {
                    FetchEvent::ReadFailed(dropped())
                }
            }
            FetchAction::Write => {
                file.extend_from_slice(&script[connection.0].body);
                FetchEvent::Written(Ok(()))
            }
            FetchAction::Finish(result) => return (result, file, requests),
        };
        action = fetch.step(event, now);
    }
}

#[test]
fn resumes_after_mid_body_drop() {
    let payload = payload();
    let script = vec![answer(200, &payload[..500], false), answer(206, &payload[500..], true)];
    let (result, file, requests) =
        fetch(script, AfterScript::CloseConnections, 1000, fast_policy(2000));
    assert_eq!(result.unwrap(), 1000);
    assert_eq!(file, payload);
    assert_eq!(requests[0].range_from, None);
    assert_eq!(requests[1].range_from, Some(500));
    assert_eq!(range_header(requests[1].range_from.unwrap()), "bytes=500-");
}

#[test]
fn range_is_worded_for_the_server() {
    assert_eq!(range_header(0), "bytes=0-");
    assert_eq!(range_header(u64::MAX), "bytes=18446744073709551615-");
}

#[test]
fn sends_if_range_when_first_response_has_etag() {
    let payload = payload();
    let mut first = answer(200, &payload[..500], false);
    first.etag = Some("\"v1\"");
    let script = vec![first, answer(206, &payload[500..], true)];
    let (result, _, requests) =
        fetch(script, AfterScript::CloseConnections, 1000, fast_policy(2000));
    assert_eq!(result.unwrap(), 1000);
    assert_eq!(requests[0].if_range, None);
    assert_eq!(requests[1].if_range.as_deref(), Some("\"v1\"".as_bytes()));
}

#[test]
fn restarts_when_server_ignores_range() {
    let payload = payload();
    let script = vec![answer(200, &payload[..500], false), answer(200, &payload, true)];
    let (result, file, _) = fetch(script, AfterScript::CloseConnections, 1000, fast_policy(2000));
    assert_eq!(result.unwrap(), 1000);
    // The partial 500 bytes must have been truncated away, not prepended.
    assert_eq!(file, payload);
}

#[test]
fn fails_with_connection_lost_after_budget() {
    let payload = payload();
    let script = vec![answer(200, &payload[..500], false)];
    let (result, _, requests) =
        fetch(script, AfterScript::CloseConnections, 1000, fast_policy(300));
    match result.unwrap_err() {
        DownloadError::ConnectionLost { bytes_done, expected, last_error, .. } => {
            assert_eq!(bytes_done, 500);
            assert_eq!(expected, 1000);
            // The last attempt had no time left.
            assert_eq!(last_error, "reconnect attempt timed out");
        }
        other => panic!("expected ConnectionLost, got: {other:?}"),
    }
    // An attempt every eleven milliseconds for three hundred.
    assert_eq!(requests.len(), 1 + 28);
}

#[test]
fn fails_fast_on_http_status_error() {
    let script = vec![answer(404, b"", true)];
    let (result, _, requests) =
        fetch(script, AfterScript::RepeatLastAnswer, 1000, fast_policy(2000));
    let err = result.unwrap_err();
    assert!(matches!(err, DownloadError::Http(_)), "got: {err:?}");
    assert!(err.to_string().contains("404"), "got: {err:?}");
    assert_eq!(requests.len(), 1, "status error must not be retried");
}

#[test]
fn completes_when_drop_lands_on_last_byte() {
    let payload = payload();
    // The server announced one byte more than it sends.
    let script = vec![answer(200, &payload, false)];
    let (result, _, requests) =
        fetch(script, AfterScript::CloseConnections, 1000, fast_policy(2000));
    assert_eq!(result.unwrap(), 1000);
    assert_eq!(requests.len(), 1, "complete download must not re-request");
}

#[test]
fn no_progress_reconnects_do_not_reset_budget() {
    // Every connection hands out headers but never a body byte — the
    // budget must keep running across these "successful" reconnects.
    let script = vec![answer(200, b"", false)];
    let (result, _, _) = fetch(script, AfterScript::RepeatLastAnswer, 1000, fast_policy(300));
    assert!(matches!(result, Err(DownloadError::ConnectionLost { .. })), "got: {result:?}");
}

#[test]
fn data_starts_the_budget_anew() {
    // Ten losses, each far below the budget, add up to more than it.
    let payload = payload();
    let mut script = vec![answer(200, &payload[..100], false)];
    for i in 1..9 {
        script.push(answer(206, &payload[i * 100..(i + 1) * 100], false));
    }
    script.push(answer(206, &payload[900..], true));
    let (result, file, requests) =
        fetch(script, AfterScript::CloseConnections, 1000, fast_policy(50));
    assert_eq!(result.unwrap(), 1000);
    assert_eq!(file, payload);
    assert_eq!(requests.len(), 10);
    assert_eq!(requests[9].range_from, Some(900));
}

#[test]
fn length_that_is_not_known_ends_with_the_body() {
    let payload = payload();
    let script = vec![answer(200, &payload[..500], false), answer(206, &payload[500..], true)];
    let (result, file, _) = fetch(script, AfterScript::CloseConnections, 0, fast_policy(2000));
    assert_eq!(result.unwrap(), 1000);
    assert_eq!(file, payload);
}

#[test]
fn odd_statuses_are_refused() {
    let script = vec![answer(304, b"", true)];
    let (result, _, _) = fetch(script, AfterScript::CloseConnections, 10, fast_policy(100));
    let err = result.unwrap_err();
    assert!(matches!(err, DownloadError::UnexpectedStatus(304)));
    assert_eq!(err.to_string(), "unexpected http status: 304 Not Modified");

    // A part that was not asked for.
    let script = vec![answer(206, b"x", true)];
    let (result, _, _) = fetch(script, AfterScript::CloseConnections, 10, fast_policy(100));
    assert_eq!(
        result.unwrap_err().to_string(),
        "unexpected http status: 206 Partial Content"
    );
}

#[test]
fn attempt_while_offline_is_limited_by_what_is_left() {
    let mut fetch = Fetch::new(10, fast_policy(100));
    let start: u64 = 1_000 * MILLI;
    match fetch.step(FetchEvent::Begin, start) {
        FetchAction::Send { limit, .. } => assert_eq!(limit, None),
        other => panic!("unexpected {other:?}"),
    }
    match fetch.step(FetchEvent::SendFailed(dropped()), start) {
        FetchAction::Pause(n) => assert_eq!(n, 10 * MILLI),
        other => panic!("unexpected {other:?}"),
    }
    match fetch.step(FetchEvent::Woke, start + 30 * MILLI) {
        FetchAction::Send { range_from, limit, .. } => {
            assert_eq!(range_from, None);
            assert_eq!(limit, Some(70 * MILLI));
        }
        other => panic!("unexpected {other:?}"),
    }
    match fetch.step(FetchEvent::SendTimedOut, start + 2_000 * MILLI) {
        FetchAction::Finish(Err(e)) => assert_eq!(
            e.to_string(),
            "connection lost: gave up after 2s offline at byte 0 of 10: reconnect attempt timed out"
        ),
        other => panic!("unexpected {other:?}"),
    }
}

#[test]
fn structural_failures_are_not_retried() {
    let failure = |is_status, is_builder, is_redirect| TransferFailure {
        is_status,
        is_builder,
        is_redirect,
        text: "bad".into(),
    };
    assert!(is_retryable(&failure(false, false, false)));
    assert!(!is_retryable(&failure(true, false, false)));
    assert!(!is_retryable(&failure(false, true, false)));
    assert!(!is_retryable(&failure(false, false, true)));

    let mut fetch = Fetch::new(10, fast_policy(100));
    fetch.step(FetchEvent::Begin, 0);
    match fetch.step(FetchEvent::SendFailed(failure(false, false, true)), 0) {
        FetchAction::Finish(Err(e)) => assert_eq!(e.to_string(), "http: bad"),
        other => panic!("unexpected {other:?}"),
    }
}

#[test]
fn disk_errors_end_the_download() {
    let response = |status| FetchEvent::Response {
        status,
        etag: None,
        last_modified: None,
        status_error: String::new(),
    };
    let mut fetch = Fetch::new(10, fast_policy(100));
    fetch.step(FetchEvent::Begin, 0);
    fetch.step(response(200), 0);
    fetch.step(FetchEvent::Chunk(5), 0);
    match fetch.step(FetchEvent::Written(Err("disk full".into())), 0) {
        FetchAction::Finish(Err(e)) => assert_eq!(e.to_string(), "io: disk full"),
        other => panic!("unexpected {other:?}"),
    }

    let mut fetch = Fetch::new(10, fast_policy(100));
    fetch.step(FetchEvent::Begin, 0);
    fetch.step(response(200), 0);
    fetch.step(FetchEvent::Chunk(5), 0);
    fetch.step(FetchEvent::Written(Ok(())), 0);
    fetch.step(FetchEvent::ReadFailed(dropped()), 0);
    fetch.step(FetchEvent::Woke, 0);
    assert!(matches!(fetch.step(response(200), 0), FetchAction::Empty));
    match fetch.step(FetchEvent::Emptied(Err("read-only".into())), 0) {
        FetchAction::Finish(Err(e)) => assert_eq!(e.to_string(), "io: read-only"),
        other => panic!("unexpected {other:?}"),
    }
}

#[test]
fn weak_tags_are_passed_over() {
    let bytes = |s: &str| Some(s.as_bytes().to_vec());
    assert_eq!(strong_validator(bytes("\"v1\""), bytes("Mon")), bytes("\"v1\""));
    assert_eq!(strong_validator(bytes("W/\"v1\""), bytes("Mon")), bytes("Mon"));
    assert_eq!(strong_validator(bytes("W/\"v1\""), None), None);
    assert_eq!(strong_validator(None, bytes("Mon")), bytes("Mon"));
    assert_eq!(strong_validator(None, None), None);
    assert_eq!(strong_validator(bytes("W"), None), bytes("W"));
}

#[test]
fn download_errors_are_worded() {
    let cases = [
        (DownloadError::Http("e".into()), "http: e"),
        (DownloadError::Io("e".into()), "io: e"),
        (
            DownloadError::InsufficientSpace { needed: 600, free: 5 },
            "not enough disk space: need 600, free 5",
        ),
        (
            DownloadError::SymlinkDownloadPath,
            "download path is a symlink — refusing to write",
        ),
        (
            DownloadError::SizeMismatch { expected: 10, actual: 0 },
            "manifest size 10 but downloaded 0",
        ),
        (
            DownloadError::InsecureUrl("http".into()),
            "refusing to download artifact over insecure scheme: http",
        ),
        (
            DownloadError::InvalidFilename("https://x/".into()),
            "manifest download URL has no safe artifact filename: https://x/",
        ),
        (
            DownloadError::ConnectionLost {
                offline_secs: 121,
                bytes_done: 500,
                expected: 18446744073709551615,
                last_error: "reset".into(),
            },
            "connection lost: gave up after 121s offline at byte 500 of 18446744073709551615: reset",
        ),
        (DownloadError::UnexpectedStatus(204), "unexpected http status: 204 No Content"),
        (
            DownloadError::UnexpectedStatus(999),
            "unexpected http status: 999 <unknown status code>",
        ),
    ];
    for (error, text) in cases {
        assert_eq!(error.to_string(), text);
    }
}

#[test]
fn policy_in_use_tries_for_two_minutes() {
    let policy = RetryPolicy::production();
    assert_eq!(policy.retry_interval, 1_000_000_000);
    assert_eq!(policy.reconnect_budget, 120_000_000_000);
}
