//! A download that survives lost connections.
//!
//! The artifact comes over the VPN itself, a slow path on which connections
//! are lost as a matter of course. So a lost connection does not end the
//! download: it is taken up again at the byte where it stopped, and given up
//! only once there has been no connection for as long as the policy allows.
//! Whether the bytes are the right ones is for the caller to tell, by their
//! number and their digest.
//!
//! [`Fetch`] decides; its runner does what the [`FetchAction`]s say and hands
//! back a [`FetchEvent`] for each.

use vstd::prelude::*;
use vstd::string::StringExecFns;

use crate::foreign::{reason_phrase, status_text};
use crate::text::{decimal, decimal_text};

verus! {

/// Why an artifact could not be downloaded.
#[derive(Debug)]
pub enum DownloadError {
    Http(String),
    Io(String),
    InsufficientSpace { needed: u64, free: u64 },
    SymlinkDownloadPath,
    SizeMismatch { expected: u64, actual: u64 },
    InsecureUrl(String),
    InvalidFilename(String),
    ConnectionLost { offline_secs: u64, bytes_done: u64, expected: u64, last_error: String },
    UnexpectedStatus(u16),
}

/// What a [`DownloadError`] says.
pub enum DownloadErrorView {
    Http(Seq<char>),
    Io(Seq<char>),
    InsufficientSpace { needed: u64, free: u64 },
    SymlinkDownloadPath,
    SizeMismatch { expected: u64, actual: u64 },
    InsecureUrl(Seq<char>),
    InvalidFilename(Seq<char>),
    ConnectionLost { offline_secs: u64, bytes_done: u64, expected: u64, last_error: Seq<char> },
    UnexpectedStatus(u16),
}

impl View for DownloadError {
    type V = DownloadErrorView;

    open spec fn view(&self) -> DownloadErrorView {
        match self {
            DownloadError::Http(e) => DownloadErrorView::Http(e@),
            DownloadError::Io(e) => DownloadErrorView::Io(e@),
            DownloadError::InsufficientSpace { needed, free } => {
                DownloadErrorView::InsufficientSpace { needed: *needed, free: *free }
            },
            DownloadError::SymlinkDownloadPath => DownloadErrorView::SymlinkDownloadPath,
            DownloadError::SizeMismatch { expected, actual } => DownloadErrorView::SizeMismatch {
                expected: *expected,
                actual: *actual,
            },
            DownloadError::InsecureUrl(scheme) => DownloadErrorView::InsecureUrl(scheme@),
            DownloadError::InvalidFilename(url) => DownloadErrorView::InvalidFilename(url@),
            DownloadError::ConnectionLost { offline_secs, bytes_done, expected, last_error } => {
                DownloadErrorView::ConnectionLost {
                    offline_secs: *offline_secs,
                    bytes_done: *bytes_done,
                    expected: *expected,
                    last_error: last_error@,
                }
            },
            DownloadError::UnexpectedStatus(code) => DownloadErrorView::UnexpectedStatus(*code),
        }
    }
}

/// Whether `code` is an HTTP status code.
pub open spec fn is_status_code(code: u16) -> bool {
    100 <= code <= 999
}

impl DownloadErrorView {
    /// Whether a status that the error is about is an HTTP status.
    pub open spec fn valid(self) -> bool {
        self matches DownloadErrorView::UnexpectedStatus(code) ==> is_status_code(code)
    }

    /// How the error is worded.
    pub open spec fn text(self) -> Seq<char> {
        match self {
            DownloadErrorView::Http(e) => "http: "@ + e,
            DownloadErrorView::Io(e) => "io: "@ + e,
            DownloadErrorView::InsufficientSpace { needed, free } => {
                "not enough disk space: need "@ + decimal(needed as nat) + ", free "@ + decimal(
                    free as nat,
                )
            },
            DownloadErrorView::SymlinkDownloadPath => {
                "download path is a symlink — refusing to write"@
            },
            DownloadErrorView::SizeMismatch { expected, actual } => "manifest size "@ + decimal(
                expected as nat,
            ) + " but downloaded "@ + decimal(actual as nat),
            DownloadErrorView::InsecureUrl(scheme) => {
                "refusing to download artifact over insecure scheme: "@ + scheme
            },
            DownloadErrorView::InvalidFilename(url) => {
                "manifest download URL has no safe artifact filename: "@ + url
            },
            DownloadErrorView::ConnectionLost { offline_secs, bytes_done, expected, last_error } => {
                "connection lost: gave up after "@ + decimal(offline_secs as nat)
                    + "s offline at byte "@ + decimal(bytes_done as nat) + " of "@ + decimal(
                    expected as nat,
                ) + ": "@ + last_error
            },
            DownloadErrorView::UnexpectedStatus(code) => "unexpected http status: "@ + (decimal(
                code as nat,
            ) + " "@ + reason_phrase(code)),
        }
    }
}

impl DownloadError {
    /// How the error is worded.
    pub fn to_string(&self) -> (r: String)
        requires
            self@.valid(),
        ensures
            r@ == self@.text(),
    {
        match self {
            DownloadError::Http(e) => "http: ".to_owned().concat(e.as_str()),
            DownloadError::Io(e) => "io: ".to_owned().concat(e.as_str()),
            DownloadError::InsufficientSpace { needed, free } => {
                let needed = decimal_text(*needed);
                let free = decimal_text(*free);
                "not enough disk space: need ".to_owned().concat(needed.as_str()).concat(
                    ", free ",
                ).concat(free.as_str())
            },
            DownloadError::SymlinkDownloadPath => {
                "download path is a symlink — refusing to write".to_owned()
            },
            DownloadError::SizeMismatch { expected, actual } => {
                let expected = decimal_text(*expected);
                let actual = decimal_text(*actual);
                "manifest size ".to_owned().concat(expected.as_str()).concat(
                    " but downloaded ",
                ).concat(actual.as_str())
            },
            DownloadError::InsecureUrl(scheme) => {
                "refusing to download artifact over insecure scheme: ".to_owned().concat(
                    scheme.as_str(),
                )
            },
            DownloadError::InvalidFilename(url) => {
                "manifest download URL has no safe artifact filename: ".to_owned().concat(
                    url.as_str(),
                )
            },
            DownloadError::ConnectionLost { offline_secs, bytes_done, expected, last_error } => {
                let offline_secs = decimal_text(*offline_secs);
                let bytes_done = decimal_text(*bytes_done);
                let expected = decimal_text(*expected);
                "connection lost: gave up after ".to_owned().concat(offline_secs.as_str()).concat(
                    "s offline at byte ",
                ).concat(bytes_done.as_str()).concat(" of ").concat(expected.as_str()).concat(
                    ": ",
                ).concat(last_error.as_str())
            },
            DownloadError::UnexpectedStatus(code) => {
                let status = status_text(*code);
                "unexpected http status: ".to_owned().concat(status.as_str())
            },
        }
    }
}

/// Nanoseconds in a second.
pub const NANOS_PER_SEC: u64 = 1_000_000_000;

/// How a lost connection is taken up again. Times are in nanoseconds.
#[derive(Clone, Copy, Debug, PartialEq, Eq, Structural)]
pub struct RetryPolicy {
    /// How long to wait between two attempts while offline.
    pub retry_interval: u64,
    /// How long to stay offline before giving up; counted anew once data has
    /// come again.
    pub reconnect_budget: u64,
}

impl RetryPolicy {
    /// The policy in use: an attempt every second, for two minutes.
    pub fn production() -> (r: RetryPolicy)
        ensures
            r.retry_interval == 1 * NANOS_PER_SEC,
            r.reconnect_budget == 120 * NANOS_PER_SEC,
    {
        RetryPolicy { retry_interval: NANOS_PER_SEC, reconnect_budget: 120 * NANOS_PER_SEC }
    }
}

/// An ongoing loss of the connection. It starts with the first failure and
/// ends when data comes again, not when a connection is made: a path that
/// takes connections and delivers nothing does not start the count anew.
#[derive(Debug)]
struct Outage {
    since: u64,
    last_error: String,
}

/// What an outage says.
pub struct OutageView {
    pub since: u64,
    pub last_error: Seq<char>,
}

/// A request or a transfer that failed, as the HTTP client classes it.
#[derive(Debug)]
pub struct TransferFailure {
    /// The server answered with an error status.
    pub is_status: bool,
    /// The request could not be built.
    pub is_builder: bool,
    /// The redirects could not be followed.
    pub is_redirect: bool,
    /// How the failure is worded.
    pub text: String,
}

/// Whether a failure is worth another attempt. A status shows that the
/// connection works, and what is wrong with a request or its redirects stays
/// wrong; the rest are faults of the network.
pub open spec fn worth_retrying(is_status: bool, is_builder: bool, is_redirect: bool) -> bool {
    !is_status && !is_builder && !is_redirect
}

/// Whether a failure is worth another attempt.
pub fn is_retryable(failure: &TransferFailure) -> (r: bool)
    ensures
        r == worth_retrying(failure.is_status, failure.is_builder, failure.is_redirect),
{
    !(failure.is_status || failure.is_builder || failure.is_redirect)
}

/// Whether an entity tag is a weak one: it starts with `W/`.
pub open spec fn is_weak(etag: Seq<u8>) -> bool {
    etag.len() >= 2 && etag[0] == 87 && etag[1] == 47
}

/// What tells whether the artifact is still the same: its entity tag, unless
/// that is weak, or else the date of its last change.
pub open spec fn validator_of(
    etag: Option<Seq<u8>>,
    last_modified: Option<Seq<u8>>,
) -> Option<Seq<u8>> {
    match etag {
        Some(tag) => if is_weak(tag) {
            last_modified
        } else {
            Some(tag)
        },
        None => last_modified,
    }
}

/// Picks what tells whether the artifact is still the same. A weak entity tag
/// does not do for that.
pub fn strong_validator(etag: Option<Vec<u8>>, last_modified: Option<Vec<u8>>) -> (r: Option<
    Vec<u8>,
>)
    ensures
        r.deep_view() == validator_of(etag.deep_view(), last_modified.deep_view()),
{
    match etag {
        Some(tag) => {
            proof {
                assert(tag.deep_view() =~= tag@);
            }
            if tag.len() >= 2 && tag[0] == 87 && tag[1] == 47 {
                last_modified
            } else {
                Some(tag)
            }
        },
        None => last_modified,
    }
}

/// Words the header that asks for the artifact from byte `from` on.
pub fn range_header(from: u64) -> (r: String)
    ensures
        r@ == "bytes="@ + decimal(from as nat) + "-"@,
{
    let from = decimal_text(from);
    "bytes=".to_owned().concat(from.as_str()).concat("-")
}

/// What a download waits for.
#[derive(Clone, Copy, Debug, PartialEq, Eq, Structural)]
pub enum FetchPhase {
    /// To be begun.
    New,
    /// The pause before an attempt to be over.
    Pausing,
    /// The answer to a request.
    Requesting,
    /// The file to be emptied, for the artifact to come from its start again.
    Restarting,
    /// More of the body.
    Reading,
    /// The chunk that came, of the length given, to be written.
    Writing(u64),
    /// Nothing: the download is over.
    Over,
}

/// A download under way.
#[derive(Debug)]
pub struct Fetch {
    expected: u64,
    policy: RetryPolicy,
    bytes_done: u64,
    validator: Option<Vec<u8>>,
    outage: Option<Outage>,
    phase: FetchPhase,
}

/// Where a download stands.
#[verifier::ext_equal]
pub struct FetchView {
    /// How many bytes the artifact has; zero where that is not known.
    pub expected: u64,
    pub policy: RetryPolicy,
    /// How many bytes have been written.
    pub bytes_done: u64,
    /// What tells whether the artifact is still the same.
    pub validator: Option<Seq<u8>>,
    pub outage: Option<OutageView>,
    pub phase: FetchPhase,
}

impl View for Fetch {
    type V = FetchView;

    closed spec fn view(&self) -> FetchView {
        FetchView {
            expected: self.expected,
            policy: self.policy,
            bytes_done: self.bytes_done,
            validator: self.validator.deep_view(),
            outage: match self.outage {
                Some(o) => Some(OutageView { since: o.since, last_error: o.last_error@ }),
                None => None,
            },
            phase: self.phase,
        }
    }
}

/// What came of an action of a download.
#[derive(Debug)]
pub enum FetchEvent {
    /// The download begins.
    Begin,
    /// The pause is over.
    Woke,
    /// The server answered.
    Response {
        status: u16,
        etag: Option<Vec<u8>>,
        last_modified: Option<Vec<u8>>,
        /// How the status is worded as an error.
        status_error: String,
    },
    /// The request failed.
    SendFailed(TransferFailure),
    /// The request took longer than it was given.
    SendTimedOut,
    /// The file was emptied, or could not be.
    Emptied(Result<(), String>),
    /// A chunk of the body came, of the length given.
    Chunk(u64),
    /// The chunk was written, or could not be.
    Written(Result<(), String>),
    /// The body is at its end.
    End,
    /// The transfer failed.
    ReadFailed(TransferFailure),
}

/// What a [`FetchEvent`] says.
pub enum FetchEventView {
    Begin,
    Woke,
    Response {
        status: u16,
        etag: Option<Seq<u8>>,
        last_modified: Option<Seq<u8>>,
        status_error: Seq<char>,
    },
    SendFailed { retryable: bool, text: Seq<char> },
    SendTimedOut,
    Emptied(Option<Seq<char>>),
    Chunk(u64),
    Written(Option<Seq<char>>),
    End,
    ReadFailed { retryable: bool, text: Seq<char> },
}

/// The error of what may fail.
pub open spec fn error_of(r: Result<(), String>) -> Option<Seq<char>> {
    match r {
        Ok(_) => None,
        Err(e) => Some(e@),
    }
}

impl View for FetchEvent {
    type V = FetchEventView;

    open spec fn view(&self) -> FetchEventView {
        match self {
            FetchEvent::Begin => FetchEventView::Begin,
            FetchEvent::Woke => FetchEventView::Woke,
            FetchEvent::Response { status, etag, last_modified, status_error } => {
                FetchEventView::Response {
                    status: *status,
                    etag: etag.deep_view(),
                    last_modified: last_modified.deep_view(),
                    status_error: status_error@,
                }
            },
            FetchEvent::SendFailed(f) => FetchEventView::SendFailed {
                retryable: worth_retrying(f.is_status, f.is_builder, f.is_redirect),
                text: f.text@,
            },
            FetchEvent::SendTimedOut => FetchEventView::SendTimedOut,
            FetchEvent::Emptied(r) => FetchEventView::Emptied(error_of(*r)),
            FetchEvent::Chunk(n) => FetchEventView::Chunk(*n),
            FetchEvent::Written(r) => FetchEventView::Written(error_of(*r)),
            FetchEvent::End => FetchEventView::End,
            FetchEvent::ReadFailed(f) => FetchEventView::ReadFailed {
                retryable: worth_retrying(f.is_status, f.is_builder, f.is_redirect),
                text: f.text@,
            },
        }
    }
}

/// What a download has to have done next.
#[derive(Debug)]
pub enum FetchAction {
    /// Pause for so many nanoseconds.
    Pause(u64),
    /// Request the artifact: from the byte given on, if one is given; only if
    /// it is still the same, where that can be told; for so many nanoseconds
    /// at most, if a limit is given.
    Send { range_from: Option<u64>, if_range: Option<Vec<u8>>, limit: Option<u64> },
    /// Empty the file, and go on writing at its start.
    Empty,
    /// Read more of the body.
    Read,
    /// Write the chunk that came at the end of the file.
    Write,
    /// Stop: so many bytes were written, or the download failed.
    Finish(Result<u64, DownloadError>),
}

/// What a [`FetchAction`] says.
pub enum FetchActionView {
    Pause(u64),
    Send { range_from: Option<u64>, if_range: Option<Seq<u8>>, limit: Option<u64> },
    Empty,
    Read,
    Write,
    Finish(Result<u64, DownloadErrorView>),
}

impl View for FetchAction {
    type V = FetchActionView;

    open spec fn view(&self) -> FetchActionView {
        match self {
            FetchAction::Pause(n) => FetchActionView::Pause(*n),
            FetchAction::Send { range_from, if_range, limit } => FetchActionView::Send {
                range_from: *range_from,
                if_range: if_range.deep_view(),
                limit: *limit,
            },
            FetchAction::Empty => FetchActionView::Empty,
            FetchAction::Read => FetchActionView::Read,
            FetchAction::Write => FetchActionView::Write,
            FetchAction::Finish(r) => FetchActionView::Finish(
                match r {
                    Ok(n) => Ok(*n),
                    Err(e) => Err(e@),
                },
            ),
        }
    }
}

/// The time from `since` to `now`.
pub open spec fn elapsed(since: u64, now: u64) -> u64 {
    if now >= since {
        (now - since) as u64
    } else {
        0
    }
}

impl FetchView {
    /// A download that has not begun.
    pub open spec fn fresh(expected: u64, policy: RetryPolicy) -> FetchView {
        FetchView {
            expected,
            policy,
            bytes_done: 0,
            validator: None,
            outage: None,
            phase: FetchPhase::New,
        }
    }

    /// Whether an event is one that the download waits for.
    pub open spec fn awaits(self, event: FetchEventView) -> bool {
        match event {
            FetchEventView::Begin => self.phase is New,
            FetchEventView::Woke => self.phase is Pausing,
            FetchEventView::Response { status, .. } => self.phase is Requesting && is_status_code(
                status,
            ),
            FetchEventView::SendFailed { .. } => self.phase is Requesting,
            FetchEventView::SendTimedOut => self.phase is Requesting,
            FetchEventView::Emptied(_) => self.phase is Restarting,
            FetchEventView::Chunk(n) => self.phase is Reading && self.bytes_done + n <= u64::MAX,
            FetchEventView::Written(_) => self.phase is Writing,
            FetchEventView::End => self.phase is Reading,
            FetchEventView::ReadFailed { .. } => self.phase is Reading,
        }
    }

    /// The same, but in phase `phase`.
    pub open spec fn at(self, phase: FetchPhase) -> FetchView {
        FetchView { phase, ..self }
    }

    /// The end of a download that failed.
    pub open spec fn failed(self, error: DownloadErrorView) -> (FetchView, FetchActionView) {
        (self.at(FetchPhase::Over), FetchActionView::Finish(Err(error)))
    }

    /// The request of the next attempt: for what is missing. While offline it
    /// is given what is left of the budget.
    pub open spec fn request(self, now: u64) -> (FetchView, FetchActionView) {
        (
            self.at(FetchPhase::Requesting),
            FetchActionView::Send {
                range_from: if self.bytes_done > 0 {
                    Some(self.bytes_done)
                } else {
                    None
                },
                if_range: if self.bytes_done > 0 {
                    self.validator
                } else {
                    None
                },
                limit: match self.outage {
                    Some(o) => Some(
                        if elapsed(o.since, now) < self.policy.reconnect_budget {
                            (self.policy.reconnect_budget - elapsed(o.since, now)) as u64
                        } else {
                            0
                        },
                    ),
                    None => None,
                },
            },
        )
    }

    /// The next attempt. Once as many bytes are there as were expected the
    /// download is done, even if the end of the body got lost; and it is given
    /// up once the outage has used up the budget.
    pub open spec fn attempt(self, now: u64) -> (FetchView, FetchActionView) {
        if self.expected != 0 && self.bytes_done >= self.expected {
            (self.at(FetchPhase::Over), FetchActionView::Finish(Ok(self.bytes_done)))
        } else {
            match self.outage {
                Some(o) => if elapsed(o.since, now) >= self.policy.reconnect_budget {
                    self.failed(
                        DownloadErrorView::ConnectionLost {
                            offline_secs: elapsed(o.since, now) / NANOS_PER_SEC,
                            bytes_done: self.bytes_done,
                            expected: self.expected,
                            last_error: o.last_error,
                        },
                    )
                } else {
                    (
                        self.at(FetchPhase::Pausing),
                        FetchActionView::Pause(self.policy.retry_interval),
                    )
                },
                None => self.request(now),
            }
        }
    }

    /// The same with a failure noted: it starts an outage, or goes on with the
    /// one that there is.
    pub open spec fn with_failure(self, text: Seq<char>, now: u64) -> FetchView {
        FetchView {
            outage: Some(
                OutageView {
                    since: match self.outage {
                        Some(o) => o.since,
                        None => now,
                    },
                    last_error: text,
                },
            ),
            ..self
        }
    }

    /// The answer to a failure of the network or of the request.
    pub open spec fn after_failure(self, retryable: bool, text: Seq<char>, now: u64) -> (
        FetchView,
        FetchActionView,
    ) {
        if retryable {
            self.with_failure(text, now).attempt(now)
        } else {
            self.failed(DownloadErrorView::Http(text))
        }
    }

    /// The same with what tells the artifact's sameness taken from a response,
    /// unless it is known.
    pub open spec fn with_validator(
        self,
        etag: Option<Seq<u8>>,
        last_modified: Option<Seq<u8>>,
    ) -> FetchView {
        FetchView {
            validator: if self.validator is None {
                validator_of(etag, last_modified)
            } else {
                self.validator
            },
            ..self
        }
    }

    /// The answer to a response: what was asked for is read; a whole artifact
    /// in place of its rest starts the file anew; an error status is not tried
    /// again, since it shows that the connection works.
    pub open spec fn after_response(
        self,
        status: u16,
        etag: Option<Seq<u8>>,
        last_modified: Option<Seq<u8>>,
        status_error: Seq<char>,
    ) -> (FetchView, FetchActionView) {
        if (status == 206 && self.bytes_done > 0) || (status == 200 && self.bytes_done == 0) {
            (
                self.with_validator(etag, last_modified).at(FetchPhase::Reading),
                FetchActionView::Read,
            )
        } else if status == 200 {
            (
                FetchView {
                    validator: validator_of(etag, last_modified),
                    ..self
                }.at(FetchPhase::Restarting),
                FetchActionView::Empty,
            )
        } else if 400 <= status < 600 {
            self.failed(DownloadErrorView::Http(status_error))
        } else {
            self.failed(DownloadErrorView::UnexpectedStatus(status))
        }
    }

    /// Where the download stands after `event`, and what it has done next.
    pub open spec fn after(self, event: FetchEventView, now: u64) -> (FetchView, FetchActionView) {
        match event {
            FetchEventView::Begin => self.attempt(now),
            FetchEventView::Woke => self.request(now),
            FetchEventView::Response { status, etag, last_modified, status_error } => {
                self.after_response(status, etag, last_modified, status_error)
            },
            FetchEventView::SendFailed { retryable, text } => self.after_failure(
                retryable,
                text,
                now,
            ),
            FetchEventView::SendTimedOut => self.after_failure(
                true,
                "reconnect attempt timed out"@,
                now,
            ),
            FetchEventView::Emptied(error) => match error {
                None => (
                    FetchView { bytes_done: 0, ..self }.at(FetchPhase::Reading),
                    FetchActionView::Read,
                ),
                Some(e) => self.failed(DownloadErrorView::Io(e)),
            },
            FetchEventView::Chunk(n) => (self.at(FetchPhase::Writing(n)), FetchActionView::Write),
            FetchEventView::Written(error) => match error {
                None => (
                    FetchView {
                        bytes_done: (self.bytes_done + self.phase->Writing_0) as u64,
                        outage: None,
                        ..self
                    }.at(FetchPhase::Reading),
                    FetchActionView::Read,
                ),
                Some(e) => self.failed(DownloadErrorView::Io(e)),
            },
            FetchEventView::End => (
                self.at(FetchPhase::Over),
                FetchActionView::Finish(Ok(self.bytes_done)),
            ),
            FetchEventView::ReadFailed { retryable, text } => self.after_failure(
                retryable,
                text,
                now,
            ),
        }
    }

    /// Whether a chunk that is to be written still fits the count.
    pub open spec fn counts(self) -> bool {
        self.phase matches FetchPhase::Writing(n) ==> self.bytes_done + n <= u64::MAX
    }
}

/// Some bytes once more.
fn same_bytes(bytes: &Option<Vec<u8>>) -> (r: Option<Vec<u8>>)
    ensures
        r.deep_view() == bytes.deep_view(),
{
    match bytes {
        Some(b) => {
            let c = b.clone();
            assert(c.deep_view() =~= b.deep_view());
            Some(c)
        },
        None => None,
    }
}

impl Fetch {
    /// A download of an artifact of `expected` bytes; zero where that is not
    /// known.
    pub fn new(expected: u64, policy: RetryPolicy) -> (r: Fetch)
        ensures
            r@ == FetchView::fresh(expected, policy),
            r@.counts(),
    {
        Fetch {
            expected,
            policy,
            bytes_done: 0,
            validator: None,
            outage: None,
            phase: FetchPhase::New,
        }
    }

    /// How many bytes have been written.
    pub fn bytes_done(&self) -> (r: u64)
        ensures
            r == self@.bytes_done,
    {
        self.bytes_done
    }

    /// Ends the download with an error.
    fn fail(&mut self, error: DownloadError) -> (r: FetchAction)
        ensures
            (final(self)@, r@) == old(self)@.failed(error@),
    {
        self.phase = FetchPhase::Over;
        FetchAction::Finish(Err(error))
    }

    /// Requests what is missing.
    fn request(&mut self, now: u64) -> (r: FetchAction)
        ensures
            (final(self)@, r@) == old(self)@.request(now),
    {
        self.phase = FetchPhase::Requesting;
        let limit = match &self.outage {
            Some(o) => Some(
                self.policy.reconnect_budget.saturating_sub(now.saturating_sub(o.since)),
            ),
            None => None,
        };
        if self.bytes_done > 0 {
            FetchAction::Send {
                range_from: Some(self.bytes_done),
                if_range: same_bytes(&self.validator),
                limit,
            }
        } else {
            FetchAction::Send { range_from: None, if_range: None, limit }
        }
    }

    /// Starts the next attempt.
    fn attempt(&mut self, now: u64) -> (r: FetchAction)
        ensures
            (final(self)@, r@) == old(self)@.attempt(now),
    {
        if self.expected != 0 && self.bytes_done >= self.expected {
            self.phase = FetchPhase::Over;
            return FetchAction::Finish(Ok(self.bytes_done));
        }
        match &self.outage {
            Some(o) => {
                let offline = now.saturating_sub(o.since);
                if offline >= self.policy.reconnect_budget {
                    let error = DownloadError::ConnectionLost {
                        offline_secs: offline / NANOS_PER_SEC,
                        bytes_done: self.bytes_done,
                        expected: self.expected,
                        last_error: o.last_error.clone(),
                    };
                    self.fail(error)
                } else {
                    self.phase = FetchPhase::Pausing;
                    FetchAction::Pause(self.policy.retry_interval)
                }
            },
            None => self.request(now),
        }
    }

    /// Takes note of a failure.
    fn record_failure(&mut self, text: String, now: u64)
        ensures
            final(self)@ == old(self)@.with_failure(text@, now),
    {
        let since = match &self.outage {
            Some(o) => o.since,
            None => now,
        };
        self.outage = Some(Outage { since, last_error: text });
    }

    /// Answers a failure of the network or of the request.
    fn answer_failure(&mut self, failure: TransferFailure, now: u64) -> (r: FetchAction)
        ensures
            (final(self)@, r@) == old(self)@.after_failure(
                worth_retrying(failure.is_status, failure.is_builder, failure.is_redirect),
                failure.text@,
                now,
            ),
    {
        if is_retryable(&failure) {
            self.record_failure(failure.text, now);
            self.attempt(now)
        } else {
            self.fail(DownloadError::Http(failure.text))
        }
    }

    /// Answers a response.
    fn answer_response(
        &mut self,
        status: u16,
        etag: Option<Vec<u8>>,
        last_modified: Option<Vec<u8>>,
        status_error: String,
    ) -> (r: FetchAction)
        ensures
            (final(self)@, r@) == old(self)@.after_response(
                status,
                etag.deep_view(),
                last_modified.deep_view(),
                status_error@,
            ),
    {
        if (status == 206 && self.bytes_done > 0) || (status == 200 && self.bytes_done == 0) {
            if self.validator.is_none() {
                self.validator = strong_validator(etag, last_modified);
            }
            self.phase = FetchPhase::Reading;
            FetchAction::Read
        } else if status == 200 {
            self.validator = strong_validator(etag, last_modified);
            self.phase = FetchPhase::Restarting;
            FetchAction::Empty
        } else if 400 <= status && status < 600 {
            self.fail(DownloadError::Http(status_error))
        } else {
            self.fail(DownloadError::UnexpectedStatus(status))
        }
    }

    /// Takes what came of the last action, at time `now`, and says what to do
    /// next. Times are in nanoseconds, from wherever the runner counts.
    pub fn step(&mut self, event: FetchEvent, now: u64) -> (r: FetchAction)
        requires
            old(self)@.counts(),
            old(self)@.awaits(event@),
        ensures
            (final(self)@, r@) == old(self)@.after(event@, now),
            final(self)@.counts(),
            r@ matches FetchActionView::Finish(Err(e)) ==> e.valid(),
    {
        match event {
            FetchEvent::Begin => self.attempt(now),
            FetchEvent::Woke => self.request(now),
            FetchEvent::Response { status, etag, last_modified, status_error } => {
                self.answer_response(status, etag, last_modified, status_error)
            },
            FetchEvent::SendFailed(failure) => self.answer_failure(failure, now),
            FetchEvent::SendTimedOut => {
                self.record_failure("reconnect attempt timed out".to_owned(), now);
                self.attempt(now)
            },
            FetchEvent::Emptied(outcome) => match outcome {
                Ok(_) => {
                    self.bytes_done = 0;
                    self.phase = FetchPhase::Reading;
                    FetchAction::Read
                },
                Err(e) => self.fail(DownloadError::Io(e)),
            },
            FetchEvent::Chunk(n) => {
                self.phase = FetchPhase::Writing(n);
                FetchAction::Write
            },
            FetchEvent::Written(outcome) => match outcome {
                Ok(_) => {
                    if let FetchPhase::Writing(n) = self.phase {
                        self.bytes_done = self.bytes_done + n;
                    }
                    self.outage = None;
                    self.phase = FetchPhase::Reading;
                    FetchAction::Read
                },
                Err(e) => self.fail(DownloadError::Io(e)),
            },
            FetchEvent::End => {
                self.phase = FetchPhase::Over;
                FetchAction::Finish(Ok(self.bytes_done))
            },
            FetchEvent::ReadFailed(failure) => self.answer_failure(failure, now),
        }
    }
}

/// The time that has passed is the difference of the times, and never less than
/// nothing.
pub proof fn law_time_passes(since: u64, now: u64)
    ensures
        now >= since ==> since + elapsed(since, now) == now,
        now <= since ==> elapsed(since, now) == 0,
{
}

/// A failure is worth another attempt just when neither a status, nor the
/// request, nor its redirects are at fault; and what is told of it is its text.
pub proof fn law_faults_of_the_network_are_retried(failure: TransferFailure)
    ensures
        FetchEvent::SendFailed(failure)@ == (FetchEventView::SendFailed {
            retryable: !(failure.is_status || failure.is_builder || failure.is_redirect),
            text: failure.text@,
        }),
        FetchEvent::ReadFailed(failure)@ == (FetchEventView::ReadFailed {
            retryable: !(failure.is_status || failure.is_builder || failure.is_redirect),
            text: failure.text@,
        }),
{
}

/// What tells the artifact's sameness is the entity tag, unless that is missing
/// or starts with `W/`; then it is the date of the last change, if there is one.
pub proof fn law_strong_tag_comes_first(tag: Seq<u8>, date: Option<Seq<u8>>)
    ensures
        tag.len() >= 2 && tag[0] == 0x57 && tag[1] == 0x2f ==> validator_of(Some(tag), date)
            == date,
        !(tag.len() >= 2 && tag[0] == 0x57 && tag[1] == 0x2f) ==> validator_of(Some(tag), date)
            == Some(tag),
        validator_of(None, date) == date,
{
}

/// An error is worded with what it is about: numbers in base ten, and the texts
/// as they are.
pub proof fn law_download_errors_are_worded(
    text: Seq<char>,
    a: u64,
    b: u64,
    c: u64,
    code: u16,
)
    ensures
        DownloadErrorView::Http(text).text() == "http: "@ + text,
        DownloadErrorView::Io(text).text() == "io: "@ + text,
        (DownloadErrorView::InsufficientSpace { needed: a, free: b }).text()
            == "not enough disk space: need "@ + decimal(a as nat) + ", free "@ + decimal(
            b as nat,
        ),
        DownloadErrorView::SymlinkDownloadPath.text()
            == "download path is a symlink — refusing to write"@,
        (DownloadErrorView::SizeMismatch { expected: a, actual: b }).text() == "manifest size "@
            + decimal(a as nat) + " but downloaded "@ + decimal(b as nat),
        DownloadErrorView::InsecureUrl(text).text()
            == "refusing to download artifact over insecure scheme: "@ + text,
        DownloadErrorView::InvalidFilename(text).text()
            == "manifest download URL has no safe artifact filename: "@ + text,
        (DownloadErrorView::ConnectionLost {
            offline_secs: a,
            bytes_done: b,
            expected: c,
            last_error: text,
        }).text() == "connection lost: gave up after "@ + decimal(a as nat)
            + "s offline at byte "@ + decimal(b as nat) + " of "@ + decimal(c as nat) + ": "@
            + text,
        DownloadErrorView::UnexpectedStatus(code).text() == "unexpected http status: "@ + (decimal(
            code as nat,
        ) + " "@ + reason_phrase(code)),
{
}

/// An outcome without an error has none to tell, and one with an error tells its
/// text.
pub proof fn law_errors_are_kept(text: String)
    ensures
        error_of(Ok(())) is None,
        error_of(Err(text)) == Some(text@),
{
}

/// What came of an action is what the download takes it for.
pub proof fn law_events_say_what_came(
    status: u16,
    etag: Option<Vec<u8>>,
    last_modified: Option<Vec<u8>>,
    status_error: String,
    outcome: Result<(), String>,
    n: u64,
)
    ensures
        FetchEvent::Begin@ is Begin && FetchEvent::Woke@ is Woke && FetchEvent::End@ is End,
        FetchEvent::SendTimedOut@ is SendTimedOut,
        (FetchEvent::Response { status, etag, last_modified, status_error })@
            == (FetchEventView::Response {
            status,
            etag: etag.deep_view(),
            last_modified: last_modified.deep_view(),
            status_error: status_error@,
        }),
        FetchEvent::Chunk(n)@ == FetchEventView::Chunk(n),
        FetchEvent::Emptied(outcome)@ == FetchEventView::Emptied(
            match outcome {
                Ok(_) => None,
                Err(e) => Some(e@),
            },
        ),
        FetchEvent::Written(outcome)@ == FetchEventView::Written(
            match outcome {
                Ok(_) => None,
                Err(e) => Some(e@),
            },
        ),
{
}

/// What is to be done is what the action says.
pub proof fn law_actions_say_what_to_do(action: FetchAction)
    ensures
        action@ == match action {
            FetchAction::Pause(n) => FetchActionView::Pause(n),
            FetchAction::Send { range_from, if_range, limit } => FetchActionView::Send {
                range_from,
                if_range: if_range.deep_view(),
                limit,
            },
            FetchAction::Empty => FetchActionView::Empty,
            FetchAction::Read => FetchActionView::Read,
            FetchAction::Write => FetchActionView::Write,
            FetchAction::Finish(Ok(n)) => FetchActionView::Finish(Ok(n)),
            FetchAction::Finish(Err(e)) => FetchActionView::Finish(Err(e@)),
        },
{
}

/// An error says what it holds, and only one about a status that is none is not
/// valid.
pub proof fn law_error_says_what_it_holds(error: DownloadError)
    ensures
        error@ == match error {
            DownloadError::Http(e) => DownloadErrorView::Http(e@),
            DownloadError::Io(e) => DownloadErrorView::Io(e@),
            DownloadError::InsufficientSpace { needed, free } => {
                DownloadErrorView::InsufficientSpace { needed, free }
            },
            DownloadError::SymlinkDownloadPath => DownloadErrorView::SymlinkDownloadPath,
            DownloadError::SizeMismatch { expected, actual } => DownloadErrorView::SizeMismatch {
                expected,
                actual,
            },
            DownloadError::InsecureUrl(scheme) => DownloadErrorView::InsecureUrl(scheme@),
            DownloadError::InvalidFilename(url) => DownloadErrorView::InvalidFilename(url@),
            DownloadError::ConnectionLost { offline_secs, bytes_done, expected, last_error } => {
                DownloadErrorView::ConnectionLost {
                    offline_secs,
                    bytes_done,
                    expected,
                    last_error: last_error@,
                }
            },
            DownloadError::UnexpectedStatus(code) => DownloadErrorView::UnexpectedStatus(code),
        },
        !error@.valid() <==> (error matches DownloadError::UnexpectedStatus(code) && !(100 <= code
            <= 999)),
{
}

} // verus!
