//! The calls that this crate makes into other crates. Verus does not read the
//! bodies of these functions: what their contracts say is taken from the other
//! crates' sources and documentation.

use sha2::Digest;
use vstd::prelude::*;

use crate::manifest::ArtifactUrl;
use crate::text::decimal;

verus! {

/// What parsing a URL gives: its serialization, its scheme and its path, or
/// the text of the parse error.
pub uninterp spec fn url_parsed(text: Seq<char>) -> Result<
    (Seq<char>, Seq<char>, Seq<char>),
    Seq<char>,
>;

/// `url::Url::parse`, with the parts of the parsed URL that this crate reads:
/// `as_str`, `scheme` and `path`.
///
/// The outcome depends on the text alone. Nothing is said of which texts are
/// URLs, nor of how their parts look.
#[verifier::external_body]
pub(crate) fn parse_url(text: &str) -> (r: Result<ArtifactUrl, String>)
    ensures
        match r {
            Ok(url) => url_parsed(text@) == Ok::<(Seq<char>, Seq<char>, Seq<char>), Seq<char>>(
                (url.text@, url.scheme@, url.path@),
            ),
            Err(e) => url_parsed(text@) == Err::<(Seq<char>, Seq<char>, Seq<char>), Seq<char>>(e@),
        },
{
    match url::Url::parse(text) {
        Ok(url) => Ok(
            ArtifactUrl {
                text: url.as_str().to_string(),
                scheme: url.scheme().to_string(),
                path: url.path().to_string(),
            },
        ),
        Err(e) => Err(e.to_string()),
    }
}

/// What joining a reference to a base URL gives: the serialization of the
/// joined URL, or the text of the parse error.
pub uninterp spec fn url_joined(base: Seq<char>, reference: Seq<char>) -> Result<
    Seq<char>,
    Seq<char>,
>;

/// `url::Url::join` on the URL that `base` parses to.
///
/// The outcome depends on the two texts alone; where `base` is no URL, it is
/// the error of parsing `base`.
#[verifier::external_body]
pub(crate) fn join_url(base: &str, reference: &str) -> (r: Result<String, String>)
    ensures
        match r {
            Ok(url) => url_joined(base@, reference@) == Ok::<Seq<char>, Seq<char>>(url@),
            Err(e) => url_joined(base@, reference@) == Err::<Seq<char>, Seq<char>>(e@),
        },
        url_parsed(base@) matches Err(e) ==> r is Err && r->Err_0@ == e,
{
    let base = match url::Url::parse(base) {
        Ok(base) => base,
        Err(e) => return Err(e.to_string()),
    };
    match base.join(reference) {
        Ok(url) => Ok(url.to_string()),
        Err(e) => Err(e.to_string()),
    }
}

/// A running SHA-256 computation.
#[verifier::external_type_specification]
#[verifier::external_body]
pub struct ExSha256(sha2::Sha256);

/// The bytes that a hasher has been given so far.
pub uninterp spec fn absorbed(hasher: sha2::Sha256) -> Seq<u8>;

/// The SHA-256 digest of some bytes.
pub uninterp spec fn sha256_digest(bytes: Seq<u8>) -> Seq<u8>;

/// `sha2::Digest::new` for `sha2::Sha256`: a hasher that has been given
/// nothing.
#[verifier::external_body]
pub(crate) fn sha256_new() -> (r: sha2::Sha256)
    ensures
        absorbed(r) == Seq::<u8>::empty(),
{
    sha2::Sha256::new()
}

/// `sha2::Digest::update` for `sha2::Sha256`: gives the hasher more bytes.
#[verifier::external_body]
pub(crate) fn sha256_update(hasher: &mut sha2::Sha256, bytes: &[u8])
    ensures
        absorbed(*final(hasher)) == absorbed(*old(hasher)) + bytes@,
{
    hasher.update(bytes)
}

/// `sha2::Digest::finalize` for `sha2::Sha256`: the digest of all the bytes
/// that the hasher was given.
#[verifier::external_body]
pub(crate) fn sha256_finalize(hasher: sha2::Sha256) -> (r: [u8; 32])
    ensures
        r@ == sha256_digest(absorbed(hasher)),
{
    hasher.finalize().into()
}

/// How a moment, in seconds and nanoseconds since the start of 1970 in UTC, is
/// written; nothing for what is no moment.
pub uninterp spec fn utc_written(secs: i64, nanos: u32) -> Option<Seq<char>>;

/// `chrono::DateTime::<Utc>::from_timestamp`, and the text that the moment is
/// displayed as.
#[verifier::external_body]
pub(crate) fn utc_text(secs: i64, nanos: u32) -> (r: Option<String>)
    ensures
        r.deep_view() == utc_written(secs, nanos),
{
    match chrono::DateTime::<chrono::Utc>::from_timestamp(secs, nanos) {
        Some(moment) => Some(moment.to_string()),
        None => None,
    }
}

/// The standard phrase that goes with an HTTP status code, or
/// `<unknown status code>` where there is none.
pub uninterp spec fn reason_phrase(code: u16) -> Seq<char>;

/// `reqwest::StatusCode::from_u16`, and the text that the status is displayed
/// as: the code, which has three digits, and its phrase. Nothing is said of
/// which code has which phrase.
#[verifier::external_body]
pub(crate) fn status_text(code: u16) -> (r: String)
    requires
        100 <= code <= 999,
    ensures
        r@ == decimal(code as nat) + " "@ + reason_phrase(code),
{
    match reqwest::StatusCode::from_u16(code) {
        Ok(status) => status.to_string(),
        Err(e) => e.to_string(),
    }
}

/// `exitcode::OK`.
#[verifier::external_body]
pub(crate) fn exit_ok() -> (r: i32)
    ensures
        r == 0,
{
    exitcode::OK
}

/// `exitcode::UNAVAILABLE`.
#[verifier::external_body]
pub(crate) fn exit_unavailable() -> (r: i32)
    ensures
        r == 69,
{
    exitcode::UNAVAILABLE
}

/// `exitcode::SOFTWARE`.
#[verifier::external_body]
pub(crate) fn exit_software() -> (r: i32)
    ensures
        r == 70,
{
    exitcode::SOFTWARE
}

/// `exitcode::NOPERM`.
#[verifier::external_body]
pub(crate) fn exit_no_permission() -> (r: i32)
    ensures
        r == 77,
{
    exitcode::NOPERM
}

} // verus!
