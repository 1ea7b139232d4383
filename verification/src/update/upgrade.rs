//! Whether a release may replace the installed version, where both are of one
//! release line.

use std::cmp::Ordering;

use vstd::prelude::*;
use vstd::string::StringExecFns;

use crate::manifest::{Channel, ChannelRelease, ReleaseView};
use crate::update::version::{compare_components, version_order};

verus! {

/// Why a release is not installed. These reasons apply once a manifest is in
/// hand; those for not having one are [`crate::manifest::Error`].
#[derive(Debug)]
pub enum GateError {
    NoReleaseForChannel(Channel),
    AppTooOld { current: String, required: String, candidate: String },
    Downgrade { current: String, candidate: String },
    AlreadyInstalled { candidate: String },
}

/// What a [`GateError`] says.
pub enum GateErrorView {
    NoReleaseForChannel(Channel),
    AppTooOld { current: Seq<char>, required: Seq<char>, candidate: Seq<char> },
    Downgrade { current: Seq<char>, candidate: Seq<char> },
    AlreadyInstalled { candidate: Seq<char> },
}

impl View for GateError {
    type V = GateErrorView;

    open spec fn view(&self) -> GateErrorView {
        match self {
            GateError::NoReleaseForChannel(channel) => GateErrorView::NoReleaseForChannel(*channel),
            GateError::AppTooOld { current, required, candidate } => GateErrorView::AppTooOld {
                current: current@,
                required: required@,
                candidate: candidate@,
            },
            GateError::Downgrade { current, candidate } => GateErrorView::Downgrade {
                current: current@,
                candidate: candidate@,
            },
            GateError::AlreadyInstalled { candidate } => GateErrorView::AlreadyInstalled {
                candidate: candidate@,
            },
        }
    }
}

impl GateErrorView {
    /// How the reason is worded.
    pub open spec fn text(self) -> Seq<char> {
        match self {
            GateErrorView::NoReleaseForChannel(channel) => "Channel "@ + channel.name()
                + " has no release in this manifest"@,
            GateErrorView::AppTooOld { current, required, candidate } => "Candidate "@ + candidate
                + " requires app "@ + required + " (have "@ + current
                + "); upgrade to an intermediate first"@,
            GateErrorView::Downgrade { current, candidate } => "Candidate "@ + candidate
                + " is older than installed "@ + current
                + "; pass --allow-downgrade to override"@,
            GateErrorView::AlreadyInstalled { candidate } => "Candidate "@ + candidate
                + " is already installed"@,
        }
    }
}

impl GateError {
    /// How the reason is worded.
    pub fn to_string(&self) -> (r: String)
        ensures
            r@ == self@.text(),
    {
        match self {
            GateError::NoReleaseForChannel(channel) => "Channel ".to_owned().concat(
                channel.to_str(),
            ).concat(" has no release in this manifest"),
            GateError::AppTooOld { current, required, candidate } => "Candidate ".to_owned().concat(
                candidate.as_str(),
            ).concat(" requires app ").concat(required.as_str()).concat(" (have ").concat(
                current.as_str(),
            ).concat("); upgrade to an intermediate first"),
            GateError::Downgrade { current, candidate } => "Candidate ".to_owned().concat(
                candidate.as_str(),
            ).concat(" is older than installed ").concat(current.as_str()).concat(
                "; pass --allow-downgrade to override",
            ),
            GateError::AlreadyInstalled { candidate } => "Candidate ".to_owned().concat(
                candidate.as_str(),
            ).concat(" is already installed"),
        }
    }
}

/// What a gate's verdict says: how the release compares with the installed
/// version, or why it is not installed.
pub open spec fn verdict_view(verdict: Result<Ordering, GateError>) -> Result<
    Ordering,
    GateErrorView,
> {
    match verdict {
        Ok(order) => Ok(order),
        Err(e) => Err(e@),
    }
}

/// The verdict on replacing version `current` by `release`, both of one
/// release line.
pub open spec fn upgrade_verdict(
    release: ReleaseView,
    current: Seq<char>,
    allow_downgrade: bool,
) -> Result<Ordering, GateErrorView> {
    if version_order(current, release.min_app_version) is Less {
        Err(
            GateErrorView::AppTooOld {
                current,
                required: release.min_app_version,
                candidate: release.version,
            },
        )
    } else {
        match version_order(release.version, current) {
            Ordering::Equal => Err(GateErrorView::AlreadyInstalled { candidate: release.version }),
            Ordering::Less => if allow_downgrade {
                Ok(Ordering::Less)
            } else {
                Err(GateErrorView::Downgrade { current, candidate: release.version })
            },
            Ordering::Greater => Ok(Ordering::Greater),
        }
    }
}

/// Decides whether `release` may replace the installed version: the installed
/// version must reach the release's minimum, the two must differ, and an older
/// release is refused unless `allow_downgrade`.
///
/// The release's minimum version of the operating system is not looked at: the
/// package itself refuses a system that is too old.
pub fn ensure_installable(
    release: &ChannelRelease,
    current_app_version: &str,
    allow_downgrade: bool,
) -> (r: Result<Ordering, GateError>)
    ensures
        verdict_view(r) == upgrade_verdict(release@, current_app_version@, allow_downgrade),
{
    match compare_components(current_app_version, release.min_app_version.as_str()) {
        Ordering::Less => {
            return Err(
                GateError::AppTooOld {
                    current: current_app_version.to_owned(),
                    required: release.min_app_version.clone(),
                    candidate: release.version.clone(),
                },
            );
        },
        _ => {},
    }
    match compare_components(release.version.as_str(), current_app_version) {
        Ordering::Equal => Err(GateError::AlreadyInstalled { candidate: release.version.clone() }),
        Ordering::Less => if allow_downgrade {
            Ok(Ordering::Less)
        } else {
            Err(
                GateError::Downgrade {
                    current: current_app_version.to_owned(),
                    candidate: release.version.clone(),
                },
            )
        },
        Ordering::Greater => Ok(Ordering::Greater),
    }
}

/// A verdict says what it holds: how the versions compare, or the reason with
/// the versions that it is about.
pub proof fn law_verdict_says_what_it_holds(error: GateError, order: Ordering)
    ensures
        error@ == match error {
            GateError::NoReleaseForChannel(channel) => GateErrorView::NoReleaseForChannel(channel),
            GateError::AppTooOld { current, required, candidate } => GateErrorView::AppTooOld {
                current: current@,
                required: required@,
                candidate: candidate@,
            },
            GateError::Downgrade { current, candidate } => GateErrorView::Downgrade {
                current: current@,
                candidate: candidate@,
            },
            GateError::AlreadyInstalled { candidate } => GateErrorView::AlreadyInstalled {
                candidate: candidate@,
            },
        },
        verdict_view(Ok(order)) == Ok::<Ordering, GateErrorView>(order),
        verdict_view(Err(error)) == Err::<Ordering, GateErrorView>(error@),
{
}

} // verus!
