//! The install gate: whether a release of a channel may be installed over the
//! version that is installed now.

use std::cmp::Ordering;

use vstd::prelude::*;

use crate::manifest::{Channel, ChannelRelease, ReleaseView};
use crate::update::upgrade::{self, upgrade_verdict, verdict_view, GateError, GateErrorView};
use crate::update::version::{
    channel_of, channel_of_version, compare_components, law_order_is_reflexive, version_order,
};

verus! {

/// The verdict on installing `release` of channel `target` over version
/// `current`. Within the channel of `current` it is that of
/// [`upgrade_verdict`]; another channel is always allowed.
pub open spec fn install_verdict(
    release: ReleaseView,
    current: Seq<char>,
    target: Channel,
    allow_downgrade: bool,
) -> Result<Ordering, GateErrorView> {
    if channel_of(current) == target {
        upgrade_verdict(release, current, allow_downgrade)
    } else {
        Ok(version_order(release.version, current))
    }
}

/// Decides whether `release` of `target_channel` may be installed.
///
/// The channels' version schemes cannot be compared, so the gates on versions
/// hold within a channel only: switching to another channel is always allowed.
pub fn ensure_installable(
    release: &ChannelRelease,
    current_app_version: &str,
    target_channel: Channel,
    allow_downgrade: bool,
) -> (r: Result<Ordering, GateError>)
    ensures
        verdict_view(r) == install_verdict(
            release@,
            current_app_version@,
            target_channel,
            allow_downgrade,
        ),
{
    if channel_of_version(current_app_version) != target_channel {
        return Ok(compare_components(release.version.as_str(), current_app_version));
    }
    upgrade::ensure_installable(release, current_app_version, allow_downgrade)
}

/// Asking for a channel other than the installed one is never refused.
pub proof fn law_other_channel_is_always_allowed(
    release: ReleaseView,
    current: Seq<char>,
    target: Channel,
    allow_downgrade: bool,
)
    requires
        channel_of(current) != target,
    ensures
        install_verdict(release, current, target, allow_downgrade) is Ok,
{
}

/// Within the installed channel, and unless downgrades are allowed, only a
/// newer version is installed, and only over one that reaches its minimum.
pub proof fn law_only_newer_is_installed(
    release: ReleaseView,
    current: Seq<char>,
    target: Channel,
)
    requires
        channel_of(current) == target,
    ensures
        install_verdict(release, current, target, false) is Ok <==> version_order(
            release.version,
            current,
        ) is Greater && !(version_order(current, release.min_app_version) is Less),
{
}

/// Allowing downgrades changes the verdict on older releases alone.
pub proof fn law_downgrade_override(release: ReleaseView, current: Seq<char>, target: Channel)
    ensures
        install_verdict(release, current, target, true) != install_verdict(
            release,
            current,
            target,
            false,
        ) <==> install_verdict(release, current, target, false) matches Err(
            GateErrorView::Downgrade { .. },
        ),
        install_verdict(release, current, target, false) matches Err(GateErrorView::Downgrade { .. })
            ==> install_verdict(release, current, target, true) == Ok::<Ordering, GateErrorView>(
            Ordering::Less,
        ),
{
}

/// What is installed is not installed again: once its version is the installed
/// one, a release of the channel is refused.
pub proof fn law_installed_release_is_refused(
    release: ReleaseView,
    target: Channel,
    allow_downgrade: bool,
)
    requires
        channel_of(release.version) == target,
    ensures
        install_verdict(release, release.version, target, allow_downgrade) is Err,
{
    law_order_is_reflexive(release.version);
}

/// The verdict rests on the release's version and minimum app version alone;
/// its minimum version of the operating system takes no part.
pub proof fn law_min_os_version_takes_no_part(
    a: ReleaseView,
    b: ReleaseView,
    current: Seq<char>,
    target: Channel,
    allow_downgrade: bool,
)
    requires
        a.version == b.version,
        a.min_app_version == b.min_app_version,
    ensures
        install_verdict(a, current, target, allow_downgrade) == install_verdict(
            b,
            current,
            target,
            allow_downgrade,
        ),
{
}

/// A release is refused for one reason, the first that holds: the installed
/// version does not reach its minimum, it is the installed one, or it is older
/// and that is not allowed. The refusal names the versions, and a release that
/// is not refused comes with how it compares.
pub proof fn law_refusal_gives_the_first_reason(
    release: ReleaseView,
    current: Seq<char>,
    target: Channel,
    allow_downgrade: bool,
)
    ensures
        ({
            let verdict = install_verdict(release, current, target, allow_downgrade);
            let order = version_order(release.version, current);
            let same_channel = channel_of(current) == target;
            let too_old = same_channel && version_order(current, release.min_app_version) is Less;
            &&& verdict matches Err(GateErrorView::AppTooOld { current: c, required, candidate })
                ==> too_old && c == current && required == release.min_app_version && candidate
                == release.version
            &&& verdict matches Err(GateErrorView::AlreadyInstalled { candidate }) ==> same_channel
                && !too_old && order is Equal && candidate == release.version
            &&& verdict matches Err(GateErrorView::Downgrade { current: c, candidate })
                ==> same_channel && !too_old && order is Less && !allow_downgrade && c == current
                && candidate == release.version
            &&& !(verdict matches Err(GateErrorView::NoReleaseForChannel(_)))
            &&& verdict matches Ok(o) ==> o == order && !too_old && (same_channel ==> order
                is Greater || (order is Less && allow_downgrade))
        }),
{
}

/// Within a channel the gates say what the upgrade from the installed version
/// says, and an upgrade is allowed just from the minimum on and to what is
/// newer, or older where that is allowed.
pub proof fn law_upgrade_needs_the_minimum_and_a_difference(
    release: ReleaseView,
    current: Seq<char>,
    allow_downgrade: bool,
)
    ensures
        install_verdict(release, current, channel_of(current), allow_downgrade) == upgrade_verdict(
            release,
            current,
            allow_downgrade,
        ),
        upgrade_verdict(release, current, allow_downgrade) is Ok <==> {
            &&& !(version_order(current, release.min_app_version) is Less)
            &&& !(version_order(release.version, current) is Equal)
            &&& allow_downgrade || version_order(release.version, current) is Greater
        },
{
}

/// A refusal is worded with the versions that it is about.
pub proof fn law_refusals_are_worded(
    channel: Channel,
    current: Seq<char>,
    required: Seq<char>,
    candidate: Seq<char>,
)
    ensures
        GateErrorView::NoReleaseForChannel(channel).text() == "Channel "@ + channel.name()
            + " has no release in this manifest"@,
        (GateErrorView::AppTooOld { current, required, candidate }).text() == "Candidate "@
            + candidate + " requires app "@ + required + " (have "@ + current
            + "); upgrade to an intermediate first"@,
        (GateErrorView::Downgrade { current, candidate }).text() == "Candidate "@ + candidate
            + " is older than installed "@ + current + "; pass --allow-downgrade to override"@,
        (GateErrorView::AlreadyInstalled { candidate }).text() == "Candidate "@ + candidate
            + " is already installed"@,
{
}

} // verus!
