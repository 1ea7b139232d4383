//! Whether there is an update: the decision, how it is told, and the exit code
//! that goes with it.
//!
//! [`CheckRun`] decides; its runner does what the [`CheckAction`]s say and
//! hands back a [`CheckEvent`] for each.

use std::cmp::Ordering;

use vstd::prelude::*;
use vstd::string::StringExecFns;

use crate::cli::ChannelArg;
use crate::foreign::{exit_no_permission, exit_ok, exit_software, exit_unavailable};
use crate::manifest::{
    Channel, ChannelRelease, Error, ErrorView, Manifest, ManifestView, ReleaseView,
};
use crate::update::gate::{ensure_installable, install_verdict};
use crate::update::upgrade::{GateError, GateErrorView};
use crate::update::version::{channel_of, version_order};
use crate::vpn_status::{ensure_connected, NOT_CONNECTED};

verus! {

/// What was found out about updates.
#[derive(Debug)]
pub enum CheckOutcome {
    UpToDate { current: String },
    Available { current: String, release: Box<ChannelRelease> },
    NoReleaseForChannel(Channel),
    VpnNotConnected,
    IntegrityError(String),
    Error(String),
}

/// What a [`CheckOutcome`] says.
pub enum OutcomeView {
    UpToDate { current: Seq<char> },
    Available { current: Seq<char>, release: ReleaseView },
    NoReleaseForChannel(Channel),
    VpnNotConnected,
    IntegrityError(Seq<char>),
    Error(Seq<char>),
}

impl View for CheckOutcome {
    type V = OutcomeView;

    open spec fn view(&self) -> OutcomeView {
        match self {
            CheckOutcome::UpToDate { current } => OutcomeView::UpToDate { current: current@ },
            CheckOutcome::Available { current, release } => OutcomeView::Available {
                current: current@,
                release: release@,
            },
            CheckOutcome::NoReleaseForChannel(channel) => OutcomeView::NoReleaseForChannel(
                *channel,
            ),
            CheckOutcome::VpnNotConnected => OutcomeView::VpnNotConnected,
            CheckOutcome::IntegrityError(m) => OutcomeView::IntegrityError(m@),
            CheckOutcome::Error(e) => OutcomeView::Error(e@),
        }
    }
}

impl OutcomeView {
    /// Whether a manifest goes with the outcome.
    pub open spec fn has_manifest(self) -> bool {
        self is UpToDate || self is Available || self is NoReleaseForChannel
    }

    /// The exit code that goes with the outcome.
    pub open spec fn exit_code(self) -> i32 {
        match self {
            OutcomeView::UpToDate { .. } | OutcomeView::Available { .. } => 0,
            OutcomeView::NoReleaseForChannel(_) => 69,
            OutcomeView::VpnNotConnected => 77,
            OutcomeView::IntegrityError(_) => 70,
            OutcomeView::Error(_) => 69,
        }
    }

    /// How the outcome is told to people, in its first lines.
    pub open spec fn headline(self) -> Seq<char> {
        match self {
            OutcomeView::UpToDate { current } => "Up to date\nCurrent installed version: "@
                + current,
            OutcomeView::Available { current, release } => "Update needed to "@ + release.version
                + "\nCurrent installed version: "@ + current,
            OutcomeView::NoReleaseForChannel(channel) => GateErrorView::NoReleaseForChannel(
                channel,
            ).text(),
            OutcomeView::VpnNotConnected => NOT_CONNECTED@,
            OutcomeView::IntegrityError(m) => ErrorView::Integrity(m).text(),
            OutcomeView::Error(e) => e,
        }
    }
}

/// The result of looking for an update: the channel that was looked at, the
/// outcome, and the manifest as it was fetched.
#[derive(Debug)]
pub struct CheckResult {
    pub channel: Channel,
    pub outcome: CheckOutcome,
    pub manifest: Option<Manifest>,
}

/// What a [`CheckResult`] says.
pub struct CheckResultView {
    pub channel: Channel,
    pub outcome: OutcomeView,
    pub manifest: Option<ManifestView>,
}

impl View for CheckResult {
    type V = CheckResultView;

    open spec fn view(&self) -> CheckResultView {
        CheckResultView {
            channel: self.channel,
            outcome: self.outcome@,
            manifest: match self.manifest {
                Some(m) => Some(m@),
                None => None,
            },
        }
    }
}

/// The changes that the release of `channel` tells of, if it tells of any.
pub open spec fn changelog(manifest: Option<ManifestView>, channel: Channel) -> Option<Seq<char>> {
    match manifest {
        Some(m) => match m.release_of(channel) {
            Some(release) => if release.release_notes.len() > 0 {
                Some(release.release_notes)
            } else {
                None
            },
            None => None,
        },
        None => None,
    }
}

impl CheckResultView {
    /// How the result is told to people.
    pub open spec fn text(self) -> Seq<char> {
        let lines = self.outcome.headline() + "\nChannel: "@ + self.channel.title();
        match changelog(self.manifest, self.channel) {
            Some(notes) => lines + "\nChangelog: "@ + notes,
            None => lines,
        }
    }
}

impl CheckOutcome {
    /// How the outcome is told to people, in its first lines.
    fn headline(&self) -> (r: String)
        ensures
            r@ == self@.headline(),
    {
        match self {
            CheckOutcome::UpToDate { current } => {
                "Up to date\nCurrent installed version: ".to_owned().concat(current.as_str())
            },
            CheckOutcome::Available { current, release } => {
                "Update needed to ".to_owned().concat(release.version.as_str()).concat(
                    "\nCurrent installed version: ",
                ).concat(current.as_str())
            },
            CheckOutcome::NoReleaseForChannel(channel) => {
                GateError::NoReleaseForChannel(*channel).to_string()
            },
            CheckOutcome::VpnNotConnected => NOT_CONNECTED.to_owned(),
            CheckOutcome::IntegrityError(m) => Error::Integrity(m.clone()).to_string(),
            CheckOutcome::Error(e) => e.clone(),
        }
    }
}

impl CheckResult {
    /// How the result is told to people.
    pub fn to_string(&self) -> (r: String)
        ensures
            r@ == self@.text(),
    {
        let lines = self.outcome.headline().concat("\nChannel: ").concat(self.channel.to_title());
        if let Some(manifest) = &self.manifest {
            if let Some(release) = manifest.pick(self.channel) {
                if !release.release_notes.as_str().is_empty() {
                    return lines.concat("\nChangelog: ").concat(release.release_notes.as_str());
                }
            }
        }
        lines
    }
}

/// The exit code that goes with a result.
pub fn exit_for_check(result: &CheckResult) -> (r: i32)
    ensures
        r == result@.outcome.exit_code(),
{
    match &result.outcome {
        CheckOutcome::UpToDate { .. } => exit_ok(),
        CheckOutcome::Available { .. } => exit_ok(),
        CheckOutcome::NoReleaseForChannel(_) => exit_unavailable(),
        CheckOutcome::VpnNotConnected => exit_no_permission(),
        CheckOutcome::IntegrityError(_) => exit_software(),
        CheckOutcome::Error(_) => exit_unavailable(),
    }
}

/// The outcome for a manifest: what the gates say, without the override, of
/// the release that it has for the channel.
pub open spec fn outcome_for(channel: Channel, current: Seq<char>, manifest: ManifestView) -> OutcomeView {
    match manifest.release_of(channel) {
        None => OutcomeView::NoReleaseForChannel(channel),
        Some(release) => match install_verdict(release, current, channel, false) {
            Ok(_) => OutcomeView::Available { current, release },
            Err(GateErrorView::AlreadyInstalled { .. }) => OutcomeView::UpToDate { current },
            Err(GateErrorView::Downgrade { .. }) => OutcomeView::UpToDate { current },
            Err(e) => OutcomeView::Error(e.text()),
        },
    }
}

/// The result for what came of fetching the manifest. The manifest goes with
/// it unless the outcome is an error.
pub open spec fn result_for(
    channel: Channel,
    current: Seq<char>,
    fetched: Result<ManifestView, ErrorView>,
) -> CheckResultView {
    match fetched {
        Ok(manifest) => {
            let outcome = outcome_for(channel, current, manifest);
            CheckResultView {
                channel,
                outcome,
                manifest: if outcome.has_manifest() {
                    Some(manifest)
                } else {
                    None
                },
            }
        },
        Err(ErrorView::Integrity(m)) => CheckResultView {
            channel,
            outcome: OutcomeView::IntegrityError(m),
            manifest: None,
        },
        Err(e) => CheckResultView {
            channel,
            outcome: OutcomeView::Error(e.text()),
            manifest: None,
        },
    }
}

/// What fetching a manifest gave.
pub open spec fn fetched_view(fetched: Result<Manifest, Error>) -> Result<ManifestView, ErrorView> {
    match fetched {
        Ok(manifest) => Ok(manifest@),
        Err(e) => Err(e@),
    }
}

/// Decides on the manifest.
fn outcome_of(channel: Channel, current: &str, manifest: &Manifest) -> (r: CheckOutcome)
    ensures
        r@ == outcome_for(channel, current@, manifest@),
{
    match manifest.pick(channel) {
        None => CheckOutcome::NoReleaseForChannel(channel),
        Some(release) => match ensure_installable(release, current, channel, false) {
            Ok(_) => CheckOutcome::Available {
                current: current.to_owned(),
                release: Box::new(release.clone()),
            },
            Err(GateError::AlreadyInstalled { .. }) => CheckOutcome::UpToDate {
                current: current.to_owned(),
            },
            Err(GateError::Downgrade { .. }) => CheckOutcome::UpToDate {
                current: current.to_owned(),
            },
            Err(e) => CheckOutcome::Error(e.to_string()),
        },
    }
}

/// Decides on what came of fetching the manifest.
pub fn check_manifest(channel: Channel, current: &str, fetched: Result<Manifest, Error>) -> (r:
    CheckResult)
    ensures
        r@ == result_for(channel, current@, fetched_view(fetched)),
{
    match fetched {
        Ok(manifest) => {
            let outcome = outcome_of(channel, current, &manifest);
            match outcome {
                CheckOutcome::Error(e) => CheckResult {
                    channel,
                    outcome: CheckOutcome::Error(e),
                    manifest: None,
                },
                outcome => CheckResult { channel, outcome, manifest: Some(manifest) },
            }
        },
        Err(Error::Integrity(m)) => CheckResult {
            channel,
            outcome: CheckOutcome::IntegrityError(m),
            manifest: None,
        },
        Err(e) => CheckResult {
            channel,
            outcome: CheckOutcome::Error(e.to_string()),
            manifest: None,
        },
    }
}

/// The result where it could not be looked for an update at all: of the channel
/// that was asked for, or else the stable one.
pub fn check_failed(asked: Option<ChannelArg>, error: String) -> (r: CheckResult)
    ensures
        r@ == (CheckResultView {
            channel: match asked {
                Some(arg) => arg.channel(),
                None => Channel::Stable,
            },
            outcome: OutcomeView::Error(error@),
            manifest: None,
        }),
{
    let channel = match asked {
        Some(arg) => Channel::from(arg),
        None => Channel::Stable,
    };
    CheckResult { channel, outcome: CheckOutcome::Error(error), manifest: None }
}

/// What a run waits for.
#[derive(Clone, Copy, Debug, PartialEq, Eq, Structural)]
pub enum CheckPhase {
    /// To be begun.
    New,
    /// Whether the VPN is connected.
    AskingVpn,
    /// The manifest.
    FetchingManifest,
    /// Nothing: the run is over.
    Over,
}

/// A run that looks for an update.
#[derive(Debug)]
pub struct CheckRun {
    channel: Channel,
    current_version: String,
    socket_path: String,
    force: bool,
    phase: CheckPhase,
}

/// Where a run that looks for an update stands.
pub struct CheckRunView {
    pub channel: Channel,
    /// The version that is installed.
    pub current_version: Seq<char>,
    /// The socket over which the VPN is asked.
    pub socket_path: Seq<char>,
    /// Whether to go on without a VPN connection.
    pub force: bool,
    pub phase: CheckPhase,
}

impl View for CheckRun {
    type V = CheckRunView;

    closed spec fn view(&self) -> CheckRunView {
        CheckRunView {
            channel: self.channel,
            current_version: self.current_version@,
            socket_path: self.socket_path@,
            force: self.force,
            phase: self.phase,
        }
    }
}

/// What came of an action.
#[derive(Debug)]
pub enum CheckEvent {
    Begin,
    /// Whether the VPN is connected, if it could be asked.
    VpnAnswered(Result<bool, String>),
    ManifestFetched(Result<Manifest, Error>),
}

/// What a [`CheckEvent`] says.
pub enum CheckEventView {
    Begin,
    VpnAnswered(bool),
    ManifestFetched(Result<ManifestView, ErrorView>),
}

impl View for CheckEvent {
    type V = CheckEventView;

    open spec fn view(&self) -> CheckEventView {
        match self {
            CheckEvent::Begin => CheckEventView::Begin,
            CheckEvent::VpnAnswered(answer) => CheckEventView::VpnAnswered(
                *answer == Ok::<bool, String>(true),
            ),
            CheckEvent::ManifestFetched(r) => CheckEventView::ManifestFetched(fetched_view(*r)),
        }
    }
}

/// What has to be done next.
#[derive(Debug)]
pub enum CheckAction {
    /// Ask over the socket whether the VPN is connected.
    AskVpn(String),
    /// Fetch the manifest of the channel.
    FetchManifest(Channel),
    /// Stop, with the result.
    Finish(CheckResult),
}

/// What a [`CheckAction`] says.
pub enum CheckActionView {
    AskVpn(Seq<char>),
    FetchManifest(Channel),
    Finish(CheckResultView),
}

impl View for CheckAction {
    type V = CheckActionView;

    open spec fn view(&self) -> CheckActionView {
        match self {
            CheckAction::AskVpn(socket) => CheckActionView::AskVpn(socket@),
            CheckAction::FetchManifest(channel) => CheckActionView::FetchManifest(*channel),
            CheckAction::Finish(result) => CheckActionView::Finish(result@),
        }
    }
}

impl CheckRunView {
    /// Whether an event is one that the run waits for.
    pub open spec fn awaits(self, event: CheckEventView) -> bool {
        match event {
            CheckEventView::Begin => self.phase is New,
            CheckEventView::VpnAnswered(_) => self.phase is AskingVpn,
            CheckEventView::ManifestFetched(_) => self.phase is FetchingManifest,
        }
    }

    /// The same, but in phase `phase`.
    pub open spec fn at(self, phase: CheckPhase) -> CheckRunView {
        CheckRunView { phase, ..self }
    }

    /// Where the run stands after `event`, and what it has done next.
    pub open spec fn after(self, event: CheckEventView) -> (CheckRunView, CheckActionView) {
        match event {
            CheckEventView::Begin => if self.force {
                (
                    self.at(CheckPhase::FetchingManifest),
                    CheckActionView::FetchManifest(self.channel),
                )
            } else {
                (self.at(CheckPhase::AskingVpn), CheckActionView::AskVpn(self.socket_path))
            },
            CheckEventView::VpnAnswered(connected) => if connected {
                (
                    self.at(CheckPhase::FetchingManifest),
                    CheckActionView::FetchManifest(self.channel),
                )
            } else {
                (
                    self.at(CheckPhase::Over),
                    CheckActionView::Finish(
                        CheckResultView {
                            channel: self.channel,
                            outcome: OutcomeView::VpnNotConnected,
                            manifest: None,
                        },
                    ),
                )
            },
            CheckEventView::ManifestFetched(fetched) => (
                self.at(CheckPhase::Over),
                CheckActionView::Finish(result_for(self.channel, self.current_version, fetched)),
            ),
        }
    }
}

/// Starts to look for an update of `current_version` on `channel`. Unless
/// `force`, the VPN has to be connected.
pub fn check(channel: Channel, current_version: &str, socket_path: &str, force: bool) -> (r:
    CheckRun)
    ensures
        r@ == (CheckRunView {
            channel,
            current_version: current_version@,
            socket_path: socket_path@,
            force,
            phase: CheckPhase::New,
        }),
{
    CheckRun {
        channel,
        current_version: current_version.to_owned(),
        socket_path: socket_path.to_owned(),
        force,
        phase: CheckPhase::New,
    }
}

impl CheckRun {
    /// Takes what came of the last action and says what to do next.
    pub fn step(&mut self, event: CheckEvent) -> (r: CheckAction)
        requires
            old(self)@.awaits(event@),
        ensures
            (final(self)@, r@) == old(self)@.after(event@),
    {
        match event {
            CheckEvent::Begin => {
                if self.force {
                    self.phase = CheckPhase::FetchingManifest;
                    CheckAction::FetchManifest(self.channel)
                } else {
                    self.phase = CheckPhase::AskingVpn;
                    CheckAction::AskVpn(self.socket_path.clone())
                }
            },
            CheckEvent::VpnAnswered(answer) => match ensure_connected(answer) {
                Ok(_) => {
                    self.phase = CheckPhase::FetchingManifest;
                    CheckAction::FetchManifest(self.channel)
                },
                Err(_) => {
                    self.phase = CheckPhase::Over;
                    CheckAction::Finish(
                        CheckResult {
                            channel: self.channel,
                            outcome: CheckOutcome::VpnNotConnected,
                            manifest: None,
                        },
                    )
                },
            },
            CheckEvent::ManifestFetched(fetched) => {
                self.phase = CheckPhase::Over;
                CheckAction::Finish(
                    check_manifest(self.channel, self.current_version.as_str(), fetched),
                )
            },
        }
    }
}

/// A result has a manifest just when its outcome is one that came from a
/// manifest.
pub proof fn law_manifest_goes_with_the_outcome(run: CheckRunView, event: CheckEventView)
    ensures
        run.after(event).1 matches CheckActionView::Finish(result) ==> (result.manifest is Some
            <==> result.outcome.has_manifest()),
{
}

/// Whatever a manifest holds, an update is offered just when the manifest has a
/// release for the channel and it is one of another channel than the installed
/// version, or a newer one that the installed version can be updated to.
pub proof fn law_offers_what_can_be_installed(
    channel: Channel,
    current: Seq<char>,
    manifest: ManifestView,
)
    ensures
        outcome_for(channel, current, manifest) is Available <==> {
            &&& manifest.release_of(channel) matches Some(release)
            &&& channel_of(current) != channel || {
                &&& version_order(current, release.min_app_version) != Ordering::Less
                &&& version_order(release.version, current) == Ordering::Greater
            }
        },
        outcome_for(channel, current, manifest) matches OutcomeView::Available {
            current: c,
            release,
        } ==> c == current && manifest.release_of(channel) == Some(release),
{
}

/// A run that fetched a manifest finishes, and if its result has a manifest then
/// that is the one which was fetched, in every field: the releases of all
/// channels are there, not only that of the channel looked at.
pub proof fn law_manifest_is_kept_as_fetched(run: CheckRunView, manifest: ManifestView)
    ensures
        run.after(CheckEventView::ManifestFetched(Ok(manifest))).1 matches CheckActionView::Finish(
            result,
        ) && (result.manifest matches Some(kept) ==> {
            &&& kept.schema_version == manifest.schema_version
            &&& kept.generated_at == manifest.generated_at
            &&& kept.stable == manifest.stable
            &&& kept.snapshot == manifest.snapshot
            &&& kept.experimental == manifest.experimental
        }),
        run.after(CheckEventView::ManifestFetched(Ok(manifest))).1 matches CheckActionView::Finish(
            result,
        ) && (result.outcome is Error || result.manifest is Some),
{
}

/// A result tells of the channel that was looked at, and of the version that
/// was given as the installed one.
pub proof fn law_result_is_about_what_was_asked(run: CheckRunView, event: CheckEventView)
    ensures
        run.after(event).1 matches CheckActionView::Finish(result) ==> {
            &&& result.channel == run.channel
            &&& match result.outcome {
                OutcomeView::UpToDate { current } => current == run.current_version,
                OutcomeView::Available { current, .. } => current == run.current_version,
                OutcomeView::NoReleaseForChannel(channel) => channel == run.channel,
                _ => true,
            }
        },
{
}

/// A manifest for the channel leads to one of four outcomes: there is no
/// release, the release is offered, there is nothing newer, or the installed
/// version is too old for it.
pub proof fn law_release_decides_the_outcome(
    channel: Channel,
    current: Seq<char>,
    manifest: ManifestView,
)
    ensures
        outcome_for(channel, current, manifest) is NoReleaseForChannel
            <==> manifest.release_of(channel) is None,
        manifest.release_of(channel) matches Some(release) ==> {
            let outcome = outcome_for(channel, current, manifest);
            let gated = channel_of(current) == channel;
            let too_old = gated && version_order(current, release.min_app_version)
                == Ordering::Less;
            let newer = version_order(release.version, current) == Ordering::Greater;
            &&& outcome is UpToDate <==> gated && !too_old && !newer
            &&& outcome is Error <==> too_old
            &&& outcome matches OutcomeView::Error(text) ==> text == "Candidate "@
                + release.version + " requires app "@ + release.min_app_version + " (have "@
                + current + "); upgrade to an intermediate first"@
            &&& outcome matches OutcomeView::Available { release: offered, .. } ==> offered
                == release
        },
{
}

/// A manifest that could not be had is told by its reason: one that is not to be
/// trusted by what is wrong with it, and anything else in words.
pub proof fn law_failed_fetch_is_told(run: CheckRunView, reason: Seq<char>)
    ensures
        run.after(CheckEventView::ManifestFetched(Err(ErrorView::Integrity(reason)))).1
            == CheckActionView::Finish(
            CheckResultView {
                channel: run.channel,
                outcome: OutcomeView::IntegrityError(reason),
                manifest: None,
            },
        ),
        run.after(CheckEventView::ManifestFetched(Err(ErrorView::Other(reason)))).1
            == CheckActionView::Finish(
            CheckResultView {
                channel: run.channel,
                outcome: OutcomeView::Error("Update check error: "@ + reason),
                manifest: None,
            },
        ),
{
}

/// The VPN is asked first, unless that is to be left out, and the manifest is
/// fetched only once the VPN is connected or need not be; without it the run
/// ends. After each action the run waits for what comes of it.
pub proof fn law_vpn_comes_before_the_manifest(run: CheckRunView, connected: bool)
    requires
        run.phase is New,
    ensures
        run.awaits(CheckEventView::Begin),
        run.after(CheckEventView::Begin).1 == if run.force {
            CheckActionView::FetchManifest(run.channel)
        } else {
            CheckActionView::AskVpn(run.socket_path)
        },
        !run.force ==> {
            let asked = run.after(CheckEventView::Begin).0;
            &&& asked.awaits(CheckEventView::VpnAnswered(connected))
            &&& asked.after(CheckEventView::VpnAnswered(connected)).1 == if connected {
                CheckActionView::FetchManifest(run.channel)
            } else {
                CheckActionView::Finish(
                    CheckResultView {
                        channel: run.channel,
                        outcome: OutcomeView::VpnNotConnected,
                        manifest: None,
                    },
                )
            }
            &&& forall|fetched: Result<ManifestView, ErrorView>|
                connected ==> #[trigger] asked.after(
                    CheckEventView::VpnAnswered(connected),
                ).0.awaits(CheckEventView::ManifestFetched(fetched))
        },
        run.force ==> forall|fetched: Result<ManifestView, ErrorView>| #[trigger]
            run.after(CheckEventView::Begin).0.awaits(CheckEventView::ManifestFetched(fetched)),
        forall|event: CheckEventView| #[trigger]
            run.after(event).0.current_version == run.current_version && run.after(event).0.channel
                == run.channel,
{
}

/// The exit code tells the outcome: nothing to do or an update, no release or
/// an error, no VPN, or a manifest that is not to be trusted.
pub proof fn law_exit_code_tells_the_outcome(outcome: OutcomeView)
    ensures
        outcome.exit_code() == 0 <==> outcome is UpToDate || outcome is Available,
        outcome.exit_code() == 69 <==> outcome is NoReleaseForChannel || outcome is Error,
        outcome.exit_code() == 77 <==> outcome is VpnNotConnected,
        outcome.exit_code() == 70 <==> outcome is IntegrityError,
        outcome.has_manifest() <==> !(outcome is VpnNotConnected || outcome is IntegrityError
            || outcome is Error),
{
}

/// An offered update is told with both versions and its channel, and the
/// changes of the release of that channel follow just where it tells of any.
pub proof fn law_result_is_told_with_its_changes(result: CheckResultView)
    ensures
        result.outcome matches OutcomeView::Available { current, release } ==> ("Update needed to "@
            + release.version + "\nCurrent installed version: "@ + current + "\nChannel: "@
            + result.channel.title()).is_prefix_of(result.text()),
        result.outcome matches OutcomeView::UpToDate { current } ==> (
        "Up to date\nCurrent installed version: "@ + current + "\nChannel: "@
            + result.channel.title()).is_prefix_of(result.text()),
        result.outcome matches OutcomeView::Error(e) ==> (e + "\nChannel: "@
            + result.channel.title()).is_prefix_of(result.text()),
        result.outcome matches OutcomeView::IntegrityError(m) ==> ("Manifest integrity error: "@ + m
            + "\nChannel: "@ + result.channel.title()).is_prefix_of(result.text()),
        result.outcome is VpnNotConnected ==> (NOT_CONNECTED@ + "\nChannel: "@
            + result.channel.title()).is_prefix_of(result.text()),
        result.outcome matches OutcomeView::NoReleaseForChannel(channel) ==> ("Channel "@
            + channel.name() + " has no release in this manifest"@ + "\nChannel: "@
            + result.channel.title()).is_prefix_of(result.text()),
        result.text() == result.outcome.headline() + "\nChannel: "@ + result.channel.title() + (
        if result.manifest matches Some(m) && (m.release_of(result.channel) matches Some(r)
            && r.release_notes.len() > 0) {
            "\nChangelog: "@ + result.manifest->Some_0.release_of(
                result.channel,
            )->Some_0.release_notes
        } else {
            Seq::empty()
        }),
{
    let lines = result.outcome.headline() + "\nChannel: "@ + result.channel.title();
    assert(result.text().subrange(0, lines.len() as int) =~= lines);
    assert(lines + Seq::<char>::empty() =~= lines);
    match changelog(result.manifest, result.channel) {
        Some(notes) => {
            assert(lines + "\nChangelog: "@ + notes =~= lines + ("\nChangelog: "@ + notes));
        },
        None => {},
    }
}

/// How the versions of the updater and of the installed package are told to
/// people.
pub open spec fn version_lines(updater: Seq<char>, package: Option<Seq<char>>) -> Seq<char> {
    match package {
        Some(version) => "Updater version: "@ + updater + "\nPackage version: "@ + version,
        None => "Updater version: "@ + updater,
    }
}

/// Tells the versions of the updater and, if one is installed, of the package.
pub fn version_report(updater: &str, package: Option<&str>) -> (r: String)
    ensures
        r@ == version_lines(updater@, package.deep_view()),
{
    let line = "Updater version: ".to_owned().concat(updater);
    match package {
        Some(version) => line.concat("\nPackage version: ").concat(version),
        None => line,
    }
}

/// The report of the versions starts with that of the updater, and that of the
/// package follows just where one is installed.
pub proof fn law_versions_are_reported(updater: Seq<char>, package: Seq<char>)
    ensures
        version_lines(updater, None) == "Updater version: "@ + updater,
        version_lines(updater, Some(package)) == version_lines(updater, None)
            + "\nPackage version: "@ + package,
{
}

/// What came of an action is what the run takes it for: the VPN counts as
/// connected only where it was asked and said so.
pub proof fn law_events_say_what_came(
    answer: Result<bool, String>,
    fetched: Result<Manifest, Error>,
)
    ensures
        CheckEvent::Begin@ is Begin,
        CheckEvent::VpnAnswered(answer)@ == CheckEventView::VpnAnswered(
            answer is Ok && answer->Ok_0,
        ),
        CheckEvent::ManifestFetched(fetched)@ == CheckEventView::ManifestFetched(
            match fetched {
                Ok(manifest) => Ok(manifest@),
                Err(e) => Err(e@),
            },
        ),
{
}

/// What is to be done, and the result, are what they say.
pub proof fn law_actions_say_what_to_do(action: CheckAction, result: CheckResult)
    ensures
        action@ == match action {
            CheckAction::AskVpn(socket) => CheckActionView::AskVpn(socket@),
            CheckAction::FetchManifest(channel) => CheckActionView::FetchManifest(channel),
            CheckAction::Finish(r) => CheckActionView::Finish(r@),
        },
        result@.channel == result.channel,
        result@.manifest is Some <==> result.manifest is Some,
        result.manifest matches Some(manifest) ==> result@.manifest == Some(manifest@),
        result@.outcome == match result.outcome {
            CheckOutcome::UpToDate { current } => OutcomeView::UpToDate { current: current@ },
            CheckOutcome::Available { current, release } => OutcomeView::Available {
                current: current@,
                release: release@,
            },
            CheckOutcome::NoReleaseForChannel(channel) => OutcomeView::NoReleaseForChannel(channel),
            CheckOutcome::VpnNotConnected => OutcomeView::VpnNotConnected,
            CheckOutcome::IntegrityError(m) => OutcomeView::IntegrityError(m@),
            CheckOutcome::Error(e) => OutcomeView::Error(e@),
        },
{
}

} // verus!
