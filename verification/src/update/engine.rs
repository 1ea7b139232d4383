//! The engine that installs an update: what is done in which order, what ends
//! a run, and what is reported of it.
//!
//! [`Engine`] decides; its runner does what the [`EngineAction`]s say and hands
//! back an [`EngineEvent`] for each.

use vstd::pervasive::unreached;
use vstd::prelude::*;

use crate::manifest::{
    Channel, ChannelRelease, Error, ErrorView, Manifest, ManifestView, ReleaseView,
};
use crate::update::download::{error_of, DownloadError, DownloadErrorView};
use crate::update::gate::{ensure_installable, install_verdict};
use crate::update::status::{StatusView, UpdateStage, UpdateStatus};
use crate::update::upgrade::{GateError, GateErrorView};
use crate::vpn_status::{ensure_connected, NOT_CONNECTED};

verus! {

/// What an engine is to do.
#[derive(Debug)]
pub struct EngineInput {
    /// The channel to install from.
    pub channel: Channel,
    /// Whether an older release may be installed.
    pub allow_downgrade: bool,
    /// The version that is installed.
    pub current_app_version: String,
    /// The directory that the artifact is downloaded to.
    pub download_dir: String,
    /// Where the run is recorded, if it is.
    pub attempt_state_path: Option<String>,
    /// The log that the run is added to, if it is.
    pub audit_log_path: Option<String>,
    /// Whether to go on without a VPN connection.
    pub skip_vpn_check: bool,
    /// The socket over which the VPN is asked.
    pub socket_path: String,
}

/// What an [`EngineInput`] says.
pub struct EngineInputView {
    pub channel: Channel,
    pub allow_downgrade: bool,
    pub current_app_version: Seq<char>,
    pub download_dir: Seq<char>,
    pub attempt_state_path: Option<Seq<char>>,
    pub audit_log_path: Option<Seq<char>>,
    pub skip_vpn_check: bool,
    pub socket_path: Seq<char>,
}

impl View for EngineInput {
    type V = EngineInputView;

    open spec fn view(&self) -> EngineInputView {
        EngineInputView {
            channel: self.channel,
            allow_downgrade: self.allow_downgrade,
            current_app_version: self.current_app_version@,
            download_dir: self.download_dir@,
            attempt_state_path: self.attempt_state_path.deep_view(),
            audit_log_path: self.audit_log_path.deep_view(),
            skip_vpn_check: self.skip_vpn_check,
            socket_path: self.socket_path@,
        }
    }
}

/// The release that is installed, or why there is none: the manifest has one
/// for the channel, and the gates let it pass.
pub open spec fn release_to_install(input: EngineInputView, manifest: ManifestView) -> Result<
    ReleaseView,
    GateErrorView,
> {
    match manifest.release_of(input.channel) {
        None => Err(GateErrorView::NoReleaseForChannel(input.channel)),
        Some(release) => match install_verdict(
            release,
            input.current_app_version,
            input.channel,
            input.allow_downgrade,
        ) {
            Ok(_) => Ok(release),
            Err(e) => Err(e),
        },
    }
}

/// Finds the release to install.
pub fn find_release(input: &EngineInput, manifest: &Manifest) -> (r: Result<
    ChannelRelease,
    GateError,
>)
    ensures
        match r {
            Ok(release) => release_to_install(input@, manifest@) == Ok::<
                ReleaseView,
                GateErrorView,
            >(release@),
            Err(e) => release_to_install(input@, manifest@) == Err::<ReleaseView, GateErrorView>(
                e@,
            ),
        },
{
    match manifest.pick(input.channel) {
        None => Err(GateError::NoReleaseForChannel(input.channel)),
        Some(release) => match ensure_installable(
            release,
            input.current_app_version.as_str(),
            input.channel,
            input.allow_downgrade,
        ) {
            Ok(_) => Ok(release.clone()),
            Err(e) => Err(e),
        },
    }
}

/// What the installer is run on.
#[derive(Debug)]
pub struct InstallPlan {
    pub release: ChannelRelease,
    /// The path of the artifact.
    pub artifact: String,
    /// The path of the choices to pin, if any are.
    pub choice_changes: Option<String>,
}

/// What an [`InstallPlan`] says.
pub struct PlanView {
    pub release: ReleaseView,
    pub artifact: Seq<char>,
    pub choice_changes: Option<Seq<char>>,
}

impl View for InstallPlan {
    type V = PlanView;

    open spec fn view(&self) -> PlanView {
        PlanView {
            release: self.release@,
            artifact: self.artifact@,
            choice_changes: self.choice_changes.deep_view(),
        }
    }
}

/// How far the installation has got.
#[derive(Clone, Copy, Debug, PartialEq, Eq, Structural)]
pub enum InstallStep {
    /// The process is shielded from signals.
    Shielding,
    /// The loader is put up.
    ShowingLoader,
    /// The installation is reported.
    Announcing,
    /// The updater's own file is moved out of the way.
    RenamingAside,
    /// The installer runs.
    Running,
}

/// What an engine waits for.
#[derive(Debug)]
enum Phase {
    New,
    AnnouncingCheck,
    AskingVpn,
    FetchingManifest,
    AnnouncingDownload(ChannelRelease),
    Downloading(ChannelRelease),
    Verifying(ChannelRelease, String),
    Pinning(ChannelRelease, String),
    Installing(InstallStep, InstallPlan),
    Dismissing(ChannelRelease, Result<(), String>),
    Settling(ChannelRelease, Result<(), String>),
    Persisting(UpdateStatus, Option<String>),
    Logging(UpdateStatus),
    AnnouncingEnd,
    Over,
}

/// What an engine waits for, with what it has to remember until then.
pub enum EnginePhase {
    /// To be begun.
    New,
    /// The report that it is checking.
    AnnouncingCheck,
    /// Whether the VPN is connected.
    AskingVpn,
    /// The manifest.
    FetchingManifest,
    /// The report that it is downloading the release.
    AnnouncingDownload(ReleaseView),
    /// The artifact of the release.
    Downloading(ReleaseView),
    /// Whether the artifact at the path is that of the release.
    Verifying(ReleaseView, Seq<char>),
    /// The choices that the installer is to keep.
    Pinning(ReleaseView, Seq<char>),
    /// A step of the installation.
    Installing(InstallStep, PlanView),
    /// The loader to be taken down; the installer failed with the error, if
    /// there is one.
    Dismissing(ReleaseView, Option<Seq<char>>),
    /// The updater's own file to be put right.
    Settling(ReleaseView, Option<Seq<char>>),
    /// The record of how the run ended, with the version of the updater.
    Persisting(StatusView, Option<Seq<char>>),
    /// The log of how the run ended.
    Logging(StatusView),
    /// The report of how the run ended.
    AnnouncingEnd,
    /// Nothing: the run is over.
    Over,
}

impl View for Phase {
    type V = EnginePhase;

    closed spec fn view(&self) -> EnginePhase {
        match self {
            Phase::New => EnginePhase::New,
            Phase::AnnouncingCheck => EnginePhase::AnnouncingCheck,
            Phase::AskingVpn => EnginePhase::AskingVpn,
            Phase::FetchingManifest => EnginePhase::FetchingManifest,
            Phase::AnnouncingDownload(release) => EnginePhase::AnnouncingDownload(release@),
            Phase::Downloading(release) => EnginePhase::Downloading(release@),
            Phase::Verifying(release, path) => EnginePhase::Verifying(release@, path@),
            Phase::Pinning(release, path) => EnginePhase::Pinning(release@, path@),
            Phase::Installing(step, plan) => EnginePhase::Installing(*step, plan@),
            Phase::Dismissing(release, r) => EnginePhase::Dismissing(release@, error_of(*r)),
            Phase::Settling(release, r) => EnginePhase::Settling(release@, error_of(*r)),
            Phase::Persisting(status, version) => EnginePhase::Persisting(
                status@,
                version.deep_view(),
            ),
            Phase::Logging(status) => EnginePhase::Logging(status@),
            Phase::AnnouncingEnd => EnginePhase::AnnouncingEnd,
            Phase::Over => EnginePhase::Over,
        }
    }
}

/// A run of the engine.
#[derive(Debug)]
pub struct Engine {
    input: EngineInput,
    phase: Phase,
}

/// Where a run of the engine stands.
pub struct EngineView {
    pub input: EngineInputView,
    pub phase: EnginePhase,
}

impl View for Engine {
    type V = EngineView;

    closed spec fn view(&self) -> EngineView {
        EngineView { input: self.input@, phase: self.phase@ }
    }
}

/// What came of an action.
#[derive(Debug)]
pub enum EngineEvent {
    Begin,
    /// The status was reported, or nobody was listening.
    Reported,
    /// Whether the VPN is connected, if it could be asked.
    VpnAnswered(Result<bool, String>),
    ManifestFetched(Result<Manifest, Error>),
    /// The path of the artifact.
    Downloaded(Result<String, DownloadError>),
    Verified(Result<(), String>),
    /// The path of the choices to pin, if any are.
    ChoicesPinned(Result<Option<String>, String>),
    Shielded,
    LoaderShown,
    RenamedAside,
    Installed(Result<(), String>),
    LoaderDismissed,
    /// The version that the updater's own file tells, if it was asked and
    /// answered.
    Settled(Option<String>),
    Persisted,
    Logged,
}

/// What an [`EngineEvent`] says.
pub enum EngineEventView {
    Begin,
    Reported,
    VpnAnswered(bool),
    ManifestFetched(Result<ManifestView, ErrorView>),
    Downloaded(Result<Seq<char>, DownloadErrorView>),
    Verified(Option<Seq<char>>),
    ChoicesPinned(Result<Option<Seq<char>>, Seq<char>>),
    Shielded,
    LoaderShown,
    RenamedAside,
    Installed(Option<Seq<char>>),
    LoaderDismissed,
    Settled(Option<Seq<char>>),
    Persisted,
    Logged,
}

impl View for EngineEvent {
    type V = EngineEventView;

    open spec fn view(&self) -> EngineEventView {
        match self {
            EngineEvent::Begin => EngineEventView::Begin,
            EngineEvent::Reported => EngineEventView::Reported,
            EngineEvent::VpnAnswered(answer) => EngineEventView::VpnAnswered(
                *answer == Ok::<bool, String>(true),
            ),
            EngineEvent::ManifestFetched(r) => EngineEventView::ManifestFetched(
                match r {
                    Ok(manifest) => Ok(manifest@),
                    Err(e) => Err(e@),
                },
            ),
            EngineEvent::Downloaded(r) => EngineEventView::Downloaded(
                match r {
                    Ok(path) => Ok(path@),
                    Err(e) => Err(e@),
                },
            ),
            EngineEvent::Verified(r) => EngineEventView::Verified(error_of(*r)),
            EngineEvent::ChoicesPinned(r) => EngineEventView::ChoicesPinned(
                match r {
                    Ok(path) => Ok(path.deep_view()),
                    Err(e) => Err(e@),
                },
            ),
            EngineEvent::Shielded => EngineEventView::Shielded,
            EngineEvent::LoaderShown => EngineEventView::LoaderShown,
            EngineEvent::RenamedAside => EngineEventView::RenamedAside,
            EngineEvent::Installed(r) => EngineEventView::Installed(error_of(*r)),
            EngineEvent::LoaderDismissed => EngineEventView::LoaderDismissed,
            EngineEvent::Settled(version) => EngineEventView::Settled(version.deep_view()),
            EngineEvent::Persisted => EngineEventView::Persisted,
            EngineEvent::Logged => EngineEventView::Logged,
        }
    }
}

/// What has to be done next.
#[derive(Debug)]
pub enum EngineAction {
    /// Report the status.
    Report(UpdateStatus),
    /// Ask over the socket whether the VPN is connected.
    AskVpn(String),
    /// Fetch the manifest of the channel.
    FetchManifest(Channel),
    /// Download the artifact of the release to the directory.
    Download(ChannelRelease, String),
    /// Tell whether the file at the path is the artifact of the release.
    Verify(String, ChannelRelease),
    /// Write the choices that the installer is to keep to the directory.
    PinChoices(String),
    /// Ignore the signals that would end the process.
    Shield,
    /// Put up the loader.
    ShowLoader,
    /// Move the updater's own file out of the way.
    RenameAside,
    /// Run the installer on the artifact, with the choices to pin.
    Install(String, Option<String>),
    /// Take down the loader.
    DismissLoader,
    /// Put the updater's own file right, after an installation that succeeded
    /// or not.
    Settle(bool),
    /// Record how the run ended.
    Persist(String, Channel, UpdateStatus),
    /// Log how the run ended, with the version of the updater.
    Log(String, Channel, UpdateStatus, Option<String>),
    /// Stop.
    Stop,
}

/// What an [`EngineAction`] says.
pub enum EngineActionView {
    Report(StatusView),
    AskVpn(Seq<char>),
    FetchManifest(Channel),
    Download(ReleaseView, Seq<char>),
    Verify(Seq<char>, ReleaseView),
    PinChoices(Seq<char>),
    Shield,
    ShowLoader,
    RenameAside,
    Install(Seq<char>, Option<Seq<char>>),
    DismissLoader,
    Settle(bool),
    Persist(Seq<char>, Channel, StatusView),
    Log(Seq<char>, Channel, StatusView, Option<Seq<char>>),
    Stop,
}

impl View for EngineAction {
    type V = EngineActionView;

    open spec fn view(&self) -> EngineActionView {
        match self {
            EngineAction::Report(status) => EngineActionView::Report(status@),
            EngineAction::AskVpn(socket) => EngineActionView::AskVpn(socket@),
            EngineAction::FetchManifest(channel) => EngineActionView::FetchManifest(*channel),
            EngineAction::Download(release, dir) => EngineActionView::Download(release@, dir@),
            EngineAction::Verify(path, release) => EngineActionView::Verify(path@, release@),
            EngineAction::PinChoices(dir) => EngineActionView::PinChoices(dir@),
            EngineAction::Shield => EngineActionView::Shield,
            EngineAction::ShowLoader => EngineActionView::ShowLoader,
            EngineAction::RenameAside => EngineActionView::RenameAside,
            EngineAction::Install(artifact, changes) => EngineActionView::Install(
                artifact@,
                changes.deep_view(),
            ),
            EngineAction::DismissLoader => EngineActionView::DismissLoader,
            EngineAction::Settle(success) => EngineActionView::Settle(*success),
            EngineAction::Persist(path, channel, status) => EngineActionView::Persist(
                path@,
                *channel,
                status@,
            ),
            EngineAction::Log(path, channel, status, version) => EngineActionView::Log(
                path@,
                *channel,
                status@,
                version.deep_view(),
            ),
            EngineAction::Stop => EngineActionView::Stop,
        }
    }
}

impl EngineView {
    /// A run that has not begun.
    pub open spec fn fresh(input: EngineInputView) -> EngineView {
        EngineView { input, phase: EnginePhase::New }
    }

    /// Whether an event is one that the run waits for.
    pub open spec fn awaits(self, event: EngineEventView) -> bool {
        match event {
            EngineEventView::Begin => self.phase is New,
            EngineEventView::Reported => match self.phase {
                EnginePhase::AnnouncingCheck => true,
                EnginePhase::AnnouncingDownload(_) => true,
                EnginePhase::Installing(step, _) => step is Announcing,
                EnginePhase::AnnouncingEnd => true,
                _ => false,
            },
            EngineEventView::VpnAnswered(_) => self.phase is AskingVpn,
            EngineEventView::ManifestFetched(_) => self.phase is FetchingManifest,
            EngineEventView::Downloaded(r) => self.phase is Downloading && (r matches Err(e)
                ==> e.valid()),
            EngineEventView::Verified(_) => self.phase is Verifying,
            EngineEventView::ChoicesPinned(_) => self.phase is Pinning,
            EngineEventView::Shielded => self.phase matches EnginePhase::Installing(step, _)
                && step is Shielding,
            EngineEventView::LoaderShown => self.phase matches EnginePhase::Installing(step, _)
                && step is ShowingLoader,
            EngineEventView::RenamedAside => self.phase matches EnginePhase::Installing(step, _)
                && step is RenamingAside,
            EngineEventView::Installed(_) => self.phase matches EnginePhase::Installing(step, _)
                && step is Running,
            EngineEventView::LoaderDismissed => self.phase is Dismissing,
            EngineEventView::Settled(_) => self.phase is Settling,
            EngineEventView::Persisted => self.phase is Persisting,
            EngineEventView::Logged => self.phase is Logging,
        }
    }

    /// The same, but in phase `phase`.
    pub open spec fn at(self, phase: EnginePhase) -> EngineView {
        EngineView { phase, ..self }
    }

    /// The end of a run: it is recorded and logged, as far as that is asked
    /// for, and then reported.
    pub open spec fn ended(self, status: StatusView, updater: Option<Seq<char>>) -> (
        EngineView,
        EngineActionView,
    ) {
        match self.input.attempt_state_path {
            Some(path) => (
                self.at(EnginePhase::Persisting(status, updater)),
                EngineActionView::Persist(path, self.input.channel, status),
            ),
            None => self.recorded(status, updater),
        }
    }

    /// The end of a run that has been recorded.
    pub open spec fn recorded(self, status: StatusView, updater: Option<Seq<char>>) -> (
        EngineView,
        EngineActionView,
    ) {
        match self.input.audit_log_path {
            Some(path) => (
                self.at(EnginePhase::Logging(status)),
                EngineActionView::Log(path, self.input.channel, status, updater),
            ),
            None => self.logged(status),
        }
    }

    /// The end of a run that has been recorded and logged.
    pub open spec fn logged(self, status: StatusView) -> (EngineView, EngineActionView) {
        (self.at(EnginePhase::AnnouncingEnd), EngineActionView::Report(status))
    }

    /// The end of a run that failed.
    pub open spec fn failed(self, stage: UpdateStage, error: Seq<char>) -> (
        EngineView,
        EngineActionView,
    ) {
        self.ended(StatusView::Failed { stage, error }, None)
    }

    /// Fetches the manifest.
    pub open spec fn fetch(self) -> (EngineView, EngineActionView) {
        (
            self.at(EnginePhase::FetchingManifest),
            EngineActionView::FetchManifest(self.input.channel),
        )
    }

    /// Where the run stands after a report was made, and what it has done
    /// next.
    pub open spec fn after_report(self) -> (EngineView, EngineActionView) {
        match self.phase {
            EnginePhase::AnnouncingCheck => if self.input.skip_vpn_check {
                self.fetch()
            } else {
                (
                    self.at(EnginePhase::AskingVpn),
                    EngineActionView::AskVpn(self.input.socket_path),
                )
            },
            EnginePhase::AnnouncingDownload(release) => (
                self.at(EnginePhase::Downloading(release)),
                EngineActionView::Download(release, self.input.download_dir),
            ),
            EnginePhase::Installing(_, plan) => (
                self.at(EnginePhase::Installing(InstallStep::RenamingAside, plan)),
                EngineActionView::RenameAside,
            ),
            _ => (self.at(EnginePhase::Over), EngineActionView::Stop),
        }
    }

    /// Where the run stands after `event`, and what it has done next.
    pub open spec fn after(self, event: EngineEventView) -> (EngineView, EngineActionView) {
        match event {
            EngineEventView::Begin => (
                self.at(EnginePhase::AnnouncingCheck),
                EngineActionView::Report(StatusView::Checking),
            ),
            EngineEventView::Reported => self.after_report(),
            EngineEventView::VpnAnswered(connected) => if connected {
                self.fetch()
            } else {
                self.failed(UpdateStage::Check, NOT_CONNECTED@)
            },
            EngineEventView::ManifestFetched(Err(e)) => self.failed(UpdateStage::Check, e.text()),
            EngineEventView::ManifestFetched(Ok(manifest)) => match release_to_install(
                self.input,
                manifest,
            ) {
                Ok(release) => (
                    self.at(EnginePhase::AnnouncingDownload(release)),
                    EngineActionView::Report(StatusView::Downloading),
                ),
                Err(e) => self.failed(UpdateStage::Check, e.text()),
            },
            EngineEventView::Downloaded(Err(e)) => self.failed(UpdateStage::Download, e.text()),
            EngineEventView::Downloaded(Ok(path)) => {
                let release = self.phase->Downloading_0;
                (
                    self.at(EnginePhase::Verifying(release, path)),
                    EngineActionView::Verify(path, release),
                )
            },
            EngineEventView::Verified(Some(e)) => self.failed(UpdateStage::Verify, e),
            EngineEventView::Verified(None) => (
                self.at(EnginePhase::Pinning(self.phase->Verifying_0, self.phase->Verifying_1)),
                EngineActionView::PinChoices(self.input.download_dir),
            ),
            EngineEventView::ChoicesPinned(Err(e)) => self.failed(UpdateStage::Install, e),
            EngineEventView::ChoicesPinned(Ok(choice_changes)) => {
                let plan = PlanView {
                    release: self.phase->Pinning_0,
                    artifact: self.phase->Pinning_1,
                    choice_changes,
                };
                (
                    self.at(EnginePhase::Installing(InstallStep::Shielding, plan)),
                    EngineActionView::Shield,
                )
            },
            EngineEventView::Shielded => (
                self.at(
                    EnginePhase::Installing(InstallStep::ShowingLoader, self.phase->Installing_1),
                ),
                EngineActionView::ShowLoader,
            ),
            EngineEventView::LoaderShown => (
                self.at(EnginePhase::Installing(InstallStep::Announcing, self.phase->Installing_1)),
                EngineActionView::Report(StatusView::Installing),
            ),
            EngineEventView::RenamedAside => {
                let plan = self.phase->Installing_1;
                (
                    self.at(EnginePhase::Installing(InstallStep::Running, plan)),
                    EngineActionView::Install(plan.artifact, plan.choice_changes),
                )
            },
            EngineEventView::Installed(error) => (
                self.at(EnginePhase::Dismissing(self.phase->Installing_1.release, error)),
                EngineActionView::DismissLoader,
            ),
            EngineEventView::LoaderDismissed => {
                let error = self.phase->Dismissing_1;
                (
                    self.at(EnginePhase::Settling(self.phase->Dismissing_0, error)),
                    EngineActionView::Settle(error is None),
                )
            },
            EngineEventView::Settled(updater) => match self.phase->Settling_1 {
                None => self.ended(
                    StatusView::Completed { new_version: self.phase->Settling_0.version },
                    updater,
                ),
                Some(e) => self.failed(UpdateStage::Install, e),
            },
            EngineEventView::Persisted => self.recorded(
                self.phase->Persisting_0,
                self.phase->Persisting_1,
            ),
            EngineEventView::Logged => self.logged(self.phase->Logging_0),
        }
    }
}

/// A text once more, if there is one.
fn same_option(text: &Option<String>) -> (r: Option<String>)
    ensures
        r.deep_view() == text.deep_view(),
{
    match text {
        Some(t) => Some(t.clone()),
        None => None,
    }
}

/// The end of a run that has been recorded and logged.
fn logged(status: UpdateStatus) -> (r: (Phase, EngineAction))
    ensures
        r.0@ == EnginePhase::AnnouncingEnd,
        r.1@ == EngineActionView::Report(status@),
{
    (Phase::AnnouncingEnd, EngineAction::Report(status))
}

/// The end of a run that has been recorded.
fn recorded(input: &EngineInput, status: UpdateStatus, updater: Option<String>) -> (r: (
    Phase,
    EngineAction,
))
    ensures
        (EngineView { input: input@, phase: r.0@ }, r.1@) == EngineView::fresh(input@).recorded(
            status@,
            updater.deep_view(),
        ),
{
    match &input.audit_log_path {
        Some(path) => (
            Phase::Logging(status.clone()),
            EngineAction::Log(path.clone(), input.channel, status, updater),
        ),
        None => logged(status),
    }
}

/// The end of a run.
fn ended(input: &EngineInput, status: UpdateStatus, updater: Option<String>) -> (r: (
    Phase,
    EngineAction,
))
    ensures
        (EngineView { input: input@, phase: r.0@ }, r.1@) == EngineView::fresh(input@).ended(
            status@,
            updater.deep_view(),
        ),
{
    match &input.attempt_state_path {
        Some(path) => (
            Phase::Persisting(status.clone(), updater),
            EngineAction::Persist(path.clone(), input.channel, status),
        ),
        None => recorded(input, status, updater),
    }
}

/// The end of a run that failed.
fn failed(input: &EngineInput, stage: UpdateStage, error: String) -> (r: (Phase, EngineAction))
    ensures
        (EngineView { input: input@, phase: r.0@ }, r.1@) == EngineView::fresh(input@).failed(
            stage,
            error@,
        ),
{
    ended(input, UpdateStatus::Failed { stage, error }, None)
}

/// Starts a run of the engine. It reports `Checking`, `Downloading` and
/// `Installing`, as far as it gets, and in the end `Completed` or `Failed`.
pub fn install_engine(input: EngineInput) -> (r: Engine)
    ensures
        r@ == EngineView::fresh(input@),
{
    Engine { input, phase: Phase::New }
}

impl Engine {
    /// Takes what came of the last action and says what to do next.
    pub fn step(self, event: EngineEvent) -> (r: (Engine, EngineAction))
        requires
            self@.awaits(event@),
        ensures
            (r.0@, r.1@) == self@.after(event@),
    {
        let Engine { input, phase } = self;
        let (phase, action) = match (phase, event) {
            (Phase::New, EngineEvent::Begin) => {
                (Phase::AnnouncingCheck, EngineAction::Report(UpdateStatus::Checking))
            },
            (Phase::AnnouncingCheck, EngineEvent::Reported) => {
                if input.skip_vpn_check {
                    (Phase::FetchingManifest, EngineAction::FetchManifest(input.channel))
                } else {
                    (Phase::AskingVpn, EngineAction::AskVpn(input.socket_path.clone()))
                }
            },
            (Phase::AskingVpn, EngineEvent::VpnAnswered(answer)) => {
                match ensure_connected(answer) {
                    Ok(_) => (Phase::FetchingManifest, EngineAction::FetchManifest(input.channel)),
                    Err(e) => failed(&input, UpdateStage::Check, e.to_string()),
                }
            },
            (Phase::FetchingManifest, EngineEvent::ManifestFetched(Err(e))) => {
                failed(&input, UpdateStage::Check, e.to_string())
            },
            (Phase::FetchingManifest, EngineEvent::ManifestFetched(Ok(manifest))) => {
                match find_release(&input, &manifest) {
                    Ok(release) => (
                        Phase::AnnouncingDownload(release),
                        EngineAction::Report(UpdateStatus::Downloading),
                    ),
                    Err(e) => failed(&input, UpdateStage::Check, e.to_string()),
                }
            },
            (Phase::AnnouncingDownload(release), EngineEvent::Reported) => (
                Phase::Downloading(release.clone()),
                EngineAction::Download(release, input.download_dir.clone()),
            ),
            (Phase::Downloading(_), EngineEvent::Downloaded(Err(e))) => {
                failed(&input, UpdateStage::Download, e.to_string())
            },
            (Phase::Downloading(release), EngineEvent::Downloaded(Ok(path))) => (
                Phase::Verifying(release.clone(), path.clone()),
                EngineAction::Verify(path, release),
            ),
            (Phase::Verifying(_, _), EngineEvent::Verified(Err(e))) => {
                failed(&input, UpdateStage::Verify, e)
            },
            (Phase::Verifying(release, path), EngineEvent::Verified(Ok(_))) => (
                Phase::Pinning(release, path),
                EngineAction::PinChoices(input.download_dir.clone()),
            ),
            (Phase::Pinning(_, _), EngineEvent::ChoicesPinned(Err(e))) => {
                failed(&input, UpdateStage::Install, e)
            },
            (Phase::Pinning(release, artifact), EngineEvent::ChoicesPinned(Ok(choice_changes))) => (
                Phase::Installing(
                    InstallStep::Shielding,
                    InstallPlan { release, artifact, choice_changes },
                ),
                EngineAction::Shield,
            ),
            (Phase::Installing(InstallStep::Shielding, plan), EngineEvent::Shielded) => {
                (Phase::Installing(InstallStep::ShowingLoader, plan), EngineAction::ShowLoader)
            },
            (Phase::Installing(InstallStep::ShowingLoader, plan), EngineEvent::LoaderShown) => (
                Phase::Installing(InstallStep::Announcing, plan),
                EngineAction::Report(UpdateStatus::Installing),
            ),
            (Phase::Installing(InstallStep::Announcing, plan), EngineEvent::Reported) => {
                (Phase::Installing(InstallStep::RenamingAside, plan), EngineAction::RenameAside)
            },
            (Phase::Installing(InstallStep::RenamingAside, plan), EngineEvent::RenamedAside) => {
                let artifact = plan.artifact.clone();
                let choice_changes = same_option(&plan.choice_changes);
                (
                    Phase::Installing(InstallStep::Running, plan),
                    EngineAction::Install(artifact, choice_changes),
                )
            },
            (Phase::Installing(InstallStep::Running, plan), EngineEvent::Installed(r)) => {
                (Phase::Dismissing(plan.release, r), EngineAction::DismissLoader)
            },
            (Phase::Dismissing(release, r), EngineEvent::LoaderDismissed) => {
                let success = r.is_ok();
                (Phase::Settling(release, r), EngineAction::Settle(success))
            },
            (Phase::Settling(release, r), EngineEvent::Settled(updater)) => match r {
                Ok(_) => {
                    let new_version = release.version;
                    ended(&input, UpdateStatus::Completed { new_version }, updater)
                },
                Err(e) => failed(&input, UpdateStage::Install, e),
            },
            (Phase::Persisting(status, updater), EngineEvent::Persisted) => {
                recorded(&input, status, updater)
            },
            (Phase::Logging(status), EngineEvent::Logged) => logged(status),
            (Phase::AnnouncingEnd, EngineEvent::Reported) => (Phase::Over, EngineAction::Stop),
            _ => unreached(),
        };
        (Engine { input, phase }, action)
    }
}

/// What an engine is to do is all of what it was given.
pub proof fn law_input_says_what_to_do(input: EngineInput)
    ensures
        input@.channel == input.channel,
        input@.allow_downgrade == input.allow_downgrade,
        input@.current_app_version == input.current_app_version@,
        input@.download_dir == input.download_dir@,
        input@.skip_vpn_check == input.skip_vpn_check,
        input@.socket_path == input.socket_path@,
        input@.attempt_state_path is Some <==> input.attempt_state_path is Some,
        input.attempt_state_path matches Some(path) ==> input@.attempt_state_path == Some(path@),
        input@.audit_log_path is Some <==> input.audit_log_path is Some,
        input.audit_log_path matches Some(path) ==> input@.audit_log_path == Some(path@),
{
}

/// What came of an action is what the engine takes it for: the VPN counts as
/// connected only where it was asked and said so, and a result as a failure just
/// where it is one, with its error.
pub proof fn law_events_say_what_came(
    answer: Result<bool, String>,
    fetched: Result<Manifest, Error>,
    downloaded: Result<String, DownloadError>,
    outcome: Result<(), String>,
    pinned: Result<Option<String>, String>,
    updater: Option<String>,
)
    ensures
        EngineEvent::VpnAnswered(answer)@ == EngineEventView::VpnAnswered(
            answer is Ok && answer->Ok_0,
        ),
        EngineEvent::ManifestFetched(fetched)@ == EngineEventView::ManifestFetched(
            match fetched {
                Ok(manifest) => Ok(manifest@),
                Err(e) => Err(e@),
            },
        ),
        EngineEvent::Downloaded(downloaded)@ == EngineEventView::Downloaded(
            match downloaded {
                Ok(path) => Ok(path@),
                Err(e) => Err(e@),
            },
        ),
        EngineEvent::Verified(outcome)@ == EngineEventView::Verified(
            match outcome {
                Ok(_) => None,
                Err(e) => Some(e@),
            },
        ),
        EngineEvent::Installed(outcome)@ == EngineEventView::Installed(
            match outcome {
                Ok(_) => None,
                Err(e) => Some(e@),
            },
        ),
        EngineEvent::ChoicesPinned(pinned)@ == EngineEventView::ChoicesPinned(
            match pinned {
                Ok(path) => Ok(path.deep_view()),
                Err(e) => Err(e@),
            },
        ),
        EngineEvent::Settled(updater)@ == EngineEventView::Settled(updater.deep_view()),
        EngineEvent::Begin@ is Begin && EngineEvent::Reported@ is Reported,
        EngineEvent::Shielded@ is Shielded && EngineEvent::LoaderShown@ is LoaderShown,
        EngineEvent::RenamedAside@ is RenamedAside,
        EngineEvent::LoaderDismissed@ is LoaderDismissed,
        EngineEvent::Persisted@ is Persisted && EngineEvent::Logged@ is Logged,
{
}

/// What is to be done is what the action says.
pub proof fn law_actions_say_what_to_do(action: EngineAction)
    ensures
        action@ == match action {
            EngineAction::Report(status) => EngineActionView::Report(status@),
            EngineAction::AskVpn(socket) => EngineActionView::AskVpn(socket@),
            EngineAction::FetchManifest(channel) => EngineActionView::FetchManifest(channel),
            EngineAction::Download(release, dir) => EngineActionView::Download(release@, dir@),
            EngineAction::Verify(path, release) => EngineActionView::Verify(path@, release@),
            EngineAction::PinChoices(dir) => EngineActionView::PinChoices(dir@),
            EngineAction::Shield => EngineActionView::Shield,
            EngineAction::ShowLoader => EngineActionView::ShowLoader,
            EngineAction::RenameAside => EngineActionView::RenameAside,
            EngineAction::Install(path, changes) => EngineActionView::Install(
                path@,
                changes.deep_view(),
            ),
            EngineAction::DismissLoader => EngineActionView::DismissLoader,
            EngineAction::Settle(success) => EngineActionView::Settle(success),
            EngineAction::Persist(path, channel, status) => EngineActionView::Persist(
                path@,
                channel,
                status@,
            ),
            EngineAction::Log(path, channel, status, updater) => EngineActionView::Log(
                path@,
                channel,
                status@,
                updater.deep_view(),
            ),
            EngineAction::Stop => EngineActionView::Stop,
        },
{
}

} // verus!
