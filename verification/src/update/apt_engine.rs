//! The engine for systems that install packages with apt: what is done in
//! which order, what ends a run, and what is reported of it.
//!
//! [`AptEngine`] decides; its runner does what the [`AptAction`]s say and hands
//! back an [`AptEvent`] for each.

use vstd::pervasive::unreached;
use vstd::prelude::*;
use vstd::string::StringExecFns;

use crate::manifest::Channel;
use crate::text::{trim, trimmed, CharClass};
use crate::update::apt::{ensure_channel, follows, switched, PACKAGE_NAME, SOURCES_PATH};
use crate::update::download::error_of;
use crate::update::process::{ran_view, CommandOutput, OutputView};
use crate::update::status::{StatusView, UpdateStage, UpdateStatus};
use crate::vpn_status::{ensure_connected, NOT_CONNECTED};

verus! {

/// The arguments with which apt fetches its package lists.
pub open spec fn update_arguments() -> Seq<Seq<char>> {
    seq!["update"@]
}

/// The arguments with which apt upgrades the client's package.
pub open spec fn upgrade_arguments() -> Seq<Seq<char>> {
    seq!["install"@, "--only-upgrade"@, "-y"@, PACKAGE_NAME@]
}

/// The arguments with which the package's version is asked for.
pub open spec fn version_arguments() -> Seq<Seq<char>> {
    seq!["-W"@, "-f=${Version}"@, PACKAGE_NAME@]
}

/// The arguments with which apt fetches its package lists.
fn apt_update() -> (r: Vec<String>)
    ensures
        r.deep_view() == update_arguments(),
{
    let mut args: Vec<String> = Vec::new();
    args.push("update".to_owned());
    assert(args.deep_view() =~= update_arguments());
    args
}

/// The arguments with which apt upgrades the client's package.
fn apt_upgrade() -> (r: Vec<String>)
    ensures
        r.deep_view() == upgrade_arguments(),
{
    let mut args: Vec<String> = Vec::new();
    args.push("install".to_owned());
    args.push("--only-upgrade".to_owned());
    args.push("-y".to_owned());
    args.push(PACKAGE_NAME.to_owned());
    assert(args.deep_view() =~= upgrade_arguments());
    args
}

/// The arguments with which the package's version is asked for.
fn version_query() -> (r: Vec<String>)
    ensures
        r.deep_view() == version_arguments(),
{
    let mut args: Vec<String> = Vec::new();
    args.push("-W".to_owned());
    args.push("-f=${Version}".to_owned());
    args.push(PACKAGE_NAME.to_owned());
    assert(args.deep_view() =~= version_arguments());
    args
}

/// What went wrong with a run of apt, if anything did; `command` is how the
/// command is worded.
pub open spec fn apt_error(command: Seq<char>, ran: Result<OutputView, Seq<char>>) -> Option<
    Seq<char>,
> {
    match ran {
        Err(e) => Some("spawn "@ + command + ": "@ + e),
        Ok(output) => if output.success {
            None
        } else {
            Some(command + " exited with "@ + output.status + ": "@ + output.stderr)
        },
    }
}

/// Tells what went wrong with a run of apt, if anything did.
pub fn run_apt(command: &str, ran: Result<CommandOutput, String>) -> (r: Result<(), String>)
    ensures
        error_of(r) == apt_error(command@, ran_view(ran)),
{
    match ran {
        Err(e) => Err("spawn ".to_owned().concat(command).concat(": ").concat(e.as_str())),
        Ok(output) => {
            if output.success {
                Ok(())
            } else {
                Err(
                    command.to_owned().concat(" exited with ").concat(
                        output.status.as_str(),
                    ).concat(": ").concat(output.stderr.as_str()),
                )
            }
        },
    }
}

/// The version of the installed package, or why it could not be told.
pub open spec fn package_version(ran: Result<OutputView, Seq<char>>) -> Result<
    Seq<char>,
    Seq<char>,
> {
    match ran {
        Err(e) => Err("spawn dpkg-query: "@ + e),
        Ok(output) => {
            let version = trimmed(output.stdout, CharClass::WhiteSpace);
            if !output.success {
                Err("dpkg-query failed: "@ + output.stderr)
            } else if version.len() == 0 {
                Err("dpkg-query returned empty version"@)
            } else {
                Ok(version)
            }
        },
    }
}

/// Reads the version of the installed package.
pub fn installed_version(ran: Result<CommandOutput, String>) -> (r: Result<String, String>)
    ensures
        match r {
            Ok(version) => package_version(ran_view(ran)) == Ok::<Seq<char>, Seq<char>>(version@),
            Err(e) => package_version(ran_view(ran)) == Err::<Seq<char>, Seq<char>>(e@),
        },
{
    match ran {
        Err(e) => Err("spawn dpkg-query: ".to_owned().concat(e.as_str())),
        Ok(output) => {
            if !output.success {
                return Err("dpkg-query failed: ".to_owned().concat(output.stderr.as_str()));
            }
            let version = trim(output.stdout.as_str(), CharClass::WhiteSpace);
            if version.is_empty() {
                return Err("dpkg-query returned empty version".to_owned());
            }
            Ok(version.to_owned())
        },
    }
}

/// What a run waits for.
#[derive(Clone, Copy, Debug, PartialEq, Eq, Structural)]
pub enum AptPhase {
    /// To be begun.
    New,
    /// The report that it is checking.
    AnnouncingCheck,
    /// Whether the VPN is connected.
    AskingVpn,
    /// What the source file holds.
    ReadingSource,
    /// The source file to be written.
    WritingSource,
    /// The report that it is downloading.
    AnnouncingDownload,
    /// The package lists to be fetched.
    Updating,
    /// The report that it is installing.
    AnnouncingInstall,
    /// The package to be upgraded.
    Upgrading,
    /// The version of the package.
    AskingVersion,
    /// The report of how the run ended.
    AnnouncingEnd,
    /// Nothing: the run is over.
    Over,
}

/// A run of the engine.
#[derive(Debug)]
pub struct AptEngine {
    channel: Channel,
    socket_path: String,
    skip_vpn_check: bool,
    phase: AptPhase,
}

/// Where a run of the engine stands.
pub struct AptView {
    /// The channel to install from.
    pub channel: Channel,
    /// The socket over which the VPN is asked.
    pub socket_path: Seq<char>,
    /// Whether to go on without a VPN connection.
    pub skip_vpn_check: bool,
    pub phase: AptPhase,
}

impl View for AptEngine {
    type V = AptView;

    closed spec fn view(&self) -> AptView {
        AptView {
            channel: self.channel,
            socket_path: self.socket_path@,
            skip_vpn_check: self.skip_vpn_check,
            phase: self.phase,
        }
    }
}

/// What came of an action.
#[derive(Debug)]
pub enum AptEvent {
    Begin,
    /// The status was reported, or nobody was listening.
    Reported,
    /// Whether the VPN is connected, if it could be asked.
    VpnAnswered(Result<bool, String>),
    SourceRead(Result<String, String>),
    SourceWritten(Result<(), String>),
    /// Apt was run; the text is how its command is worded.
    AptRan(String, Result<CommandOutput, String>),
    VersionAsked(Result<CommandOutput, String>),
}

/// What an [`AptEvent`] says.
pub enum AptEventView {
    Begin,
    Reported,
    VpnAnswered(bool),
    SourceRead(Result<Seq<char>, Seq<char>>),
    SourceWritten(Option<Seq<char>>),
    AptRan(Seq<char>, Result<OutputView, Seq<char>>),
    VersionAsked(Result<OutputView, Seq<char>>),
}

impl View for AptEvent {
    type V = AptEventView;

    open spec fn view(&self) -> AptEventView {
        match self {
            AptEvent::Begin => AptEventView::Begin,
            AptEvent::Reported => AptEventView::Reported,
            AptEvent::VpnAnswered(answer) => AptEventView::VpnAnswered(
                *answer == Ok::<bool, String>(true),
            ),
            AptEvent::SourceRead(r) => AptEventView::SourceRead(
                match r {
                    Ok(text) => Ok(text@),
                    Err(e) => Err(e@),
                },
            ),
            AptEvent::SourceWritten(r) => AptEventView::SourceWritten(error_of(*r)),
            AptEvent::AptRan(command, ran) => AptEventView::AptRan(command@, ran_view(*ran)),
            AptEvent::VersionAsked(ran) => AptEventView::VersionAsked(ran_view(*ran)),
        }
    }
}

/// What has to be done next.
#[derive(Debug)]
pub enum AptAction {
    /// Report the status.
    Report(UpdateStatus),
    /// Ask over the socket whether the VPN is connected.
    AskVpn(String),
    /// Read the source file.
    ReadSource,
    /// Write the source file.
    WriteSource(String),
    /// Run `apt-get`, not interactive, with the arguments.
    RunApt(Vec<String>),
    /// Run `dpkg-query` with the arguments.
    AskVersion(Vec<String>),
    /// Stop.
    Stop,
}

/// What an [`AptAction`] says.
pub enum AptActionView {
    Report(StatusView),
    AskVpn(Seq<char>),
    ReadSource,
    WriteSource(Seq<char>),
    RunApt(Seq<Seq<char>>),
    AskVersion(Seq<Seq<char>>),
    Stop,
}

impl View for AptAction {
    type V = AptActionView;

    open spec fn view(&self) -> AptActionView {
        match self {
            AptAction::Report(status) => AptActionView::Report(status@),
            AptAction::AskVpn(socket) => AptActionView::AskVpn(socket@),
            AptAction::ReadSource => AptActionView::ReadSource,
            AptAction::WriteSource(text) => AptActionView::WriteSource(text@),
            AptAction::RunApt(args) => AptActionView::RunApt(args.deep_view()),
            AptAction::AskVersion(args) => AptActionView::AskVersion(args.deep_view()),
            AptAction::Stop => AptActionView::Stop,
        }
    }
}

impl AptView {
    /// Whether an event is one that the run waits for.
    pub open spec fn awaits(self, event: AptEventView) -> bool {
        match event {
            AptEventView::Begin => self.phase is New,
            AptEventView::Reported => match self.phase {
                AptPhase::AnnouncingCheck => true,
                AptPhase::AnnouncingDownload => true,
                AptPhase::AnnouncingInstall => true,
                AptPhase::AnnouncingEnd => true,
                _ => false,
            },
            AptEventView::VpnAnswered(_) => self.phase is AskingVpn,
            AptEventView::SourceRead(_) => self.phase is ReadingSource,
            AptEventView::SourceWritten(_) => self.phase is WritingSource,
            AptEventView::AptRan(_, _) => self.phase is Updating || self.phase is Upgrading,
            AptEventView::VersionAsked(_) => self.phase is AskingVersion,
        }
    }

    /// The same, but in phase `phase`.
    pub open spec fn at(self, phase: AptPhase) -> AptView {
        AptView { phase, ..self }
    }

    /// The end of a run.
    pub open spec fn ended(self, status: StatusView) -> (AptView, AptActionView) {
        (self.at(AptPhase::AnnouncingEnd), AptActionView::Report(status))
    }

    /// The end of a run that failed.
    pub open spec fn failed(self, stage: UpdateStage, error: Seq<char>) -> (
        AptView,
        AptActionView,
    ) {
        self.ended(StatusView::Failed { stage, error })
    }

    /// The source file follows the channel.
    pub open spec fn prepared(self) -> (AptView, AptActionView) {
        (self.at(AptPhase::AnnouncingDownload), AptActionView::Report(StatusView::Downloading))
    }

    /// Where the run stands after `event`, and what it has done next.
    pub open spec fn after(self, event: AptEventView) -> (AptView, AptActionView) {
        match event {
            AptEventView::Begin => (
                self.at(AptPhase::AnnouncingCheck),
                AptActionView::Report(StatusView::Checking),
            ),
            AptEventView::Reported => match self.phase {
                AptPhase::AnnouncingCheck => if self.skip_vpn_check {
                    (self.at(AptPhase::ReadingSource), AptActionView::ReadSource)
                } else {
                    (self.at(AptPhase::AskingVpn), AptActionView::AskVpn(self.socket_path))
                },
                AptPhase::AnnouncingDownload => (
                    self.at(AptPhase::Updating),
                    AptActionView::RunApt(update_arguments()),
                ),
                AptPhase::AnnouncingInstall => (
                    self.at(AptPhase::Upgrading),
                    AptActionView::RunApt(upgrade_arguments()),
                ),
                _ => (self.at(AptPhase::Over), AptActionView::Stop),
            },
            AptEventView::VpnAnswered(connected) => if connected {
                (self.at(AptPhase::ReadingSource), AptActionView::ReadSource)
            } else {
                self.failed(UpdateStage::Check, NOT_CONNECTED@)
            },
            AptEventView::SourceRead(Err(e)) => self.failed(
                UpdateStage::Check,
                "apt sources file /etc/apt/sources.list.d/gnosisvpn.sources not found ("@ + e
                    + "); re-run the gnosisvpn install script"@,
            ),
            AptEventView::SourceRead(Ok(content)) => if follows(content, self.channel) {
                self.prepared()
            } else {
                (
                    self.at(AptPhase::WritingSource),
                    AptActionView::WriteSource(switched(content, self.channel)),
                )
            },
            AptEventView::SourceWritten(None) => self.prepared(),
            AptEventView::SourceWritten(Some(e)) => self.failed(
                UpdateStage::Check,
                "write "@ + SOURCES_PATH@ + ": "@ + e,
            ),
            AptEventView::AptRan(command, ran) => match apt_error(command, ran) {
                None => if self.phase is Updating {
                    (
                        self.at(AptPhase::AnnouncingInstall),
                        AptActionView::Report(StatusView::Installing),
                    )
                } else {
                    (
                        self.at(AptPhase::AskingVersion),
                        AptActionView::AskVersion(version_arguments()),
                    )
                },
                Some(e) => self.failed(
                    if self.phase is Updating {
                        UpdateStage::Download
                    } else {
                        UpdateStage::Install
                    },
                    e,
                ),
            },
            AptEventView::VersionAsked(ran) => match package_version(ran) {
                Ok(new_version) => self.ended(StatusView::Completed { new_version }),
                Err(e) => self.failed(UpdateStage::Install, e),
            },
        }
    }
}

/// Starts a run of the engine for `channel`. Unless `skip_vpn_check`, the VPN
/// has to be connected.
pub fn install_engine(channel: Channel, socket_path: &str, skip_vpn_check: bool) -> (r: AptEngine)
    ensures
        r@ == (AptView {
            channel,
            socket_path: socket_path@,
            skip_vpn_check,
            phase: AptPhase::New,
        }),
{
    AptEngine {
        channel,
        socket_path: socket_path.to_owned(),
        skip_vpn_check,
        phase: AptPhase::New,
    }
}

impl AptEngine {
    /// The end of a run that failed.
    fn fail(&mut self, stage: UpdateStage, error: String) -> (r: AptAction)
        ensures
            (final(self)@, r@) == old(self)@.failed(stage, error@),
    {
        self.phase = AptPhase::AnnouncingEnd;
        AptAction::Report(UpdateStatus::Failed { stage, error })
    }

    /// The source file follows the channel.
    fn prepared(&mut self) -> (r: AptAction)
        ensures
            (final(self)@, r@) == old(self)@.prepared(),
    {
        self.phase = AptPhase::AnnouncingDownload;
        AptAction::Report(UpdateStatus::Downloading)
    }

    /// Takes what came of the last action and says what to do next.
    pub fn step(&mut self, event: AptEvent) -> (r: AptAction)
        requires
            old(self)@.awaits(event@),
        ensures
            (final(self)@, r@) == old(self)@.after(event@),
    {
        match (self.phase, event) {
            (AptPhase::New, AptEvent::Begin) => {
                self.phase = AptPhase::AnnouncingCheck;
                AptAction::Report(UpdateStatus::Checking)
            },
            (AptPhase::AnnouncingCheck, AptEvent::Reported) => {
                if self.skip_vpn_check {
                    self.phase = AptPhase::ReadingSource;
                    AptAction::ReadSource
                } else {
                    self.phase = AptPhase::AskingVpn;
                    AptAction::AskVpn(self.socket_path.clone())
                }
            },
            (AptPhase::AskingVpn, AptEvent::VpnAnswered(answer)) => {
                match ensure_connected(answer) {
                    Ok(_) => {
                        self.phase = AptPhase::ReadingSource;
                        AptAction::ReadSource
                    },
                    Err(e) => self.fail(UpdateStage::Check, e.to_string()),
                }
            },
            (AptPhase::ReadingSource, AptEvent::SourceRead(content)) => {
                match ensure_channel(self.channel, content) {
                    Ok(None) => self.prepared(),
                    Ok(Some(next)) => {
                        self.phase = AptPhase::WritingSource;
                        AptAction::WriteSource(next)
                    },
                    Err(e) => self.fail(UpdateStage::Check, e),
                }
            },
            (AptPhase::WritingSource, AptEvent::SourceWritten(Ok(_))) => self.prepared(),
            (AptPhase::WritingSource, AptEvent::SourceWritten(Err(e))) => {
                let error = "write ".to_owned().concat(SOURCES_PATH).concat(": ").concat(
                    e.as_str(),
                );
                self.fail(UpdateStage::Check, error)
            },
            (AptPhase::AnnouncingDownload, AptEvent::Reported) => {
                self.phase = AptPhase::Updating;
                AptAction::RunApt(apt_update())
            },
            (AptPhase::Updating, AptEvent::AptRan(command, ran)) => {
                match run_apt(command.as_str(), ran) {
                    Ok(_) => {
                        self.phase = AptPhase::AnnouncingInstall;
                        AptAction::Report(UpdateStatus::Installing)
                    },
                    Err(e) => self.fail(UpdateStage::Download, e),
                }
            },
            (AptPhase::AnnouncingInstall, AptEvent::Reported) => {
                self.phase = AptPhase::Upgrading;
                AptAction::RunApt(apt_upgrade())
            },
            (AptPhase::Upgrading, AptEvent::AptRan(command, ran)) => {
                match run_apt(command.as_str(), ran) {
                    Ok(_) => {
                        self.phase = AptPhase::AskingVersion;
                        AptAction::AskVersion(version_query())
                    },
                    Err(e) => self.fail(UpdateStage::Install, e),
                }
            },
            (AptPhase::AskingVersion, AptEvent::VersionAsked(ran)) => {
                match installed_version(ran) {
                    Ok(new_version) => {
                        self.phase = AptPhase::AnnouncingEnd;
                        AptAction::Report(UpdateStatus::Completed { new_version })
                    },
                    Err(e) => self.fail(UpdateStage::Install, e),
                }
            },
            (AptPhase::AnnouncingEnd, AptEvent::Reported) => {
                self.phase = AptPhase::Over;
                AptAction::Stop
            },
            _ => unreached(),
        }
    }
}

/// The stage that a failure is told to be of is the one that the run was in:
/// what comes before the download is the check, and what comes after it the
/// installation.
pub proof fn law_failure_names_its_stage(run: AptView, event: AptEventView)
    requires
        run.awaits(event),
    ensures
        run.after(event).1 matches AptActionView::Report(StatusView::Failed { stage, .. })
            ==> stage == match run.phase {
            AptPhase::AskingVpn | AptPhase::ReadingSource | AptPhase::WritingSource => {
                UpdateStage::Check
            },
            AptPhase::Updating => UpdateStage::Download,
            _ => UpdateStage::Install,
        },
{
}

/// What came of an action is what the engine takes it for: the VPN counts as
/// connected only where it was asked and said so.
pub proof fn law_events_say_what_came(
    answer: Result<bool, String>,
    content: Result<String, String>,
    outcome: Result<(), String>,
    command: String,
    ran: Result<CommandOutput, String>,
)
    ensures
        AptEvent::Begin@ is Begin && AptEvent::Reported@ is Reported,
        AptEvent::VpnAnswered(answer)@ == AptEventView::VpnAnswered(answer is Ok && answer->Ok_0),
        AptEvent::SourceRead(content)@ == AptEventView::SourceRead(
            match content {
                Ok(text) => Ok(text@),
                Err(e) => Err(e@),
            },
        ),
        AptEvent::SourceWritten(outcome)@ == AptEventView::SourceWritten(
            match outcome {
                Ok(_) => None,
                Err(e) => Some(e@),
            },
        ),
        AptEvent::AptRan(command, ran)@ == AptEventView::AptRan(
            command@,
            match ran {
                Ok(output) => Ok(output@),
                Err(e) => Err(e@),
            },
        ),
        AptEvent::VersionAsked(ran)@ == AptEventView::VersionAsked(
            match ran {
                Ok(output) => Ok(output@),
                Err(e) => Err(e@),
            },
        ),
{
}

/// What is to be done is what the action says.
pub proof fn law_actions_say_what_to_do(action: AptAction)
    ensures
        action@ == match action {
            AptAction::Report(status) => AptActionView::Report(status@),
            AptAction::AskVpn(socket) => AptActionView::AskVpn(socket@),
            AptAction::ReadSource => AptActionView::ReadSource,
            AptAction::WriteSource(text) => AptActionView::WriteSource(text@),
            AptAction::RunApt(args) => AptActionView::RunApt(args.deep_view()),
            AptAction::AskVersion(args) => AptActionView::AskVersion(args.deep_view()),
            AptAction::Stop => AptActionView::Stop,
        },
{
}

/// A failed run of apt is told with its command, and the version of the package
/// is what was told, without the space around, and never empty.
pub proof fn law_failures_are_told(command: Seq<char>, output: OutputView, e: Seq<char>)
    ensures
        apt_error(command, Err(e)) == Some("spawn "@ + command + ": "@ + e),
        apt_error(command, Ok(output)) is None <==> output.success,
        !output.success ==> apt_error(command, Ok(output)) == Some(
            command + " exited with "@ + output.status + ": "@ + output.stderr,
        ),
        package_version(Ok(output)) matches Ok(version) ==> output.success && version.len() > 0
            && version == trimmed(output.stdout, CharClass::WhiteSpace),
        output.success && trimmed(output.stdout, CharClass::WhiteSpace).len() > 0
            ==> package_version(Ok(output)) is Ok,
        update_arguments() == seq!["update"@],
        upgrade_arguments() == seq!["install"@, "--only-upgrade"@, "-y"@, "gnosisvpn"@],
        version_arguments() == seq!["-W"@, "-f=${Version}"@, "gnosisvpn"@],
{
}

} // verus!
