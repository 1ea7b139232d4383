//! The loader: a small window that is up while the installer runs, since the
//! client itself is down for that time.
//!
//! The loader is an application of its own, unpacked to a temporary directory
//! and opened in the session of the user at the console. It watches a status
//! file, which says `updating` and the updater's process id, and closes when
//! that says `done`. Nothing of this may keep an update from being made: where
//! something fails, the loader is left out.
//!
//! The installer's scripts kill every process that has `Gnosis VPN`, with the
//! space, in its command line. So neither the loader's name nor a path that it
//! is run from may hold that text.
//!
//! [`LoaderShow`] and [`LoaderDismiss`] decide; their runner does what their
//! actions say and hands back an event for each.

use vstd::pervasive::unreached;
use vstd::prelude::*;
use vstd::string::StringExecFns;

use crate::text::{
    decimal, decimal_text, is_digit, law_decimal_reads_back, same_text, trim, trimmed,
    CharClass,
};
use crate::update::download::{elapsed, error_of};
use crate::update::paths::{join_path, path_in};
use crate::update::process::{ran_view, CommandOutput, OutputView};

verus! {

/// The file that the loader watches.
pub const STATUS_FILE: &'static str = "/Library/Logs/GnosisVPN/installer/update_status";

/// The name of the loader's bundle.
pub const APP_BUNDLE_NAME: &'static str = "GnosisVPNUpdateLoader.app";

/// What the command lines of the loader's processes hold.
pub const PKILL_PATTERN: &'static str = "GnosisVPNUpdateLoader";

/// How long the loader is given to close by itself, in nanoseconds.
pub const DISMISS_GRACE: u64 = 1_500_000_000;

/// How long to wait before looking again whether it has, in nanoseconds.
pub const DISMISS_POLL: u64 = 200_000_000;

/// The directory that the loader is unpacked to.
pub open spec fn loader_dir(pid: u32) -> Seq<char> {
    "/tmp/gnosisvpn-update-loader-"@ + decimal(pid as nat)
}

/// The path of the unpacked loader.
pub open spec fn app_path(pid: u32) -> Seq<char> {
    path_in(loader_dir(pid), APP_BUNDLE_NAME@)
}

/// The command that opens the loader, as a shell takes it.
pub open spec fn open_command(pid: u32) -> Seq<char> {
    "/usr/bin/open '"@ + app_path(pid) + "'"@
}

proof fn lemma_decimal_is_digits(n: nat)
    ensures
        forall|i: int| 0 <= i < decimal(n).len() ==> is_digit(#[trigger] decimal(n)[i]),
{
    law_decimal_reads_back(n);
}

/// Whether a text has neither a space nor a quote.
pub open spec fn is_plain_word(s: Seq<char>) -> bool {
    forall|i: int| 0 <= i < s.len() ==> #[trigger] s[i] != ' ' && s[i] != '\''
}

/// The path that the loader is run from has no space, so that the installer's
/// scripts leave it alone, and no quote, so that it can be quoted for a shell.
pub proof fn law_loader_path_is_a_plain_word(pid: u32)
    ensures
        is_plain_word(loader_dir(pid)),
        is_plain_word(app_path(pid)),
        is_plain_word(STATUS_FILE@),
        is_plain_word(PKILL_PATTERN@),
{
    reveal_strlit("/tmp/gnosisvpn-update-loader-");
    reveal_strlit("GnosisVPNUpdateLoader.app");
    reveal_strlit("GnosisVPNUpdateLoader");
    reveal_strlit("/Library/Logs/GnosisVPN/installer/update_status");
    lemma_decimal_is_digits(pid as nat);
    let dir = loader_dir(pid);
    let prefix = "/tmp/gnosisvpn-update-loader-"@;
    assert forall|i: int| 0 <= i < dir.len() implies #[trigger] dir[i] != ' ' && dir[i] != '\'' by {
        if i >= prefix.len() {
            assert(dir[i] == decimal(pid as nat)[i - prefix.len()]);
        }
    }
}

/// The command that opens the loader does not hold the text by which the
/// installer's scripts pick what they kill.
pub proof fn law_installer_spares_the_loader(pid: u32, at: int)
    requires
        0 <= at <= open_command(pid).len() - "Gnosis VPN"@.len(),
    ensures
        open_command(pid).subrange(at, at + "Gnosis VPN"@.len()) != "Gnosis VPN"@,
{
    law_loader_path_is_a_plain_word(pid);
    reveal_strlit("Gnosis VPN");
    reveal_strlit("/usr/bin/open '");
    reveal_strlit("'");
    let command = open_command(pid);
    let head = "/usr/bin/open '"@;
    let part = command.subrange(at, at + 10);
    if part == "Gnosis VPN"@ {
        assert(part[6] == ' ' && part[0] == 'G');
        assert(command[at + 6] == part[6] && command[at] == part[0]);
        if head.len() <= at + 6 < head.len() + app_path(pid).len() {
            assert(command[at + 6] == app_path(pid)[at + 6 - head.len()]);
        }
    }
}

/// The user at the console: nobody where that cannot be told, or where it is
/// root, as it is while nobody has logged in.
pub open spec fn user_at_console(ran: Result<OutputView, Seq<char>>) -> Option<Seq<char>> {
    match ran {
        Ok(output) => {
            let user = trimmed(output.stdout, CharClass::WhiteSpace);
            if output.success && user.len() > 0 && user != "root"@ {
                Some(user)
            } else {
                None
            }
        },
        Err(_) => None,
    }
}

/// Reads who the console belongs to.
pub fn console_user(ran: Result<CommandOutput, String>) -> (r: Option<String>)
    ensures
        r.deep_view() == user_at_console(ran_view(ran)),
{
    match ran {
        Ok(output) => {
            let user = trim(output.stdout.as_str(), CharClass::WhiteSpace);
            if output.success && !user.is_empty() && !same_text(user, "root") {
                Some(user.to_owned())
            } else {
                None
            }
        },
        Err(_) => None,
    }
}

/// What [`LoaderShow`] leaves for [`LoaderDismiss`].
#[derive(Debug)]
pub struct Loader {
    temp_dir: Option<String>,
    engaged: bool,
}

/// What a [`Loader`] says.
pub struct LoaderView {
    /// The directory that the loader was unpacked to, if it was.
    pub temp_dir: Option<Seq<char>>,
    /// Whether the status file was written, so that it has to be cleaned up.
    pub engaged: bool,
}

impl View for Loader {
    type V = LoaderView;

    closed spec fn view(&self) -> LoaderView {
        LoaderView { temp_dir: self.temp_dir.deep_view(), engaged: self.engaged }
    }
}

impl LoaderView {
    /// There is nothing to clean up.
    pub open spec fn inactive() -> LoaderView {
        LoaderView { temp_dir: None, engaged: false }
    }

    /// The status file was written.
    pub open spec fn engaged_in(temp_dir: Option<Seq<char>>) -> LoaderView {
        LoaderView { temp_dir, engaged: true }
    }
}

impl Loader {
    /// There is nothing to clean up.
    pub fn inactive() -> (r: Loader)
        ensures
            r@ == LoaderView::inactive(),
    {
        Loader { temp_dir: None, engaged: false }
    }
}

/// What putting up the loader waits for.
#[derive(Clone, Copy, Debug, PartialEq, Eq, Structural)]
enum ShowStep {
    New,
    Asking,
    WritingStatus,
    Clearing,
    MakingDir,
    OpeningDir,
    WritingZip,
    Unpacking,
    RemovingZip,
    Looking,
    Launching,
    Over,
}

/// What putting up the loader waits for, with the user at the console once
/// that is known.
pub enum ShowPhase {
    /// To be begun.
    New,
    /// Who is at the console.
    Asking,
    /// The status file to be written.
    WritingStatus(Seq<char>),
    /// The directory's remains to be removed.
    Clearing(Seq<char>),
    /// The directory to be made.
    MakingDir(Seq<char>),
    /// The directory to be opened to others.
    OpeningDir(Seq<char>),
    /// The archive to be written.
    WritingZip(Seq<char>),
    /// The archive to be unpacked.
    Unpacking(Seq<char>),
    /// The archive to be removed; unpacking failed with the error, if there is
    /// one.
    RemovingZip(Seq<char>, Option<Seq<char>>),
    /// Whether the bundle is there.
    Looking(Seq<char>),
    /// The loader to be opened.
    Launching(Seq<char>),
    /// Nothing: it is over.
    Over,
}

/// The loader being put up.
#[derive(Debug)]
pub struct LoaderShow {
    pid: u32,
    user: String,
    error: Option<String>,
    step: ShowStep,
}

/// Where putting up the loader stands.
pub struct ShowView {
    /// The updater's process id.
    pub pid: u32,
    pub phase: ShowPhase,
}

impl View for LoaderShow {
    type V = ShowView;

    closed spec fn view(&self) -> ShowView {
        ShowView {
            pid: self.pid,
            phase: match self.step {
                ShowStep::New => ShowPhase::New,
                ShowStep::Asking => ShowPhase::Asking,
                ShowStep::WritingStatus => ShowPhase::WritingStatus(self.user@),
                ShowStep::Clearing => ShowPhase::Clearing(self.user@),
                ShowStep::MakingDir => ShowPhase::MakingDir(self.user@),
                ShowStep::OpeningDir => ShowPhase::OpeningDir(self.user@),
                ShowStep::WritingZip => ShowPhase::WritingZip(self.user@),
                ShowStep::Unpacking => ShowPhase::Unpacking(self.user@),
                ShowStep::RemovingZip => ShowPhase::RemovingZip(
                    self.user@,
                    self.error.deep_view(),
                ),
                ShowStep::Looking => ShowPhase::Looking(self.user@),
                ShowStep::Launching => ShowPhase::Launching(self.user@),
                ShowStep::Over => ShowPhase::Over,
            },
        }
    }
}

/// What came of an action.
#[derive(Debug)]
pub enum ShowEvent {
    /// It begins, in a process that runs as root or not.
    Begin(bool),
    ConsoleAsked(Result<CommandOutput, String>),
    StatusWritten(Result<(), String>),
    DirCleared,
    DirMade(Result<(), String>),
    DirOpened(Result<(), String>),
    ZipWritten(Result<(), String>),
    Unpacked(Result<CommandOutput, String>),
    ZipRemoved,
    Looked(bool),
    Launched(Result<CommandOutput, String>),
}

/// What a [`ShowEvent`] says.
pub enum ShowEventView {
    Begin(bool),
    ConsoleAsked(Result<OutputView, Seq<char>>),
    StatusWritten(Option<Seq<char>>),
    DirCleared,
    DirMade(Option<Seq<char>>),
    DirOpened(Option<Seq<char>>),
    ZipWritten(Option<Seq<char>>),
    Unpacked(Result<OutputView, Seq<char>>),
    ZipRemoved,
    Looked(bool),
    Launched(Result<OutputView, Seq<char>>),
}

impl View for ShowEvent {
    type V = ShowEventView;

    open spec fn view(&self) -> ShowEventView {
        match self {
            ShowEvent::Begin(is_root) => ShowEventView::Begin(*is_root),
            ShowEvent::ConsoleAsked(ran) => ShowEventView::ConsoleAsked(ran_view(*ran)),
            ShowEvent::StatusWritten(r) => ShowEventView::StatusWritten(error_of(*r)),
            ShowEvent::DirCleared => ShowEventView::DirCleared,
            ShowEvent::DirMade(r) => ShowEventView::DirMade(error_of(*r)),
            ShowEvent::DirOpened(r) => ShowEventView::DirOpened(error_of(*r)),
            ShowEvent::ZipWritten(r) => ShowEventView::ZipWritten(error_of(*r)),
            ShowEvent::Unpacked(ran) => ShowEventView::Unpacked(ran_view(*ran)),
            ShowEvent::ZipRemoved => ShowEventView::ZipRemoved,
            ShowEvent::Looked(there) => ShowEventView::Looked(*there),
            ShowEvent::Launched(ran) => ShowEventView::Launched(ran_view(*ran)),
        }
    }
}

/// What has to be done next.
#[derive(Debug)]
pub enum ShowAction {
    /// Ask whom the console belongs to.
    AskConsole,
    /// Write the text to the status file, for everyone to read.
    WriteStatus(String),
    /// Remove the directory, if it is there.
    ClearDir(String),
    /// Make the directory.
    MakeDir(String),
    /// Let everyone enter the directory.
    OpenDir(String),
    /// Write the loader's archive to the path.
    WriteZip(String),
    /// Unpack the archive to the directory.
    Unpack(String, String),
    /// Remove the archive.
    RemoveZip(String),
    /// See whether there is something at the path.
    Look(String),
    /// Have the user's shell run the command.
    Launch(String, String),
    /// Stop, with what is to be cleaned up and what went wrong.
    Finish(Loader, Option<String>),
}

/// What a [`ShowAction`] says.
pub enum ShowActionView {
    AskConsole,
    WriteStatus(Seq<char>),
    ClearDir(Seq<char>),
    MakeDir(Seq<char>),
    OpenDir(Seq<char>),
    WriteZip(Seq<char>),
    Unpack(Seq<char>, Seq<char>),
    RemoveZip(Seq<char>),
    Look(Seq<char>),
    Launch(Seq<char>, Seq<char>),
    Finish(LoaderView, Option<Seq<char>>),
}

impl View for ShowAction {
    type V = ShowActionView;

    open spec fn view(&self) -> ShowActionView {
        match self {
            ShowAction::AskConsole => ShowActionView::AskConsole,
            ShowAction::WriteStatus(text) => ShowActionView::WriteStatus(text@),
            ShowAction::ClearDir(dir) => ShowActionView::ClearDir(dir@),
            ShowAction::MakeDir(dir) => ShowActionView::MakeDir(dir@),
            ShowAction::OpenDir(dir) => ShowActionView::OpenDir(dir@),
            ShowAction::WriteZip(path) => ShowActionView::WriteZip(path@),
            ShowAction::Unpack(path, dir) => ShowActionView::Unpack(path@, dir@),
            ShowAction::RemoveZip(path) => ShowActionView::RemoveZip(path@),
            ShowAction::Look(path) => ShowActionView::Look(path@),
            ShowAction::Launch(user, command) => ShowActionView::Launch(user@, command@),
            ShowAction::Finish(loader, error) => ShowActionView::Finish(
                loader@,
                error.deep_view(),
            ),
        }
    }
}

/// The path of the loader's archive.
pub open spec fn zip_path(pid: u32) -> Seq<char> {
    path_in(loader_dir(pid), "loader.zip"@)
}

/// What went wrong with a program, if it did not end with success.
pub open spec fn exit_error(program: Seq<char>, output: OutputView) -> Option<Seq<char>> {
    if output.success {
        None
    } else {
        Some(
            program + " exited with "@ + output.status + ": "@ + trimmed(
                output.stderr,
                CharClass::WhiteSpace,
            ),
        )
    }
}

/// Tells what went wrong with a program, if it did not end with success.
fn exit_failure(program: &str, output: &CommandOutput) -> (r: Option<String>)
    ensures
        r.deep_view() == exit_error(program@, output@),
{
    if output.success {
        None
    } else {
        let said = trim(output.stderr.as_str(), CharClass::WhiteSpace);
        Some(
            program.to_owned().concat(" exited with ").concat(output.status.as_str()).concat(
                ": ",
            ).concat(said),
        )
    }
}

impl ShowView {
    /// Nothing has been done yet.
    pub open spec fn fresh(pid: u32) -> ShowView {
        ShowView { pid, phase: ShowPhase::New }
    }

    /// Whether an event is one that is waited for.
    pub open spec fn awaits(self, event: ShowEventView) -> bool {
        match event {
            ShowEventView::Begin(_) => self.phase is New,
            ShowEventView::ConsoleAsked(_) => self.phase is Asking,
            ShowEventView::StatusWritten(_) => self.phase is WritingStatus,
            ShowEventView::DirCleared => self.phase is Clearing,
            ShowEventView::DirMade(_) => self.phase is MakingDir,
            ShowEventView::DirOpened(_) => self.phase is OpeningDir,
            ShowEventView::ZipWritten(_) => self.phase is WritingZip,
            ShowEventView::Unpacked(ran) => self.phase is Unpacking,
            ShowEventView::ZipRemoved => self.phase is RemovingZip,
            ShowEventView::Looked(_) => self.phase is Looking,
            ShowEventView::Launched(_) => self.phase is Launching,
        }
    }

    /// The same, but in phase `phase`.
    pub open spec fn at(self, phase: ShowPhase) -> ShowView {
        ShowView { phase, ..self }
    }

    /// The end.
    pub open spec fn finished(self, loader: LoaderView, error: Option<Seq<char>>) -> (
        ShowView,
        ShowActionView,
    ) {
        (self.at(ShowPhase::Over), ShowActionView::Finish(loader, error))
    }

    /// The end where the loader could not be unpacked.
    pub open spec fn not_unpacked(self, error: Seq<char>) -> (ShowView, ShowActionView) {
        self.finished(LoaderView::engaged_in(None), Some(error))
    }

    /// Where it stands after `event`, and what it has done next.
    pub open spec fn after(self, event: ShowEventView) -> (ShowView, ShowActionView) {
        let dir = loader_dir(self.pid);
        let zip = zip_path(self.pid);
        match event {
            ShowEventView::Begin(is_root) => if is_root {
                (self.at(ShowPhase::Asking), ShowActionView::AskConsole)
            } else {
                self.finished(LoaderView::inactive(), None)
            },
            ShowEventView::ConsoleAsked(ran) => match user_at_console(ran) {
                Some(user) => (
                    self.at(ShowPhase::WritingStatus(user)),
                    ShowActionView::WriteStatus("updating "@ + decimal(self.pid as nat)),
                ),
                None => self.finished(LoaderView::inactive(), None),
            },
            ShowEventView::StatusWritten(None) => (
                self.at(ShowPhase::Clearing(self.phase->WritingStatus_0)),
                ShowActionView::ClearDir(dir),
            ),
            ShowEventView::StatusWritten(Some(e)) => self.finished(
                LoaderView::inactive(),
                Some(e),
            ),
            ShowEventView::DirCleared => (
                self.at(ShowPhase::MakingDir(self.phase->Clearing_0)),
                ShowActionView::MakeDir(dir),
            ),
            ShowEventView::DirMade(None) => (
                self.at(ShowPhase::OpeningDir(self.phase->MakingDir_0)),
                ShowActionView::OpenDir(dir),
            ),
            ShowEventView::DirMade(Some(e)) => self.not_unpacked("create "@ + dir + ": "@ + e),
            ShowEventView::DirOpened(None) => (
                self.at(ShowPhase::WritingZip(self.phase->OpeningDir_0)),
                ShowActionView::WriteZip(zip),
            ),
            ShowEventView::DirOpened(Some(e)) => self.not_unpacked("chmod "@ + dir + ": "@ + e),
            ShowEventView::ZipWritten(None) => (
                self.at(ShowPhase::Unpacking(self.phase->WritingZip_0)),
                ShowActionView::Unpack(zip, dir),
            ),
            ShowEventView::ZipWritten(Some(e)) => self.not_unpacked("write "@ + zip + ": "@ + e),
            ShowEventView::Unpacked(Err(e)) => self.not_unpacked("ditto spawn failed: "@ + e),
            ShowEventView::Unpacked(Ok(output)) => (
                self.at(
                    ShowPhase::RemovingZip(self.phase->Unpacking_0, exit_error("ditto"@, output)),
                ),
                ShowActionView::RemoveZip(zip),
            ),
            ShowEventView::ZipRemoved => match self.phase->RemovingZip_1 {
                None => (
                    self.at(ShowPhase::Looking(self.phase->RemovingZip_0)),
                    ShowActionView::Look(app_path(self.pid)),
                ),
                Some(e) => self.not_unpacked(e),
            },
            ShowEventView::Looked(there) => if there {
                (
                    self.at(ShowPhase::Launching(self.phase->Looking_0)),
                    ShowActionView::Launch(self.phase->Looking_0, open_command(self.pid)),
                )
            } else {
                self.not_unpacked("extracted zip has no "@ + APP_BUNDLE_NAME@)
            },
            ShowEventView::Launched(Err(e)) => self.finished(
                LoaderView::engaged_in(Some(dir)),
                Some("su spawn failed: "@ + e),
            ),
            ShowEventView::Launched(Ok(output)) => self.finished(
                LoaderView::engaged_in(Some(dir)),
                exit_error("su/open"@, output),
            ),
        }
    }
}

/// The directory that the loader is unpacked to.
fn loader_dir_text(pid: u32) -> (r: String)
    ensures
        r@ == loader_dir(pid),
{
    let pid = decimal_text(pid as u64);
    "/tmp/gnosisvpn-update-loader-".to_owned().concat(pid.as_str())
}

impl LoaderShow {
    /// Puts up the loader, for the updater with process id `pid`.
    pub fn new(pid: u32) -> (r: LoaderShow)
        ensures
            r@ == ShowView::fresh(pid),
    {
        LoaderShow { pid, user: "".to_owned(), error: None, step: ShowStep::New }
    }

    /// The end.
    fn finish(&mut self, loader: Loader, error: Option<String>) -> (r: ShowAction)
        ensures
            (final(self)@, r@) == old(self)@.finished(loader@, error.deep_view()),
    {
        self.step = ShowStep::Over;
        ShowAction::Finish(loader, error)
    }

    /// The end where the loader could not be unpacked.
    fn give_up(&mut self, error: String) -> (r: ShowAction)
        ensures
            (final(self)@, r@) == old(self)@.not_unpacked(error@),
    {
        self.finish(Loader { temp_dir: None, engaged: true }, Some(error))
    }

    /// Takes what came of the last action and says what to do next.
    pub fn step(&mut self, event: ShowEvent) -> (r: ShowAction)
        requires
            old(self)@.awaits(event@),
        ensures
            (final(self)@, r@) == old(self)@.after(event@),
    {
        let dir = loader_dir_text(self.pid);
        let zip = join_path(dir.as_str(), "loader.zip");
        match event {
            ShowEvent::Begin(is_root) => {
                if is_root {
                    self.step = ShowStep::Asking;
                    ShowAction::AskConsole
                } else {
                    self.finish(Loader::inactive(), None)
                }
            },
            ShowEvent::ConsoleAsked(ran) => match console_user(ran) {
                Some(user) => {
                    self.user = user;
                    self.step = ShowStep::WritingStatus;
                    let pid = decimal_text(self.pid as u64);
                    ShowAction::WriteStatus("updating ".to_owned().concat(pid.as_str()))
                },
                None => self.finish(Loader::inactive(), None),
            },
            ShowEvent::StatusWritten(Ok(_)) => {
                self.step = ShowStep::Clearing;
                ShowAction::ClearDir(dir)
            },
            ShowEvent::StatusWritten(Err(e)) => self.finish(Loader::inactive(), Some(e)),
            ShowEvent::DirCleared => {
                self.step = ShowStep::MakingDir;
                ShowAction::MakeDir(dir)
            },
            ShowEvent::DirMade(Ok(_)) => {
                self.step = ShowStep::OpeningDir;
                ShowAction::OpenDir(dir)
            },
            ShowEvent::DirMade(Err(e)) => {
                self.give_up(
                    "create ".to_owned().concat(dir.as_str()).concat(": ").concat(e.as_str()),
                )
            },
            ShowEvent::DirOpened(Ok(_)) => {
                self.step = ShowStep::WritingZip;
                ShowAction::WriteZip(zip)
            },
            ShowEvent::DirOpened(Err(e)) => {
                self.give_up(
                    "chmod ".to_owned().concat(dir.as_str()).concat(": ").concat(e.as_str()),
                )
            },
            ShowEvent::ZipWritten(Ok(_)) => {
                self.step = ShowStep::Unpacking;
                ShowAction::Unpack(zip, dir)
            },
            ShowEvent::ZipWritten(Err(e)) => {
                self.give_up(
                    "write ".to_owned().concat(zip.as_str()).concat(": ").concat(e.as_str()),
                )
            },
            ShowEvent::Unpacked(Err(e)) => {
                self.give_up("ditto spawn failed: ".to_owned().concat(e.as_str()))
            },
            ShowEvent::Unpacked(Ok(output)) => {
                self.error = exit_failure("ditto", &output);
                self.step = ShowStep::RemovingZip;
                ShowAction::RemoveZip(zip)
            },
            ShowEvent::ZipRemoved => match self.error.take() {
                None => {
                    self.step = ShowStep::Looking;
                    ShowAction::Look(join_path(dir.as_str(), APP_BUNDLE_NAME))
                },
                Some(e) => self.give_up(e),
            },
            ShowEvent::Looked(there) => {
                if there {
                    self.step = ShowStep::Launching;
                    let path = join_path(dir.as_str(), APP_BUNDLE_NAME);
                    let command = "/usr/bin/open '".to_owned().concat(path.as_str()).concat("'");
                    ShowAction::Launch(self.user.clone(), command)
                } else {
                    self.give_up("extracted zip has no ".to_owned().concat(APP_BUNDLE_NAME))
                }
            },
            ShowEvent::Launched(Err(e)) => {
                self.finish(
                    Loader { temp_dir: Some(dir), engaged: true },
                    Some("su spawn failed: ".to_owned().concat(e.as_str())),
                )
            },
            ShowEvent::Launched(Ok(output)) => {
                self.finish(
                    Loader { temp_dir: Some(dir), engaged: true },
                    exit_failure("su/open", &output),
                )
            },
        }
    }
}

/// Nothing is to be cleaned up just where the status file was not written.
pub proof fn law_engaged_once_the_status_is_written(show: ShowView, event: ShowEventView)
    requires
        show.awaits(event),
    ensures
        show.after(event).1 matches ShowActionView::Finish(loader, _) ==> (!loader.engaged
            <==> (show.phase is New || show.phase is Asking || show.phase is WritingStatus)),
{
}

/// What taking down the loader waits for.
#[derive(Clone, Copy, Debug, PartialEq, Eq, Structural)]
pub enum DismissPhase {
    /// To be begun.
    New,
    /// The status file to be written.
    WritingStatus,
    /// Whether the loader is still running; it has been waited for since the
    /// time given.
    Polling(u64),
    /// The time to look again.
    Pausing(u64),
    /// The loader to be killed.
    Killing,
    /// The files to be removed.
    Cleaning,
    /// Nothing: it is over.
    Over,
}

/// The loader being taken down.
#[derive(Debug)]
pub struct LoaderDismiss {
    loader: Loader,
    phase: DismissPhase,
}

/// Where taking down the loader stands.
pub struct DismissView {
    pub loader: LoaderView,
    pub phase: DismissPhase,
}

impl View for LoaderDismiss {
    type V = DismissView;

    closed spec fn view(&self) -> DismissView {
        DismissView { loader: self.loader@, phase: self.phase }
    }
}

/// What came of an action.
#[derive(Debug)]
pub enum DismissEvent {
    Begin,
    /// The status file was written, or could not be.
    StatusWritten,
    /// The exit code of the program that looked for the loader's processes, or
    /// why it could not be run.
    Polled(Result<Option<i32>, String>),
    Woke,
    /// The loader was killed, or could not be.
    Killed,
    /// The files were removed, or could not be.
    Cleaned,
}

/// What a [`DismissEvent`] says.
pub enum DismissEventView {
    Begin,
    StatusWritten,
    Polled(Result<Option<i32>, Seq<char>>),
    Woke,
    Killed,
    Cleaned,
}

impl View for DismissEvent {
    type V = DismissEventView;

    open spec fn view(&self) -> DismissEventView {
        match self {
            DismissEvent::Begin => DismissEventView::Begin,
            DismissEvent::StatusWritten => DismissEventView::StatusWritten,
            DismissEvent::Polled(r) => DismissEventView::Polled(
                match r {
                    Ok(code) => Ok(*code),
                    Err(e) => Err(e@),
                },
            ),
            DismissEvent::Woke => DismissEventView::Woke,
            DismissEvent::Killed => DismissEventView::Killed,
            DismissEvent::Cleaned => DismissEventView::Cleaned,
        }
    }
}

/// What has to be done next.
#[derive(Debug)]
pub enum DismissAction {
    /// Write the text to the status file, for everyone to read.
    WriteStatus(String),
    /// See whether a process with the loader's name is running.
    Poll,
    /// Pause for so many nanoseconds.
    Pause(u64),
    /// Kill the processes with the loader's name.
    Kill,
    /// Remove the status file and, if one is given, the directory.
    Clean(Option<String>),
    /// Stop.
    Finish,
}

/// What a [`DismissAction`] says.
pub enum DismissActionView {
    WriteStatus(Seq<char>),
    Poll,
    Pause(u64),
    Kill,
    Clean(Option<Seq<char>>),
    Finish,
}

impl View for DismissAction {
    type V = DismissActionView;

    open spec fn view(&self) -> DismissActionView {
        match self {
            DismissAction::WriteStatus(text) => DismissActionView::WriteStatus(text@),
            DismissAction::Poll => DismissActionView::Poll,
            DismissAction::Pause(n) => DismissActionView::Pause(*n),
            DismissAction::Kill => DismissActionView::Kill,
            DismissAction::Clean(dir) => DismissActionView::Clean(dir.deep_view()),
            DismissAction::Finish => DismissActionView::Finish,
        }
    }
}

/// Whether waiting for the loader is over: it has closed, or that cannot be
/// told, or its time is up. The exit code that says that no process was found
/// is one.
pub open spec fn wait_is_over(
    polled: Result<Option<i32>, Seq<char>>,
    since: u64,
    now: u64,
    grace: u64,
) -> bool {
    match polled {
        Ok(code) => code == Some(1i32) || elapsed(since, now) >= grace,
        Err(_) => true,
    }
}

/// Tells whether waiting for the loader is over.
fn is_wait_over(polled: &Result<Option<i32>, String>, since: u64, now: u64, grace: u64) -> (r: bool)
    ensures
        r == wait_is_over(
            match *polled {
                Ok(code) => Ok(code),
                Err(e) => Err(e@),
            },
            since,
            now,
            grace,
        ),
{
    match polled {
        Ok(Some(1)) => true,
        Ok(_) => now.saturating_sub(since) >= grace,
        Err(_) => true,
    }
}

impl DismissView {
    /// Whether an event is one that is waited for.
    pub open spec fn awaits(self, event: DismissEventView) -> bool {
        match event {
            DismissEventView::Begin => self.phase is New,
            DismissEventView::StatusWritten => self.phase is WritingStatus,
            DismissEventView::Polled(_) => self.phase is Polling,
            DismissEventView::Woke => self.phase is Pausing,
            DismissEventView::Killed => self.phase is Killing,
            DismissEventView::Cleaned => self.phase is Cleaning,
        }
    }

    /// The same, but in phase `phase`.
    pub open spec fn at(self, phase: DismissPhase) -> DismissView {
        DismissView { phase, ..self }
    }

    /// Where it stands after `event` at time `now`, and what it has done next.
    pub open spec fn after(self, event: DismissEventView, now: u64) -> (
        DismissView,
        DismissActionView,
    ) {
        match event {
            DismissEventView::Begin => if self.loader.engaged {
                (
                    self.at(DismissPhase::WritingStatus),
                    DismissActionView::WriteStatus("done"@),
                )
            } else {
                (self.at(DismissPhase::Over), DismissActionView::Finish)
            },
            DismissEventView::StatusWritten => (
                self.at(DismissPhase::Polling(now)),
                DismissActionView::Poll,
            ),
            DismissEventView::Polled(polled) => {
                let since = self.phase->Polling_0;
                if wait_is_over(polled, since, now, DISMISS_GRACE) {
                    (self.at(DismissPhase::Killing), DismissActionView::Kill)
                } else {
                    (
                        self.at(DismissPhase::Pausing(since)),
                        DismissActionView::Pause(DISMISS_POLL),
                    )
                }
            },
            DismissEventView::Woke => (
                self.at(DismissPhase::Polling(self.phase->Pausing_0)),
                DismissActionView::Poll,
            ),
            DismissEventView::Killed => (
                self.at(DismissPhase::Cleaning),
                DismissActionView::Clean(self.loader.temp_dir),
            ),
            DismissEventView::Cleaned => (self.at(DismissPhase::Over), DismissActionView::Finish),
        }
    }
}

/// Takes down the loader.
pub fn dismiss(loader: Loader) -> (r: LoaderDismiss)
    ensures
        r@ == (DismissView { loader: loader@, phase: DismissPhase::New }),
{
    LoaderDismiss { loader, phase: DismissPhase::New }
}

impl LoaderDismiss {
    /// Takes what came of the last action, at time `now` in nanoseconds, and
    /// says what to do next.
    pub fn step(&mut self, event: DismissEvent, now: u64) -> (r: DismissAction)
        requires
            old(self)@.awaits(event@),
        ensures
            (final(self)@, r@) == old(self)@.after(event@, now),
    {
        match (self.phase, event) {
            (DismissPhase::New, DismissEvent::Begin) => {
                if self.loader.engaged {
                    self.phase = DismissPhase::WritingStatus;
                    DismissAction::WriteStatus("done".to_owned())
                } else {
                    self.phase = DismissPhase::Over;
                    DismissAction::Finish
                }
            },
            (DismissPhase::WritingStatus, DismissEvent::StatusWritten) => {
                self.phase = DismissPhase::Polling(now);
                DismissAction::Poll
            },
            (DismissPhase::Polling(since), DismissEvent::Polled(polled)) => {
                if is_wait_over(&polled, since, now, DISMISS_GRACE) {
                    self.phase = DismissPhase::Killing;
                    DismissAction::Kill
                } else {
                    self.phase = DismissPhase::Pausing(since);
                    DismissAction::Pause(DISMISS_POLL)
                }
            },
            (DismissPhase::Pausing(since), DismissEvent::Woke) => {
                self.phase = DismissPhase::Polling(since);
                DismissAction::Poll
            },
            (DismissPhase::Killing, DismissEvent::Killed) => {
                self.phase = DismissPhase::Cleaning;
                let dir = match &self.loader.temp_dir {
                    Some(dir) => Some(dir.clone()),
                    None => None,
                };
                DismissAction::Clean(dir)
            },
            (DismissPhase::Cleaning, DismissEvent::Cleaned) => {
                self.phase = DismissPhase::Over;
                DismissAction::Finish
            },
            _ => unreached(),
        }
    }
}

/// A loader that was not put up needs nothing to be taken down; one that was is
/// done with only after its files have been removed.
pub proof fn law_what_was_put_up_is_cleaned_up(
    dismissal: DismissView,
    event: DismissEventView,
    now: u64,
)
    requires
        dismissal.awaits(event),
    ensures
        event is Begin && !dismissal.loader.engaged ==> dismissal.after(event, now).1 is Finish,
        dismissal.loader.engaged && dismissal.after(event, now).1 is Finish ==> event is Cleaned,
        event is Killed ==> dismissal.after(event, now).1 == DismissActionView::Clean(
            dismissal.loader.temp_dir,
        ),
{
}

/// The loader is waited for no longer than its time, and not at all once it has
/// closed.
pub proof fn law_wait_for_the_loader_ends(
    dismissal: DismissView,
    polled: Result<Option<i32>, Seq<char>>,
    now: u64,
)
    requires
        dismissal.phase is Polling,
        elapsed(dismissal.phase->Polling_0, now) >= DISMISS_GRACE || polled == Ok::<
            Option<i32>,
            Seq<char>,
        >(Some(1i32)),
    ensures
        dismissal.after(DismissEventView::Polled(polled), now).1 is Kill,
{
}

/// The user at the console is the one that was told, without the space around,
/// unless nobody was told, or root.
pub proof fn law_console_names_its_user(output: OutputView, user: Seq<char>, e: Seq<char>)
    requires
        trimmed(output.stdout, CharClass::WhiteSpace) == user,
    ensures
        output.success && user.len() > 0 && user != "root"@ ==> user_at_console(Ok(output)) == Some(
            user,
        ),
        !output.success || user.len() == 0 || user == "root"@ ==> user_at_console(Ok(output))
            is None,
        user_at_console(Err(e)) is None,
{
}

/// Each updater has a directory of its own for the loader, named by its process
/// id, and the loader is opened from there.
pub proof fn law_each_updater_has_its_loader(a: u32, b: u32)
    ensures
        loader_dir(a) == loader_dir(b) <==> a == b,
        loader_dir(a) == "/tmp/gnosisvpn-update-loader-"@ + decimal(a as nat),
        app_path(a) == loader_dir(a) + "/GnosisVPNUpdateLoader.app"@,
        zip_path(a) == loader_dir(a) + "/loader.zip"@,
        open_command(a) == "/usr/bin/open '"@ + app_path(a) + "'"@,
{
    reveal_strlit("/tmp/gnosisvpn-update-loader-");
    reveal_strlit("/GnosisVPNUpdateLoader.app");
    reveal_strlit("GnosisVPNUpdateLoader.app");
    reveal_strlit("/loader.zip");
    reveal_strlit("loader.zip");
    lemma_decimal_is_digits(a as nat);
    law_decimal_reads_back(a as nat);
    law_decimal_reads_back(b as nat);
    let prefix = "/tmp/gnosisvpn-update-loader-"@;
    let dir = loader_dir(a);
    assert(dir.last() == decimal(a as nat).last());
    assert(decimal(a as nat).last() == decimal(a as nat)[decimal(a as nat).len() - 1]);
    assert(dir.push('/') + "GnosisVPNUpdateLoader.app"@ =~= dir + "/GnosisVPNUpdateLoader.app"@);
    assert(dir.push('/') + "loader.zip"@ =~= dir + "/loader.zip"@);
    if loader_dir(a) == loader_dir(b) {
        assert(loader_dir(a).skip(prefix.len() as int) =~= decimal(a as nat));
        assert(loader_dir(b).skip(prefix.len() as int) =~= decimal(b as nat));
    }
}

/// What a program said when it failed is told with its name and how it ended,
/// and nothing of one that did not fail.
pub proof fn law_failed_program_is_told(program: Seq<char>, output: OutputView)
    ensures
        output.success ==> exit_error(program, output) is None,
        !output.success ==> exit_error(program, output) == Some(
            program + " exited with "@ + output.status + ": "@ + trimmed(
                output.stderr,
                CharClass::WhiteSpace,
            ),
        ),
{
}

/// The user at the console, where putting up the loader still needs to know.
pub open spec fn user_in(phase: ShowPhase) -> Option<Seq<char>> {
    match phase {
        ShowPhase::WritingStatus(user) | ShowPhase::Clearing(user) => Some(user),
        ShowPhase::MakingDir(user) | ShowPhase::OpeningDir(user) => Some(user),
        ShowPhase::WritingZip(user) | ShowPhase::Unpacking(user) => Some(user),
        ShowPhase::RemovingZip(user, _) | ShowPhase::Looking(user) => Some(user),
        ShowPhase::Launching(user) => Some(user),
        _ => None,
    }
}

/// The loader is put up step by step for the user at the console: the status is
/// written, the directory made, the archive unpacked and the loader opened. A
/// step that fails ends it with the reason, and what is to be cleaned up is what
/// has been made so far.
pub proof fn law_loader_goes_up_step_by_step(show: ShowView, event: ShowEventView)
    requires
        show.awaits(event),
    ensures
        ({
            let (next, act) = show.after(event);
            let dir = loader_dir(show.pid);
            let zip = zip_path(show.pid);
            let nothing = LoaderView { temp_dir: None, engaged: false };
            let status_only = LoaderView { temp_dir: None, engaged: true };
            let all = LoaderView { temp_dir: Some(dir), engaged: true };
            &&& next.pid == show.pid
            &&& user_in(next.phase) is Some && user_in(show.phase) is Some ==> user_in(next.phase)
                == user_in(show.phase)
            &&& match event {
                ShowEventView::Begin(is_root) => act == if is_root {
                    ShowActionView::AskConsole
                } else {
                    ShowActionView::Finish(nothing, None)
                },
                ShowEventView::ConsoleAsked(ran) => match user_at_console(ran) {
                    Some(user) => act == ShowActionView::WriteStatus(
                        "updating "@ + decimal(show.pid as nat),
                    ) && user_in(next.phase) == Some(user),
                    None => act == ShowActionView::Finish(nothing, None),
                },
                ShowEventView::StatusWritten(None) => act == ShowActionView::ClearDir(dir),
                ShowEventView::StatusWritten(Some(e)) => act == ShowActionView::Finish(
                    nothing,
                    Some(e),
                ),
                ShowEventView::DirCleared => act == ShowActionView::MakeDir(dir),
                ShowEventView::DirMade(None) => act == ShowActionView::OpenDir(dir),
                ShowEventView::DirMade(Some(e)) => act == ShowActionView::Finish(
                    status_only,
                    Some("create "@ + dir + ": "@ + e),
                ),
                ShowEventView::DirOpened(None) => act == ShowActionView::WriteZip(zip),
                ShowEventView::DirOpened(Some(e)) => act == ShowActionView::Finish(
                    status_only,
                    Some("chmod "@ + dir + ": "@ + e),
                ),
                ShowEventView::ZipWritten(None) => act == ShowActionView::Unpack(zip, dir),
                ShowEventView::ZipWritten(Some(e)) => act == ShowActionView::Finish(
                    status_only,
                    Some("write "@ + zip + ": "@ + e),
                ),
                ShowEventView::Unpacked(Err(e)) => act == ShowActionView::Finish(
                    status_only,
                    Some("ditto spawn failed: "@ + e),
                ),
                ShowEventView::Unpacked(Ok(output)) => act == ShowActionView::RemoveZip(zip)
                    && next.phase == ShowPhase::RemovingZip(
                    user_in(show.phase)->Some_0,
                    exit_error("ditto"@, output),
                ),
                ShowEventView::ZipRemoved => match show.phase->RemovingZip_1 {
                    None => act == ShowActionView::Look(app_path(show.pid)),
                    Some(e) => act == ShowActionView::Finish(status_only, Some(e)),
                },
                ShowEventView::Looked(there) => act == if there {
                    ShowActionView::Launch(user_in(show.phase)->Some_0, open_command(show.pid))
                } else {
                    ShowActionView::Finish(
                        status_only,
                        Some("extracted zip has no "@ + "GnosisVPNUpdateLoader.app"@),
                    )
                },
                ShowEventView::Launched(Err(e)) => act == ShowActionView::Finish(
                    all,
                    Some("su spawn failed: "@ + e),
                ),
                ShowEventView::Launched(Ok(output)) => act == ShowActionView::Finish(
                    all,
                    exit_error("su/open"@, output),
                ),
            }
        }),
{
}

/// Putting up the loader waits for whatever can come of what it has done.
pub proof fn law_loader_takes_what_comes(show: ShowView, event: ShowEventView)
    requires
        show.awaits(event),
    ensures
        ({
            let (next, act) = show.after(event);
            match act {
                ShowActionView::AskConsole => forall|ran: Result<OutputView, Seq<char>>|
                 #[trigger]
                    next.awaits(ShowEventView::ConsoleAsked(ran)),
                ShowActionView::WriteStatus(_) => forall|e: Option<Seq<char>>| #[trigger]
                    next.awaits(ShowEventView::StatusWritten(e)),
                ShowActionView::ClearDir(_) => next.awaits(ShowEventView::DirCleared),
                ShowActionView::MakeDir(_) => forall|e: Option<Seq<char>>| #[trigger]
                    next.awaits(ShowEventView::DirMade(e)),
                ShowActionView::OpenDir(_) => forall|e: Option<Seq<char>>| #[trigger]
                    next.awaits(ShowEventView::DirOpened(e)),
                ShowActionView::WriteZip(_) => forall|e: Option<Seq<char>>| #[trigger]
                    next.awaits(ShowEventView::ZipWritten(e)),
                ShowActionView::Unpack(_, _) => forall|ran: Result<OutputView, Seq<char>>|
                 #[trigger]
                    next.awaits(ShowEventView::Unpacked(ran)),
                ShowActionView::RemoveZip(_) => next.awaits(ShowEventView::ZipRemoved),
                ShowActionView::Look(_) => forall|there: bool| #[trigger]
                    next.awaits(ShowEventView::Looked(there)),
                ShowActionView::Launch(_, _) => forall|ran: Result<OutputView, Seq<char>>|
                 #[trigger]
                    next.awaits(ShowEventView::Launched(ran)),
                ShowActionView::Finish(_, _) => forall|e: ShowEventView|
                    !(#[trigger] next.awaits(e)),
            }
        }),
        forall|is_root: bool| #[trigger]
            ShowView::fresh(show.pid).awaits(ShowEventView::Begin(is_root)),
        ShowView::fresh(show.pid).pid == show.pid,
{
}

/// The loader is told to close, waited for, killed and cleaned up after, in that
/// order; while it is still running and its time is not up it is looked for
/// again after a pause, and the time counts from when it was told.
pub proof fn law_loader_comes_down_step_by_step(
    dismissal: DismissView,
    event: DismissEventView,
    now: u64,
)
    requires
        dismissal.awaits(event),
    ensures
        ({
            let (next, act) = dismissal.after(event, now);
            &&& next.loader == dismissal.loader
            &&& match event {
                DismissEventView::Begin => act == if dismissal.loader.engaged {
                    DismissActionView::WriteStatus("done"@)
                } else {
                    DismissActionView::Finish
                },
                DismissEventView::StatusWritten => act is Poll && next.phase
                    == DismissPhase::Polling(now),
                DismissEventView::Polled(polled) => {
                    let since = dismissal.phase->Polling_0;
                    let gone = polled is Err || (polled matches Ok(Some(code)) && code == 1);
                    if gone || now >= since + 1_500_000_000 {
                        act is Kill
                    } else {
                        act == DismissActionView::Pause(200_000_000) && next.phase
                            == DismissPhase::Pausing(since)
                    }
                },
                DismissEventView::Woke => act is Poll && next.phase == DismissPhase::Polling(
                    dismissal.phase->Pausing_0,
                ),
                DismissEventView::Killed => act == DismissActionView::Clean(
                    dismissal.loader.temp_dir,
                ),
                DismissEventView::Cleaned => act is Finish,
            }
            &&& match act {
                DismissActionView::WriteStatus(_) => next.awaits(DismissEventView::StatusWritten),
                DismissActionView::Poll => forall|polled: Result<Option<i32>, Seq<char>>|
                 #[trigger]
                    next.awaits(DismissEventView::Polled(polled)),
                DismissActionView::Pause(_) => next.awaits(DismissEventView::Woke),
                DismissActionView::Kill => next.awaits(DismissEventView::Killed),
                DismissActionView::Clean(_) => next.awaits(DismissEventView::Cleaned),
                DismissActionView::Finish => forall|e: DismissEventView|
                    !(#[trigger] next.awaits(e)),
            }
        }),
{
}

/// What came of an action is what putting up the loader takes it for.
pub proof fn law_events_say_what_came(
    is_root: bool,
    outcome: Result<(), String>,
    ran: Result<CommandOutput, String>,
)
    ensures
        ShowEvent::Begin(is_root)@ == ShowEventView::Begin(is_root),
        ShowEvent::Looked(is_root)@ == ShowEventView::Looked(is_root),
        ShowEvent::DirCleared@ is DirCleared && ShowEvent::ZipRemoved@ is ZipRemoved,
        ({
            let error = match outcome {
                Ok(_) => None,
                Err(e) => Some(e@),
            };
            let left = match ran {
                Ok(output) => Ok(output@),
                Err(e) => Err(e@),
            };
            &&& ShowEvent::StatusWritten(outcome)@ == ShowEventView::StatusWritten(error)
            &&& ShowEvent::DirMade(outcome)@ == ShowEventView::DirMade(error)
            &&& ShowEvent::DirOpened(outcome)@ == ShowEventView::DirOpened(error)
            &&& ShowEvent::ZipWritten(outcome)@ == ShowEventView::ZipWritten(error)
            &&& ShowEvent::ConsoleAsked(ran)@ == ShowEventView::ConsoleAsked(left)
            &&& ShowEvent::Unpacked(ran)@ == ShowEventView::Unpacked(left)
            &&& ShowEvent::Launched(ran)@ == ShowEventView::Launched(left)
        }),
{
}

/// What is to be done is what the action says.
pub proof fn law_actions_say_what_to_do(action: ShowAction, down: DismissAction)
    ensures
        action@ == match action {
            ShowAction::AskConsole => ShowActionView::AskConsole,
            ShowAction::WriteStatus(text) => ShowActionView::WriteStatus(text@),
            ShowAction::ClearDir(dir) => ShowActionView::ClearDir(dir@),
            ShowAction::MakeDir(dir) => ShowActionView::MakeDir(dir@),
            ShowAction::OpenDir(dir) => ShowActionView::OpenDir(dir@),
            ShowAction::WriteZip(path) => ShowActionView::WriteZip(path@),
            ShowAction::Unpack(path, dir) => ShowActionView::Unpack(path@, dir@),
            ShowAction::RemoveZip(path) => ShowActionView::RemoveZip(path@),
            ShowAction::Look(path) => ShowActionView::Look(path@),
            ShowAction::Launch(user, command) => ShowActionView::Launch(user@, command@),
            ShowAction::Finish(loader, error) => ShowActionView::Finish(loader@, error.deep_view()),
        },
        down@ == match down {
            DismissAction::WriteStatus(text) => DismissActionView::WriteStatus(text@),
            DismissAction::Poll => DismissActionView::Poll,
            DismissAction::Pause(n) => DismissActionView::Pause(n),
            DismissAction::Kill => DismissActionView::Kill,
            DismissAction::Clean(dir) => DismissActionView::Clean(dir.deep_view()),
            DismissAction::Finish => DismissActionView::Finish,
        },
{
}

/// What came of looking for the loader is what taking it down takes it for.
pub proof fn law_dismissal_is_told_what_came(polled: Result<Option<i32>, String>)
    ensures
        DismissEvent::Begin@ is Begin && DismissEvent::StatusWritten@ is StatusWritten,
        DismissEvent::Woke@ is Woke && DismissEvent::Killed@ is Killed,
        DismissEvent::Cleaned@ is Cleaned,
        DismissEvent::Polled(polled)@ == DismissEventView::Polled(
            match polled {
                Ok(code) => Ok(code),
                Err(e) => Err(e@),
            },
        ),
{
}

} // verus!
