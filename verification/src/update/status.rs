//! What the install engine reports while it runs.

use vstd::prelude::*;
use vstd::string::StringExecFns;

use crate::foreign::{exit_no_permission, exit_ok, exit_software, exit_unavailable};
use crate::manifest::INTEGRITY_ERROR;
use crate::text::{same_text, strip_prefix};
use crate::vpn_status::NOT_CONNECTED;

verus! {

/// The phase in which an update failed.
#[derive(Clone, Copy, Debug, PartialEq, Eq, Structural)]
pub enum UpdateStage {
    Check,
    Download,
    Verify,
    Install,
}

impl UpdateStage {
    /// The name of the phase.
    pub open spec fn name(self) -> Seq<char> {
        match self {
            UpdateStage::Check => "check"@,
            UpdateStage::Download => "download"@,
            UpdateStage::Verify => "verify"@,
            UpdateStage::Install => "install"@,
        }
    }

    /// The name of the phase.
    pub fn to_str(self) -> (r: &'static str)
        ensures
            r@ == self.name(),
    {
        match self {
            UpdateStage::Check => "check",
            UpdateStage::Download => "download",
            UpdateStage::Verify => "verify",
            UpdateStage::Install => "install",
        }
    }

    /// The name of the phase.
    pub fn to_string(self) -> (r: String)
        ensures
            r@ == self.name(),
    {
        self.to_str().to_owned()
    }
}

/// One report of the engine. A run reports `Checking`, `Downloading` and
/// `Installing`, as far as it gets, and then one of the two that end it.
#[derive(Debug)]
pub enum UpdateStatus {
    /// Looking for an update that applies.
    Checking,
    /// The download has started.
    Downloading,
    /// The download is done; the installer is running.
    Installing,
    /// Ends a run that installed the version named.
    Completed { new_version: String },
    /// Ends a run that failed.
    Failed { stage: UpdateStage, error: String },
}

/// What an [`UpdateStatus`] says.
pub enum StatusView {
    Checking,
    Downloading,
    Installing,
    Completed { new_version: Seq<char> },
    Failed { stage: UpdateStage, error: Seq<char> },
}

impl View for UpdateStatus {
    type V = StatusView;

    open spec fn view(&self) -> StatusView {
        match self {
            UpdateStatus::Checking => StatusView::Checking,
            UpdateStatus::Downloading => StatusView::Downloading,
            UpdateStatus::Installing => StatusView::Installing,
            UpdateStatus::Completed { new_version } => StatusView::Completed {
                new_version: new_version@,
            },
            UpdateStatus::Failed { stage, error } => StatusView::Failed {
                stage: *stage,
                error: error@,
            },
        }
    }
}

impl Clone for UpdateStatus {
    fn clone(&self) -> (r: UpdateStatus)
        ensures
            r@ == self@,
    {
        match self {
            UpdateStatus::Checking => UpdateStatus::Checking,
            UpdateStatus::Downloading => UpdateStatus::Downloading,
            UpdateStatus::Installing => UpdateStatus::Installing,
            UpdateStatus::Completed { new_version } => UpdateStatus::Completed {
                new_version: new_version.clone(),
            },
            UpdateStatus::Failed { stage, error } => UpdateStatus::Failed {
                stage: *stage,
                error: error.clone(),
            },
        }
    }
}

impl StatusView {
    /// Whether the status ends a run.
    pub open spec fn ends_run(self) -> bool {
        self is Completed || self is Failed
    }

    /// How the status is worded.
    pub open spec fn text(self) -> Seq<char> {
        match self {
            StatusView::Checking => "checking for updates"@,
            StatusView::Downloading => "downloading update"@,
            StatusView::Installing => "installing update"@,
            StatusView::Completed { new_version } => "completed: "@ + new_version,
            StatusView::Failed { stage, error } => "failed at "@ + stage.name() + ": "@ + error,
        }
    }

    /// The exit code of a process whose run ended with this status. A failure
    /// is told apart by its reason: the VPN was not connected (`NOPERM`), the
    /// manifest or the artifact was not to be trusted (`SOFTWARE`), or anything
    /// else (`UNAVAILABLE`).
    pub open spec fn exit_code(self) -> i32 {
        match self {
            StatusView::Failed { stage: UpdateStage::Check, error } => if error == NOT_CONNECTED@ {
                77
            } else if INTEGRITY_ERROR@.is_prefix_of(error) {
                70
            } else {
                69
            },
            StatusView::Failed { stage: UpdateStage::Verify, .. } => 70,
            StatusView::Failed { .. } => 69,
            _ => 0,
        }
    }
}

impl UpdateStatus {
    /// Whether no further status follows this one.
    pub fn is_terminal(&self) -> (r: bool)
        ensures
            r == self@.ends_run(),
    {
        match self {
            UpdateStatus::Completed { .. } => true,
            UpdateStatus::Failed { .. } => true,
            _ => false,
        }
    }

    /// Whether this status is a failure.
    pub fn is_failure(&self) -> (r: bool)
        ensures
            r == self@ is Failed,
    {
        match self {
            UpdateStatus::Failed { .. } => true,
            _ => false,
        }
    }

    /// How the status is worded.
    pub fn to_string(&self) -> (r: String)
        ensures
            r@ == self@.text(),
    {
        match self {
            UpdateStatus::Checking => "checking for updates".to_owned(),
            UpdateStatus::Downloading => "downloading update".to_owned(),
            UpdateStatus::Installing => "installing update".to_owned(),
            UpdateStatus::Completed { new_version } => "completed: ".to_owned().concat(
                new_version.as_str(),
            ),
            UpdateStatus::Failed { stage, error } => "failed at ".to_owned().concat(
                stage.to_str(),
            ).concat(": ").concat(error.as_str()),
        }
    }
}

/// The exit code of a process whose run ended with `status`.
pub fn exit_for_update(status: &UpdateStatus) -> (r: i32)
    ensures
        r == status@.exit_code(),
{
    match status {
        UpdateStatus::Failed { stage: UpdateStage::Check, error } => {
            if same_text(error.as_str(), NOT_CONNECTED) {
                exit_no_permission()
            } else if strip_prefix(error.as_str(), INTEGRITY_ERROR).is_some() {
                exit_software()
            } else {
                exit_unavailable()
            }
        },
        UpdateStatus::Failed { stage: UpdateStage::Verify, .. } => exit_software(),
        UpdateStatus::Failed { .. } => exit_unavailable(),
        _ => exit_ok(),
    }
}

/// What to tell who asks for an update on a host without an install engine.
pub const MANUAL_UPDATE_HINT: &'static str =
    "sudo apt-get update\nsudo apt-get install -y gnosisvpn";

/// The status that refuses an update on a host without an install engine, with
/// the commands that update such a host.
pub fn refuse_update() -> (r: UpdateStatus)
    ensures
        r@ == (StatusView::Failed {
            stage: UpdateStage::Install,
            error: "sudo apt-get update\nsudo apt-get install -y gnosisvpn"@,
        }),
{
    UpdateStatus::Failed { stage: UpdateStage::Install, error: MANUAL_UPDATE_HINT.to_owned() }
}

/// The reader's side of an engine's reports: what came last, and whether more
/// will come.
#[derive(Debug)]
pub struct StatusStream {
    last: Option<UpdateStatus>,
}

impl StatusStream {
    /// What came last.
    pub closed spec fn last_seen(self) -> Option<StatusView> {
        match self.last {
            Some(status) => Some(status@),
            None => None,
        }
    }

    /// A stream from which nothing has come yet.
    pub fn new() -> (r: StatusStream)
        ensures
            r.last_seen() is None,
    {
        StatusStream { last: None }
    }

    /// Takes note of a status, and says whether to stop reading.
    pub fn record(&mut self, status: UpdateStatus) -> (stop: bool)
        ensures
            final(self).last_seen() == Some(status@),
            stop == status@.ends_run(),
    {
        let stop = status.is_terminal();
        self.last = Some(status);
        stop
    }

    /// The exit code once the stream has ended. An engine always ends with a
    /// status; one that reported nothing died.
    pub fn exit_code(&self) -> (r: i32)
        ensures
            r == match self.last_seen() {
                Some(status) => status.exit_code(),
                None => 70,
            },
    {
        match &self.last {
            Some(status) => exit_for_update(status),
            None => exit_software(),
        }
    }
}

/// The exit code of a failed run tells why it failed, at whatever stage: the VPN
/// was not connected, the manifest or the artifact was not to be trusted, or
/// anything else; and only a run that did not fail has none.
pub proof fn law_exit_code_tells_the_failure(status: StatusView, reason: Seq<char>)
    ensures
        status.exit_code() == 0 <==> !(status is Failed),
        status matches StatusView::Failed { stage, error } ==> {
            let not_connected = stage is Check && error
                == "VPN not connected — updating without an active VPN connection is insecure"@;
            let not_trusted = stage is Verify || (stage is Check
                && "Manifest integrity error: "@.is_prefix_of(error));
            &&& not_connected ==> status.exit_code() == 77
            &&& not_trusted && !not_connected ==> status.exit_code() == 70
            &&& !not_connected && !not_trusted ==> status.exit_code() == 69
        },
        (StatusView::Failed {
            stage: UpdateStage::Check,
            error: "Manifest integrity error: "@ + reason,
        }).exit_code() == 70,
{
    reveal_strlit("Manifest integrity error: ");
    reveal_strlit("VPN not connected — updating without an active VPN connection is insecure");
    let error = "Manifest integrity error: "@ + reason;
    assert("Manifest integrity error: "@ =~= error.subrange(
        0,
        "Manifest integrity error: "@.len() as int,
    ));
    assert(error[0] == 'M');
}

/// A status is worded with what it tells: the version that was installed, or the
/// stage and the error.
pub proof fn law_statuses_are_worded(
    new_version: Seq<char>,
    stage: UpdateStage,
    error: Seq<char>,
)
    ensures
        StatusView::Checking.text() == "checking for updates"@,
        StatusView::Downloading.text() == "downloading update"@,
        StatusView::Installing.text() == "installing update"@,
        (StatusView::Completed { new_version }).text() == "completed: "@ + new_version,
        (StatusView::Failed { stage, error }).text() == "failed at "@ + (match stage {
            UpdateStage::Check => "check"@,
            UpdateStage::Download => "download"@,
            UpdateStage::Verify => "verify"@,
            UpdateStage::Install => "install"@,
        }) + ": "@ + error,
{
}

/// Just the two that tell success or failure end a run.
pub proof fn law_success_and_failure_end_a_run(status: StatusView)
    ensures
        !status.ends_run() <==> status is Checking || status is Downloading || status
            is Installing,
{
}

/// A status says what it holds.
pub proof fn law_status_says_what_it_holds(status: UpdateStatus)
    ensures
        status@ == match status {
            UpdateStatus::Checking => StatusView::Checking,
            UpdateStatus::Downloading => StatusView::Downloading,
            UpdateStatus::Installing => StatusView::Installing,
            UpdateStatus::Completed { new_version } => StatusView::Completed {
                new_version: new_version@,
            },
            UpdateStatus::Failed { stage, error } => StatusView::Failed { stage, error: error@ },
        },
{
}

} // verus!
