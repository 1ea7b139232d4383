//! The statuses of a run, and the command line.

use gnosis_vpn_update::cli::{
    resolve_channel, ChannelArg, CheckArgs, Cli, Command, OutputFormat, UpdateArgs,
};
use gnosis_vpn_update::manifest::Channel;
use gnosis_vpn_update::update::status::{refuse_update, StatusStream};
use gnosis_vpn_update::update::{exit_for_update, UpdateStage, UpdateStatus, MANUAL_UPDATE_HINT};
use gnosis_vpn_update::vpn_status;

#[test]
fn update_status_terminal_variants() {
    assert!(UpdateStatus::Completed { new_version: "1.0.0".into() }.is_terminal());
    assert!(UpdateStatus::Failed { stage: UpdateStage::Check, error: "x".into() }.is_terminal());
    assert!(!UpdateStatus::Checking.is_terminal());
    assert!(!UpdateStatus::Downloading.is_terminal());
    assert!(!UpdateStatus::Installing.is_terminal());
}

#[test]
fn mod_update_status_terminal_variants() {
    assert!(UpdateStatus::Completed { new_version: "1.0.0".into() }.is_terminal());
    assert!(UpdateStatus::Failed { stage: UpdateStage::Check, error: "x".into() }.is_terminal());
    assert!(!UpdateStatus::Checking.is_terminal());
    assert!(!UpdateStatus::Downloading.is_terminal());
    assert!(!UpdateStatus::Installing.is_terminal());
}

#[test]
fn only_a_failed_run_is_a_failure() {
    let failed = UpdateStatus::Failed { stage: UpdateStage::Verify, error: "bad".into() };
    let completed = UpdateStatus::Completed { new_version: "1.0.0".into() };
    assert!(failed.is_failure());
    assert!(!completed.is_failure());
    assert!(!UpdateStatus::Installing.is_failure());
    assert_eq!(exit_for_update(&failed), 70);
    assert_eq!(exit_for_update(&completed), 0);
}

#[test]
fn exit_code_tells_why_an_update_failed() {
    let exit = |stage, error: &str| {
        exit_for_update(&UpdateStatus::Failed { stage, error: error.into() })
    };
    assert_eq!(exit(UpdateStage::Check, vpn_status::NOT_CONNECTED), 77);
    assert_eq!(exit(UpdateStage::Check, "Manifest integrity error: eof"), 70);
    assert_eq!(exit(UpdateStage::Check, "Update check error: timeout"), 69);
    assert_eq!(exit(UpdateStage::Check, "Candidate 0.86.0 is already installed"), 69);
    assert_eq!(exit(UpdateStage::Check, ""), 69);
    assert_eq!(exit(UpdateStage::Download, "x"), 69);
    assert_eq!(exit(UpdateStage::Verify, "sha256 mismatch"), 70);
    assert_eq!(exit(UpdateStage::Install, "exit 1"), 69);
    assert_eq!(exit_for_update(&UpdateStatus::Checking), 0);
}

#[test]
fn statuses_are_worded_for_people() {
    assert_eq!(UpdateStatus::Checking.to_string(), "checking for updates");
    assert_eq!(UpdateStatus::Downloading.to_string(), "downloading update");
    assert_eq!(UpdateStatus::Installing.to_string(), "installing update");
    assert_eq!(
        UpdateStatus::Completed { new_version: "1.0.0".into() }.to_string(),
        "completed: 1.0.0"
    );
    let stages = [
        (UpdateStage::Check, "failed at check: e"),
        (UpdateStage::Download, "failed at download: e"),
        (UpdateStage::Verify, "failed at verify: e"),
        (UpdateStage::Install, "failed at install: e"),
    ];
    for (stage, text) in stages {
        assert_eq!(UpdateStatus::Failed { stage, error: "e".into() }.to_string(), text);
    }
}

#[test]
fn refused_update_tells_the_commands() {
    let status = refuse_update();
    assert_eq!(
        status.to_string(),
        "failed at install: sudo apt-get update\nsudo apt-get install -y gnosisvpn"
    );
    assert!(status.to_string().ends_with(MANUAL_UPDATE_HINT));
    assert_eq!(exit_for_update(&status), 69);
}

#[test]
fn stream_stops_at_the_status_that_ends_the_run() {
    let mut stream = StatusStream::new();
    assert_eq!(stream.exit_code(), 70);
    assert!(!stream.record(UpdateStatus::Checking));
    assert!(!stream.record(UpdateStatus::Downloading));
    assert_eq!(stream.exit_code(), 0);
    assert!(stream.record(UpdateStatus::Failed { stage: UpdateStage::Download, error: "e".into() }));
    assert_eq!(stream.exit_code(), 69);

    let mut stream = StatusStream::new();
    assert!(stream.record(UpdateStatus::Completed { new_version: "1".into() }));
    assert_eq!(stream.exit_code(), 0);
}

#[test]
fn output_defaults_to_json_for_updates_only() {
    let update = |output| Cli {
        output,
        command: Command::Update(UpdateArgs {
            channel: None,
            allow_downgrade: false,
            force: false,
            socket_path: "s".into(),
        }),
    };
    let check = |output| Cli {
        output,
        command: Command::CheckUpdate(CheckArgs {
            channel: None,
            force: false,
            socket_path: "s".into(),
        }),
    };
    let version = |output| Cli { output, command: Command::Version };
    assert_eq!(update(None).format(), OutputFormat::Json);
    assert_eq!(check(None).format(), OutputFormat::Plain);
    assert_eq!(version(None).format(), OutputFormat::Plain);
    for asked in [OutputFormat::Json, OutputFormat::Plain] {
        assert_eq!(update(Some(asked)).format(), asked);
        assert_eq!(check(Some(asked)).format(), asked);
        assert_eq!(version(Some(asked)).format(), asked);
    }
}

#[test]
fn channel_defaults_to_that_of_the_installed_version() {
    assert_eq!(resolve_channel(None, "0.91.1"), Channel::Stable);
    assert_eq!(resolve_channel(None, "2026.06.06+build.000005"), Channel::Snapshot);
    assert_eq!(
        resolve_channel(None, "2026.06.06+build.000005.experimental"),
        Channel::Experimental
    );
    assert_eq!(resolve_channel(Some(ChannelArg::Snapshot), "0.91.1"), Channel::Snapshot);
    assert_eq!(Channel::from(ChannelArg::Stable), Channel::Stable);
    assert_eq!(Channel::from(ChannelArg::Experimental), Channel::Experimental);
}

#[test]
fn only_a_connected_answer_passes() {
    assert!(vpn_status::ensure_connected(Ok(true)).is_ok());
    let refused = vpn_status::ensure_connected(Ok(false)).unwrap_err();
    assert_eq!(
        refused.to_string(),
        "VPN not connected — updating without an active VPN connection is insecure"
    );
    assert_eq!(
        vpn_status::ensure_connected(Err("no socket".into())),
        Err(vpn_status::Error::NotConnected)
    );
    assert_eq!(vpn_status::DEFAULT_SOCKET_PATH, "/var/run/gnosisvpn.sock");
    assert_eq!(vpn_status::ENV_VAR, "GNOSISVPN_SOCKET_PATH");
}
