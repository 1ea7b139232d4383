//! Runs of the engine, and looking for an update.

use gnosis_vpn_update::cli::ChannelArg;
use gnosis_vpn_update::manifest::{
    ArtifactUrl, Channel, ChannelRelease, Error, Manifest, ManifestChannels, Timestamp,
};
use gnosis_vpn_update::update::check::{check_failed, check_manifest, version_report};
use gnosis_vpn_update::update::download::DownloadError;
use gnosis_vpn_update::update::{
    check, exit_for_check, install_engine, CheckAction, CheckEvent, CheckOutcome, CheckResult,
    Engine, EngineAction, EngineEvent, EngineInput, UpdateStage, UpdateStatus,
};

fn release(version: &str, min_app: &str, notes: &str) -> ChannelRelease {
    ChannelRelease {
        version: version.to_string(),
        published_at: Timestamp { secs: 1_704_067_200, nanos: 0 },
        download_url: ArtifactUrl::parse("https://download.gnosisvpn.io/artifact.pkg").unwrap(),
        size_bytes: 10_000_000,
        sha256: gnosis_vpn_update::manifest::Hash([0u8; 32]),
        artifact_signature: String::new(),
        release_notes: notes.to_string(),
        min_os_version: "0.0".to_string(),
        min_app_version: min_app.to_string(),
    }
}

fn manifest(stable: Option<ChannelRelease>) -> Manifest {
    Manifest {
        schema_version: 1,
        generated_at: "2026-09-20".into(),
        channels: ManifestChannels { stable, snapshot: None, experimental: None },
    }
}

fn input(skip_vpn_check: bool) -> EngineInput {
    EngineInput {
        channel: Channel::Stable,
        allow_downgrade: false,
        current_app_version: "0.86.0".into(),
        download_dir: "/updates".into(),
        attempt_state_path: Some("/state.json".into()),
        audit_log_path: Some("/audit.log".into()),
        skip_vpn_check,
        socket_path: "/run/s".into(),
    }
}

/// Runs the engine, answering each action by `answer`, and notes what it did.
fn drive(input: EngineInput, answer: impl Fn(&EngineAction) -> Option<EngineEvent>) -> Vec<String> {
    let mut done: Vec<String> = Vec::new();
    let (mut engine, mut action): (Engine, EngineAction) =
        install_engine(input).step(EngineEvent::Begin);
    loop {
        let chosen = answer(&action);
        let usual = match action {
            EngineAction::Report(status) => {
                done.push(format!("report {}", status.to_string()));
                EngineEvent::Reported
            }
            EngineAction::AskVpn(socket) => {
                done.push(format!("ask {socket}"));
                EngineEvent::VpnAnswered(Ok(true))
            }
            EngineAction::FetchManifest(channel) => {
                done.push(format!("fetch {}", channel.to_string()));
                EngineEvent::ManifestFetched(Ok(manifest(Some(release("0.87.0", "0.80.0", "")))))
            }
            EngineAction::Download(release, dir) => {
                done.push(format!("download {} to {dir}", release.version));
                EngineEvent::Downloaded(Ok("/updates/artifact.pkg".into()))
            }
            EngineAction::Verify(path, release) => {
                done.push(format!("verify {path} {}", release.version));
                EngineEvent::Verified(Ok(()))
            }
            EngineAction::PinChoices(dir) => {
                done.push(format!("pin in {dir}"));
                EngineEvent::ChoicesPinned(Ok(Some("/updates/choice_changes.xml".into())))
            }
            EngineAction::Shield => {
                done.push("shield".into());
                EngineEvent::Shielded
            }
            EngineAction::ShowLoader => {
                done.push("show".into());
                EngineEvent::LoaderShown
            }
            EngineAction::RenameAside => {
                done.push("rename".into());
                EngineEvent::RenamedAside
            }
            EngineAction::Install(artifact, changes) => {
                done.push(format!("install {artifact} {changes:?}"));
                EngineEvent::Installed(Ok(()))
            }
            EngineAction::DismissLoader => {
                done.push("dismiss".into());
                EngineEvent::LoaderDismissed
            }
            EngineAction::Settle(success) => {
                done.push(format!("settle {success}"));
                EngineEvent::Settled(if success { Some("0.4.0".into()) } else { None })
            }
            EngineAction::Persist(path, channel, status) => {
                done.push(format!("persist {path} {} {}", channel.to_str(), status.to_string()));
                EngineEvent::Persisted
            }
            EngineAction::Log(path, channel, status, updater) => {
                done.push(format!(
                    "log {path} {} {} {updater:?}",
                    channel.to_str(),
                    status.to_string()
                ));
                EngineEvent::Logged
            }
            EngineAction::Stop => return done,
        };
        let (next, act) = engine.step(chosen.unwrap_or(usual));
        engine = next;
        action = act;
    }
}

#[test]
fn engine_installs_an_update() {
    assert_eq!(
        drive(input(false), |_| None),
        [
            "report checking for updates",
            "ask /run/s",
            "fetch stable",
            "report downloading update",
            "download 0.87.0 to /updates",
            "verify /updates/artifact.pkg 0.87.0",
            "pin in /updates",
            "shield",
            "show",
            "report installing update",
            "rename",
            "install /updates/artifact.pkg Some(\"/updates/choice_changes.xml\")",
            "dismiss",
            "settle true",
            "persist /state.json stable completed: 0.87.0",
            "log /audit.log stable completed: 0.87.0 Some(\"0.4.0\")",
            "report completed: 0.87.0",
        ]
    );
}

#[test]
fn engine_tidies_up_after_a_failed_installation() {
    let done = drive(input(true), |action| match action {
        EngineAction::Install(_, _) => Some(EngineEvent::Installed(Err("exit 1".into()))),
        _ => None,
    });
    assert_eq!(
        done[done.len() - 6..],
        [
            "install /updates/artifact.pkg Some(\"/updates/choice_changes.xml\")",
            "dismiss",
            "settle false",
            "persist /state.json stable failed at install: exit 1",
            "log /audit.log stable failed at install: exit 1 None",
            "report failed at install: exit 1",
        ]
    );
    assert!(!done.contains(&"ask /run/s".to_string()));
}

#[test]
fn engine_fails_at_each_stage_with_its_reason() {
    let last = |skip, answer: &dyn Fn(&EngineAction) -> Option<EngineEvent>| {
        let done = drive(input(skip), answer);
        assert!(!done.iter().any(|d| d.starts_with("install ")));
        assert!(!done.contains(&"show".to_string()));
        done.last().unwrap().clone()
    };
    assert_eq!(
        last(false, &|action| match action {
            EngineAction::AskVpn(_) => Some(EngineEvent::VpnAnswered(Ok(false))),
            EngineAction::FetchManifest(_) => panic!("fetched without the VPN"),
            _ => None,
        }),
        "report failed at check: VPN not connected — updating without an active VPN connection is insecure"
    );
    assert_eq!(
        last(true, &|action| match action {
            EngineAction::FetchManifest(_) =>
                Some(EngineEvent::ManifestFetched(Err(Error::Other("timeout".into())))),
            _ => None,
        }),
        "report failed at check: Update check error: timeout"
    );
    assert_eq!(
        last(true, &|action| match action {
            EngineAction::FetchManifest(_) => Some(EngineEvent::ManifestFetched(Ok(manifest(None)))),
            _ => None,
        }),
        "report failed at check: Channel stable has no release in this manifest"
    );
    assert_eq!(
        last(true, &|action| match action {
            EngineAction::FetchManifest(_) => Some(EngineEvent::ManifestFetched(Ok(manifest(
                Some(release("0.86.0", "0.80.0", ""))
            )))),
            _ => None,
        }),
        "report failed at check: Candidate 0.86.0 is already installed"
    );
    assert_eq!(
        last(true, &|action| match action {
            EngineAction::Download(_, _) =>
                Some(EngineEvent::Downloaded(Err(DownloadError::Io("disk".into())))),
            _ => None,
        }),
        "report failed at download: io: disk"
    );
    assert_eq!(
        last(true, &|action| match action {
            EngineAction::Verify(_, _) => Some(EngineEvent::Verified(Err("sha256 mismatch".into()))),
            _ => None,
        }),
        "report failed at verify: sha256 mismatch"
    );
    assert_eq!(
        last(true, &|action| match action {
            EngineAction::PinChoices(_) => Some(EngineEvent::ChoicesPinned(Err("denied".into()))),
            _ => None,
        }),
        "report failed at install: denied"
    );
}

#[test]
fn engine_keeps_no_records_where_none_are_asked_for() {
    let mut plain = input(true);
    plain.attempt_state_path = None;
    plain.audit_log_path = None;
    let done = drive(plain, |_| None);
    assert!(!done.iter().any(|d| d.starts_with("persist") || d.starts_with("log")));
    assert_eq!(done.last().unwrap(), "report completed: 0.87.0");

    let mut logged = input(true);
    logged.attempt_state_path = None;
    let done = drive(logged, |_| None);
    assert!(!done.iter().any(|d| d.starts_with("persist")));
    assert!(done[done.len() - 2].starts_with("log"));
}

#[test]
fn engine_installs_an_older_release_only_where_it_may() {
    let older = |action: &EngineAction| match action {
        EngineAction::FetchManifest(_) => Some(EngineEvent::ManifestFetched(Ok(manifest(Some(
            release("0.85.0", "0.80.0", ""),
        ))))),
        _ => None,
    };
    assert_eq!(
        drive(input(true), older).last().unwrap(),
        "report failed at check: Candidate 0.85.0 is older than installed 0.86.0; pass --allow-downgrade to override"
    );
    let mut allowed = input(true);
    allowed.allow_downgrade = true;
    assert_eq!(drive(allowed, older).last().unwrap(), "report completed: 0.85.0");
}

fn finished(action: CheckAction) -> CheckResult {
    match action {
        CheckAction::Finish(result) => result,
        other => panic!("unexpected {other:?}"),
    }
}

#[test]
fn looking_for_an_update_needs_the_vpn() {
    let mut run = check(Channel::Stable, "0.86.0", "/run/s", false);
    match run.step(CheckEvent::Begin) {
        CheckAction::AskVpn(socket) => assert_eq!(socket, "/run/s"),
        other => panic!("unexpected {other:?}"),
    }
    let result = finished(run.step(CheckEvent::VpnAnswered(Ok(false))));
    assert!(matches!(result.outcome, CheckOutcome::VpnNotConnected));
    assert!(result.manifest.is_none());
    assert_eq!(exit_for_check(&result), 77);
    assert_eq!(
        result.to_string(),
        "VPN not connected — updating without an active VPN connection is insecure\nChannel: Stable"
    );

    let mut run = check(Channel::Stable, "0.86.0", "/run/s", false);
    run.step(CheckEvent::Begin);
    assert!(matches!(
        run.step(CheckEvent::VpnAnswered(Ok(true))),
        CheckAction::FetchManifest(Channel::Stable)
    ));

    let mut run = check(Channel::Snapshot, "0.86.0", "/run/s", true);
    assert!(matches!(
        run.step(CheckEvent::Begin),
        CheckAction::FetchManifest(Channel::Snapshot)
    ));
    let fetched = CheckEvent::ManifestFetched(Ok(manifest(None)));
    let result = finished(run.step(fetched));
    assert!(matches!(
        result.outcome,
        CheckOutcome::NoReleaseForChannel(Channel::Snapshot)
    ));
}

#[test]
fn available_update_is_told_with_its_changes() {
    let newer = manifest(Some(release("0.87.0", "0.80.0", "Better.")));
    let result = check_manifest(Channel::Stable, "0.86.0", Ok(newer));
    match &result.outcome {
        CheckOutcome::Available { current, release } => {
            assert_eq!(current, "0.86.0");
            assert_eq!(release.version, "0.87.0");
        }
        other => panic!("unexpected {other:?}"),
    }
    assert!(result.manifest.is_some());
    assert_eq!(exit_for_check(&result), 0);
    assert_eq!(
        result.to_string(),
        "Update needed to 0.87.0\nCurrent installed version: 0.86.0\nChannel: Stable\nChangelog: Better."
    );

    let mut experimental = manifest(None);
    experimental.channels.experimental =
        Some(release("2026.09.20+build.144124.experimental", "0.0", ""));
    let result =
        check_manifest(Channel::Experimental, "2026.06.06+build.000005", Ok(experimental));
    assert_eq!(
        result.to_string(),
        "Update needed to 2026.09.20+build.144124.experimental\nCurrent installed version: 2026.06.06+build.000005\nChannel: Experimental"
    );
}

#[test]
fn each_outcome_has_its_exit_code_and_its_manifest() {
    let outcome = |fetched| check_manifest(Channel::Stable, "0.86.0", fetched);

    let same = outcome(Ok(manifest(Some(release("0.86.0", "0.80.0", "")))));
    assert!(matches!(&same.outcome, CheckOutcome::UpToDate { current } if current == "0.86.0"));
    assert!(same.manifest.is_some());
    assert_eq!(exit_for_check(&same), 0);
    assert_eq!(
        same.to_string(),
        "Up to date\nCurrent installed version: 0.86.0\nChannel: Stable"
    );

    let older = outcome(Ok(manifest(Some(release("0.85.0", "0.80.0", "")))));
    assert!(matches!(older.outcome, CheckOutcome::UpToDate { .. }));

    let none = outcome(Ok(manifest(None)));
    assert!(matches!(none.outcome, CheckOutcome::NoReleaseForChannel(Channel::Stable)));
    assert!(none.manifest.is_some());
    assert_eq!(exit_for_check(&none), 69);

    let too_old = outcome(Ok(manifest(Some(release("1.0.0", "0.90.0", "")))));
    assert!(matches!(&too_old.outcome, CheckOutcome::Error(e) if e.contains("requires app 0.90.0")));
    assert!(too_old.manifest.is_none());
    assert_eq!(exit_for_check(&too_old), 69);

    let broken = outcome(Err(Error::Integrity("eof".into())));
    assert!(matches!(&broken.outcome, CheckOutcome::IntegrityError(m) if m == "eof"));
    assert!(broken.manifest.is_none());
    assert_eq!(exit_for_check(&broken), 70);
    assert_eq!(broken.to_string(), "Manifest integrity error: eof\nChannel: Stable");

    let unreachable = outcome(Err(Error::Other("timeout".into())));
    assert!(matches!(&unreachable.outcome, CheckOutcome::Error(e) if e == "Update check error: timeout"));
    assert_eq!(exit_for_check(&unreachable), 69);
}

#[test]
fn failed_look_names_the_channel_that_was_asked_for() {
    let result = check_failed(Some(ChannelArg::Snapshot), "no version".into());
    assert_eq!(result.channel, Channel::Snapshot);
    assert!(matches!(&result.outcome, CheckOutcome::Error(e) if e == "no version"));
    assert!(result.manifest.is_none());
    assert_eq!(check_failed(None, "x".into()).channel, Channel::Stable);
}

#[test]
fn versions_are_told_in_two_lines() {
    assert_eq!(
        version_report("0.4.0", Some("2026.06.06+build.000005")),
        "Updater version: 0.4.0\nPackage version: 2026.06.06+build.000005"
    );
    assert_eq!(version_report("0.4.0", None), "Updater version: 0.4.0");
}

#[test]
fn failed_status_keeps_its_stage() {
    let status = UpdateStatus::Failed { stage: UpdateStage::Download, error: "x".into() };
    match status.clone() {
        UpdateStatus::Failed { stage, error } => {
            assert_eq!(stage, UpdateStage::Download);
            assert_eq!(error, "x");
        }
        other => panic!("unexpected {other:?}"),
    }
}
