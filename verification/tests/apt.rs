//! The apt source and the engine for apt.

use gnosis_vpn_update::manifest::Channel;
use gnosis_vpn_update::update::apt::{ensure_channel, field, rewrite_field};
use gnosis_vpn_update::update::apt_engine::{
    install_engine, installed_version, run_apt, AptAction, AptEvent,
};
use gnosis_vpn_update::update::process::CommandOutput;
use gnosis_vpn_update::update::{UpdateStage, UpdateStatus};

const SAMPLE: &str = "Types: deb\n\
URIs: https://download.gnosisvpn.io/linux/apt\n\
Suites: stable\n\
Components: main\n\
Architectures: amd64\n\
Signed-By: /etc/apt/keyrings/gnosisvpn-archive-keyring.gpg\n";

fn output(success: bool, stdout: &str, stderr: &str) -> CommandOutput {
    CommandOutput {
        success,
        code: Some(if success { 0 } else { 100 }),
        status: if success { "exit status: 0".into() } else { "exit status: 100".into() },
        stdout: stdout.into(),
        stderr: stderr.into(),
    }
}

#[test]
fn parses_existing_fields() {
    assert_eq!(field(SAMPLE, "Suites").as_deref(), Some("stable"));
    assert_eq!(field(SAMPLE, "Components").as_deref(), Some("main"));
}

#[test]
fn rewrites_suite_in_place() {
    let next = rewrite_field(SAMPLE, "Suites", "snapshot");
    let next = rewrite_field(&next, "Components", "snapshot");
    assert_eq!(field(&next, "Suites").as_deref(), Some("snapshot"));
    assert_eq!(field(&next, "Components").as_deref(), Some("snapshot"));
    assert!(next.contains("URIs: https://download.gnosisvpn.io/linux/apt"));
    assert!(next.contains("Signed-By: /etc/apt/keyrings/gnosisvpn-archive-keyring.gpg"));
    assert!(next.ends_with('\n'));
}

#[test]
fn rewrite_appends_missing_field() {
    let stripped = SAMPLE
        .lines()
        .filter(|l| !l.starts_with("Components:"))
        .collect::<Vec<_>>()
        .join("\n")
        + "\n";
    let next = rewrite_field(&stripped, "Components", "snapshot");
    assert_eq!(field(&next, "Components").as_deref(), Some("snapshot"));
}

#[test]
fn rewriting_keeps_the_end_of_the_file() {
    assert_eq!(rewrite_field("A: 1\nB: 2", "A", "3"), "A: 3\nB: 2");
    assert_eq!(rewrite_field("A: 1\r\nB: 2\r\n", "B", "4"), "A: 1\nB: 4\n");
    assert_eq!(rewrite_field("", "A", "1"), "A: 1");
    assert_eq!(field("A:\n", "A").as_deref(), Some(""));
    assert_eq!(field("AB: 1\n", "A"), None);
}

#[test]
fn source_is_switched_only_where_it_differs() {
    assert_eq!(ensure_channel(Channel::Stable, Ok(SAMPLE.into())), Ok(None));
    let next = ensure_channel(Channel::Snapshot, Ok(SAMPLE.into())).unwrap().unwrap();
    assert_eq!(field(&next, "Suites").as_deref(), Some("snapshot"));
    assert_eq!(field(&next, "Components").as_deref(), Some("snapshot"));
    assert_eq!(ensure_channel(Channel::Snapshot, Ok(next)), Ok(None));
    assert_eq!(
        ensure_channel(Channel::Stable, Err("gone".into())),
        Err(
            "apt sources file /etc/apt/sources.list.d/gnosisvpn.sources not found (gone); re-run the gnosisvpn install script"
                .to_string()
        )
    );
}

#[test]
fn apt_failures_are_worded() {
    assert_eq!(run_apt("\"apt-get\" \"update\"", Ok(output(true, "", "note"))), Ok(()));
    assert_eq!(
        run_apt("\"apt-get\" \"update\"", Ok(output(false, "", "E: no"))),
        Err("\"apt-get\" \"update\" exited with exit status: 100: E: no".to_string())
    );
    assert_eq!(
        run_apt("\"apt-get\"", Err("not found".into())),
        Err("spawn \"apt-get\": not found".to_string())
    );
}

#[test]
fn package_version_is_trimmed_and_must_not_be_empty() {
    assert_eq!(installed_version(Ok(output(true, " 1.2.3\n", ""))), Ok("1.2.3".to_string()));
    assert_eq!(
        installed_version(Ok(output(true, " \n", ""))),
        Err("dpkg-query returned empty version".to_string())
    );
    assert_eq!(
        installed_version(Ok(output(false, "1.2.3", "no package"))),
        Err("dpkg-query failed: no package".to_string())
    );
    assert_eq!(
        installed_version(Err("not found".into())),
        Err("spawn dpkg-query: not found".to_string())
    );
}

fn reported(action: AptAction) -> String {
    match action {
        AptAction::Report(status) => status.to_string(),
        other => panic!("unexpected {other:?}"),
    }
}

#[test]
fn apt_engine_updates_then_upgrades() {
    let mut engine = install_engine(Channel::Snapshot, "/run/s", false);
    assert_eq!(reported(engine.step(AptEvent::Begin)), "checking for updates");
    match engine.step(AptEvent::Reported) {
        AptAction::AskVpn(socket) => assert_eq!(socket, "/run/s"),
        other => panic!("unexpected {other:?}"),
    }
    assert!(matches!(engine.step(AptEvent::VpnAnswered(Ok(true))), AptAction::ReadSource));
    match engine.step(AptEvent::SourceRead(Ok(SAMPLE.into()))) {
        AptAction::WriteSource(text) => {
            assert_eq!(field(&text, "Suites").as_deref(), Some("snapshot"))
        }
        other => panic!("unexpected {other:?}"),
    }
    assert_eq!(reported(engine.step(AptEvent::SourceWritten(Ok(())))), "downloading update");
    match engine.step(AptEvent::Reported) {
        AptAction::RunApt(args) => assert_eq!(args, ["update"]),
        other => panic!("unexpected {other:?}"),
    }
    let ran = AptEvent::AptRan("apt-get".into(), Ok(output(true, "", "")));
    assert_eq!(reported(engine.step(ran)), "installing update");
    match engine.step(AptEvent::Reported) {
        AptAction::RunApt(args) => {
            assert_eq!(args, ["install", "--only-upgrade", "-y", "gnosisvpn"])
        }
        other => panic!("unexpected {other:?}"),
    }
    match engine.step(AptEvent::AptRan("apt-get".into(), Ok(output(true, "", "")))) {
        AptAction::AskVersion(args) => assert_eq!(args, ["-W", "-f=${Version}", "gnosisvpn"]),
        other => panic!("unexpected {other:?}"),
    }
    let asked = AptEvent::VersionAsked(Ok(output(true, "0.92.0\n", "")));
    assert_eq!(reported(engine.step(asked)), "completed: 0.92.0");
    assert!(matches!(engine.step(AptEvent::Reported), AptAction::Stop));
}

#[test]
fn apt_engine_names_the_stage_that_failed() {
    let failure = |action| match action {
        AptAction::Report(UpdateStatus::Failed { stage, error }) => (stage, error),
        other => panic!("unexpected {other:?}"),
    };

    let mut engine = install_engine(Channel::Stable, "/run/s", false);
    engine.step(AptEvent::Begin);
    engine.step(AptEvent::Reported);
    let (stage, error) = failure(engine.step(AptEvent::VpnAnswered(Err("no socket".into()))));
    assert_eq!(stage, UpdateStage::Check);
    assert!(error.starts_with("VPN not connected"));

    let mut engine = install_engine(Channel::Stable, "/run/s", true);
    engine.step(AptEvent::Begin);
    assert!(matches!(engine.step(AptEvent::Reported), AptAction::ReadSource));
    let (stage, error) = failure(engine.step(AptEvent::SourceRead(Err("gone".into()))));
    assert_eq!(stage, UpdateStage::Check);
    assert!(error.contains("not found (gone)"));

    let mut engine = install_engine(Channel::Snapshot, "/run/s", true);
    engine.step(AptEvent::Begin);
    engine.step(AptEvent::Reported);
    engine.step(AptEvent::SourceRead(Ok(SAMPLE.into())));
    let (stage, error) = failure(engine.step(AptEvent::SourceWritten(Err("denied".into()))));
    assert_eq!(stage, UpdateStage::Check);
    assert_eq!(error, "write /etc/apt/sources.list.d/gnosisvpn.sources: denied");

    let mut engine = install_engine(Channel::Stable, "/run/s", true);
    engine.step(AptEvent::Begin);
    engine.step(AptEvent::Reported);
    assert_eq!(
        reported(engine.step(AptEvent::SourceRead(Ok(SAMPLE.into())))),
        "downloading update"
    );
    engine.step(AptEvent::Reported);
    let ran = AptEvent::AptRan("apt-get".into(), Ok(output(false, "", "E")));
    assert_eq!(failure(engine.step(ran)), (UpdateStage::Download, "apt-get exited with exit status: 100: E".into()));

    let mut engine = install_engine(Channel::Stable, "/run/s", true);
    engine.step(AptEvent::Begin);
    engine.step(AptEvent::Reported);
    engine.step(AptEvent::SourceRead(Ok(SAMPLE.into())));
    engine.step(AptEvent::Reported);
    engine.step(AptEvent::AptRan("apt-get".into(), Ok(output(true, "", ""))));
    engine.step(AptEvent::Reported);
    let ran = AptEvent::AptRan("apt-get".into(), Err("gone".into()));
    assert_eq!(failure(engine.step(ran)), (UpdateStage::Install, "spawn apt-get: gone".into()));

    let mut engine = install_engine(Channel::Stable, "/run/s", true);
    engine.step(AptEvent::Begin);
    engine.step(AptEvent::Reported);
    engine.step(AptEvent::SourceRead(Ok(SAMPLE.into())));
    engine.step(AptEvent::Reported);
    engine.step(AptEvent::AptRan("apt-get".into(), Ok(output(true, "", ""))));
    engine.step(AptEvent::Reported);
    engine.step(AptEvent::AptRan("apt-get".into(), Ok(output(true, "", ""))));
    let asked = AptEvent::VersionAsked(Ok(output(true, "", "")));
    assert_eq!(
        failure(engine.step(asked)),
        (UpdateStage::Install, "dpkg-query returned empty version".into())
    );
}
