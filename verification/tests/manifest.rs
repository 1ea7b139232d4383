//! Manifests, records and paths.

use gnosis_vpn_update::manifest::{
    base_url, download, manifest_urls, verify_and_parse, ArtifactUrl, Channel, Error, Manifest,
    ManifestAction, ManifestChannels, ManifestEvent, Platform, Timestamp, REQUEST_TIMEOUT,
};
use gnosis_vpn_update::update::check::version_report;
use gnosis_vpn_update::update::paths;
use gnosis_vpn_update::update::records::{audit_line, audit_log};
use gnosis_vpn_update::update::{
    read_installed_version, LastUpdateAttempt, UpdateStage, UpdateStatus,
};

fn manifest() -> Manifest {
    Manifest {
        schema_version: 1,
        generated_at: "2026-09-20".into(),
        channels: ManifestChannels { stable: None, snapshot: None, experimental: None },
    }
}

#[test]
fn stable_reads_the_ipfs_gateway_and_prerelease_the_origin() {
    for platform in [Platform::MacosArm64, Platform::LinuxAmd64, Platform::LinuxArm64] {
        let join = |channel| manifest_urls(platform, channel).unwrap().manifest;
        // The plain `<platform>.json`, never the `.ipfs.json` variant: that one
        // is stable-only and its download_urls are IPFS paths.
        assert!(!join(Channel::Stable).contains(".ipfs.json"));
        assert!(join(Channel::Stable).starts_with("https://download.vpn.gnosis.eth.limo/manifests/"));
        assert!(join(Channel::Snapshot).starts_with("https://download.gnosisvpn.io/manifests/"));
        assert!(join(Channel::Experimental).starts_with("https://download.gnosisvpn.io/manifests/"));
    }
    assert_eq!(base_url(Channel::Stable), "https://download.vpn.gnosis.eth.limo/manifests/");
}

#[test]
fn manifest_and_signature_have_their_names() {
    let urls = manifest_urls(Platform::MacosArm64, Channel::Stable).unwrap();
    assert_eq!(
        urls.manifest,
        "https://download.vpn.gnosis.eth.limo/manifests/macos-arm64.json"
    );
    assert_eq!(
        urls.signature,
        "https://download.vpn.gnosis.eth.limo/manifests/macos-arm64.json.asc"
    );
    assert_eq!(Platform::LinuxAmd64.manifest_filename(), "linux-amd64.json");
    assert_eq!(Platform::LinuxArm64.signature_filename(), "linux-arm64.json.asc");
}

#[test]
fn manifest_is_fetched_before_its_signature() {
    let base = "https://download.gnosisvpn.io/manifests/";
    let mut run = download(Platform::LinuxArm64, Channel::Snapshot);
    match run.step(ManifestEvent::Begin) {
        ManifestAction::FetchManifest(url) => assert_eq!(url, format!("{base}linux-arm64.json")),
        other => panic!("unexpected {other:?}"),
    }
    match run.step(ManifestEvent::Fetched(Ok(()))) {
        ManifestAction::FetchSignature(url) => assert_eq!(url, format!("{base}linux-arm64.json.asc")),
        other => panic!("unexpected {other:?}"),
    }
    assert!(matches!(run.step(ManifestEvent::Fetched(Ok(()))), ManifestAction::Parse));
    match run.step(ManifestEvent::Parsed(Ok(manifest()))) {
        ManifestAction::Finish(Ok(m)) => assert_eq!(m.generated_at, "2026-09-20"),
        other => panic!("unexpected {other:?}"),
    }
    assert_eq!(REQUEST_TIMEOUT, 30);
}

#[test]
fn fetching_and_reading_fail_differently() {
    let failure = |action| match action {
        ManifestAction::Finish(Err(e)) => e.to_string(),
        other => panic!("unexpected {other:?}"),
    };
    let mut run = download(Platform::LinuxArm64, Channel::Stable);
    run.step(ManifestEvent::Begin);
    assert_eq!(
        failure(run.step(ManifestEvent::Fetched(Err("403".into())))),
        "Update check error: 403"
    );

    let mut run = download(Platform::LinuxArm64, Channel::Stable);
    run.step(ManifestEvent::Begin);
    run.step(ManifestEvent::Fetched(Ok(())));
    assert_eq!(
        failure(run.step(ManifestEvent::Fetched(Err("404".into())))),
        "Update check error: 404"
    );

    let mut run = download(Platform::LinuxArm64, Channel::Stable);
    run.step(ManifestEvent::Begin);
    run.step(ManifestEvent::Fetched(Ok(())));
    run.step(ManifestEvent::Fetched(Ok(())));
    assert_eq!(
        failure(run.step(ManifestEvent::Parsed(Err("eof".into())))),
        "Manifest integrity error: eof"
    );

    assert!(verify_and_parse(Ok(manifest())).is_ok());
    assert!(matches!(verify_and_parse(Err("x".into())), Err(Error::Integrity(m)) if m == "x"));
}

#[test]
fn url_is_read_into_its_parts() {
    let url = ArtifactUrl::parse("HTTPS://Download.gnosisvpn.io/a b/../c.pkg?x=1").unwrap();
    assert_eq!(url.text, "https://download.gnosisvpn.io/c.pkg?x=1");
    assert_eq!(url.scheme, "https");
    assert_eq!(url.path, "/c.pkg");
    assert_eq!(ArtifactUrl::parse("no url").unwrap_err(), "relative URL without a base");
    assert_eq!(ArtifactUrl::parse("").unwrap_err(), "relative URL without a base");
}

#[test]
fn hash_is_written_in_hexadecimal() {
    let mut bytes = [0u8; 32];
    bytes[0] = 0x0f;
    bytes[31] = 0xa0;
    let hash = gnosis_vpn_update::manifest::Hash(bytes);
    assert_eq!(
        hash.to_string(),
        "0f000000000000000000000000000000000000000000000000000000000000a0"
    );
    assert!(hash.same(&hash));
    assert!(!hash.same(&gnosis_vpn_update::manifest::Hash([0; 32])));
}

#[test]
fn channels_have_names_and_titles() {
    let cases = [
        (Channel::Stable, "stable", "Stable"),
        (Channel::Snapshot, "snapshot", "Snapshot"),
        (Channel::Experimental, "experimental", "Experimental"),
    ];
    for (channel, name, title) in cases {
        assert_eq!(channel.to_string(), name);
        assert_eq!(channel.to_title(), title);
    }
}

#[test]
fn read_installed_version_trims_and_rejects_missing_or_empty() {
    let path = "/etc/gnosisvpn/version.txt";
    assert_eq!(read_installed_version(path, Ok("0.91.1\n".into())).unwrap(), "0.91.1");

    let empty = read_installed_version(path, Ok("  \n".into())).unwrap_err();
    assert!(empty.contains("empty"));
    assert_eq!(empty, "installed version file /etc/gnosisvpn/version.txt is empty");

    let missing = read_installed_version(path, Err("No such file".into())).unwrap_err();
    assert!(missing.contains("cannot read"));
    assert_eq!(
        missing,
        "cannot read installed version from /etc/gnosisvpn/version.txt: No such file"
    );
}

#[test]
fn attempt_records_how_the_run_ended() {
    let status = UpdateStatus::Completed { new_version: "0.87.0".into() };
    let now = Timestamp { secs: 1, nanos: 2 };
    let attempt = LastUpdateAttempt::new(now, Channel::Snapshot, &status);
    assert_eq!(attempt.timestamp, now);
    assert_eq!(attempt.channel, Channel::Snapshot);
    assert_eq!(attempt.candidate_version, None);
    assert_eq!(attempt.final_status.to_string(), "completed: 0.87.0");
}

#[test]
fn log_has_a_line_for_each_run() {
    let moment = Timestamp { secs: 1_431_648_000, nanos: 0 };
    let completed = UpdateStatus::Completed { new_version: "0.87.0".into() };
    assert_eq!(
        audit_log(moment, Channel::Stable, &completed, Some("0.4.0")).unwrap(),
        "2015-05-15 00:00:00 UTC\tchannel=stable\tstatus=completed: 0.87.0\tupdater_version=0.4.0\n"
    );
    let failed = UpdateStatus::Failed { stage: UpdateStage::Verify, error: "bad".into() };
    let moment = Timestamp { secs: 1_431_648_000, nanos: 1_000_000 };
    assert_eq!(
        audit_log(moment, Channel::Snapshot, &failed, None).unwrap(),
        "2015-05-15 00:00:00.001 UTC\tchannel=snapshot\tstatus=failed at verify: bad\n"
    );
    // What the updater reports of itself spans two lines; the entry does not.
    assert_eq!(
        audit_line(
            "now",
            Channel::Stable,
            &completed,
            Some(&version_report("0.4.0", Some("2026.06.06+build.000005")))
        ),
        "now\tchannel=stable\tstatus=completed: 0.87.0\tupdater_version=Updater version: 0.4.0 Package version: 2026.06.06+build.000005\n"
    );
    assert_eq!(
        audit_line("now", Channel::Stable, &completed, Some("0.4.0")),
        "now\tchannel=stable\tstatus=completed: 0.87.0\tupdater_version=0.4.0\n"
    );
    let failed = UpdateStatus::Failed { stage: UpdateStage::Install, error: "a\nb\n".into() };
    assert_eq!(
        audit_line("now", Channel::Stable, &failed, Some("x\ny")),
        "now\tchannel=stable\tstatus=failed at install: a b \tupdater_version=x y\n"
    );
    let no_moment = Timestamp { secs: i64::MAX, nanos: 0 };
    assert_eq!(audit_log(no_moment, Channel::Stable, &completed, None), None);
    assert_eq!(
        audit_line("now", Channel::Experimental, &UpdateStatus::Checking, None),
        "now\tchannel=experimental\tstatus=checking for updates\n"
    );
}

#[test]
fn paths_are_fixed() {
    assert_eq!(paths::download_dir(), "/Library/Application Support/GnosisVPN/updates");
    assert_eq!(
        paths::attempt_state_path(),
        "/Library/Application Support/GnosisVPN/last_update_attempt.json"
    );
    assert_eq!(paths::installed_version_path(), "/etc/gnosisvpn/version.txt");
    assert_eq!(paths::config_symlink_path(), "/etc/gnosisvpn/config.toml");
    for (dir, name) in
        [("/a", "b"), ("/a/", "b"), ("", "b"), ("a", "/b"), ("a", ""), ("", ""), ("/", "x/y")]
    {
        let joined = std::path::Path::new(dir).join(name);
        assert_eq!(paths::join_path(dir, name), joined.to_str().unwrap());
    }
}
