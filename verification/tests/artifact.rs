//! The download of an artifact, its digest, and its installation.

use gnosis_vpn_update::manifest::{ArtifactUrl, ChannelRelease, Timestamp};
use gnosis_vpn_update::update::artifact::{
    free_bytes, safe_artifact_filename, verify_digest, ArtifactAction, ArtifactDownload,
    ArtifactEvent, ArtifactHasher, TargetKind, FREE_SPACE_HEADROOM,
};
use gnosis_vpn_update::update::download::DownloadError;
use gnosis_vpn_update::update::installer::{install, installer_arguments, InstallerRun};
use gnosis_vpn_update::update::process::CommandOutput;

fn release(url: &str, size_bytes: u64, sha256: [u8; 32]) -> ChannelRelease {
    ChannelRelease {
        version: "1.2.3".into(),
        published_at: Timestamp { secs: 0, nanos: 0 },
        download_url: ArtifactUrl::parse(url).unwrap(),
        size_bytes,
        sha256: gnosis_vpn_update::manifest::Hash(sha256),
        artifact_signature: String::new(),
        release_notes: String::new(),
        min_os_version: String::new(),
        min_app_version: String::new(),
    }
}

fn safe(url: &str) -> Option<String> {
    safe_artifact_filename(&ArtifactUrl::parse(url).unwrap())
}

#[test]
fn safe_artifact_filename_accepts_normal_basenames() {
    let cases = [
        ("https://download.gnosisvpn.io/artifact.pkg", "artifact.pkg"),
        ("https://download.gnosisvpn.io/a/b/gnosis_vpn-1.2.3.dmg", "gnosis_vpn-1.2.3.dmg"),
    ];
    for (url, expected) in cases {
        assert_eq!(safe(url).as_deref(), Some(expected), "url={url}");
    }
}

#[test]
fn safe_artifact_filename_rejects_malformed_or_escaping_urls() {
    // Either no usable last segment, or a segment that would escape the
    // download dir. Dot-segments must never yield a name regardless of
    // whether the URL parser normalises them away or our component check
    // catches a literal `..`/`.`.
    let bad = [
        "https://download.gnosisvpn.io/",       // trailing slash → empty segment
        "https://download.gnosisvpn.io",        // no path at all
        "https://download.gnosisvpn.io/a/..",   // parent-dir traversal
        "https://download.gnosisvpn.io/..",     // parent-dir traversal
        "https://download.gnosisvpn.io/a/.",    // current-dir segment
        "https://download.gnosisvpn.io/%2e%2e", // percent-encoded `..`
        "data:text/plain,hi",                   // cannot-be-a-base URL, no path segments
    ];
    for url in bad {
        assert_eq!(safe(url), None, "url={url}");
    }
}

#[test]
fn mod_safe_artifact_filename_accepts_normal_basenames() {
    for (url, expected) in [
        ("https://download.gnosisvpn.io/artifact.pkg", "artifact.pkg"),
        ("https://download.gnosisvpn.io/a/b/gnosis_vpn-1.2.3.dmg", "gnosis_vpn-1.2.3.dmg"),
    ] {
        assert_eq!(safe(url).as_deref(), Some(expected), "url={url}");
    }
}

#[test]
fn mod_safe_artifact_filename_rejects_malformed_or_escaping_urls() {
    for url in [
        "https://download.gnosisvpn.io/",
        "https://download.gnosisvpn.io",
        "https://download.gnosisvpn.io/a/..",
        "https://download.gnosisvpn.io/..",
        "https://download.gnosisvpn.io/a/.",
        "https://download.gnosisvpn.io/%2e%2e",
        "data:text/plain,hi",
    ] {
        assert_eq!(safe(url), None, "url={url}");
    }
}

#[test]
fn dots_are_refused_even_if_the_parser_leaves_them() {
    let url = |path: &str| ArtifactUrl {
        text: format!("https://h{path}"),
        scheme: "https".into(),
        path: path.into(),
    };
    assert_eq!(safe_artifact_filename(&url("/a/..")), None);
    assert_eq!(safe_artifact_filename(&url("/.")), None);
    assert_eq!(safe_artifact_filename(&url("a")), None);
    assert_eq!(safe_artifact_filename(&url("/...")).as_deref(), Some("..."));
    assert_eq!(safe_artifact_filename(&url("/a/..b")).as_deref(), Some("..b"));
}

fn begin(url: &str, size: u64) -> (ArtifactDownload, ArtifactAction) {
    ArtifactDownload::new("/updates", &release(url, size, [0; 32])).step(ArtifactEvent::Begin)
}

fn failure(action: ArtifactAction) -> String {
    match action {
        ArtifactAction::Finish(Err(e)) => e.to_string(),
        other => panic!("unexpected {other:?}"),
    }
}

/// A download that has come as far as fetching the bytes.
fn fetching(size: u64) -> ArtifactDownload {
    let (d, a) = begin("https://h/a/x.pkg", size);
    assert!(matches!(a, ArtifactAction::MakeDir));
    let (d, a) = d.step(ArtifactEvent::DirMade(Ok(())));
    assert!(matches!(a, ArtifactAction::Probe(p) if p == "/updates/x.pkg"));
    let (d, a) = d.step(ArtifactEvent::Probed(TargetKind::Missing));
    assert!(matches!(a, ArtifactAction::Measure));
    let (d, a) = d.step(ArtifactEvent::Measured(None));
    assert!(matches!(a, ArtifactAction::Create(p) if p == "/updates/x.pkg"));
    let (d, a) = d.step(ArtifactEvent::Created(Ok(())));
    assert!(matches!(a, ArtifactAction::Fetch(n) if n == size));
    d
}

#[test]
fn artifact_is_stored_in_the_download_dir() {
    let d = fetching(1000);
    let (d, a) = d.step(ArtifactEvent::Fetched(Ok(1000)));
    assert!(matches!(a, ArtifactAction::Flush));
    let (_, a) = d.step(ArtifactEvent::Flushed(Ok(())));
    match a {
        ArtifactAction::Finish(Ok(path)) => assert_eq!(path, "/updates/x.pkg"),
        other => panic!("unexpected {other:?}"),
    }
}

#[test]
fn only_https_is_downloaded() {
    let (_, a) = begin("http://h/x.pkg", 1);
    assert_eq!(failure(a), "refusing to download artifact over insecure scheme: http");
}

#[test]
fn size_counts_only_once_the_rest_has_passed() {
    let (_, a) = begin("http://h/x.pkg", u64::MAX);
    assert_eq!(failure(a), "refusing to download artifact over insecure scheme: http");

    let (d, _) = begin("https://h/a/", u64::MAX);
    let (_, a) = d.step(ArtifactEvent::DirMade(Ok(())));
    assert_eq!(failure(a), "manifest download URL has no safe artifact filename: https://h/a/");

    let (d, _) = begin("https://h/x", u64::MAX);
    let (d, _) = d.step(ArtifactEvent::DirMade(Ok(())));
    let (_, a) = d.step(ArtifactEvent::Probed(TargetKind::Symlink));
    assert_eq!(failure(a), "download path is a symlink — refusing to write");
}

#[test]
fn url_without_a_file_name_is_refused() {
    let (d, _) = begin("https://h/a/", 1);
    let (_, a) = d.step(ArtifactEvent::DirMade(Ok(())));
    assert_eq!(failure(a), "manifest download URL has no safe artifact filename: https://h/a/");
}

#[test]
fn directory_that_cannot_be_made_ends_the_download() {
    let (d, _) = begin("https://h/x", 1);
    let (_, a) = d.step(ArtifactEvent::DirMade(Err("denied".into())));
    assert_eq!(failure(a), "io: denied");
}

#[test]
fn link_is_refused_and_other_remains_are_removed() {
    let (d, _) = begin("https://h/x", 1);
    let (d, _) = d.step(ArtifactEvent::DirMade(Ok(())));
    let (_, a) = d.step(ArtifactEvent::Probed(TargetKind::Symlink));
    assert_eq!(failure(a), "download path is a symlink — refusing to write");

    let (d, _) = begin("https://h/x", 1);
    let (d, _) = d.step(ArtifactEvent::DirMade(Ok(())));
    let (d, a) = d.step(ArtifactEvent::Probed(TargetKind::Other));
    assert!(matches!(a, ArtifactAction::Clear(p) if p == "/updates/x"));
    let (_, a) = d.step(ArtifactEvent::Cleared);
    assert!(matches!(a, ArtifactAction::Measure));
}

#[test]
fn disk_has_to_have_room_to_spare() {
    assert_eq!(FREE_SPACE_HEADROOM, 500 * 1024 * 1024);
    let measured = |free| {
        let (d, _) = begin("https://h/x", 1000);
        let (d, _) = d.step(ArtifactEvent::DirMade(Ok(())));
        let (d, _) = d.step(ArtifactEvent::Probed(TargetKind::Missing));
        d.step(ArtifactEvent::Measured(free)).1
    };
    assert_eq!(
        failure(measured(Some(524_288_999))),
        "not enough disk space: need 524289000, free 524288999"
    );
    assert!(matches!(measured(Some(524_289_000)), ArtifactAction::Create(_)));
    assert!(matches!(measured(None), ArtifactAction::Create(_)));
    assert_eq!(free_bytes(true, 10, 4096), Some(40960));
    assert_eq!(free_bytes(false, 10, 4096), None);
}

#[test]
fn failed_or_short_transfer_leaves_no_file() {
    let (d, a) = fetching(1000).step(ArtifactEvent::Fetched(Err(DownloadError::Http("e".into()))));
    assert!(matches!(a, ArtifactAction::Discard));
    let (_, a) = d.step(ArtifactEvent::Discarded);
    assert_eq!(failure(a), "http: e");

    let (d, _) = fetching(1000).step(ArtifactEvent::Fetched(Ok(999)));
    let (d, a) = d.step(ArtifactEvent::Flushed(Ok(())));
    assert!(matches!(a, ArtifactAction::Discard));
    let (_, a) = d.step(ArtifactEvent::Discarded);
    assert_eq!(failure(a), "manifest size 1000 but downloaded 999");

    let (d, _) = fetching(1000).step(ArtifactEvent::Fetched(Ok(1000)));
    let (_, a) = d.step(ArtifactEvent::Flushed(Err("disk".into())));
    assert_eq!(failure(a), "io: disk");
}

#[test]
fn size_that_is_not_known_is_not_compared() {
    let (d, _) = fetching(0).step(ArtifactEvent::Fetched(Ok(7)));
    let (_, a) = d.step(ArtifactEvent::Flushed(Ok(())));
    assert!(matches!(a, ArtifactAction::Finish(Ok(_))));
}

#[test]
fn file_that_cannot_be_created_ends_the_download() {
    let (d, _) = begin("https://h/x", 1);
    let (d, _) = d.step(ArtifactEvent::DirMade(Ok(())));
    let (d, _) = d.step(ArtifactEvent::Probed(TargetKind::Missing));
    let (d, _) = d.step(ArtifactEvent::Measured(None));
    let (_, a) = d.step(ArtifactEvent::Created(Err("exists".into())));
    assert_eq!(failure(a), "io: exists");
}

/// The SHA-256 digest of the three bytes `abc`.
const ABC: [u8; 32] = [
    0xba, 0x78, 0x16, 0xbf, 0x8f, 0x01, 0xcf, 0xea, 0x41, 0x41, 0x40, 0xde, 0x5d, 0xae, 0x22, 0x23,
    0xb0, 0x03, 0x61, 0xa3, 0x96, 0x17, 0x7a, 0x9c, 0xb4, 0x10, 0xff, 0x61, 0xf2, 0x00, 0x15, 0xad,
];

#[test]
fn digest_is_taken_over_all_the_bytes() {
    let promised = release("https://h/x", 3, ABC);
    let mut hasher = ArtifactHasher::new();
    hasher.update(b"abc");
    assert_eq!(hasher.verify(&promised), Ok(()));

    // In pieces it is the same.
    let mut hasher = ArtifactHasher::new();
    hasher.update(b"a");
    hasher.update(b"");
    hasher.update(b"bc");
    assert_eq!(hasher.verify(&promised), Ok(()));

    let mut hasher = ArtifactHasher::new();
    hasher.update(b"abd");
    assert_eq!(
        hasher.verify(&promised),
        Err("sha256 mismatch: expected ba7816bf8f01cfea414140de5dae2223b00361a396177a9cb410ff61f20015ad, got a52d159f262b2c6ddb724a61840befc36eb30c88877a4030b65cbe86298449c9".to_string())
    );
    assert_eq!(
        ArtifactHasher::new().verify(&promised),
        Err("sha256 mismatch: expected ba7816bf8f01cfea414140de5dae2223b00361a396177a9cb410ff61f20015ad, got e3b0c44298fc1c149afbf4c8996fb92427ae41e4649b934ca495991b7852b855".to_string())
    );
}

#[test]
fn digest_that_differs_in_one_byte_is_refused() {
    let promised = release("https://h/x", 3, ABC);
    assert_eq!(verify_digest(&gnosis_vpn_update::manifest::Hash(ABC), &promised), Ok(()));
    for i in 0..32 {
        let mut other = ABC;
        other[i] ^= 1;
        assert!(verify_digest(&gnosis_vpn_update::manifest::Hash(other), &promised).is_err());
    }
}

#[test]
fn installer_is_given_the_choices_to_pin() {
    assert_eq!(
        installer_arguments("/u/x.pkg", None),
        ["-pkg", "/u/x.pkg", "-target", "/"]
    );
    assert_eq!(
        installer_arguments("/u/x.pkg", Some("/u/c.xml")),
        ["-pkg", "/u/x.pkg", "-target", "/", "-applyChoiceChangesXML", "/u/c.xml"]
    );
}

#[test]
fn installer_failure_tells_what_it_wrote() {
    let run = |success, stdout: &str, stderr: &str| {
        install(InstallerRun::Exited(CommandOutput {
            success,
            code: Some(1),
            status: "exit status: 1".into(),
            stdout: stdout.into(),
            stderr: stderr.into(),
        }))
    };
    assert_eq!(run(true, "x", "y"), Ok(()));
    assert_eq!(run(false, " a\n", " b\n"), Err("installer exited with exit status: 1: a | b".into()));
    assert_eq!(run(false, "a", " "), Err("installer exited with exit status: 1: a".into()));
    assert_eq!(run(false, "", "b"), Err("installer exited with exit status: 1: b".into()));
    assert_eq!(
        run(false, "", ""),
        Err("installer exited with exit status: 1: no output; see /var/log/install.log".into())
    );
    assert_eq!(
        install(InstallerRun::SpawnFailed("e".into())),
        Err("installer spawn failed: e".into())
    );
    assert_eq!(
        install(InstallerRun::WaitFailed("e".into())),
        Err("installer wait failed: e".into())
    );
}
