//! Versions and the gates on them.

use std::cmp::Ordering;

use gnosis_vpn_update::manifest::{ArtifactUrl, Channel, ChannelRelease, Timestamp};
use gnosis_vpn_update::update::upgrade;
use gnosis_vpn_update::update::{
    channel_of_version, compare_components, ensure_installable, GateError,
};

fn release(version: &str, min_app: &str, min_os: &str) -> ChannelRelease {
    ChannelRelease {
        version: version.to_string(),
        published_at: Timestamp { secs: 1_704_067_200, nanos: 0 },
        download_url: ArtifactUrl::parse("https://download.gnosisvpn.io/artifact.pkg").unwrap(),
        size_bytes: 10_000_000,
        sha256: gnosis_vpn_update::manifest::Hash([0u8; 32]),
        artifact_signature: String::new(),
        release_notes: String::new(),
        min_os_version: min_os.to_string(),
        min_app_version: min_app.to_string(),
    }
}

#[test]
fn compare_components_handles_app_and_snapshot_versions() {
    assert_eq!(compare_components("0.86.1", "0.86.0"), Ordering::Greater);
    assert_eq!(compare_components("0.86.0", "0.86.0"), Ordering::Equal);
    assert_eq!(compare_components("0.85.0", "0.86.0"), Ordering::Less);
    // date-based snapshot version with build metadata
    assert_eq!(
        compare_components("2026.04.24+build.030922", "2026.04.24+build.030921"),
        Ordering::Greater,
    );
    assert_eq!(
        compare_components("2026.04.25+build.000001", "2026.04.24+build.999999"),
        Ordering::Greater,
    );
}

#[test]
fn mod_compare_components_handles_app_and_snapshot_versions() {
    assert_eq!(compare_components("0.86.1", "0.86.0"), Ordering::Greater);
    assert_eq!(compare_components("0.86.0", "0.86.0"), Ordering::Equal);
    assert_eq!(compare_components("0.85.0", "0.86.0"), Ordering::Less);
    // date-based snapshot version with build metadata
    assert_eq!(
        compare_components("2026.04.24+build.030922", "2026.04.24+build.030921"),
        Ordering::Greater,
    );
    assert_eq!(
        compare_components("2026.04.25+build.000001", "2026.04.24+build.999999"),
        Ordering::Greater,
    );
}

#[test]
fn components_that_are_no_numbers_count_as_zero() {
    assert_eq!(compare_components("1.x", "1.0"), Ordering::Equal);
    assert_eq!(compare_components("1.x", "1"), Ordering::Equal);
    assert_eq!(compare_components("1.-3", "1.0.3"), Ordering::Equal);
    assert_eq!(compare_components("", "0.0.0"), Ordering::Equal);
    assert_eq!(compare_components("a.b.c", "0"), Ordering::Equal);
    assert_eq!(compare_components("1+2", "1.2"), Ordering::Equal);
    // The largest component, and the one after it, which is none.
    assert_eq!(
        compare_components("18446744073709551615", "18446744073709551614"),
        Ordering::Greater
    );
    assert_eq!(compare_components("18446744073709551616", "1"), Ordering::Less);
}

#[test]
fn shorter_version_is_filled_up_with_zeros() {
    assert_eq!(compare_components("1.2", "1.2.0"), Ordering::Equal);
    assert_eq!(compare_components("1.2", "1.2.0.1"), Ordering::Less);
    assert_eq!(compare_components("1.10", "1.9"), Ordering::Greater);
}

#[test]
fn version_order_is_an_order() {
    let versions = ["", "0", "0.1", "0.86.0", "0.86", "1", "2026.04.24+build.030921", "x"];
    for a in versions {
        assert_eq!(compare_components(a, a), Ordering::Equal);
        for b in versions {
            assert_eq!(compare_components(a, b), compare_components(b, a).reverse());
            for c in versions {
                if compare_components(a, b) != Ordering::Greater
                    && compare_components(b, c) != Ordering::Greater
                {
                    assert!(compare_components(a, c) != Ordering::Greater);
                }
            }
        }
    }
}

#[test]
fn channel_of_version_detects_snapshot_build_metadata() {
    assert_eq!(channel_of_version("0.91.1"), Channel::Stable);
    assert_eq!(channel_of_version("2026.06.06+build.000005"), Channel::Snapshot);
    // Registry-slugged forms replace `+` with `-`; still not stable.
    assert_eq!(channel_of_version("2026.06.06-build.000005"), Channel::Snapshot);
    assert_eq!(channel_of_version("0.81.2-pr.305"), Channel::Snapshot);
    assert_eq!(channel_of_version("0.81.2+commit.abc1234"), Channel::Snapshot);
    // Degenerate values must not be mistaken for a stable release.
    assert_eq!(channel_of_version(""), Channel::Snapshot);
    assert_eq!(channel_of_version("0..1"), Channel::Snapshot);
}

#[test]
fn channel_of_version_detects_experimental_segment() {
    assert_eq!(
        channel_of_version("2026.09.20+build.144124.experimental"),
        Channel::Experimental
    );
    assert_eq!(
        channel_of_version("2026.09.20-build.144124.experimental"),
        Channel::Experimental
    );
    // Only a whole segment names the channel.
    assert_eq!(channel_of_version("2026.09.20+experimental1"), Channel::Snapshot);
}

#[test]
fn ensure_installable_skips_version_gates_across_channels() {
    // On snapshot, switching to stable is always allowed — even to a
    // release that would compare as a downgrade or already-installed.
    let r = release("0.85.0", "0.80.0", "0.0");
    assert!(ensure_installable(&r, "2026.06.06+build.000005", Channel::Stable, false).is_ok());

    // On stable, switching to snapshot is likewise ungated, including the
    // min-app gate (its version scheme is incomparable across channels).
    let r = release("2026.06.06+build.000005", "2026.01.01+build.000001", "0.0");
    assert!(ensure_installable(&r, "0.86.0", Channel::Snapshot, false).is_ok());
}

#[test]
fn ensure_installable_gates_within_snapshot_channel() {
    let r = release("2026.06.06+build.000005", "0.0", "0.0");
    let err = ensure_installable(&r, "2026.06.06+build.000005", Channel::Snapshot, false).unwrap_err();
    assert!(matches!(err, GateError::AlreadyInstalled { .. }));
    let err = ensure_installable(&r, "2026.07.01+build.000001", Channel::Snapshot, false).unwrap_err();
    assert!(matches!(err, GateError::Downgrade { .. }));
    let ord = ensure_installable(&r, "2026.05.01+build.000009", Channel::Snapshot, false).unwrap();
    assert_eq!(ord, Ordering::Greater);
}

#[test]
fn ensure_installable_rejects_downgrade_unless_allowed() {
    let r = release("0.85.0", "0.80.0", "0.0");
    let err = ensure_installable(&r, "0.86.0", Channel::Stable, false).unwrap_err();
    assert!(matches!(err, GateError::Downgrade { .. }));
    let ord = ensure_installable(&r, "0.86.0", Channel::Stable, true).unwrap();
    assert_eq!(ord, Ordering::Less);
}

#[test]
fn ensure_installable_rejects_when_app_too_old() {
    let r = release("1.0.0", "0.90.0", "0.0");
    let err = ensure_installable(&r, "0.86.0", Channel::Stable, false).unwrap_err();
    assert!(matches!(err, GateError::AppTooOld { .. }));
}

#[test]
fn ensure_installable_ignores_min_os_version() {
    let r = release("0.87.0", "0.80.0", "22.04");
    let ord = ensure_installable(&r, "0.86.0", Channel::Stable, false).unwrap();
    assert_eq!(ord, Ordering::Greater);
}

#[test]
fn ensure_installable_rejects_same_version() {
    let r = release("0.86.0", "0.80.0", "0.0");
    let err = ensure_installable(&r, "0.86.0", Channel::Stable, false).unwrap_err();
    assert!(matches!(err, GateError::AlreadyInstalled { .. }));
}

#[test]
fn ensure_installable_accepts_upgrade() {
    let r = release("0.87.0", "0.80.0", "0.0");
    let ord = ensure_installable(&r, "0.86.0", Channel::Stable, false).unwrap();
    assert_eq!(ord, Ordering::Greater);
}

#[test]
fn mod_ensure_installable_rejects_downgrade_unless_allowed() {
    let r = release("0.85.0", "0.80.0", "0.0");
    let err = upgrade::ensure_installable(&r, "0.86.0", false).unwrap_err();
    assert!(matches!(err, GateError::Downgrade { .. }));
    let ord = upgrade::ensure_installable(&r, "0.86.0", true).unwrap();
    assert_eq!(ord, Ordering::Less);
}

#[test]
fn mod_ensure_installable_rejects_when_app_too_old() {
    let r = release("1.0.0", "0.90.0", "0.0");
    let err = upgrade::ensure_installable(&r, "0.86.0", false).unwrap_err();
    assert!(matches!(err, GateError::AppTooOld { .. }));
}

#[test]
fn mod_ensure_installable_ignores_min_os_version() {
    let r = release("0.87.0", "0.80.0", "22.04");
    let ord = upgrade::ensure_installable(&r, "0.86.0", false).unwrap();
    assert_eq!(ord, Ordering::Greater);
}

#[test]
fn mod_ensure_installable_rejects_same_version() {
    let r = release("0.86.0", "0.80.0", "0.0");
    let err = upgrade::ensure_installable(&r, "0.86.0", false).unwrap_err();
    assert!(matches!(err, GateError::AlreadyInstalled { .. }));
}

#[test]
fn mod_ensure_installable_accepts_upgrade() {
    let r = release("0.87.0", "0.80.0", "0.0");
    let ord = upgrade::ensure_installable(&r, "0.86.0", false).unwrap();
    assert_eq!(ord, Ordering::Greater);
}

#[test]
fn gate_errors_name_the_versions() {
    let r = release("1.0.0", "0.90.0", "0.0");
    assert_eq!(
        ensure_installable(&r, "0.86.0", Channel::Stable, false).unwrap_err().to_string(),
        "Candidate 1.0.0 requires app 0.90.0 (have 0.86.0); upgrade to an intermediate first"
    );
    let r = release("0.85.0", "0.80.0", "0.0");
    assert_eq!(
        ensure_installable(&r, "0.86.0", Channel::Stable, false).unwrap_err().to_string(),
        "Candidate 0.85.0 is older than installed 0.86.0; pass --allow-downgrade to override"
    );
    let r = release("0.86.0", "0.80.0", "0.0");
    assert_eq!(
        ensure_installable(&r, "0.86.0", Channel::Stable, false).unwrap_err().to_string(),
        "Candidate 0.86.0 is already installed"
    );
    assert_eq!(
        GateError::NoReleaseForChannel(Channel::Snapshot).to_string(),
        "Channel snapshot has no release in this manifest"
    );
}
