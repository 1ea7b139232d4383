//! The update manifest: its types, where it is fetched from, and what its
//! fetch comes to.

use vstd::prelude::*;
use vstd::string::StringExecFns;

use crate::foreign::{join_url, parse_url, url_joined, url_parsed};

verus! {

/// A moment: seconds and nanoseconds since the start of 1970 in UTC.
#[derive(Clone, Copy, Debug, PartialEq, Eq, Structural)]
pub struct Timestamp {
    pub secs: i64,
    pub nanos: u32,
}

/// A SHA-256 digest.
#[derive(Clone, Copy, Debug, PartialEq, Eq)]
pub struct Hash(pub [u8; 32]);

/// The digit of base sixteen that stands for `n`, in lower case.
pub open spec fn hex_digit(n: nat) -> char {
    if n < 10 {
        ('0' as int + n) as char
    } else {
        ('a' as int + (n - 10)) as char
    }
}

/// Bytes in base sixteen: two digits for each, in lower case.
pub open spec fn hex(bytes: Seq<u8>) -> Seq<char>
    decreases bytes.len(),
{
    if bytes.len() == 0 {
        Seq::empty()
    } else {
        hex(bytes.drop_last()).push(hex_digit((bytes.last() / 16) as nat)).push(
            hex_digit((bytes.last() % 16) as nat),
        )
    }
}

/// The digit of base sixteen that stands for `n`, as text.
fn hex_digit_text(n: u8) -> (r: &'static str)
    requires
        n < 16,
    ensures
        r@ == seq![hex_digit(n as nat)],
{
    proof {
        reveal_strlit("0");
        reveal_strlit("1");
        reveal_strlit("2");
        reveal_strlit("3");
        reveal_strlit("4");
        reveal_strlit("5");
        reveal_strlit("6");
        reveal_strlit("7");
        reveal_strlit("8");
        reveal_strlit("9");
        reveal_strlit("a");
        reveal_strlit("b");
        reveal_strlit("c");
        reveal_strlit("d");
        reveal_strlit("e");
        reveal_strlit("f");
    }
    let r = match n {
        0 => "0",
        1 => "1",
        2 => "2",
        3 => "3",
        4 => "4",
        5 => "5",
        6 => "6",
        7 => "7",
        8 => "8",
        9 => "9",
        10 => "a",
        11 => "b",
        12 => "c",
        13 => "d",
        14 => "e",
        _ => "f",
    };
    assert(r@ =~= seq![hex_digit(n as nat)]);
    r
}

/// Different digests are written differently: from the text the bytes can be
/// told.
pub proof fn law_hex_tells_bytes(a: Seq<u8>, b: Seq<u8>)
    requires
        hex(a) == hex(b),
    ensures
        a == b,
    decreases a.len(),
{
    if a.len() == 0 || b.len() == 0 {
        assert(a.len() == 0 ==> hex(a).len() == 0);
        assert(b.len() == 0 ==> hex(b).len() == 0);
        assert(a =~= b);
    } else {
        let x = hex(a);
        let y = hex(b);
        assert(x.drop_last().drop_last() == hex(a.drop_last()));
        assert(y.drop_last().drop_last() == hex(b.drop_last()));
        assert(x[x.len() - 1] == hex_digit((a.last() % 16) as nat));
        assert(y[y.len() - 1] == hex_digit((b.last() % 16) as nat));
        assert(x[x.len() - 2] == hex_digit((a.last() / 16) as nat));
        assert(y[y.len() - 2] == hex_digit((b.last() / 16) as nat));
        law_hex_tells_bytes(a.drop_last(), b.drop_last());
        assert(a.last() == b.last());
        assert(a =~= a.drop_last().push(a.last()));
        assert(b =~= b.drop_last().push(b.last()));
    }
}

impl Hash {
    /// The digest in base sixteen.
    pub fn to_string(&self) -> (r: String)
        ensures
            r@ == hex(self.0@),
    {
        let mut out = String::new();
        let mut i: usize = 0;
        assert(self.0@.take(0) == Seq::<u8>::empty());
        while i < 32
            invariant
                i <= 32,
                self.0@.len() == 32,
                out@ == hex(self.0@.take(i as int)),
            decreases 32 - i,
        {
            let b = self.0[i];
            let high = hex_digit_text(b / 16);
            let low = hex_digit_text(b % 16);
            let ghost before = out@;
            out.append(high);
            out.append(low);
            assert(self.0@.take(i + 1).drop_last() == self.0@.take(i as int));
            assert(out@ =~= before.push(hex_digit((b / 16) as nat)).push(
                hex_digit((b % 16) as nat),
            ));
            i = i + 1;
        }
        assert(self.0@.take(32) == self.0@);
        out
    }

    /// Tests whether two digests are the same.
    pub fn same(&self, other: &Hash) -> (r: bool)
        ensures
            r == (self.0@ == other.0@),
    {
        let mut i: usize = 0;
        while i < 32
            invariant
                i <= 32,
                self.0@.len() == 32,
                other.0@.len() == 32,
                forall|j: int| 0 <= j < i ==> self.0@[j] == other.0@[j],
            decreases 32 - i,
        {
            if self.0[i] != other.0[i] {
                assert(self.0@[i as int] != other.0@[i as int]);
                return false;
            }
            i = i + 1;
        }
        assert(self.0@ =~= other.0@);
        true
    }
}

/// Release channel: which entry of a manifest is meant.
#[derive(Clone, Copy, Debug, PartialEq, Eq, Structural)]
pub enum Channel {
    Stable,
    Snapshot,
    Experimental,
}

impl Channel {
    /// The channel's name, as manifests write it.
    pub open spec fn name(self) -> Seq<char> {
        match self {
            Channel::Stable => "stable"@,
            Channel::Snapshot => "snapshot"@,
            Channel::Experimental => "experimental"@,
        }
    }

    /// The channel's name, as it is shown to people.
    pub open spec fn title(self) -> Seq<char> {
        match self {
            Channel::Stable => "Stable"@,
            Channel::Snapshot => "Snapshot"@,
            Channel::Experimental => "Experimental"@,
        }
    }

    /// The channel's name, as manifests write it.
    pub fn to_str(self) -> (r: &'static str)
        ensures
            r@ == self.name(),
    {
        match self {
            Channel::Stable => "stable",
            Channel::Snapshot => "snapshot",
            Channel::Experimental => "experimental",
        }
    }

    /// The channel's name, as it is shown to people.
    pub fn to_title(self) -> (r: &'static str)
        ensures
            r@ == self.title(),
    {
        match self {
            Channel::Stable => "Stable",
            Channel::Snapshot => "Snapshot",
            Channel::Experimental => "Experimental",
        }
    }

    /// The channel's name, as manifests write it.
    pub fn to_string(self) -> (r: String)
        ensures
            r@ == self.name(),
    {
        self.to_str().to_owned()
    }
}

/// A URL, as far as the updater reads it.
#[derive(Debug, PartialEq, Eq)]
pub struct ArtifactUrl {
    /// The whole URL.
    pub text: String,
    /// The scheme, without the colon.
    pub scheme: String,
    /// The path.
    pub path: String,
}

/// What an [`ArtifactUrl`] says.
pub struct ArtifactUrlView {
    pub text: Seq<char>,
    pub scheme: Seq<char>,
    pub path: Seq<char>,
}

impl View for ArtifactUrl {
    type V = ArtifactUrlView;

    open spec fn view(&self) -> ArtifactUrlView {
        ArtifactUrlView { text: self.text@, scheme: self.scheme@, path: self.path@ }
    }
}

impl Clone for ArtifactUrl {
    fn clone(&self) -> (r: ArtifactUrl)
        ensures
            r@ == self@,
    {
        ArtifactUrl {
            text: self.text.clone(),
            scheme: self.scheme.clone(),
            path: self.path.clone(),
        }
    }
}

impl ArtifactUrl {
    /// Reads a URL.
    pub fn parse(text: &str) -> (r: Result<ArtifactUrl, String>)
        ensures
            match r {
                Ok(url) => url_parsed(text@) == Ok::<(Seq<char>, Seq<char>, Seq<char>), Seq<char>>(
                    (url@.text, url@.scheme, url@.path),
                ),
                Err(e) => url_parsed(text@) == Err::<(Seq<char>, Seq<char>, Seq<char>), Seq<char>>(
                    e@,
                ),
            },
    {
        parse_url(text)
    }
}

/// One release, as a manifest describes it.
#[derive(Debug)]
pub struct ChannelRelease {
    pub version: String,
    pub published_at: Timestamp,
    pub download_url: ArtifactUrl,
    /// The size of the artifact in bytes; zero where it is not known.
    pub size_bytes: u64,
    pub sha256: Hash,
    pub artifact_signature: String,
    pub release_notes: String,
    pub min_os_version: String,
    pub min_app_version: String,
}

/// What a [`ChannelRelease`] says.
pub struct ReleaseView {
    pub version: Seq<char>,
    pub published_at: Timestamp,
    pub download_url: ArtifactUrlView,
    pub size_bytes: u64,
    pub sha256: Seq<u8>,
    pub artifact_signature: Seq<char>,
    pub release_notes: Seq<char>,
    pub min_os_version: Seq<char>,
    pub min_app_version: Seq<char>,
}

impl View for ChannelRelease {
    type V = ReleaseView;

    open spec fn view(&self) -> ReleaseView {
        ReleaseView {
            version: self.version@,
            published_at: self.published_at,
            download_url: self.download_url@,
            size_bytes: self.size_bytes,
            sha256: self.sha256.0@,
            artifact_signature: self.artifact_signature@,
            release_notes: self.release_notes@,
            min_os_version: self.min_os_version@,
            min_app_version: self.min_app_version@,
        }
    }
}

impl Clone for ChannelRelease {
    fn clone(&self) -> (r: ChannelRelease)
        ensures
            r@ == self@,
    {
        ChannelRelease {
            version: self.version.clone(),
            published_at: self.published_at,
            download_url: self.download_url.clone(),
            size_bytes: self.size_bytes,
            sha256: self.sha256,
            artifact_signature: self.artifact_signature.clone(),
            release_notes: self.release_notes.clone(),
            min_os_version: self.min_os_version.clone(),
            min_app_version: self.min_app_version.clone(),
        }
    }
}

/// What an optional release says.
pub open spec fn release_view(release: Option<ChannelRelease>) -> Option<ReleaseView> {
    match release {
        Some(r) => Some(r@),
        None => None,
    }
}

/// The releases of a manifest, one for each channel at most.
#[derive(Debug)]
pub struct ManifestChannels {
    pub stable: Option<ChannelRelease>,
    pub snapshot: Option<ChannelRelease>,
    pub experimental: Option<ChannelRelease>,
}

/// An update manifest.
#[derive(Debug)]
pub struct Manifest {
    pub schema_version: u32,
    pub generated_at: String,
    pub channels: ManifestChannels,
}

/// What a [`Manifest`] says.
pub struct ManifestView {
    pub schema_version: u32,
    pub generated_at: Seq<char>,
    pub stable: Option<ReleaseView>,
    pub snapshot: Option<ReleaseView>,
    pub experimental: Option<ReleaseView>,
}

impl View for Manifest {
    type V = ManifestView;

    open spec fn view(&self) -> ManifestView {
        ManifestView {
            schema_version: self.schema_version,
            generated_at: self.generated_at@,
            stable: release_view(self.channels.stable),
            snapshot: release_view(self.channels.snapshot),
            experimental: release_view(self.channels.experimental),
        }
    }
}

impl ManifestView {
    /// The release of `channel`, if the manifest has one.
    pub open spec fn release_of(self, channel: Channel) -> Option<ReleaseView> {
        match channel {
            Channel::Stable => self.stable,
            Channel::Snapshot => self.snapshot,
            Channel::Experimental => self.experimental,
        }
    }
}

impl Manifest {
    /// The release of `channel`, if the manifest has one.
    pub fn pick(&self, channel: Channel) -> (r: Option<&ChannelRelease>)
        ensures
            match r {
                Some(release) => self@.release_of(channel) == Some(release@),
                None => self@.release_of(channel) is None,
            },
    {
        match channel {
            Channel::Stable => self.channels.stable.as_ref(),
            Channel::Snapshot => self.channels.snapshot.as_ref(),
            Channel::Experimental => self.channels.experimental.as_ref(),
        }
    }
}

/// Why no manifest could be had.
#[derive(Debug)]
pub enum Error {
    /// What was fetched is not a manifest.
    Integrity(String),
    /// Anything else.
    Other(String),
}

/// What an [`Error`] says.
pub enum ErrorView {
    Integrity(Seq<char>),
    Other(Seq<char>),
}

impl View for Error {
    type V = ErrorView;

    open spec fn view(&self) -> ErrorView {
        match self {
            Error::Integrity(m) => ErrorView::Integrity(m@),
            Error::Other(m) => ErrorView::Other(m@),
        }
    }
}

/// How an error about a manifest that is not to be trusted starts.
pub const INTEGRITY_ERROR: &'static str = "Manifest integrity error: ";

impl ErrorView {
    /// How the error is worded.
    pub open spec fn text(self) -> Seq<char> {
        match self {
            ErrorView::Integrity(m) => INTEGRITY_ERROR@ + m,
            ErrorView::Other(m) => "Update check error: "@ + m,
        }
    }
}

impl Error {
    /// How the error is worded.
    pub fn to_string(&self) -> (r: String)
        ensures
            r@ == self@.text(),
    {
        match self {
            Error::Integrity(m) => INTEGRITY_ERROR.to_owned().concat(m.as_str()),
            Error::Other(m) => "Update check error: ".to_owned().concat(m.as_str()),
        }
    }
}

/// The platforms that manifests are published for.
#[derive(Clone, Copy, Debug, PartialEq, Eq, Structural)]
pub enum Platform {
    MacosArm64,
    LinuxAmd64,
    LinuxArm64,
}

impl Platform {
    /// The file name of the platform's manifest.
    pub open spec fn manifest_name(self) -> Seq<char> {
        match self {
            Platform::MacosArm64 => "macos-arm64.json"@,
            Platform::LinuxAmd64 => "linux-amd64.json"@,
            Platform::LinuxArm64 => "linux-arm64.json"@,
        }
    }

    /// The file name of the platform's manifest.
    pub fn manifest_filename(self) -> (r: &'static str)
        ensures
            r@ == self.manifest_name(),
    {
        match self {
            Platform::MacosArm64 => "macos-arm64.json",
            Platform::LinuxAmd64 => "linux-amd64.json",
            Platform::LinuxArm64 => "linux-arm64.json",
        }
    }

    /// The file name of the signature of the platform's manifest.
    pub fn signature_filename(self) -> (r: String)
        ensures
            r@ == self.manifest_name() + ".asc"@,
    {
        self.manifest_filename().to_owned().concat(".asc")
    }
}

/// The host that the manifest of `channel` is read from: the ENS/IPFS gateway
/// for stable, and the origin, which the gateway lags behind, for the others.
pub open spec fn base_url_of(channel: Channel) -> Seq<char> {
    match channel {
        Channel::Stable => "https://download.vpn.gnosis.eth.limo/manifests/"@,
        Channel::Snapshot => "https://download.gnosisvpn.io/manifests/"@,
        Channel::Experimental => "https://download.gnosisvpn.io/manifests/"@,
    }
}

/// Which host to read the manifest from. Stable, the channel that users run,
/// comes off the gateway, so that it does not depend on one host; the others
/// come off the origin, where they were published minutes ago.
pub fn base_url(channel: Channel) -> (r: &'static str)
    ensures
        r@ == base_url_of(channel),
{
    match channel {
        Channel::Stable => "https://download.vpn.gnosis.eth.limo/manifests/",
        Channel::Snapshot => "https://download.gnosisvpn.io/manifests/",
        Channel::Experimental => "https://download.gnosisvpn.io/manifests/",
    }
}

/// Where a manifest and its signature are.
#[derive(Debug)]
pub struct ManifestUrls {
    pub manifest: String,
    pub signature: String,
}

/// The URLs of the manifest and of its signature for `platform`, on the host
/// that serves `channel`. The manifest holds every channel either way.
pub fn manifest_urls(platform: Platform, channel: Channel) -> (r: Result<ManifestUrls, Error>)
    ensures
        ({
            let base = base_url_of(channel);
            let manifest = url_joined(base, platform.manifest_name());
            let signature = url_joined(base, platform.manifest_name() + ".asc"@);
            match r {
                Ok(urls) => manifest == Ok::<Seq<char>, Seq<char>>(urls.manifest@) && signature
                    == Ok::<Seq<char>, Seq<char>>(urls.signature@),
                Err(e) => if manifest is Err {
                    e@ == ErrorView::Other(manifest->Err_0)
                } else {
                    signature is Err && e@ == ErrorView::Other(signature->Err_0)
                },
            }
        }),
{
    let base = base_url(channel);
    let manifest = match join_url(base, platform.manifest_filename()) {
        Ok(url) => url,
        Err(e) => return Err(Error::Other(e)),
    };
    let signature_name = platform.signature_filename();
    let signature = match join_url(base, signature_name.as_str()) {
        Ok(url) => url,
        Err(e) => return Err(Error::Other(e)),
    };
    Ok(ManifestUrls { manifest, signature })
}

/// How long a request for a manifest may take, in seconds.
pub const REQUEST_TIMEOUT: u64 = 30;

/// What reading a manifest gave: one that cannot be read is not trusted.
///
/// Signatures are fetched but not verified, so they take no part.
pub fn verify_and_parse(parsed: Result<Manifest, String>) -> (r: Result<Manifest, Error>)
    ensures
        match parsed {
            Ok(manifest) => r == Ok::<Manifest, Error>(manifest),
            Err(e) => r matches Err(error) && error@ == ErrorView::Integrity(e@),
        },
{
    match parsed {
        Ok(manifest) => Ok(manifest),
        Err(e) => Err(Error::Integrity(e)),
    }
}

/// What the download of a manifest waits for.
#[derive(Clone, Copy, Debug, PartialEq, Eq, Structural)]
pub enum ManifestPhase {
    /// To be begun.
    New,
    /// The manifest's bytes.
    FetchingManifest,
    /// The signature's bytes.
    FetchingSignature,
    /// The manifest to be read from its bytes.
    Parsing,
    /// Nothing: the download is over.
    Over,
}

/// The download of a manifest and its signature.
#[derive(Debug)]
pub struct ManifestDownload {
    platform: Platform,
    channel: Channel,
    phase: ManifestPhase,
}

/// Where the download of a manifest stands.
pub struct ManifestDownloadView {
    pub platform: Platform,
    pub channel: Channel,
    pub phase: ManifestPhase,
}

impl View for ManifestDownload {
    type V = ManifestDownloadView;

    closed spec fn view(&self) -> ManifestDownloadView {
        ManifestDownloadView { platform: self.platform, channel: self.channel, phase: self.phase }
    }
}

/// What came of an action.
#[derive(Debug)]
pub enum ManifestEvent {
    Begin,
    /// The bytes were fetched, or could not be.
    Fetched(Result<(), String>),
    /// The manifest was read from its bytes, or could not be.
    Parsed(Result<Manifest, String>),
}

/// What has to be done next.
#[derive(Debug)]
pub enum ManifestAction {
    /// Fetch the manifest, which is at the URL, within the time for a request.
    FetchManifest(String),
    /// Fetch its signature, which is at the URL, within the time for a request.
    FetchSignature(String),
    /// Read the manifest from its bytes.
    Parse,
    /// Stop, with the manifest or why there is none.
    Finish(Result<Manifest, Error>),
}

/// Starts the download of the manifest for `platform` from the host that serves
/// `channel`.
pub fn download(platform: Platform, channel: Channel) -> (r: ManifestDownload)
    ensures
        r@ == (ManifestDownloadView { platform, channel, phase: ManifestPhase::New }),
{
    ManifestDownload { platform, channel, phase: ManifestPhase::New }
}

impl ManifestDownloadView {
    /// Whether an event is one that the download waits for.
    pub open spec fn awaits(self, event: ManifestEvent) -> bool {
        match event {
            ManifestEvent::Begin => self.phase is New,
            ManifestEvent::Fetched(_) => self.phase is FetchingManifest || self.phase
                is FetchingSignature,
            ManifestEvent::Parsed(_) => self.phase is Parsing,
        }
    }

    /// The URL of the manifest.
    pub open spec fn manifest_url(self) -> Result<Seq<char>, Seq<char>> {
        url_joined(base_url_of(self.channel), self.platform.manifest_name())
    }

    /// The URL of its signature.
    pub open spec fn signature_url(self) -> Result<Seq<char>, Seq<char>> {
        url_joined(base_url_of(self.channel), self.platform.manifest_name() + ".asc"@)
    }

    /// Whether the download answers `event` with `action` and then stands at
    /// `next`. Both files are fetched, the manifest first, before it is read; a
    /// manifest that cannot be fetched and one that cannot be read are told
    /// apart.
    pub open spec fn answers(
        self,
        event: ManifestEvent,
        next: ManifestDownloadView,
        action: ManifestAction,
    ) -> bool {
        &&& next.platform == self.platform
        &&& next.channel == self.channel
        &&& match event {
            ManifestEvent::Begin => match (self.manifest_url(), self.signature_url()) {
                (Ok(url), Ok(_)) => {
                    &&& next.phase is FetchingManifest
                    &&& action matches ManifestAction::FetchManifest(u) && u@ == url
                },
                (Err(e), _) | (_, Err(e)) => {
                    &&& next.phase is Over
                    &&& action matches ManifestAction::Finish(Err(error)) && error@
                        == ErrorView::Other(e)
                },
            },
            ManifestEvent::Fetched(Err(e)) => {
                &&& next.phase is Over
                &&& action matches ManifestAction::Finish(Err(error)) && error@
                    == ErrorView::Other(e@)
            },
            ManifestEvent::Fetched(Ok(_)) => if self.phase is FetchingManifest {
                match self.signature_url() {
                    Ok(url) => {
                        &&& next.phase is FetchingSignature
                        &&& action matches ManifestAction::FetchSignature(u) && u@ == url
                    },
                    Err(e) => {
                        &&& next.phase is Over
                        &&& action matches ManifestAction::Finish(Err(error)) && error@
                            == ErrorView::Other(e)
                    },
                }
            } else {
                next.phase is Parsing && action is Parse
            },
            ManifestEvent::Parsed(parsed) => {
                &&& next.phase is Over
                &&& match parsed {
                    Ok(manifest) => action == ManifestAction::Finish(Ok(manifest)),
                    Err(e) => action matches ManifestAction::Finish(Err(error)) && error@
                        == ErrorView::Integrity(e@),
                }
            },
        }
    }
}

impl ManifestDownload {
    /// Takes what came of the last action and says what to do next.
    pub fn step(&mut self, event: ManifestEvent) -> (r: ManifestAction)
        requires
            old(self)@.awaits(event),
        ensures
            old(self)@.answers(event, final(self)@, r),
    {
        match event {
            ManifestEvent::Begin => match manifest_urls(self.platform, self.channel) {
                Ok(urls) => {
                    self.phase = ManifestPhase::FetchingManifest;
                    ManifestAction::FetchManifest(urls.manifest)
                },
                Err(e) => {
                    self.phase = ManifestPhase::Over;
                    ManifestAction::Finish(Err(e))
                },
            },
            ManifestEvent::Fetched(Err(e)) => {
                self.phase = ManifestPhase::Over;
                ManifestAction::Finish(Err(Error::Other(e)))
            },
            ManifestEvent::Fetched(Ok(_)) => {
                if self.phase == ManifestPhase::FetchingManifest {
                    let name = self.platform.signature_filename();
                    match join_url(base_url(self.channel), name.as_str()) {
                        Ok(url) => {
                            self.phase = ManifestPhase::FetchingSignature;
                            ManifestAction::FetchSignature(url)
                        },
                        Err(e) => {
                            self.phase = ManifestPhase::Over;
                            ManifestAction::Finish(Err(Error::Other(e)))
                        },
                    }
                } else {
                    self.phase = ManifestPhase::Parsing;
                    ManifestAction::Parse
                }
            },
            ManifestEvent::Parsed(parsed) => {
                self.phase = ManifestPhase::Over;
                ManifestAction::Finish(verify_and_parse(parsed))
            },
        }
    }
}

/// Each byte of a digest is written as its two digits in base sixteen, in order.
pub proof fn law_hex_writes_each_byte(bytes: Seq<u8>, i: int)
    requires
        0 <= i < bytes.len(),
    ensures
        hex(bytes).len() == 2 * bytes.len(),
        hex(bytes)[2 * i] == "0123456789abcdef"@[bytes[i] as int / 16],
        hex(bytes)[2 * i + 1] == "0123456789abcdef"@[bytes[i] as int % 16],
    decreases bytes.len(),
{
    reveal_strlit("0123456789abcdef");
    reveal_with_fuel(hex, 2);
    if bytes.len() > 1 && i < bytes.len() - 1 {
        law_hex_writes_each_byte(bytes.drop_last(), i);
    } else if bytes.len() > 1 {
        law_hex_writes_each_byte(bytes.drop_last(), 0);
    } else {
        assert(bytes.drop_last() =~= Seq::<u8>::empty());
    }
}

/// The release of a channel is the one that the manifest has under that
/// channel's name.
pub proof fn law_each_channel_has_its_release(manifest: Manifest)
    ensures
        manifest@.release_of(Channel::Stable) == release_view(manifest.channels.stable),
        manifest@.release_of(Channel::Snapshot) == release_view(manifest.channels.snapshot),
        manifest@.release_of(Channel::Experimental) == release_view(manifest.channels.experimental),
        manifest@.schema_version == manifest.schema_version,
        manifest@.generated_at == manifest.generated_at@,
        forall|release: ChannelRelease| #[trigger] release_view(Some(release)) == Some(release@),
        release_view(None) is None,
{
}

/// The channels have different names, and only the stable one has a host of its
/// own; it differs from that of the others.
pub proof fn law_channels_are_told_apart(a: Channel, b: Channel)
    ensures
        a.name() == b.name() <==> a == b,
        a.title() == b.title() <==> a == b,
        base_url_of(a) == base_url_of(b) <==> (a is Stable <==> b is Stable),
        base_url_of(Channel::Stable) == "https://download.vpn.gnosis.eth.limo/manifests/"@,
        base_url_of(Channel::Snapshot) == "https://download.gnosisvpn.io/manifests/"@,
{
    reveal_strlit("stable");
    reveal_strlit("snapshot");
    reveal_strlit("experimental");
    reveal_strlit("Stable");
    reveal_strlit("Snapshot");
    reveal_strlit("Experimental");
    reveal_strlit("https://download.vpn.gnosis.eth.limo/manifests/");
    reveal_strlit("https://download.gnosisvpn.io/manifests/");
    assert("https://download.vpn.gnosis.eth.limo/manifests/"@.len() == 47);
    assert("https://download.gnosisvpn.io/manifests/"@.len() == 40);
    assert("stable"@.len() == 6 && "snapshot"@.len() == 8 && "experimental"@.len() == 12);
    assert("Stable"@.len() == 6 && "Snapshot"@.len() == 8 && "Experimental"@.len() == 12);
}

/// Each platform has a manifest of its own, a plain `.json` and never the
/// variant for IPFS.
pub proof fn law_platforms_have_their_manifests(a: Platform, b: Platform)
    ensures
        a.manifest_name() == b.manifest_name() <==> a == b,
        a.manifest_name().contains('.'),
        forall|i: int|
            0 <= i < a.manifest_name().len() && #[trigger] a.manifest_name()[i] == '.'
                ==> a.manifest_name().skip(i) == ".json"@,
{
    reveal_strlit("macos-arm64.json");
    reveal_strlit("linux-amd64.json");
    reveal_strlit("linux-arm64.json");
    reveal_strlit(".json");
    let name = a.manifest_name();
    assert("macos-arm64.json"@[0] == 'm' && "linux-amd64.json"@[0] == 'l');
    assert("linux-amd64.json"@[7] == 'm' && "linux-arm64.json"@[7] == 'r');
    assert("linux-arm64.json"@[0] == 'l');
    assert(name[11] == '.');
    assert(name.skip(11) =~= ".json"@);
}

/// An error is worded so that a manifest which is not to be trusted is told from
/// anything else.
pub proof fn law_errors_are_told_apart(reason: Seq<char>, other: Seq<char>)
    ensures
        ErrorView::Integrity(reason).text() == "Manifest integrity error: "@ + reason,
        ErrorView::Other(reason).text() == "Update check error: "@ + reason,
        ErrorView::Integrity(reason).text() != ErrorView::Other(other).text(),
{
    reveal_strlit("Manifest integrity error: ");
    reveal_strlit("Update check error: ");
    assert(ErrorView::Integrity(reason).text()[0] == 'M');
    assert(ErrorView::Other(other).text()[0] == 'U');
}

/// A manifest is handed out only once both files were fetched and it was read,
/// and it is the one that was read; what cannot be fetched and what cannot be
/// read are told apart, and which file is fetched next is fixed.
pub proof fn law_manifest_is_fetched_signed_and_read(
    run: ManifestDownloadView,
    event: ManifestEvent,
    next: ManifestDownloadView,
    action: ManifestAction,
)
    requires
        run.awaits(event),
        run.answers(event, next, action),
    ensures
        action matches ManifestAction::Finish(Ok(manifest)) ==> run.phase is Parsing && event
            == ManifestEvent::Parsed(Ok(manifest)),
        event matches ManifestEvent::Parsed(Ok(manifest)) ==> action == ManifestAction::Finish(
            Ok(manifest),
        ),
        event matches ManifestEvent::Parsed(Err(e)) ==> (action matches ManifestAction::Finish(
            Err(error),
        ) && error@ == ErrorView::Integrity(e@)),
        event matches ManifestEvent::Fetched(Err(e)) ==> (action matches ManifestAction::Finish(
            Err(error),
        ) && error@ == ErrorView::Other(e@)),
        action is Parse <==> run.phase is FetchingSignature && event matches ManifestEvent::Fetched(
            Ok(_),
        ),
        action matches ManifestAction::FetchManifest(url) ==> run.phase is New && url_joined(
            base_url_of(run.channel),
            run.platform.manifest_name(),
        ) == Ok::<Seq<char>, Seq<char>>(url@) && next.phase is FetchingManifest,
        action matches ManifestAction::FetchSignature(url) ==> run.phase is FetchingManifest
            && url_joined(base_url_of(run.channel), run.platform.manifest_name() + ".asc"@) == Ok::<
            Seq<char>,
            Seq<char>,
        >(url@) && next.phase is FetchingSignature,
        run.phase is New && url_joined(base_url_of(run.channel), run.platform.manifest_name()) is Ok
            && url_joined(base_url_of(run.channel), run.platform.manifest_name() + ".asc"@) is Ok
            ==> action is FetchManifest,
        run.phase is New ==> (url_joined(base_url_of(run.channel), run.platform.manifest_name())
            matches Err(e) ==> (action matches ManifestAction::Finish(Err(error)) && error@
            == ErrorView::Other(e))),
        run.phase is FetchingManifest && (event matches ManifestEvent::Fetched(Ok(_)))
            && url_joined(base_url_of(run.channel), run.platform.manifest_name() + ".asc"@) is Ok
            ==> action is FetchSignature,
        next.channel == run.channel,
        next.platform == run.platform,
        forall|outcome: Result<(), String>|
            (action is FetchManifest || action is FetchSignature) ==> #[trigger] next.awaits(
                ManifestEvent::Fetched(outcome),
            ),
        forall|outcome: Result<Manifest, String>|
            action is Parse ==> #[trigger] next.awaits(ManifestEvent::Parsed(outcome)),
        forall|e: ManifestEvent| action is Finish ==> !(#[trigger] next.awaits(e)),
{
}

/// A release says what it holds, and so does an error.
pub proof fn law_release_says_what_it_holds(release: ChannelRelease, error: Error)
    ensures
        release@.version == release.version@,
        release@.published_at == release.published_at,
        release@.download_url.text == release.download_url.text@,
        release@.download_url.scheme == release.download_url.scheme@,
        release@.download_url.path == release.download_url.path@,
        release@.size_bytes == release.size_bytes,
        release@.sha256 == release.sha256.0@,
        release@.artifact_signature == release.artifact_signature@,
        release@.release_notes == release.release_notes@,
        release@.min_os_version == release.min_os_version@,
        release@.min_app_version == release.min_app_version@,
        error@ == match error {
            Error::Integrity(m) => ErrorView::Integrity(m@),
            Error::Other(m) => ErrorView::Other(m@),
        },
{
}

} // verus!
