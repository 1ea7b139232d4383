//! The download of a release's artifact: where it goes, and what has to hold
//! before and after its bytes are fetched.
//!
//! [`ArtifactDownload`] decides; its runner does what the [`ArtifactAction`]s
//! say and hands back an [`ArtifactEvent`] for each.

use vstd::pervasive::unreached;
use vstd::prelude::*;
use vstd::string::StringExecFns;

use crate::foreign::{absorbed, sha256_digest, sha256_finalize, sha256_new, sha256_update};
use crate::manifest::{
    hex, law_hex_tells_bytes, ArtifactUrl, ArtifactUrlView, ChannelRelease, ReleaseView,
};
use crate::text::{
    after_prefix, law_prefix_comes_off, lemma_one_piece, lemma_pieces_append,
    lemma_pieces_have_no_separator, lemma_pieces_not_empty, pieces, same_text, split, strip_prefix,
    CharClass,
};
use crate::update::download::{error_of, DownloadError, DownloadErrorView};
use crate::update::paths::{join_path, path_in};

verus! {

/// How many bytes the disk has to have free besides those of the artifact.
pub const FREE_SPACE_HEADROOM: u64 = 524_288_000;

/// The file name that the path of a URL ends in: what follows the last slash,
/// unless that is empty or names a directory.
pub open spec fn safe_filename(path: Seq<char>) -> Option<Seq<char>> {
    match after_prefix(path, "/"@) {
        Some(rest) => {
            let name = pieces(rest, CharClass::Only('/')).last();
            if name.len() == 0 || name == "."@ || name == ".."@ {
                None
            } else {
                Some(name)
            }
        },
        None => None,
    }
}

/// The name of the file that the artifact at `url` is stored as. The URL comes
/// from the manifest and is not trusted: a name that could lead out of the
/// download directory is refused, not mended.
pub fn safe_artifact_filename(url: &ArtifactUrl) -> (r: Option<String>)
    ensures
        r.deep_view() == safe_filename(url@.path),
{
    match strip_prefix(url.path.as_str(), "/") {
        Some(rest) => {
            let segments = split(rest, CharClass::Only('/'));
            proof {
                lemma_pieces_not_empty(rest@, CharClass::Only('/'));
                assert(segments.deep_view().len() == segments.len());
            }
            let name = segments[segments.len() - 1];
            assert(name@ == segments.deep_view().last());
            proof {
                reveal_strlit("");
                assert(name@.len() == 0 <==> name@ =~= ""@);
            }
            if same_text(name, "") || same_text(name, ".") || same_text(name, "..") {
                None
            } else {
                Some(name.to_owned())
            }
        },
        None => None,
    }
}

/// An artifact stays in the download directory, whatever its URL: its path is
/// the directory and, after a slash, a name that has no slash and stands for
/// neither the directory nor the one above.
pub proof fn law_artifact_stays_in_download_dir(dir: Seq<char>, url_path: Seq<char>)
    requires
        safe_filename(url_path) is Some,
    ensures
        ({
            let name = safe_filename(url_path)->Some_0;
            &&& name.len() > 0
            &&& !name.contains('/')
            &&& name != "."@
            &&& name != ".."@
            &&& path_in(dir, name) == if dir.len() == 0 || dir.last() == '/' {
                dir + name
            } else {
                dir.push('/') + name
            }
        }),
{
    let rest = after_prefix(url_path, "/"@)->Some_0;
    lemma_pieces_have_no_separator(rest, CharClass::Only('/'));
    lemma_pieces_not_empty(rest, CharClass::Only('/'));
    let all = pieces(rest, CharClass::Only('/'));
    let name = all.last();
    assert(name == all[all.len() - 1]);
    assert forall|j: int| 0 <= j < name.len() implies name[j] != '/' by {
        assert(!CharClass::Only('/').has(all[all.len() - 1][j]));
    }
}

/// The bytes that are free on a file system with `blocks` free blocks of
/// `block_size` bytes each; nothing where it could not be asked.
pub fn free_bytes(asked: bool, blocks: u64, block_size: u64) -> (r: Option<u64>)
    requires
        blocks * block_size <= u64::MAX,
    ensures
        asked ==> r is Some && r->Some_0 == blocks * block_size,
        !asked ==> r is None,
{
    if asked {
        Some(blocks * block_size)
    } else {
        None
    }
}

/// What stands at the artifact's path.
#[derive(Clone, Copy, Debug, PartialEq, Eq, Structural)]
pub enum TargetKind {
    Missing,
    Symlink,
    Other,
}

/// What a download waits for.
#[derive(Debug)]
enum Phase {
    New,
    MakingDir,
    Probing(String),
    Clearing(String),
    Measuring(String),
    Creating(String),
    Fetching(String),
    Flushing(String, u64),
    Discarding(DownloadError),
    Over,
}

/// What a download waits for: with the path of the artifact once that is
/// known, the number of bytes once they are there, and the error once the file
/// is only to be removed.
pub enum ArtifactPhase {
    /// To be begun.
    New,
    /// The directory to be made.
    MakingDir,
    /// What stands at the artifact's path.
    Probing(Seq<char>),
    /// What stands there to be removed.
    Clearing(Seq<char>),
    /// How much of the disk is free.
    Measuring(Seq<char>),
    /// The file to be created.
    Creating(Seq<char>),
    /// The bytes to be fetched.
    Fetching(Seq<char>),
    /// The file to be flushed.
    Flushing(Seq<char>, u64),
    /// The file to be removed.
    Discarding(DownloadErrorView),
    /// Nothing: the download is over.
    Over,
}

impl View for Phase {
    type V = ArtifactPhase;

    closed spec fn view(&self) -> ArtifactPhase {
        match self {
            Phase::New => ArtifactPhase::New,
            Phase::MakingDir => ArtifactPhase::MakingDir,
            Phase::Probing(path) => ArtifactPhase::Probing(path@),
            Phase::Clearing(path) => ArtifactPhase::Clearing(path@),
            Phase::Measuring(path) => ArtifactPhase::Measuring(path@),
            Phase::Creating(path) => ArtifactPhase::Creating(path@),
            Phase::Fetching(path) => ArtifactPhase::Fetching(path@),
            Phase::Flushing(path, n) => ArtifactPhase::Flushing(path@, *n),
            Phase::Discarding(error) => ArtifactPhase::Discarding(error@),
            Phase::Over => ArtifactPhase::Over,
        }
    }
}

/// The download of an artifact.
#[derive(Debug)]
pub struct ArtifactDownload {
    dir: String,
    url: ArtifactUrl,
    expected: u64,
    phase: Phase,
}

/// Where the download of an artifact stands.
pub struct ArtifactView {
    /// The directory that artifacts are downloaded to.
    pub dir: Seq<char>,
    pub url: ArtifactUrlView,
    /// How many bytes the artifact has; zero where that is not known.
    pub expected: u64,
    pub phase: ArtifactPhase,
}

impl View for ArtifactDownload {
    type V = ArtifactView;

    closed spec fn view(&self) -> ArtifactView {
        ArtifactView {
            dir: self.dir@,
            url: self.url@,
            expected: self.expected,
            phase: self.phase@,
        }
    }
}

/// What came of an action.
#[derive(Debug)]
pub enum ArtifactEvent {
    Begin,
    DirMade(Result<(), String>),
    Probed(TargetKind),
    /// What stood at the path was removed, or could not be.
    Cleared,
    /// How many bytes are free, where that could be told.
    Measured(Option<u64>),
    Created(Result<(), String>),
    Fetched(Result<u64, DownloadError>),
    Flushed(Result<(), String>),
    /// The file was removed, or could not be.
    Discarded,
}

/// What an [`ArtifactEvent`] says.
pub enum ArtifactEventView {
    Begin,
    DirMade(Option<Seq<char>>),
    Probed(TargetKind),
    Cleared,
    Measured(Option<u64>),
    Created(Option<Seq<char>>),
    Fetched(Result<u64, DownloadErrorView>),
    Flushed(Option<Seq<char>>),
    Discarded,
}

impl View for ArtifactEvent {
    type V = ArtifactEventView;

    open spec fn view(&self) -> ArtifactEventView {
        match self {
            ArtifactEvent::Begin => ArtifactEventView::Begin,
            ArtifactEvent::DirMade(r) => ArtifactEventView::DirMade(error_of(*r)),
            ArtifactEvent::Probed(kind) => ArtifactEventView::Probed(*kind),
            ArtifactEvent::Cleared => ArtifactEventView::Cleared,
            ArtifactEvent::Measured(free) => ArtifactEventView::Measured(*free),
            ArtifactEvent::Created(r) => ArtifactEventView::Created(error_of(*r)),
            ArtifactEvent::Fetched(r) => ArtifactEventView::Fetched(
                match r {
                    Ok(n) => Ok(*n),
                    Err(e) => Err(e@),
                },
            ),
            ArtifactEvent::Flushed(r) => ArtifactEventView::Flushed(error_of(*r)),
            ArtifactEvent::Discarded => ArtifactEventView::Discarded,
        }
    }
}

/// What has to be done next. Paths are those of the artifact.
#[derive(Debug)]
pub enum ArtifactAction {
    /// Make the download directory, for its owner alone.
    MakeDir,
    /// See what stands at the path, without following a link.
    Probe(String),
    /// Remove what stands at the path.
    Clear(String),
    /// See how much of the disk is free.
    Measure,
    /// Create the file, for its owner alone; it must not exist.
    Create(String),
    /// Fetch so many bytes from the URL into the file; zero where their number
    /// is not known.
    Fetch(u64),
    /// Flush and close the file.
    Flush,
    /// Close and remove the file.
    Discard,
    /// Stop: the artifact is at the path given, or the download failed.
    Finish(Result<String, DownloadError>),
}

/// What an [`ArtifactAction`] says.
pub enum ArtifactActionView {
    MakeDir,
    Probe(Seq<char>),
    Clear(Seq<char>),
    Measure,
    Create(Seq<char>),
    Fetch(u64),
    Flush,
    Discard,
    Finish(Result<Seq<char>, DownloadErrorView>),
}

impl View for ArtifactAction {
    type V = ArtifactActionView;

    open spec fn view(&self) -> ArtifactActionView {
        match self {
            ArtifactAction::MakeDir => ArtifactActionView::MakeDir,
            ArtifactAction::Probe(path) => ArtifactActionView::Probe(path@),
            ArtifactAction::Clear(path) => ArtifactActionView::Clear(path@),
            ArtifactAction::Measure => ArtifactActionView::Measure,
            ArtifactAction::Create(path) => ArtifactActionView::Create(path@),
            ArtifactAction::Fetch(n) => ArtifactActionView::Fetch(*n),
            ArtifactAction::Flush => ArtifactActionView::Flush,
            ArtifactAction::Discard => ArtifactActionView::Discard,
            ArtifactAction::Finish(r) => ArtifactActionView::Finish(
                match r {
                    Ok(path) => Ok(path@),
                    Err(e) => Err(e@),
                },
            ),
        }
    }
}

impl ArtifactView {
    /// A download that has not begun.
    pub open spec fn fresh(dir: Seq<char>, release: ReleaseView) -> ArtifactView {
        ArtifactView {
            dir,
            url: release.download_url,
            expected: release.size_bytes,
            phase: ArtifactPhase::New,
        }
    }

    /// Whether the number of bytes that have to be free is one that can be
    /// told.
    pub open spec fn fits(self) -> bool {
        self.expected + FREE_SPACE_HEADROOM <= u64::MAX
    }

    /// Whether an event is one that the download waits for.
    pub open spec fn awaits(self, event: ArtifactEventView) -> bool {
        match event {
            ArtifactEventView::Begin => self.phase is New,
            ArtifactEventView::DirMade(_) => self.phase is MakingDir,
            ArtifactEventView::Probed(_) => self.phase is Probing,
            ArtifactEventView::Cleared => self.phase is Clearing,
            ArtifactEventView::Measured(_) => self.phase is Measuring && self.fits(),
            ArtifactEventView::Created(_) => self.phase is Creating,
            ArtifactEventView::Fetched(r) => self.phase is Fetching && (r matches Err(e)
                ==> e.valid()),
            ArtifactEventView::Flushed(_) => self.phase is Flushing,
            ArtifactEventView::Discarded => self.phase is Discarding,
        }
    }

    /// Whether an error that is still to be told is a valid one.
    pub open spec fn holds_valid_error(self) -> bool {
        self.phase matches ArtifactPhase::Discarding(e) ==> e.valid()
    }

    /// The same, but in phase `phase`.
    pub open spec fn at(self, phase: ArtifactPhase) -> ArtifactView {
        ArtifactView { phase, ..self }
    }

    /// The end of a download that failed.
    pub open spec fn failed(self, error: DownloadErrorView) -> (ArtifactView, ArtifactActionView) {
        (self.at(ArtifactPhase::Over), ArtifactActionView::Finish(Err(error)))
    }

    /// Where the download stands after `event`, and what it has done next.
    pub open spec fn after(self, event: ArtifactEventView) -> (ArtifactView, ArtifactActionView) {
        match event {
            ArtifactEventView::Begin => if self.url.scheme == "https"@ {
                (self.at(ArtifactPhase::MakingDir), ArtifactActionView::MakeDir)
            } else {
                self.failed(DownloadErrorView::InsecureUrl(self.url.scheme))
            },
            ArtifactEventView::DirMade(Some(e)) => self.failed(DownloadErrorView::Io(e)),
            ArtifactEventView::DirMade(None) => match safe_filename(self.url.path) {
                Some(name) => {
                    let path = path_in(self.dir, name);
                    (self.at(ArtifactPhase::Probing(path)), ArtifactActionView::Probe(path))
                },
                None => self.failed(DownloadErrorView::InvalidFilename(self.url.text)),
            },
            ArtifactEventView::Probed(kind) => {
                let path = self.phase->Probing_0;
                match kind {
                    TargetKind::Missing => (
                        self.at(ArtifactPhase::Measuring(path)),
                        ArtifactActionView::Measure,
                    ),
                    TargetKind::Symlink => self.failed(DownloadErrorView::SymlinkDownloadPath),
                    TargetKind::Other => (
                        self.at(ArtifactPhase::Clearing(path)),
                        ArtifactActionView::Clear(path),
                    ),
                }
            },
            ArtifactEventView::Cleared => (
                self.at(ArtifactPhase::Measuring(self.phase->Clearing_0)),
                ArtifactActionView::Measure,
            ),
            ArtifactEventView::Measured(free) => {
                let path = self.phase->Measuring_0;
                let needed = (self.expected + FREE_SPACE_HEADROOM) as u64;
                match free {
                    Some(free) if free < needed => self.failed(
                        DownloadErrorView::InsufficientSpace { needed, free },
                    ),
                    _ => (
                        self.at(ArtifactPhase::Creating(path)),
                        ArtifactActionView::Create(path),
                    ),
                }
            },
            ArtifactEventView::Created(Some(e)) => self.failed(DownloadErrorView::Io(e)),
            ArtifactEventView::Created(None) => (
                self.at(ArtifactPhase::Fetching(self.phase->Creating_0)),
                ArtifactActionView::Fetch(self.expected),
            ),
            ArtifactEventView::Fetched(Err(e)) => (
                self.at(ArtifactPhase::Discarding(e)),
                ArtifactActionView::Discard,
            ),
            ArtifactEventView::Fetched(Ok(n)) => (
                self.at(ArtifactPhase::Flushing(self.phase->Fetching_0, n)),
                ArtifactActionView::Flush,
            ),
            ArtifactEventView::Flushed(Some(e)) => self.failed(DownloadErrorView::Io(e)),
            ArtifactEventView::Flushed(None) => {
                let actual = self.phase->Flushing_1;
                if self.expected != 0 && actual != self.expected {
                    (
                        self.at(
                            ArtifactPhase::Discarding(
                                DownloadErrorView::SizeMismatch { expected: self.expected, actual },
                            ),
                        ),
                        ArtifactActionView::Discard,
                    )
                } else {
                    (
                        self.at(ArtifactPhase::Over),
                        ArtifactActionView::Finish(Ok(self.phase->Flushing_0)),
                    )
                }
            },
            ArtifactEventView::Discarded => self.failed(self.phase->Discarding_0),
        }
    }
}

impl ArtifactDownload {
    /// The download of the artifact of `release` into directory `dir`.
    pub fn new(dir: &str, release: &ChannelRelease) -> (r: ArtifactDownload)
        ensures
            r@ == ArtifactView::fresh(dir@, release@),
            r@.holds_valid_error(),
    {
        ArtifactDownload {
            dir: dir.to_owned(),
            url: release.download_url.clone(),
            expected: release.size_bytes,
            phase: Phase::New,
        }
    }

    /// Takes what came of the last action and says what to do next.
    pub fn step(self, event: ArtifactEvent) -> (r: (ArtifactDownload, ArtifactAction))
        requires
            self@.holds_valid_error(),
            self@.awaits(event@),
        ensures
            (r.0@, r.1@) == self@.after(event@),
            r.0@.holds_valid_error(),
            r.1@ matches ArtifactActionView::Finish(Err(e)) ==> e.valid(),
    {
        let ArtifactDownload { dir, url, expected, phase } = self;
        let (phase, action) = match (phase, event) {
            (Phase::New, ArtifactEvent::Begin) => {
                if same_text(url.scheme.as_str(), "https") {
                    (Phase::MakingDir, ArtifactAction::MakeDir)
                } else {
                    fail(DownloadError::InsecureUrl(url.scheme.clone()))
                }
            },
            (Phase::MakingDir, ArtifactEvent::DirMade(Err(e))) => fail(DownloadError::Io(e)),
            (Phase::MakingDir, ArtifactEvent::DirMade(Ok(_))) => {
                match safe_artifact_filename(&url) {
                    Some(name) => {
                        let path = join_path(dir.as_str(), name.as_str());
                        (Phase::Probing(path.clone()), ArtifactAction::Probe(path))
                    },
                    None => fail(DownloadError::InvalidFilename(url.text.clone())),
                }
            },
            (Phase::Probing(path), ArtifactEvent::Probed(kind)) => match kind {
                TargetKind::Missing => (Phase::Measuring(path), ArtifactAction::Measure),
                TargetKind::Symlink => fail(DownloadError::SymlinkDownloadPath),
                TargetKind::Other => (Phase::Clearing(path.clone()), ArtifactAction::Clear(path)),
            },
            (Phase::Clearing(path), ArtifactEvent::Cleared) => {
                (Phase::Measuring(path), ArtifactAction::Measure)
            },
            (Phase::Measuring(path), ArtifactEvent::Measured(free)) => {
                let needed = expected + FREE_SPACE_HEADROOM;
                match free {
                    Some(free) if free < needed => {
                        fail(DownloadError::InsufficientSpace { needed, free })
                    },
                    _ => (Phase::Creating(path.clone()), ArtifactAction::Create(path)),
                }
            },
            (Phase::Creating(_), ArtifactEvent::Created(Err(e))) => fail(DownloadError::Io(e)),
            (Phase::Creating(path), ArtifactEvent::Created(Ok(_))) => {
                (Phase::Fetching(path), ArtifactAction::Fetch(expected))
            },
            (Phase::Fetching(_), ArtifactEvent::Fetched(Err(e))) => {
                (Phase::Discarding(e), ArtifactAction::Discard)
            },
            (Phase::Fetching(path), ArtifactEvent::Fetched(Ok(n))) => {
                (Phase::Flushing(path, n), ArtifactAction::Flush)
            },
            (Phase::Flushing(_, _), ArtifactEvent::Flushed(Err(e))) => fail(DownloadError::Io(e)),
            (Phase::Flushing(path, actual), ArtifactEvent::Flushed(Ok(_))) => {
                if expected != 0 && actual != expected {
                    (
                        Phase::Discarding(DownloadError::SizeMismatch { expected, actual }),
                        ArtifactAction::Discard,
                    )
                } else {
                    (Phase::Over, ArtifactAction::Finish(Ok(path)))
                }
            },
            (Phase::Discarding(error), ArtifactEvent::Discarded) => fail(error),
            _ => unreached(),
        };
        (ArtifactDownload { dir, url, expected, phase }, action)
    }
}

/// The end of a download that failed.
fn fail(error: DownloadError) -> (r: (Phase, ArtifactAction))
    ensures
        r.0 is Over,
        r.1@ == ArtifactActionView::Finish(Err(error@)),
{
    (Phase::Over, ArtifactAction::Finish(Err(error)))
}

/// What happened, in order.
pub type ArtifactTrace = Seq<ArtifactEventView>;

/// Where a download stands after a trace.
pub open spec fn run(start: ArtifactView, trace: ArtifactTrace) -> ArtifactView
    decreases trace.len(),
{
    if trace.len() == 0 {
        start
    } else {
        run(start, trace.drop_last()).after(trace.last()).0
    }
}

/// What a download has done after a trace that is not empty.
pub open spec fn last_action(start: ArtifactView, trace: ArtifactTrace) -> ArtifactActionView {
    run(start, trace.drop_last()).after(trace.last()).1
}

/// Whether each event of a trace was one that the download waited for.
pub open spec fn can_happen(start: ArtifactView, trace: ArtifactTrace) -> bool
    decreases trace.len(),
{
    trace.len() == 0 || {
        &&& can_happen(start, trace.drop_last())
        &&& run(start, trace.drop_last()).awaits(trace.last())
    }
}

/// Whether the file that the download created is still there.
pub open spec fn leaves_file(trace: ArtifactTrace) -> bool
    decreases trace.len(),
{
    trace.len() > 0 && match trace.last() {
        ArtifactEventView::Created(None) => true,
        ArtifactEventView::Discarded => false,
        _ => leaves_file(trace.drop_last()),
    }
}

/// Whether a link was found at the artifact's path.
pub open spec fn found_symlink(trace: ArtifactTrace) -> bool {
    trace.contains(ArtifactEventView::Probed(TargetKind::Symlink))
}

/// Where a download stands agrees with what its trace tells.
pub open spec fn agrees(start: ArtifactView, trace: ArtifactTrace) -> bool {
    let state = run(start, trace);
    let path = path_in(start.dir, safe_filename(start.url.path)->Some_0);
    &&& state.dir == start.dir
    &&& state.url == start.url
    &&& state.expected == start.expected
    &&& !(state.phase is New) && !(state.phase is Over) ==> start.url.scheme == "https"@
    &&& match state.phase {
        ArtifactPhase::New | ArtifactPhase::MakingDir => !leaves_file(trace) && !found_symlink(
            trace,
        ),
        ArtifactPhase::Probing(p) | ArtifactPhase::Clearing(p) | ArtifactPhase::Measuring(p)
        | ArtifactPhase::Creating(p) => {
            &&& p == path
            &&& safe_filename(start.url.path) is Some
            &&& !leaves_file(trace)
            &&& !found_symlink(trace)
        },
        ArtifactPhase::Fetching(p) => {
            &&& p == path
            &&& safe_filename(start.url.path) is Some
            &&& leaves_file(trace)
            &&& !found_symlink(trace)
        },
        ArtifactPhase::Flushing(p, n) => {
            &&& p == path
            &&& safe_filename(start.url.path) is Some
            &&& leaves_file(trace)
            &&& !found_symlink(trace)
            &&& trace.last() == ArtifactEventView::Fetched(Ok(n))
        },
        ArtifactPhase::Discarding(_) => leaves_file(trace) && !found_symlink(trace),
        ArtifactPhase::Over => true,
    }
}

proof fn lemma_agrees(start: ArtifactView, trace: ArtifactTrace)
    requires
        start.phase is New,
        can_happen(start, trace),
    ensures
        agrees(start, trace),
    decreases trace.len(),
{
    let link = ArtifactEventView::Probed(TargetKind::Symlink);
    if trace.len() > 0 {
        let before = trace.drop_last();
        lemma_agrees(start, before);
        assert(before.push(trace.last()) == trace);
        assert(trace.contains(link) ==> before.contains(link) || trace.last() == link) by {
            if trace.contains(link) {
                let i = choose|i: int| 0 <= i < trace.len() && trace[i] == link;
                if i < before.len() {
                    assert(before[i] == link);
                }
            }
        }
        assert(before.contains(link) ==> trace.contains(link)) by {
            if before.contains(link) {
                let i = choose|i: int| 0 <= i < before.len() && before[i] == link;
                assert(trace[i] == link);
            }
        }
    }
}

/// An artifact that does not come over HTTPS is refused before anything is
/// done, whatever its size.
pub proof fn law_insecure_url_is_refused_at_once(start: ArtifactView)
    requires
        start.phase is New,
        start.url.scheme != "https"@,
    ensures
        start.awaits(ArtifactEventView::Begin),
        start.after(ArtifactEventView::Begin).1 == ArtifactActionView::Finish(
            Err(DownloadErrorView::InsecureUrl(start.url.scheme)),
        ),
        forall|event: ArtifactEventView|
            !(#[trigger] start.after(ArtifactEventView::Begin).0.awaits(event)),
{
}

/// A file is created only under the artifact's own path in the download
/// directory, only for an artifact that comes over HTTPS, and not where a link
/// stood.
pub proof fn law_created_where_it_belongs(start: ArtifactView, trace: ArtifactTrace)
    requires
        start.phase is New,
        trace.len() > 0,
        can_happen(start, trace),
    ensures
        last_action(start, trace) matches ArtifactActionView::Create(path) ==> {
            &&& start.url.scheme == "https"@
            &&& safe_filename(start.url.path) matches Some(name)
            &&& path == path_in(start.dir, name)
            &&& !found_symlink(trace)
        },
{
    lemma_agrees(start, trace);
    lemma_agrees(start, trace.drop_last());
}

/// A download that succeeds leaves its file at the artifact's path, with as
/// many bytes as the release says, where it says so.
pub proof fn law_success_has_the_expected_size(start: ArtifactView, trace: ArtifactTrace)
    requires
        start.phase is New,
        trace.len() > 1,
        can_happen(start, trace),
    ensures
        last_action(start, trace) matches ArtifactActionView::Finish(Ok(path)) ==> {
            &&& start.url.scheme == "https"@
            &&& safe_filename(start.url.path) matches Some(name)
            &&& path == path_in(start.dir, name)
            &&& leaves_file(trace)
            &&& trace[trace.len() - 2] matches ArtifactEventView::Fetched(Ok(n))
            &&& start.expected == 0 || n == start.expected
        },
{
    lemma_agrees(start, trace);
    lemma_agrees(start, trace.drop_last());
}

/// A download that fails leaves no file behind, unless it was flushing it that
/// failed.
pub proof fn law_failure_leaves_no_file(start: ArtifactView, trace: ArtifactTrace)
    requires
        start.phase is New,
        trace.len() > 0,
        can_happen(start, trace),
    ensures
        (last_action(start, trace) matches ArtifactActionView::Finish(Err(_))) && !(trace.last()
            is Flushed) ==> !leaves_file(trace),
{
    lemma_agrees(start, trace);
    lemma_agrees(start, trace.drop_last());
}

/// The digest of an artifact, taken as its bytes are read.
pub struct ArtifactHasher {
    hasher: sha2::Sha256,
}

impl View for ArtifactHasher {
    type V = Seq<u8>;

    closed spec fn view(&self) -> Seq<u8> {
        absorbed(self.hasher)
    }
}

impl ArtifactHasher {
    /// Nothing has been read.
    pub fn new() -> (r: ArtifactHasher)
        ensures
            r@ == Seq::<u8>::empty(),
    {
        ArtifactHasher { hasher: sha256_new() }
    }

    /// More bytes were read.
    pub fn update(&mut self, bytes: &[u8])
        ensures
            final(self)@ == old(self)@ + bytes@,
    {
        sha256_update(&mut self.hasher, bytes);
    }

    /// All the bytes were read: whether they are those that the release
    /// promises.
    pub fn verify(self, release: &ChannelRelease) -> (r: Result<(), String>)
        ensures
            result_text(r) == digest_verdict(sha256_digest(self@), release@.sha256),
    {
        let got = crate::manifest::Hash(sha256_finalize(self.hasher));
        verify_digest(&got, release)
    }
}

/// A result with the view of its error.
pub open spec fn result_text(r: Result<(), String>) -> Result<(), Seq<char>> {
    match r {
        Ok(_) => Ok(()),
        Err(e) => Err(e@),
    }
}

/// Whether digest `got` is the one that was promised.
pub open spec fn digest_verdict(got: Seq<u8>, promised: Seq<u8>) -> Result<(), Seq<char>> {
    if got == promised {
        Ok(())
    } else {
        Err("sha256 mismatch: expected "@ + hex(promised) + ", got "@ + hex(got))
    }
}

/// Tests whether `got` is the digest that the release promises.
pub fn verify_digest(got: &crate::manifest::Hash, release: &ChannelRelease) -> (r: Result<(), String>)
    ensures
        result_text(r) == digest_verdict(got.0@, release@.sha256),
{
    if got.same(&release.sha256) {
        Ok(())
    } else {
        let promised = release.sha256.to_string();
        let got = got.to_string();
        Err(
            "sha256 mismatch: expected ".to_owned().concat(promised.as_str()).concat(
                ", got ",
            ).concat(got.as_str()),
        )
    }
}

/// An artifact is accepted just when its digest is the promised one, and a
/// digest that is refused is shown beside the promised one, different from it.
pub proof fn law_only_the_promised_digest_is_accepted(got: Seq<u8>, promised: Seq<u8>)
    ensures
        digest_verdict(got, promised) is Ok <==> got == promised,
        got != promised ==> hex(got) != hex(promised),
{
    if hex(got) == hex(promised) {
        law_hex_tells_bytes(got, promised);
    }
}

/// The file name of a path is what follows its last slash, whatever comes
/// before; a path that does not start with a slash has none, nor has one that
/// ends with a slash or with a directory's own name.
pub proof fn law_file_name_follows_the_last_slash(dir: Seq<char>, name: Seq<char>)
    requires
        !name.contains('/'),
    ensures
        safe_filename(seq!['/'] + dir + seq!['/'] + name) == safe_filename(seq!['/'] + name),
        safe_filename(seq!['/'] + name) == if name == ""@ || name == "."@ || name == ".."@ {
            None
        } else {
            Some(name)
        },
        safe_filename(name) is None,
        dir.len() > 0 && dir[0] != '/' ==> safe_filename(dir) is None,
{
    let class = CharClass::Only('/');
    reveal_strlit("/");
    reveal_strlit("");
    assert(name.len() == 0 ==> name =~= ""@);
    assert forall|i: int| 0 <= i < name.len() implies !class.has(#[trigger] name[i]) by {
        assert(name.contains(name[i]));
    }
    lemma_one_piece(name, class);
    assert("/"@ =~= seq!['/']);
    let rest = dir.push('/') + name;
    assert(seq!['/'] + dir + seq!['/'] + name =~= "/"@ + rest);
    law_prefix_comes_off("/"@, rest);
    law_prefix_comes_off("/"@, name);
    lemma_pieces_append(dir, '/', name, class);
    assert(pieces(rest, class).last() == name);
    assert(pieces(name, class).last() == name);
    if "/"@.is_prefix_of(name) {
        assert(name.subrange(0, 1)[0] == name[0]);
        assert(name.contains(name[0]));
    }
    if dir.len() > 0 && "/"@.is_prefix_of(dir) {
        assert(dir.subrange(0, 1)[0] == dir[0]);
    }
}

/// The path of what stands at the artifact's place in a download that has come
/// so far.
pub open spec fn path_of(phase: ArtifactPhase) -> Option<Seq<char>> {
    match phase {
        ArtifactPhase::Probing(path) | ArtifactPhase::Clearing(path) => Some(path),
        ArtifactPhase::Measuring(path) | ArtifactPhase::Creating(path) => Some(path),
        ArtifactPhase::Fetching(path) => Some(path),
        ArtifactPhase::Flushing(path, _) => Some(path),
        _ => None,
    }
}

/// Each step leads to the next as long as nothing stands against it, and what
/// does ends the download with its reason; the path stays the same throughout,
/// and so does what is downloaded.
pub proof fn law_download_goes_step_by_step(run: ArtifactView, event: ArtifactEventView)
    requires
        run.awaits(event),
    ensures
        ({
            let (next, act) = run.after(event);
            &&& next.dir == run.dir && next.url == run.url && next.expected == run.expected
            &&& path_of(next.phase) is Some && path_of(run.phase) is Some ==> path_of(next.phase)
                == path_of(run.phase)
            &&& match event {
                ArtifactEventView::Begin => act == if run.url.scheme == "https"@ {
                    ArtifactActionView::MakeDir
                } else {
                    ArtifactActionView::Finish(
                        Err(DownloadErrorView::InsecureUrl(run.url.scheme)),
                    )
                },
                ArtifactEventView::DirMade(Some(e)) => act == ArtifactActionView::Finish(
                    Err(DownloadErrorView::Io(e)),
                ),
                ArtifactEventView::DirMade(None) => match safe_filename(run.url.path) {
                    Some(name) => act == ArtifactActionView::Probe(path_in(run.dir, name))
                        && path_of(next.phase) == Some(path_in(run.dir, name)),
                    None => act == ArtifactActionView::Finish(
                        Err(DownloadErrorView::InvalidFilename(run.url.text)),
                    ),
                },
                ArtifactEventView::Probed(TargetKind::Missing) => act is Measure,
                ArtifactEventView::Probed(TargetKind::Symlink) => act == ArtifactActionView::Finish(
                    Err(DownloadErrorView::SymlinkDownloadPath),
                ),
                ArtifactEventView::Probed(TargetKind::Other) => act matches ArtifactActionView::Clear(
                    path,
                ) && Some(path) == path_of(run.phase),
                ArtifactEventView::Cleared => act is Measure,
                ArtifactEventView::Measured(free) => match free {
                    Some(n) if n < run.expected + 524_288_000 => {
                        act matches ArtifactActionView::Finish(
                            Err(DownloadErrorView::InsufficientSpace { needed, free: f }),
                        ) && f == n && needed == run.expected + 524_288_000
                    },
                    _ => act matches ArtifactActionView::Create(path) && Some(path) == path_of(
                        run.phase,
                    ),
                },
                ArtifactEventView::Created(Some(e)) => act == ArtifactActionView::Finish(
                    Err(DownloadErrorView::Io(e)),
                ),
                ArtifactEventView::Created(None) => act == ArtifactActionView::Fetch(run.expected),
                ArtifactEventView::Fetched(Ok(n)) => act is Flush && (next.phase
                    matches ArtifactPhase::Flushing(_, m) && m == n),
                ArtifactEventView::Fetched(Err(e)) => act is Discard && next.phase
                    == ArtifactPhase::Discarding(e),
                ArtifactEventView::Flushed(Some(e)) => act == ArtifactActionView::Finish(
                    Err(DownloadErrorView::Io(e)),
                ),
                ArtifactEventView::Flushed(None) => {
                    let n = run.phase->Flushing_1;
                    if run.expected == 0 || n == run.expected {
                        act matches ArtifactActionView::Finish(Ok(path)) && Some(path) == path_of(
                            run.phase,
                        )
                    } else {
                        act is Discard && next.phase == ArtifactPhase::Discarding(
                            DownloadErrorView::SizeMismatch { expected: run.expected, actual: n },
                        )
                    }
                },
                ArtifactEventView::Discarded => act == ArtifactActionView::Finish(
                    Err(run.phase->Discarding_0),
                ),
            }
        }),
{
}

/// A download waits for whatever can come of what it has done, and for nothing
/// once it has told its result.
pub proof fn law_download_takes_what_comes(run: ArtifactView, event: ArtifactEventView)
    requires
        run.awaits(event),
    ensures
        ({
            let (next, act) = run.after(event);
            match act {
                ArtifactActionView::MakeDir => forall|e: Option<Seq<char>>| #[trigger]
                    next.awaits(ArtifactEventView::DirMade(e)),
                ArtifactActionView::Probe(_) => forall|kind: TargetKind| #[trigger]
                    next.awaits(ArtifactEventView::Probed(kind)),
                ArtifactActionView::Clear(_) => next.awaits(ArtifactEventView::Cleared),
                ArtifactActionView::Measure => run.expected + 524_288_000 <= u64::MAX
                    ==> forall|free: Option<u64>| #[trigger]
                    next.awaits(ArtifactEventView::Measured(free)),
                ArtifactActionView::Create(_) => forall|e: Option<Seq<char>>| #[trigger]
                    next.awaits(ArtifactEventView::Created(e)),
                ArtifactActionView::Fetch(_) => {
                    &&& forall|n: u64| #[trigger] next.awaits(ArtifactEventView::Fetched(Ok(n)))
                    &&& forall|e: DownloadErrorView|
                        e.valid() ==> #[trigger] next.awaits(ArtifactEventView::Fetched(Err(e)))
                },
                ArtifactActionView::Flush => forall|e: Option<Seq<char>>| #[trigger]
                    next.awaits(ArtifactEventView::Flushed(e)),
                ArtifactActionView::Discard => next.awaits(ArtifactEventView::Discarded),
                ArtifactActionView::Finish(_) => forall|e: ArtifactEventView|
                    !(#[trigger] next.awaits(e)),
            }
        }),
{
}

/// A download starts with what the release says, to be begun.
pub proof fn law_download_is_of_the_release(dir: Seq<char>, release: ReleaseView)
    ensures
        ({
            let start = ArtifactView::fresh(dir, release);
            &&& start.dir == dir
            &&& start.url == release.download_url
            &&& start.expected == release.size_bytes
            &&& start.awaits(ArtifactEventView::Begin)
        }),
{
}

/// A digest that is refused is told with the one that was promised first.
pub proof fn law_refused_digest_is_told(got: Seq<u8>, promised: Seq<u8>, text: String)
    ensures
        digest_verdict(got, promised) matches Err(said) ==> said == "sha256 mismatch: expected "@
            + hex(promised) + ", got "@ + hex(got),
        result_text(Ok(())) == Ok::<(), Seq<char>>(()),
        result_text(Err(text)) == Err::<(), Seq<char>>(text@),
{
}

/// What came of an action is what the download takes it for.
pub proof fn law_events_say_what_came(
    outcome: Result<(), String>,
    kind: TargetKind,
    free: Option<u64>,
    fetched: Result<u64, DownloadError>,
)
    ensures
        ArtifactEvent::Begin@ is Begin && ArtifactEvent::Cleared@ is Cleared,
        ArtifactEvent::Discarded@ is Discarded,
        ArtifactEvent::Probed(kind)@ == ArtifactEventView::Probed(kind),
        ArtifactEvent::Measured(free)@ == ArtifactEventView::Measured(free),
        ArtifactEvent::Fetched(fetched)@ == ArtifactEventView::Fetched(
            match fetched {
                Ok(n) => Ok(n),
                Err(e) => Err(e@),
            },
        ),
        ({
            let error = match outcome {
                Ok(_) => None,
                Err(e) => Some(e@),
            };
            &&& ArtifactEvent::DirMade(outcome)@ == ArtifactEventView::DirMade(error)
            &&& ArtifactEvent::Created(outcome)@ == ArtifactEventView::Created(error)
            &&& ArtifactEvent::Flushed(outcome)@ == ArtifactEventView::Flushed(error)
        }),
{
}

/// What is to be done is what the action says.
pub proof fn law_actions_say_what_to_do(action: ArtifactAction)
    ensures
        action@ == match action {
            ArtifactAction::MakeDir => ArtifactActionView::MakeDir,
            ArtifactAction::Probe(path) => ArtifactActionView::Probe(path@),
            ArtifactAction::Clear(path) => ArtifactActionView::Clear(path@),
            ArtifactAction::Measure => ArtifactActionView::Measure,
            ArtifactAction::Create(path) => ArtifactActionView::Create(path@),
            ArtifactAction::Fetch(n) => ArtifactActionView::Fetch(n),
            ArtifactAction::Flush => ArtifactActionView::Flush,
            ArtifactAction::Discard => ArtifactActionView::Discard,
            ArtifactAction::Finish(Ok(path)) => ArtifactActionView::Finish(Ok(path@)),
            ArtifactAction::Finish(Err(e)) => ArtifactActionView::Finish(Err(e@)),
        },
{
}

} // verus!
