//! How the updater lets itself be replaced.
//!
//! The installer writes a new updater over the old one, which fails while that
//! is running. So the running file is renamed just before the installer is
//! started. After an installation that succeeded the renamed file is removed;
//! after one that failed it is put back, unless the installer had already
//! written a new one.

use vstd::prelude::*;
use vstd::string::StringExecFns;

use crate::text::{trim, trimmed, CharClass};
use crate::update::process::{ran_view, CommandOutput, OutputView};

verus! {

/// Where the updater is installed.
pub const INSTALLED_BINARY_PATH: &'static str = "/usr/local/bin/gnosis_vpn-update";

/// The path that the file at `path` is renamed to.
pub open spec fn aside_path(path: Seq<char>) -> Seq<char> {
    path + ".old"@
}

/// Something to be done to files.
#[derive(Debug)]
pub enum FileStep {
    Nothing,
    Remove(String),
    Rename(String, String),
}

/// What a [`FileStep`] says.
pub enum FileStepView {
    Nothing,
    Remove(Seq<char>),
    Rename(Seq<char>, Seq<char>),
}

impl View for FileStep {
    type V = FileStepView;

    open spec fn view(&self) -> FileStepView {
        match self {
            FileStep::Nothing => FileStepView::Nothing,
            FileStep::Remove(path) => FileStepView::Remove(path@),
            FileStep::Rename(from, to) => FileStepView::Rename(from@, to@),
        }
    }
}

/// What renaming the updater came to.
#[derive(Debug)]
pub struct RenameAside {
    path: String,
    old_path: String,
    renamed: bool,
}

/// What a [`RenameAside`] says.
pub struct AsideView {
    /// Where the updater belongs.
    pub path: Seq<char>,
    /// Whether it was renamed.
    pub renamed: bool,
}

impl View for RenameAside {
    type V = AsideView;

    closed spec fn view(&self) -> AsideView {
        AsideView { path: self.path@, renamed: self.renamed }
    }
}

impl AsideView {
    /// What is done after the installation: nothing unless the file was
    /// renamed. The renamed file is put back where the installation failed and
    /// left no new one, and removed otherwise.
    pub open spec fn settled(self, install_succeeded: bool, path_exists: bool) -> FileStepView {
        if !self.renamed {
            FileStepView::Nothing
        } else if install_succeeded || path_exists {
            FileStepView::Remove(aside_path(self.path))
        } else {
            FileStepView::Rename(aside_path(self.path), self.path)
        }
    }
}

/// What is to be done before the installer is started.
pub fn rename_aside() -> (r: FileStep)
    ensures
        r@ == FileStepView::Rename(INSTALLED_BINARY_PATH@, aside_path(INSTALLED_BINARY_PATH@)),
{
    RenameAside::first_step(INSTALLED_BINARY_PATH)
}

impl RenameAside {
    /// What is to be done to the updater at `path` before the installer is
    /// started.
    pub fn first_step(path: &str) -> (r: FileStep)
        ensures
            r@ == FileStepView::Rename(path@, aside_path(path@)),
    {
        FileStep::Rename(path.to_owned(), path.to_owned().concat(".old"))
    }

    /// The updater at `path` was renamed, or could not be.
    pub fn engage(path: &str, outcome: Result<(), String>) -> (r: RenameAside)
        ensures
            r@ == (AsideView { path: path@, renamed: outcome is Ok }),
            r.wf(),
    {
        RenameAside {
            path: path.to_owned(),
            old_path: path.to_owned().concat(".old"),
            renamed: outcome.is_ok(),
        }
    }

    /// The path that is kept for the renamed file is the one it was renamed
    /// to.
    pub closed spec fn wf(self) -> bool {
        self.old_path@ == aside_path(self.path@)
    }

    /// Whether the updater was renamed.
    pub fn is_renamed(&self) -> (r: bool)
        ensures
            r == self@.renamed,
    {
        self.renamed
    }

    /// What is to be done after an installation that succeeded.
    pub fn finish_success(self) -> (r: FileStep)
        requires
            self.wf(),
        ensures
            r@ == self@.settled(true, true),
    {
        if !self.renamed {
            FileStep::Nothing
        } else {
            FileStep::Remove(self.old_path)
        }
    }

    /// What is to be done after an installation that failed, where there is
    /// something at the updater's path or not.
    pub fn finish_failure(self, path_exists: bool) -> (r: FileStep)
        requires
            self.wf(),
        ensures
            r@ == self@.settled(false, path_exists),
    {
        if !self.renamed {
            FileStep::Nothing
        } else if path_exists {
            FileStep::Remove(self.old_path)
        } else {
            FileStep::Rename(self.old_path, self.path)
        }
    }
}

/// What is to be done after an installation, and whether the new updater is
/// then to be asked for its version.
pub fn finish(aside: RenameAside, install_succeeded: bool, path_exists: bool) -> (r: (
    FileStep,
    bool,
))
    requires
        aside.wf(),
    ensures
        r.0@ == aside@.settled(install_succeeded, path_exists),
        r.1 == install_succeeded,
{
    if install_succeeded {
        (aside.finish_success(), true)
    } else {
        (aside.finish_failure(path_exists), false)
    }
}

/// The version that an updater told: nothing where it could not be asked.
pub open spec fn version_told(ran: Result<OutputView, Seq<char>>) -> Option<Seq<char>> {
    match ran {
        Ok(output) => if output.success {
            Some(trimmed(output.stdout, CharClass::WhiteSpace))
        } else {
            None
        },
        Err(_) => None,
    }
}

/// Reads the version that the new updater told when it was run.
pub fn probed_version(ran: Result<CommandOutput, String>) -> (r: Option<String>)
    ensures
        r.deep_view() == version_told(ran_view(ran)),
{
    match ran {
        Ok(output) => {
            if output.success {
                Some(trim(output.stdout.as_str(), CharClass::WhiteSpace).to_owned())
            } else {
                None
            }
        },
        Err(_) => None,
    }
}

/// The files there are, each with what is in it.
pub type Files = Map<Seq<char>, Seq<u8>>;

/// The files after a step. Renaming a file that there is not fails and changes
/// nothing.
pub open spec fn after_step(files: Files, step: FileStepView) -> Files {
    match step {
        FileStepView::Nothing => files,
        FileStepView::Remove(path) => files.remove(path),
        FileStepView::Rename(from, to) => if files.contains_key(from) {
            files.remove(from).insert(to, files[from])
        } else {
            files
        },
    }
}

/// The files after the updater at `path` was renamed.
pub open spec fn after_rename(files: Files, path: Seq<char>) -> Files {
    after_step(files, FileStepView::Rename(path, aside_path(path)))
}

/// The files after an installation was settled: `before` it the updater was
/// renamed, and the installer left `files`.
pub open spec fn after_settling(
    before: Files,
    files: Files,
    path: Seq<char>,
    install_succeeded: bool,
) -> Files {
    let aside = AsideView { path, renamed: before.contains_key(path) };
    after_step(files, aside.settled(install_succeeded, files.contains_key(path)))
}

proof fn lemma_aside_is_elsewhere(path: Seq<char>)
    ensures
        aside_path(path) != path,
{
    reveal_strlit(".old");
    assert(aside_path(path).len() == path.len() + 4);
}

/// Where the installation failed without writing a new updater, the old one is
/// back in its place, and no other file has changed.
pub proof fn law_failure_restores_the_updater(before: Files, path: Seq<char>)
    requires
        before.contains_key(path),
    ensures
        after_settling(before, after_rename(before, path), path, false) == before.remove(
            aside_path(path),
        ),
{
    lemma_aside_is_elsewhere(path);
    assert(after_settling(before, after_rename(before, path), path, false) =~= before.remove(
        aside_path(path),
    ));
}

/// Where the installer wrote a new updater, that is the one which stays, and
/// no other is left: whether the installation succeeded or not.
pub proof fn law_new_updater_is_kept(
    before: Files,
    path: Seq<char>,
    updater: Seq<u8>,
    install_succeeded: bool,
)
    requires
        before.contains_key(path),
    ensures
        after_settling(
            before,
            after_rename(before, path).insert(path, updater),
            path,
            install_succeeded,
        ) == before.remove(aside_path(path)).insert(path, updater),
{
    lemma_aside_is_elsewhere(path);
    assert(after_settling(
        before,
        after_rename(before, path).insert(path, updater),
        path,
        install_succeeded,
    ) =~= before.remove(aside_path(path)).insert(path, updater));
}

/// Where there was no updater to rename, nothing is done to any file, neither
/// before the installation nor after it.
pub proof fn law_missing_updater_changes_nothing(
    before: Files,
    files: Files,
    path: Seq<char>,
    install_succeeded: bool,
)
    requires
        !before.contains_key(path),
    ensures
        after_rename(before, path) == before,
        after_settling(before, files, path, install_succeeded) == files,
{
}

/// A file is renamed by what is put behind its name; two files are never renamed
/// to one.
pub proof fn law_old_file_is_named_after_the_new(a: Seq<char>, b: Seq<char>)
    ensures
        aside_path(a) == a + ".old"@,
        aside_path(a) == aside_path(b) <==> a == b,
        aside_path(a) != a,
{
    lemma_aside_is_elsewhere(a);
    reveal_strlit(".old");
    if aside_path(a) == aside_path(b) {
        assert(aside_path(a).take(a.len() as int) =~= a);
        assert(aside_path(b).take(b.len() as int) =~= b);
    }
}

/// The version that a new updater tells is all that it writes, without the space
/// around, if it ends with success.
pub proof fn law_updater_tells_its_version(output: OutputView, e: Seq<char>)
    ensures
        output.success ==> version_told(Ok(output)) == Some(
            trimmed(output.stdout, CharClass::WhiteSpace),
        ),
        !output.success ==> version_told(Ok(output)) is None,
        version_told(Err(e)) is None,
{
}

/// After an installation the renamed file is removed, or put back where nothing
/// took its place and the installation failed; nothing is done to a file that
/// was not renamed, and never to another.
pub proof fn law_only_the_renamed_file_is_settled(
    path: Seq<char>,
    renamed: bool,
    install_succeeded: bool,
    path_exists: bool,
)
    ensures
        ({
            let step = (AsideView { path, renamed }).settled(install_succeeded, path_exists);
            &&& step is Nothing <==> !renamed
            &&& step is Rename <==> renamed && !install_succeeded && !path_exists
            &&& step matches FileStepView::Remove(p) ==> p == path + ".old"@
            &&& step matches FileStepView::Rename(from, to) ==> from == path + ".old"@ && to == path
        }),
{
}

/// A step says which files it is about.
pub proof fn law_step_says_what_to_do(step: FileStep)
    ensures
        step@ == match step {
            FileStep::Nothing => FileStepView::Nothing,
            FileStep::Remove(path) => FileStepView::Remove(path@),
            FileStep::Rename(from, to) => FileStepView::Rename(from@, to@),
        },
{
}

} // verus!
