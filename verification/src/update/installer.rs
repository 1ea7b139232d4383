//! Running the platform's installer: its arguments, and what its end means.

use vstd::prelude::*;
use vstd::string::StringExecFns;

use crate::text::{trim, trimmed, CharClass};
use crate::update::artifact::result_text;
use crate::update::process::{CommandOutput, OutputView};

verus! {

/// The arguments that the installer is run with.
pub open spec fn arguments(artifact: Seq<char>, choice_changes: Option<Seq<char>>) -> Seq<Seq<char>> {
    let fixed = seq!["-pkg"@, artifact, "-target"@, "/"@];
    match choice_changes {
        Some(path) => fixed + seq!["-applyChoiceChangesXML"@, path],
        None => fixed,
    }
}

/// The arguments that the installer is run with, to install `artifact` with the
/// choices at `choice_changes` pinned.
pub fn installer_arguments(artifact: &str, choice_changes: Option<&str>) -> (r: Vec<String>)
    ensures
        r.deep_view() == arguments(artifact@, choice_changes.deep_view()),
{
    let mut args: Vec<String> = Vec::new();
    args.push("-pkg".to_owned());
    args.push(artifact.to_owned());
    args.push("-target".to_owned());
    args.push("/".to_owned());
    if let Some(path) = choice_changes {
        args.push("-applyChoiceChangesXML".to_owned());
        args.push(path.to_owned());
    }
    assert(args.deep_view() =~= arguments(artifact@, choice_changes.deep_view()));
    args
}

/// What came of running the installer.
#[derive(Debug)]
pub enum InstallerRun {
    /// It could not be started.
    SpawnFailed(String),
    /// It could not be waited for.
    WaitFailed(String),
    /// It ended.
    Exited(CommandOutput),
}

/// What an [`InstallerRun`] says.
pub enum InstallerRunView {
    SpawnFailed(Seq<char>),
    WaitFailed(Seq<char>),
    Exited(OutputView),
}

impl View for InstallerRun {
    type V = InstallerRunView;

    open spec fn view(&self) -> InstallerRunView {
        match self {
            InstallerRun::SpawnFailed(e) => InstallerRunView::SpawnFailed(e@),
            InstallerRun::WaitFailed(e) => InstallerRunView::WaitFailed(e@),
            InstallerRun::Exited(output) => InstallerRunView::Exited(output@),
        }
    }
}

/// What the installer wrote: what is not blank of its two outputs, or a hint at
/// its log.
pub open spec fn detail(output: OutputView) -> Seq<char> {
    let out = trimmed(output.stdout, CharClass::WhiteSpace);
    let err = trimmed(output.stderr, CharClass::WhiteSpace);
    if out.len() > 0 && err.len() > 0 {
        out + " | "@ + err
    } else if out.len() > 0 {
        out
    } else if err.len() > 0 {
        err
    } else {
        "no output; see /var/log/install.log"@
    }
}

/// Whether the installation succeeded, and else why not.
pub open spec fn installed(run: InstallerRunView) -> Result<(), Seq<char>> {
    match run {
        InstallerRunView::SpawnFailed(e) => Err("installer spawn failed: "@ + e),
        InstallerRunView::WaitFailed(e) => Err("installer wait failed: "@ + e),
        InstallerRunView::Exited(output) => if output.success {
            Ok(())
        } else {
            Err("installer exited with "@ + output.status + ": "@ + detail(output))
        },
    }
}

/// Tells whether the installation succeeded, and else why not.
pub fn install(run: InstallerRun) -> (r: Result<(), String>)
    ensures
        result_text(r) == installed(run@),
{
    match run {
        InstallerRun::SpawnFailed(e) => {
            Err("installer spawn failed: ".to_owned().concat(e.as_str()))
        },
        InstallerRun::WaitFailed(e) => {
            Err("installer wait failed: ".to_owned().concat(e.as_str()))
        },
        InstallerRun::Exited(output) => {
            if output.success {
                return Ok(());
            }
            let out = trim(output.stdout.as_str(), CharClass::WhiteSpace);
            let err = trim(output.stderr.as_str(), CharClass::WhiteSpace);
            let text = "installer exited with ".to_owned().concat(output.status.as_str()).concat(
                ": ",
            );
            if !out.is_empty() && !err.is_empty() {
                let said = out.to_owned().concat(" | ").concat(err);
                Err(text.concat(said.as_str()))
            } else if !out.is_empty() {
                Err(text.concat(out))
            } else if !err.is_empty() {
                Err(text.concat(err))
            } else {
                Err(text.concat("no output; see /var/log/install.log"))
            }
        },
    }
}

/// The installer is told the artifact and the target, and then the choices to
/// pin where there are any.
pub proof fn law_installer_is_told_what_to_install(artifact: Seq<char>, changes: Seq<char>)
    ensures
        arguments(artifact, None) == seq!["-pkg"@, artifact, "-target"@, "/"@],
        arguments(artifact, Some(changes)) == arguments(artifact, None).push(
            "-applyChoiceChangesXML"@,
        ).push(changes),
{
    assert(arguments(artifact, Some(changes)) =~= arguments(artifact, None).push(
        "-applyChoiceChangesXML"@,
    ).push(changes));
}

/// An installation succeeds just when the installer ended with success, whatever
/// it wrote; a failure is told with how it failed, and with what the installer
/// wrote where it ended.
pub proof fn law_installer_decides(run: InstallerRunView)
    ensures
        installed(run) is Ok <==> (run matches InstallerRunView::Exited(output) && output.success),
        run matches InstallerRunView::SpawnFailed(e) ==> installed(run) == Err::<(), Seq<char>>(
            "installer spawn failed: "@ + e,
        ),
        run matches InstallerRunView::WaitFailed(e) ==> installed(run) == Err::<(), Seq<char>>(
            "installer wait failed: "@ + e,
        ),
        run matches InstallerRunView::Exited(output) ==> {
            let out = trimmed(output.stdout, CharClass::WhiteSpace);
            let err = trimmed(output.stderr, CharClass::WhiteSpace);
            let said = "installer exited with "@ + output.status + ": "@;
            output.success || installed(run) == Err::<(), Seq<char>>(
                said + if out == ""@ && err == ""@ {
                    "no output; see /var/log/install.log"@
                } else if err == ""@ {
                    out
                } else if out == ""@ {
                    err
                } else {
                    out + " | "@ + err
                },
            )
        },
{
    reveal_strlit("");
    if let InstallerRunView::Exited(output) = run {
        let out = trimmed(output.stdout, CharClass::WhiteSpace);
        let err = trimmed(output.stderr, CharClass::WhiteSpace);
        assert(out.len() == 0 <==> out =~= ""@);
        assert(err.len() == 0 <==> err =~= ""@);
    }
}

/// What came of the installer is what it is taken for.
pub proof fn law_run_says_what_came(e: String, output: CommandOutput)
    ensures
        InstallerRun::SpawnFailed(e)@ == InstallerRunView::SpawnFailed(e@),
        InstallerRun::WaitFailed(e)@ == InstallerRunView::WaitFailed(e@),
        InstallerRun::Exited(output)@ == InstallerRunView::Exited(output@),
{
}

} // verus!
