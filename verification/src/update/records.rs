//! What the updater reads and writes besides the artifact: the version that is
//! installed, how the last run ended, and the choices that the installer is to
//! keep.

use vstd::prelude::*;
use vstd::string::StringExecFns;

use crate::foreign::{utc_text, utc_written};
use crate::manifest::{Channel, Timestamp};
use crate::text::{
    flattened, is_white_space, law_trimming_takes_off_both_ends, one_line, trim, trimmed, CharClass,
};
use crate::update::choices::{choice_changes, InstallerChoices};
use crate::update::download::error_of;
use crate::update::paths::{join_path, path_in};
use crate::update::status::{StatusView, UpdateStatus};

verus! {

/// The installed version, as a file that holds it tells, or why it cannot be
/// told; `content` is what was read from the file at `path`.
pub open spec fn version_in_file(path: Seq<char>, content: Result<Seq<char>, Seq<char>>) -> Result<
    Seq<char>,
    Seq<char>,
> {
    match content {
        Err(e) => Err("cannot read installed version from "@ + path + ": "@ + e),
        Ok(text) => {
            let version = trimmed(text, CharClass::WhiteSpace);
            if version.len() == 0 {
                Err("installed version file "@ + path + " is empty"@)
            } else {
                Ok(version)
            }
        },
    }
}

/// A text, or why there is none, as it is in contracts.
pub open spec fn text_view(r: Result<String, String>) -> Result<Seq<char>, Seq<char>> {
    match r {
        Ok(text) => Ok(text@),
        Err(e) => Err(e@),
    }
}

/// Reads the installed version from what the file at `path` holds. A file that
/// is missing or blank is an error: without the version it cannot be told
/// whether a release is newer.
pub fn read_installed_version(path: &str, content: Result<String, String>) -> (r: Result<
    String,
    String,
>)
    ensures
        text_view(r) == version_in_file(path@, text_view(content)),
{
    match content {
        Err(e) => Err(
            "cannot read installed version from ".to_owned().concat(path).concat(": ").concat(
                e.as_str(),
            ),
        ),
        Ok(text) => {
            let version = trim(text.as_str(), CharClass::WhiteSpace);
            if version.is_empty() {
                Err("installed version file ".to_owned().concat(path).concat(" is empty"))
            } else {
                Ok(version.to_owned())
            }
        },
    }
}

/// How the last run of the engine ended.
#[derive(Debug)]
pub struct LastUpdateAttempt {
    pub timestamp: Timestamp,
    pub channel: Channel,
    pub candidate_version: Option<String>,
    pub final_status: UpdateStatus,
}

impl LastUpdateAttempt {
    /// The run on `channel` ended at `timestamp` with `status`.
    pub fn new(timestamp: Timestamp, channel: Channel, status: &UpdateStatus) -> (r:
        LastUpdateAttempt)
        ensures
            r.timestamp == timestamp,
            r.channel == channel,
            r.candidate_version is None,
            r.final_status@ == status@,
    {
        LastUpdateAttempt {
            timestamp,
            channel,
            candidate_version: None,
            final_status: status.clone(),
        }
    }
}

/// The line that the log gets for a run that ended at `moment`; what spans
/// lines is put on one.
pub open spec fn log_line(
    moment: Seq<char>,
    channel: Channel,
    status: StatusView,
    updater: Option<Seq<char>>,
) -> Seq<char> {
    let line = moment + "\tchannel="@ + channel.name() + "\tstatus="@ + status.text();
    flattened(
        match updater {
            Some(report) => line + "\tupdater_version="@ + report,
            None => line,
        },
    ).push('\n')
}

/// Words the line of the log, for a moment that has been worded; `updater` is
/// what the new updater reported of its version.
pub fn audit_line(
    moment: &str,
    channel: Channel,
    status: &UpdateStatus,
    updater: Option<&str>,
) -> (r: String)
    ensures
        r@ == log_line(moment@, channel, status@, updater.deep_view()),
{
    let status = status.to_string();
    let line = moment.to_owned().concat("\tchannel=").concat(channel.to_str()).concat(
        "\tstatus=",
    ).concat(status.as_str());
    let line = match updater {
        Some(report) => line.concat("\tupdater_version=").concat(report),
        None => line,
    };
    proof {
        reveal_strlit("\n");
        assert(flattened(line@) + "\n"@ =~= flattened(line@).push('\n'));
    }
    one_line(line.as_str()).concat("\n")
}

/// Each entry of the log is one line: it has one line end, which is its last
/// character.
pub proof fn law_log_entry_is_one_line(
    moment: Seq<char>,
    channel: Channel,
    status: StatusView,
    updater: Option<Seq<char>>,
)
    ensures
        ({
            let entry = log_line(moment, channel, status, updater);
            &&& entry.len() > 0
            &&& entry.last() == '\n'
            &&& forall|i: int| 0 <= i < entry.len() - 1 ==> #[trigger] entry[i] != '\n'
        }),
{
}

/// What has no line end in it is written as it is.
pub proof fn law_log_entry_is_written_whole(
    moment: Seq<char>,
    channel: Channel,
    status: StatusView,
    report: Seq<char>,
)
    requires
        !moment.contains('\n'),
        !status.text().contains('\n'),
        !report.contains('\n'),
    ensures
        log_line(moment, channel, status, None) == moment + "\tchannel="@ + channel.name()
            + "\tstatus="@ + status.text() + "\n"@,
        log_line(moment, channel, status, Some(report)) == moment + "\tchannel="@ + channel.name()
            + "\tstatus="@ + status.text() + "\tupdater_version="@ + report + "\n"@,
{
    reveal_strlit("\tchannel=");
    reveal_strlit("\tstatus=");
    reveal_strlit("\tupdater_version=");
    reveal_strlit("\n");
    reveal_strlit("stable");
    reveal_strlit("snapshot");
    reveal_strlit("experimental");
    let line = moment + "\tchannel="@ + channel.name() + "\tstatus="@ + status.text();
    let longer = line + "\tupdater_version="@ + report;
    lemma_flattened_parts(moment, "\tchannel="@);
    lemma_flattened_parts(moment + "\tchannel="@, channel.name());
    lemma_flattened_parts(moment + "\tchannel="@ + channel.name(), "\tstatus="@);
    lemma_flattened_parts(
        moment + "\tchannel="@ + channel.name() + "\tstatus="@,
        status.text(),
    );
    lemma_flattened_parts(line, "\tupdater_version="@);
    lemma_flattened_parts(line + "\tupdater_version="@, report);
    lemma_flat_as_it_is(moment);
    lemma_flat_as_it_is(status.text());
    lemma_flat_as_it_is(report);
    assert(flattened(channel.name()) =~= channel.name());
    assert(flattened("\tchannel="@) =~= "\tchannel="@);
    assert(flattened("\tstatus="@) =~= "\tstatus="@);
    assert(flattened("\tupdater_version="@) =~= "\tupdater_version="@);
    assert(line.push('\n') =~= line + "\n"@);
    assert(longer.push('\n') =~= longer + "\n"@);
}

proof fn lemma_flattened_parts(a: Seq<char>, b: Seq<char>)
    ensures
        flattened(a + b) == flattened(a) + flattened(b),
{
    assert(flattened(a + b) =~= flattened(a) + flattened(b));
}

proof fn lemma_flat_as_it_is(s: Seq<char>)
    requires
        !s.contains('\n'),
    ensures
        flattened(s) == s,
{
    assert forall|i: int| 0 <= i < s.len() implies flattened(s)[i] == s[i] by {
        assert(s.contains(s[i]));
    }
    assert(flattened(s) =~= s);
}

/// Words the line that the log gets for a run that ended at `timestamp`:
/// nothing if that is no moment.
pub fn audit_log(
    timestamp: Timestamp,
    channel: Channel,
    status: &UpdateStatus,
    updater: Option<&str>,
) -> (r: Option<String>)
    ensures
        r.deep_view() == match utc_written(timestamp.secs, timestamp.nanos) {
            Some(moment) => Some(log_line(moment, channel, status@, updater.deep_view())),
            None => None,
        },
{
    match utc_text(timestamp.secs, timestamp.nanos) {
        Some(moment) => Some(audit_line(moment.as_str(), channel, status, updater)),
        None => None,
    }
}

/// What is to be written, and where, so that the installer keeps the choices;
/// nothing if none are known.
pub fn choice_changes_file(installed: &InstallerChoices, dir: &str) -> (r: Option<(String, String)>)
    ensures
        match choice_changes(installed.network.deep_view(), installed.loglevel.deep_view()) {
            Some(xml) => r matches Some(file) && file.0@ == path_in(dir@, "choice_changes.xml"@)
                && file.1@ == xml,
            None => r is None,
        },
{
    match installed.to_choice_changes_xml() {
        Some(xml) => Some((join_path(dir, "choice_changes.xml"), xml)),
        None => None,
    }
}

/// What came of writing the choices to the file at `path`, if any were to be
/// written: the path, or the error.
pub open spec fn pinned(path: Option<Seq<char>>, error: Option<Seq<char>>) -> Result<
    Option<Seq<char>>,
    Seq<char>,
> {
    match (path, error) {
        (Some(_), Some(e)) => Err("cannot write installer choice changes: "@ + e),
        _ => Ok(path),
    }
}

/// Tells what came of writing the choices.
pub fn write_choice_changes(path: Option<String>, written: Result<(), String>) -> (r: Result<
    Option<String>,
    String,
>)
    ensures
        match r {
            Ok(file) => pinned(path.deep_view(), error_of(written)) == Ok::<
                Option<Seq<char>>,
                Seq<char>,
            >(file.deep_view()),
            Err(e) => pinned(path.deep_view(), error_of(written)) == Err::<
                Option<Seq<char>>,
                Seq<char>,
            >(e@),
        },
{
    match (path, written) {
        (Some(_), Err(e)) => {
            Err("cannot write installer choice changes: ".to_owned().concat(e.as_str()))
        },
        (path, _) => Ok(path),
    }
}

/// The installed version is what the file holds, without the space around; a
/// file that is blank or cannot be read has none, and is named.
pub proof fn law_version_is_what_the_file_holds(
    path: Seq<char>,
    before: Seq<char>,
    version: Seq<char>,
    after: Seq<char>,
    e: Seq<char>,
)
    requires
        forall|i: int| 0 <= i < before.len() ==> is_white_space(#[trigger] before[i]),
        forall|i: int| 0 <= i < after.len() ==> is_white_space(#[trigger] after[i]),
        version.len() > 0 ==> !is_white_space(version[0]) && !is_white_space(version.last()),
    ensures
        version.len() > 0 ==> version_in_file(path, Ok(before + version + after)) == Ok::<
            Seq<char>,
            Seq<char>,
        >(version),
        version.len() == 0 ==> version_in_file(path, Ok(before + version + after)) == Err::<
            Seq<char>,
            Seq<char>,
        >("installed version file "@ + path + " is empty"@),
        version_in_file(path, Err(e)) == Err::<Seq<char>, Seq<char>>(
            "cannot read installed version from "@ + path + ": "@ + e,
        ),
{
    law_trimming_takes_off_both_ends(before, version, after, CharClass::WhiteSpace);
}

/// An entry tells its moment, channel, status and updater in this order, each as
/// it is but for line ends, which are spaces.
pub proof fn law_log_entry_tells_the_run(
    moment: Seq<char>,
    channel: Channel,
    status: StatusView,
    report: Seq<char>,
)
    ensures
        log_line(moment, channel, status, None) == flattened(
            moment + "\tchannel="@ + channel.name() + "\tstatus="@ + status.text(),
        ).push('\n'),
        log_line(moment, channel, status, Some(report)) == flattened(
            moment + "\tchannel="@ + channel.name() + "\tstatus="@ + status.text()
                + "\tupdater_version="@ + report,
        ).push('\n'),
{
}

/// Choices are pinned where they were written, none are where there were none
/// to write, and only choices that were to be written can fail to be.
pub proof fn law_pinned_choices_were_written(path: Seq<char>, e: Seq<char>, error: Option<Seq<char>>)
    ensures
        pinned(None, error) == Ok::<Option<Seq<char>>, Seq<char>>(None),
        pinned(Some(path), None) == Ok::<Option<Seq<char>>, Seq<char>>(Some(path)),
        pinned(Some(path), Some(e)) == Err::<Option<Seq<char>>, Seq<char>>(
            "cannot write installer choice changes: "@ + e,
        ),
{
}

/// A text that was read, and the error where it was not, are taken as they are.
pub proof fn law_text_is_taken_as_it_is(text: String)
    ensures
        text_view(Ok(text)) == Ok::<Seq<char>, Seq<char>>(text@),
        text_view(Err(text)) == Err::<Seq<char>, Seq<char>>(text@),
{
}

} // verus!
