//! The fixed locations that the update engine works with.
//!
//! They are not taken from the caller, so that who invokes the updater cannot
//! direct where artifacts land or where its records are kept.

use vstd::prelude::*;
use vstd::string::StringExecFns;

use crate::text::chars_of;

verus! {

/// The path of `name` in directory `dir`. An absolute `name` stands for
/// itself.
pub open spec fn path_in(dir: Seq<char>, name: Seq<char>) -> Seq<char> {
    if name.len() > 0 && name[0] == '/' {
        name
    } else if dir.len() == 0 || dir.last() == '/' {
        dir + name
    } else {
        dir.push('/') + name
    }
}

/// The path of `name` in directory `dir`.
pub fn join_path(dir: &str, name: &str) -> (r: String)
    ensures
        r@ == path_in(dir@, name@),
{
    let d = chars_of(dir);
    let n = chars_of(name);
    if n.len() > 0 && n[0] == '/' {
        name.to_owned()
    } else if d.len() == 0 || d[d.len() - 1] == '/' {
        dir.to_owned().concat(name)
    } else {
        proof {
            reveal_strlit("/");
            assert(dir@ + "/"@ =~= dir@.push('/'));
        }
        dir.to_owned().concat("/").concat(name)
    }
}

/// Where the updater keeps its files.
fn base_dir() -> (r: &'static str)
    ensures
        r@ == "/Library/Application Support/GnosisVPN"@,
{
    "/Library/Application Support/GnosisVPN"
}

/// The directory that artifacts are downloaded to.
pub fn download_dir() -> (r: String)
    ensures
        r@ == "/Library/Application Support/GnosisVPN/updates"@,
{
    proof {
        reveal_strlit("/Library/Application Support/GnosisVPN");
        reveal_strlit("updates");
        reveal_strlit("/Library/Application Support/GnosisVPN/updates");
        assert(path_in("/Library/Application Support/GnosisVPN"@, "updates"@)
            =~= "/Library/Application Support/GnosisVPN/updates"@);
    }
    join_path(base_dir(), "updates")
}

/// The file that records the last attempt at an update.
pub fn attempt_state_path() -> (r: String)
    ensures
        r@ == "/Library/Application Support/GnosisVPN/last_update_attempt.json"@,
{
    proof {
        reveal_strlit("/Library/Application Support/GnosisVPN");
        reveal_strlit("last_update_attempt.json");
        reveal_strlit("/Library/Application Support/GnosisVPN/last_update_attempt.json");
        assert(path_in("/Library/Application Support/GnosisVPN"@, "last_update_attempt.json"@)
            =~= "/Library/Application Support/GnosisVPN/last_update_attempt.json"@);
    }
    join_path(base_dir(), "last_update_attempt.json")
}

/// The log to which every attempt adds a line.
pub fn audit_log_path() -> (r: String)
    ensures
        r@ == "/var/log/gnosisvpn/updates.log"@,
{
    "/var/log/gnosisvpn/updates.log".to_owned()
}

/// The file that the client's installer writes the installed version to.
pub fn installed_version_path() -> (r: String)
    ensures
        r@ == "/etc/gnosisvpn/version.txt"@,
{
    "/etc/gnosisvpn/version.txt".to_owned()
}

/// The client's active configuration: a link to that of the chosen network.
pub fn config_symlink_path() -> (r: String)
    ensures
        r@ == "/etc/gnosisvpn/config.toml"@,
{
    "/etc/gnosisvpn/config.toml".to_owned()
}

/// Where the installer records what was chosen in it.
fn installer_choice_dir() -> (r: &'static str)
    ensures
        r@ == "/Library/Logs/GnosisVPN/installer"@,
{
    "/Library/Logs/GnosisVPN/installer"
}

/// The recorded choice of network.
pub fn network_choice_path() -> (r: String)
    ensures
        r@ == "/Library/Logs/GnosisVPN/installer/network_choice"@,
{
    proof {
        reveal_strlit("/Library/Logs/GnosisVPN/installer");
        reveal_strlit("network_choice");
        reveal_strlit("/Library/Logs/GnosisVPN/installer/network_choice");
        assert(path_in("/Library/Logs/GnosisVPN/installer"@, "network_choice"@)
            =~= "/Library/Logs/GnosisVPN/installer/network_choice"@);
    }
    join_path(installer_choice_dir(), "network_choice")
}

/// The recorded choice of log level.
pub fn loglevel_choice_path() -> (r: String)
    ensures
        r@ == "/Library/Logs/GnosisVPN/installer/loglevel_choice"@,
{
    proof {
        reveal_strlit("/Library/Logs/GnosisVPN/installer");
        reveal_strlit("loglevel_choice");
        reveal_strlit("/Library/Logs/GnosisVPN/installer/loglevel_choice");
        assert(path_in("/Library/Logs/GnosisVPN/installer"@, "loglevel_choice"@)
            =~= "/Library/Logs/GnosisVPN/installer/loglevel_choice"@);
    }
    join_path(installer_choice_dir(), "loglevel_choice")
}

/// A name in a directory follows the directory after one slash, whether that
/// ends with one or not; an absolute name stands for itself.
pub proof fn law_name_follows_its_directory(dir: Seq<char>, name: Seq<char>)
    ensures
        path_in(dir, seq!['/'] + name) == seq!['/'] + name,
        (name.len() == 0 || name[0] != '/') && dir.len() > 0 && dir.last() != '/' ==> path_in(
            dir,
            name,
        ) == dir + seq!['/'] + name,
        (name.len() == 0 || name[0] != '/') ==> path_in(dir.push('/'), name) == dir + seq!['/']
            + name,
        (name.len() == 0 || name[0] != '/') ==> path_in(Seq::empty(), name) == name,
{
    assert(dir.push('/') =~= dir + seq!['/']);
    assert(Seq::<char>::empty() + name =~= name);
}

} // verus!
