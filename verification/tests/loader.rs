//! The loader, and how the updater lets itself be replaced.

use std::collections::HashMap;

use gnosis_vpn_update::update::loader::{
    console_user, dismiss, DismissAction, DismissEvent, Loader, LoaderShow, ShowAction, ShowEvent,
    APP_BUNDLE_NAME, DISMISS_GRACE, DISMISS_POLL, PKILL_PATTERN, STATUS_FILE,
};
use gnosis_vpn_update::update::process::CommandOutput;
use gnosis_vpn_update::update::self_update::{
    finish, probed_version, rename_aside, FileStep, RenameAside, INSTALLED_BINARY_PATH,
};

const MILLI: u64 = 1_000_000;

fn output(success: bool, stdout: &str, stderr: &str) -> CommandOutput {
    CommandOutput {
        success,
        code: Some(if success { 0 } else { 1 }),
        status: if success { "exit status: 0".into() } else { "exit status: 1".into() },
        stdout: stdout.into(),
        stderr: stderr.into(),
    }
}

/// A show that has come as far as writing the status file.
fn writing_status(pid: u32) -> (LoaderShow, ShowAction) {
    let mut show = LoaderShow::new(pid);
    assert!(matches!(show.step(ShowEvent::Begin(true)), ShowAction::AskConsole));
    let action = show.step(ShowEvent::ConsoleAsked(Ok(output(true, "alice\n", ""))));
    (show, action)
}

/// A loader that was put up.
fn engaged(pid: u32) -> Loader {
    let (mut show, _) = writing_status(pid);
    show.step(ShowEvent::StatusWritten(Ok(())));
    show.step(ShowEvent::DirCleared);
    show.step(ShowEvent::DirMade(Ok(())));
    show.step(ShowEvent::DirOpened(Ok(())));
    show.step(ShowEvent::ZipWritten(Ok(())));
    show.step(ShowEvent::Unpacked(Ok(output(true, "", ""))));
    show.step(ShowEvent::ZipRemoved);
    show.step(ShowEvent::Looked(true));
    match show.step(ShowEvent::Launched(Ok(output(true, "", "")))) {
        ShowAction::Finish(loader, None) => loader,
        other => panic!("unexpected {other:?}"),
    }
}

#[test]
fn status_file_tells_the_pid_and_then_done() {
    // The applet reads the pid as word 2 of the
    // "updating <pid>" line, and the done sentinel replaces it.
    let (_, action) = writing_status(4711);
    match action {
        ShowAction::WriteStatus(text) => assert_eq!(text, "updating 4711"),
        other => panic!("unexpected {other:?}"),
    }
    let mut dismissal = dismiss(engaged(4711));
    match dismissal.step(DismissEvent::Begin, 0) {
        DismissAction::WriteStatus(text) => assert_eq!(text, "done"),
        other => panic!("unexpected {other:?}"),
    }
    assert_eq!(STATUS_FILE, "/Library/Logs/GnosisVPN/installer/update_status");
}

#[test]
fn loader_is_unpacked_and_opened() {
    let dir = "/tmp/gnosisvpn-update-loader-42";
    let (mut show, _) = writing_status(42);
    assert!(matches!(show.step(ShowEvent::StatusWritten(Ok(()))), ShowAction::ClearDir(d) if d == dir));
    assert!(matches!(show.step(ShowEvent::DirCleared), ShowAction::MakeDir(d) if d == dir));
    assert!(matches!(show.step(ShowEvent::DirMade(Ok(()))), ShowAction::OpenDir(d) if d == dir));
    let zip = "/tmp/gnosisvpn-update-loader-42/loader.zip";
    assert!(matches!(show.step(ShowEvent::DirOpened(Ok(()))), ShowAction::WriteZip(z) if z == zip));
    assert!(matches!(
        show.step(ShowEvent::ZipWritten(Ok(()))),
        ShowAction::Unpack(z, d) if z == zip && d == dir
    ));
    assert!(matches!(
        show.step(ShowEvent::Unpacked(Ok(output(true, "", "")))),
        ShowAction::RemoveZip(z) if z == zip
    ));
    let app = "/tmp/gnosisvpn-update-loader-42/GnosisVPNUpdateLoader.app";
    assert!(matches!(show.step(ShowEvent::ZipRemoved), ShowAction::Look(a) if a == app));
    match show.step(ShowEvent::Looked(true)) {
        ShowAction::Launch(user, command) => {
            assert_eq!(user, "alice");
            assert_eq!(
                command,
                "/usr/bin/open '/tmp/gnosisvpn-update-loader-42/GnosisVPNUpdateLoader.app'"
            );
            assert!(!command.contains("Gnosis VPN"));
            assert!(command.contains(PKILL_PATTERN) && command.contains(APP_BUNDLE_NAME));
        }
        other => panic!("unexpected {other:?}"),
    }
    assert!(matches!(
        show.step(ShowEvent::Launched(Ok(output(true, "", "")))),
        ShowAction::Finish(_, None)
    ));
}

#[test]
fn loader_is_left_out_without_root_or_user() {
    let mut show = LoaderShow::new(1);
    let loader = match show.step(ShowEvent::Begin(false)) {
        ShowAction::Finish(loader, None) => loader,
        other => panic!("unexpected {other:?}"),
    };
    assert!(matches!(dismiss(loader).step(DismissEvent::Begin, 0), DismissAction::Finish));

    let mut show = LoaderShow::new(1);
    show.step(ShowEvent::Begin(true));
    let asked = ShowEvent::ConsoleAsked(Ok(output(true, "root\n", "")));
    assert!(matches!(show.step(asked), ShowAction::Finish(_, None)));

    assert_eq!(console_user(Ok(output(true, " alice \n", ""))).as_deref(), Some("alice"));
    assert_eq!(console_user(Ok(output(true, "\n", ""))), None);
    assert_eq!(console_user(Ok(output(false, "alice", ""))), None);
    assert_eq!(console_user(Err("no stat".into())), None);
}

#[test]
fn loader_failures_are_worded_and_cleaned_up() {
    let failure = |events: Vec<ShowEvent>| {
        let (mut show, _) = writing_status(7);
        let mut last = None;
        for event in events {
            last = Some(show.step(event));
        }
        match last {
            Some(ShowAction::Finish(loader, Some(error))) => {
                let begun = dismiss(loader).step(DismissEvent::Begin, 0);
                (error, matches!(begun, DismissAction::WriteStatus(_)))
            }
            other => panic!("unexpected {other:?}"),
        }
    };
    let ok = || ShowEvent::StatusWritten(Ok(()));
    assert_eq!(failure(vec![ShowEvent::StatusWritten(Err("ro".into()))]), ("ro".into(), false));
    assert_eq!(
        failure(vec![ok(), ShowEvent::DirCleared, ShowEvent::DirMade(Err("e".into()))]),
        ("create /tmp/gnosisvpn-update-loader-7: e".into(), true)
    );
    assert_eq!(
        failure(vec![
            ok(),
            ShowEvent::DirCleared,
            ShowEvent::DirMade(Ok(())),
            ShowEvent::DirOpened(Err("e".into()))
        ]),
        ("chmod /tmp/gnosisvpn-update-loader-7: e".into(), true)
    );
    assert_eq!(
        failure(vec![
            ok(),
            ShowEvent::DirCleared,
            ShowEvent::DirMade(Ok(())),
            ShowEvent::DirOpened(Ok(())),
            ShowEvent::ZipWritten(Err("e".into()))
        ]),
        ("write /tmp/gnosisvpn-update-loader-7/loader.zip: e".into(), true)
    );
    let unpacked = |rest: Vec<ShowEvent>| {
        let mut events = vec![
            ok(),
            ShowEvent::DirCleared,
            ShowEvent::DirMade(Ok(())),
            ShowEvent::DirOpened(Ok(())),
            ShowEvent::ZipWritten(Ok(())),
        ];
        events.extend(rest);
        failure(events).0
    };
    assert_eq!(unpacked(vec![ShowEvent::Unpacked(Err("e".into()))]), "ditto spawn failed: e");
    assert_eq!(
        unpacked(vec![ShowEvent::Unpacked(Ok(output(false, "", " bad\n"))), ShowEvent::ZipRemoved]),
        "ditto exited with exit status: 1: bad"
    );
    let good = || ShowEvent::Unpacked(Ok(output(true, "", "")));
    assert_eq!(
        unpacked(vec![good(), ShowEvent::ZipRemoved, ShowEvent::Looked(false)]),
        "extracted zip has no GnosisVPNUpdateLoader.app"
    );
    assert_eq!(
        unpacked(vec![
            good(),
            ShowEvent::ZipRemoved,
            ShowEvent::Looked(true),
            ShowEvent::Launched(Err("e".into()))
        ]),
        "su spawn failed: e"
    );
    assert_eq!(
        unpacked(vec![
            good(),
            ShowEvent::ZipRemoved,
            ShowEvent::Looked(true),
            ShowEvent::Launched(Ok(output(false, "", "no session\n")))
        ]),
        "su/open exited with exit status: 1: no session"
    );
}

#[test]
fn wait_for_loader_exit_returns_immediately_when_nothing_matches() {
    let mut dismissal = dismiss(engaged(1));
    dismissal.step(DismissEvent::Begin, 0);
    assert!(matches!(dismissal.step(DismissEvent::StatusWritten, 0), DismissAction::Poll));
    // Far below the grace: the first miss must end the wait.
    assert!(matches!(
        dismissal.step(DismissEvent::Polled(Ok(Some(1))), MILLI),
        DismissAction::Kill
    ));
}

#[test]
fn loader_is_waited_for_until_its_time_is_up() {
    assert_eq!(DISMISS_GRACE, 1_500 * MILLI);
    assert_eq!(DISMISS_POLL, 200 * MILLI);
    let mut dismissal = dismiss(engaged(1));
    let mut now: u64 = 77;
    dismissal.step(DismissEvent::Begin, now);
    let mut action = dismissal.step(DismissEvent::StatusWritten, now);
    let mut polls: u32 = 0;
    loop {
        action = match action {
            DismissAction::Poll => {
                polls += 1;
                // Running, or ended by a signal: either way it is waited for.
                let code = if polls % 2 == 0 { None } else { Some(0) };
                dismissal.step(DismissEvent::Polled(Ok(code)), now)
            }
            DismissAction::Pause(n) => {
                now += n;
                dismissal.step(DismissEvent::Woke, now)
            }
            DismissAction::Kill => break,
            other => panic!("unexpected {other:?}"),
        };
    }
    assert_eq!(polls, 9);

    // A program that cannot be run tells nothing.
    let mut dismissal = dismiss(engaged(1));
    dismissal.step(DismissEvent::Begin, 0);
    dismissal.step(DismissEvent::StatusWritten, 0);
    assert!(matches!(
        dismissal.step(DismissEvent::Polled(Err("no pgrep".into())), 0),
        DismissAction::Kill
    ));
}

#[test]
fn dismiss_is_a_noop_for_an_inactive_loader() {
    let mut dismissal = dismiss(Loader::inactive());
    assert!(matches!(dismissal.step(DismissEvent::Begin, 0), DismissAction::Finish));
}

#[test]
fn cleanup_removes_status_file_and_temp_dir() {
    let mut dismissal = dismiss(engaged(9));
    dismissal.step(DismissEvent::Begin, 0);
    dismissal.step(DismissEvent::StatusWritten, 0);
    dismissal.step(DismissEvent::Polled(Ok(Some(1))), 0);
    match dismissal.step(DismissEvent::Killed, 0) {
        DismissAction::Clean(dir) => {
            assert_eq!(dir.as_deref(), Some("/tmp/gnosisvpn-update-loader-9"))
        }
        other => panic!("unexpected {other:?}"),
    }
    assert!(matches!(dismissal.step(DismissEvent::Cleaned, 0), DismissAction::Finish));
}

/// Files, each with its path.
type Files = HashMap<String, &'static str>;

/// Does what a step says, and tells whether it could be done.
fn perform(files: &mut Files, step: FileStep) -> Result<(), String> {
    match step {
        FileStep::Nothing => Ok(()),
        FileStep::Remove(path) => files.remove(&path).map(|_| ()).ok_or("missing".to_string()),
        FileStep::Rename(from, to) => {
            let content = files.remove(&from).ok_or("missing".to_string())?;
            files.insert(to, content);
            Ok(())
        }
    }
}

/// Renames the updater in `files`.
fn engage(files: &mut Files) -> RenameAside {
    let outcome = perform(files, rename_aside());
    RenameAside::engage(INSTALLED_BINARY_PATH, outcome)
}

const OLD_PATH: &str = "/usr/local/bin/gnosis_vpn-update.old";

#[test]
fn engage_renames_binary_aside_and_success_removes_old() {
    let mut files = Files::new();
    files.insert(INSTALLED_BINARY_PATH.into(), "old-binary");

    let aside = engage(&mut files);
    assert!(aside.is_renamed());
    assert!(!files.contains_key(INSTALLED_BINARY_PATH));
    assert_eq!(files[OLD_PATH], "old-binary");

    // Simulate the postinstall writing the fresh binary, then settle.
    files.insert(INSTALLED_BINARY_PATH.into(), "new-binary");
    perform(&mut files, aside.finish_success()).unwrap();
    assert!(!files.contains_key(OLD_PATH));
    assert_eq!(files[INSTALLED_BINARY_PATH], "new-binary");
}

#[test]
fn failure_restores_old_binary_when_path_is_empty() {
    let mut files = Files::new();
    files.insert(INSTALLED_BINARY_PATH.into(), "old-binary");

    let aside = engage(&mut files);
    assert!(!files.contains_key(INSTALLED_BINARY_PATH));

    let exists = files.contains_key(INSTALLED_BINARY_PATH);
    perform(&mut files, aside.finish_failure(exists)).unwrap();
    assert_eq!(files[INSTALLED_BINARY_PATH], "old-binary");
    assert!(!files.contains_key(OLD_PATH));
}

#[test]
fn failure_does_not_clobber_a_new_binary_written_by_postinstall() {
    let mut files = Files::new();
    files.insert(INSTALLED_BINARY_PATH.into(), "old-binary");

    let aside = engage(&mut files);
    // Postinstall replaced the binary before the install failed later.
    files.insert(INSTALLED_BINARY_PATH.into(), "new-binary");

    let exists = files.contains_key(INSTALLED_BINARY_PATH);
    perform(&mut files, aside.finish_failure(exists)).unwrap();
    assert_eq!(files[INSTALLED_BINARY_PATH], "new-binary");
    assert!(!files.contains_key(OLD_PATH));
}

#[test]
fn missing_binary_makes_engage_a_noop_for_both_outcomes() {
    let mut files = Files::new();

    let aside = engage(&mut files);
    assert!(!aside.is_renamed());
    perform(&mut files, aside.finish_failure(false)).unwrap();
    assert!(!files.contains_key(INSTALLED_BINARY_PATH));
    assert!(!files.contains_key(OLD_PATH));

    let aside = engage(&mut files);
    perform(&mut files, aside.finish_success()).unwrap();
    assert!(!files.contains_key(INSTALLED_BINARY_PATH));
}

#[test]
fn new_updater_is_asked_only_after_success() {
    let aside = RenameAside::engage("/bin/u", Ok(()));
    let (step, ask) = finish(aside, true, true);
    assert!(matches!(step, FileStep::Remove(p) if p == "/bin/u.old"));
    assert!(ask);
    let aside = RenameAside::engage("/bin/u", Ok(()));
    let (step, ask) = finish(aside, false, false);
    assert!(matches!(step, FileStep::Rename(from, to) if from == "/bin/u.old" && to == "/bin/u"));
    assert!(!ask);

    assert_eq!(probed_version(Ok(output(true, "0.4.0\n", ""))).as_deref(), Some("0.4.0"));
    assert_eq!(probed_version(Ok(output(false, "0.4.0\n", ""))), None);
    assert_eq!(probed_version(Err("missing".into())), None);
}
