//! What holds of a run of the engine as a whole, whatever happens in it.
//!
//! A trace is what happened, in order. The laws here speak of the trace and of
//! what an [`Engine`](crate::update::engine::Engine) had done in answer to it.

use vstd::prelude::*;

use crate::manifest::{ErrorView, ManifestView, ReleaseView, INTEGRITY_ERROR};
use crate::update::download::DownloadErrorView;
use crate::update::engine::{
    release_to_install, EngineActionView, EngineEventView, EngineInputView, EnginePhase,
    EngineView, InstallStep,
};
use crate::update::gate::install_verdict;
use crate::update::status::{StatusView, UpdateStage};
use crate::update::upgrade::GateErrorView;
use crate::vpn_status::NOT_CONNECTED;

verus! {

/// What happened, in order.
pub type EngineTrace = Seq<EngineEventView>;

/// Where a run stands after a trace.
pub open spec fn run(input: EngineInputView, trace: EngineTrace) -> EngineView
    decreases trace.len(),
{
    if trace.len() == 0 {
        EngineView::fresh(input)
    } else {
        run(input, trace.drop_last()).after(trace.last()).0
    }
}

/// What a run had done in answer to a trace, in order.
pub open spec fn actions(input: EngineInputView, trace: EngineTrace) -> Seq<EngineActionView>
    decreases trace.len(),
{
    if trace.len() == 0 {
        Seq::empty()
    } else {
        actions(input, trace.drop_last()).push(
            run(input, trace.drop_last()).after(trace.last()).1,
        )
    }
}

/// Whether each event of a trace was one that the run waited for.
pub open spec fn can_happen(input: EngineInputView, trace: EngineTrace) -> bool
    decreases trace.len(),
{
    trace.len() == 0 || {
        &&& can_happen(input, trace.drop_last())
        &&& run(input, trace.drop_last()).awaits(trace.last())
    }
}

/// The statuses that were reported, in order.
pub open spec fn reports(acts: Seq<EngineActionView>) -> Seq<StatusView>
    decreases acts.len(),
{
    if acts.len() == 0 {
        Seq::empty()
    } else {
        match acts.last() {
            EngineActionView::Report(status) => reports(acts.drop_last()).push(status),
            _ => reports(acts.drop_last()),
        }
    }
}

/// The statuses that were recorded, in order.
pub open spec fn records(acts: Seq<EngineActionView>) -> Seq<StatusView>
    decreases acts.len(),
{
    if acts.len() == 0 {
        Seq::empty()
    } else {
        match acts.last() {
            EngineActionView::Persist(_, _, status) => records(acts.drop_last()).push(status),
            _ => records(acts.drop_last()),
        }
    }
}

/// The statuses that were logged, in order.
pub open spec fn logs(acts: Seq<EngineActionView>) -> Seq<StatusView>
    decreases acts.len(),
{
    if acts.len() == 0 {
        Seq::empty()
    } else {
        match acts.last() {
            EngineActionView::Log(_, _, status, _) => logs(acts.drop_last()).push(status),
            _ => logs(acts.drop_last()),
        }
    }
}

/// Whether the loader was put up and not yet taken down.
pub open spec fn loader_is_up(acts: Seq<EngineActionView>) -> bool
    decreases acts.len(),
{
    acts.len() > 0 && match acts.last() {
        EngineActionView::ShowLoader => true,
        EngineActionView::DismissLoader => false,
        _ => loader_is_up(acts.drop_last()),
    }
}

/// Whether the updater's own file was moved out of the way and not yet put
/// right.
pub open spec fn file_is_aside(acts: Seq<EngineActionView>) -> bool
    decreases acts.len(),
{
    acts.len() > 0 && match acts.last() {
        EngineActionView::RenameAside => true,
        EngineActionView::Settle(_) => false,
        _ => file_is_aside(acts.drop_last()),
    }
}

/// The statuses of a run before its end, in order, as far as it gets.
pub open spec fn progress() -> Seq<StatusView> {
    seq![StatusView::Checking, StatusView::Downloading, StatusView::Installing]
}

/// Whether the release may be installed: the VPN is connected, or need not be,
/// and the manifest and the gates gave the release.
pub open spec fn passed_checks(
    input: EngineInputView,
    trace: EngineTrace,
    release: ReleaseView,
) -> bool {
    &&& input.skip_vpn_check || trace.contains(EngineEventView::VpnAnswered(true))
    &&& exists|manifest: ManifestView|
        #![trigger trace.contains(EngineEventView::ManifestFetched(Ok(manifest)))]
        trace.contains(EngineEventView::ManifestFetched(Ok(manifest))) && release_to_install(
            input,
            manifest,
        ) == Ok::<ReleaseView, GateErrorView>(release)
}

/// Whether the file at `path` was downloaded, and was found to be the artifact
/// of the release.
pub open spec fn is_verified(
    input: EngineInputView,
    trace: EngineTrace,
    release: ReleaseView,
    path: Seq<char>,
) -> bool {
    &&& trace.contains(EngineEventView::Downloaded(Ok(path)))
    &&& actions(input, trace).contains(EngineActionView::Verify(path, release))
    &&& trace.contains(EngineEventView::Verified(None))
}

/// Whether a run with this trace may end with `status`: with success just when
/// the installer succeeded, on a release that the checks let pass.
pub open spec fn fitting_end(input: EngineInputView, trace: EngineTrace, status: StatusView) -> bool {
    match status {
        StatusView::Completed { new_version } => {
            &&& trace.contains(EngineEventView::Installed(None))
            &&& exists|release: ReleaseView|
                #[trigger] passed_checks(input, trace, release) && release.version == new_version
        },
        StatusView::Failed { stage, error } => {
            &&& !trace.contains(EngineEventView::Installed(None))
            &&& forall|e: Seq<char>|
                #[trigger] trace.contains(EngineEventView::Installed(Some(e))) ==> stage
                    == UpdateStage::Install && error == e
        },
        _ => false,
    }
}

/// The statuses that have been reported where a run stands in `phase`, unless
/// it has ended.
pub open spec fn reports_in(phase: EnginePhase) -> int {
    match phase {
        EnginePhase::New => 0,
        EnginePhase::AnnouncingCheck | EnginePhase::AskingVpn | EnginePhase::FetchingManifest => 1,
        EnginePhase::AnnouncingDownload(_) | EnginePhase::Downloading(_) => 2,
        EnginePhase::Verifying(_, _) | EnginePhase::Pinning(_, _) => 2,
        EnginePhase::Installing(step, _) => if step is Shielding || step is ShowingLoader {
            2
        } else {
            3
        },
        _ => 3,
    }
}

/// Whether a run in `phase` has ended, but for telling how.
pub open spec fn has_ended(phase: EnginePhase) -> bool {
    phase is Persisting || phase is Logging || phase is AnnouncingEnd || phase is Over
}

/// The status of a run that has ended.
pub open spec fn end_of(phase: EnginePhase, acts: Seq<EngineActionView>) -> StatusView {
    match phase {
        EnginePhase::Persisting(status, _) => status,
        EnginePhase::Logging(status) => status,
        _ => reports(acts).last(),
    }
}

/// What was reported, recorded and logged is what belongs where the run
/// stands.
pub open spec fn told_in_order(input: EngineInputView, trace: EngineTrace) -> bool {
    let phase = run(input, trace).phase;
    let acts = actions(input, trace);
    let told = reports(acts);
    let end = end_of(phase, acts);
    let progressed = if phase is AnnouncingEnd || phase is Over {
        told.len() - 1
    } else {
        told.len() as int
    };
    &&& run(input, trace).input == input
    &&& 0 <= progressed <= 3
    &&& told == if phase is AnnouncingEnd || phase is Over {
        progress().take(progressed).push(end)
    } else {
        progress().take(progressed)
    }
    &&& if has_ended(phase) {
        &&& end.ends_run()
        &&& end is Completed ==> progressed == 3
        &&& progressed >= 1
        &&& phase is Persisting ==> input.attempt_state_path is Some
        &&& phase is Logging ==> input.audit_log_path is Some
        &&& records(acts) == if input.attempt_state_path is Some {
            seq![end]
        } else {
            Seq::empty()
        }
        &&& logs(acts) == if input.audit_log_path is Some && !(phase is Persisting) {
            seq![end]
        } else {
            Seq::empty()
        }
    } else {
        &&& progressed == reports_in(phase)
        &&& records(acts) == Seq::<StatusView>::empty()
        &&& logs(acts) == Seq::<StatusView>::empty()
    }
}

/// The loader is up, and the updater's own file aside, just while the run is
/// where they have to be.
pub open spec fn tidy(input: EngineInputView, trace: EngineTrace) -> bool {
    let phase = run(input, trace).phase;
    let acts = actions(input, trace);
    &&& loader_is_up(acts) <==> (phase matches EnginePhase::Installing(step, _) && !(step
        is Shielding))
    &&& file_is_aside(acts) <==> (phase is Dismissing || (
    phase matches EnginePhase::Installing(step, _) && (step is RenamingAside || step is Running)))
}

/// What the run has let pass is what the trace shows to have passed.
pub open spec fn justified(input: EngineInputView, trace: EngineTrace) -> bool {
    let phase = run(input, trace).phase;
    let acts = actions(input, trace);
    &&& run(input, trace).input == input
    &&& !has_ended(phase) && !(phase is Dismissing) && !(phase is Settling)
        ==> forall|error: Option<Seq<char>>|
        !(#[trigger] trace.contains(EngineEventView::Installed(error)))
    &&& match phase {
        EnginePhase::New | EnginePhase::AnnouncingCheck | EnginePhase::AskingVpn => true,
        EnginePhase::FetchingManifest => input.skip_vpn_check || trace.contains(
            EngineEventView::VpnAnswered(true),
        ),
        EnginePhase::AnnouncingDownload(release) => passed_checks(input, trace, release),
        EnginePhase::Downloading(release) => passed_checks(input, trace, release),
        EnginePhase::Verifying(release, path) => {
            &&& passed_checks(input, trace, release)
            &&& trace.contains(EngineEventView::Downloaded(Ok(path)))
            &&& acts.contains(EngineActionView::Verify(path, release))
        },
        EnginePhase::Pinning(release, path) => {
            &&& passed_checks(input, trace, release)
            &&& is_verified(input, trace, release, path)
        },
        EnginePhase::Installing(_, plan) => {
            &&& passed_checks(input, trace, plan.release)
            &&& is_verified(input, trace, plan.release, plan.artifact)
            &&& trace.contains(EngineEventView::ChoicesPinned(Ok(plan.choice_changes)))
        },
        EnginePhase::Dismissing(release, error) | EnginePhase::Settling(release, error) => {
            &&& passed_checks(input, trace, release)
            &&& forall|e: Option<Seq<char>>|
                #[trigger] trace.contains(EngineEventView::Installed(e)) <==> e == error
        },
        _ => fitting_end(input, trace, end_of(phase, acts)),
    }
}

/// What a sequence contains after one more was added.
pub proof fn lemma_push_contains<A>(s: Seq<A>, e: A)
    ensures
        forall|x: A| #[trigger] s.push(e).contains(x) <==> s.contains(x) || x == e,
{
    assert forall|x: A| #[trigger] s.push(e).contains(x) <==> s.contains(x) || x == e by {
        if s.contains(x) {
            let i = choose|i: int| 0 <= i < s.len() && s[i] == x;
            assert(s.push(e)[i] == x);
        }
        assert(s.push(e)[s.len() as int] == e);
        if s.push(e).contains(x) && x != e {
            let i = choose|i: int| 0 <= i < s.push(e).len() && s.push(e)[i] == x;
            assert(s[i] == x);
        }
    }
}

/// The first statuses of a run, one more at a time.
pub proof fn lemma_progress()
    ensures
        progress().take(0) == Seq::<StatusView>::empty(),
        progress().take(0).push(StatusView::Checking) == progress().take(1),
        progress().take(1).push(StatusView::Downloading) == progress().take(2),
        progress().take(2).push(StatusView::Installing) == progress().take(3),
        forall|n: int| 0 <= n <= 3 ==> (#[trigger] progress().take(n)).len() == n,
{
    assert(progress().take(0) =~= Seq::<StatusView>::empty());
    assert(progress().take(0).push(StatusView::Checking) =~= progress().take(1));
    assert(progress().take(1).push(StatusView::Downloading) =~= progress().take(2));
    assert(progress().take(2).push(StatusView::Installing) =~= progress().take(3));
}

proof fn lemma_told_by_push(acts: Seq<EngineActionView>, act: EngineActionView)
    ensures
        reports(acts.push(act)) == match act {
            EngineActionView::Report(status) => reports(acts).push(status),
            _ => reports(acts),
        },
        records(acts.push(act)) == match act {
            EngineActionView::Persist(_, _, status) => records(acts).push(status),
            _ => records(acts),
        },
        logs(acts.push(act)) == match act {
            EngineActionView::Log(_, _, status, _) => logs(acts).push(status),
            _ => logs(acts),
        },
{
    assert(acts.push(act).drop_last() == acts);
}

proof fn lemma_told_in_order(input: EngineInputView, trace: EngineTrace)
    requires
        can_happen(input, trace),
    ensures
        told_in_order(input, trace),
    decreases trace.len(),
{
    lemma_progress();
    if trace.len() > 0 {
        let before = trace.drop_last();
        lemma_told_in_order(input, before);
        let acts = actions(input, before);
        let state = run(input, before);
        let (next, act) = state.after(trace.last());
        lemma_told_by_push(acts, act);
        assert(actions(input, trace) == acts.push(act));
        assert(run(input, trace) == next);
        assert(next.input == input);
        let nothing = Seq::<StatusView>::empty();
        if !has_ended(state.phase) {
            if !has_ended(next.phase) {
                assert(told_in_order(input, trace));
            } else if next.phase is Persisting {
                assert(nothing.push(next.phase->Persisting_0) =~= seq![next.phase->Persisting_0]);
                assert(told_in_order(input, trace));
            } else if next.phase is Logging {
                assert(nothing.push(next.phase->Logging_0) =~= seq![next.phase->Logging_0]);
                assert(told_in_order(input, trace));
            } else {
                assert(told_in_order(input, trace));
            }
        } else {
            if next.phase is Logging {
                assert(nothing.push(next.phase->Logging_0) =~= seq![next.phase->Logging_0]);
            }
            assert(told_in_order(input, trace));
        }
    }
}

proof fn lemma_tidy(input: EngineInputView, trace: EngineTrace)
    requires
        can_happen(input, trace),
    ensures
        tidy(input, trace),
    decreases trace.len(),
{
    if trace.len() > 0 {
        let before = trace.drop_last();
        lemma_tidy(input, before);
        let acts = actions(input, before);
        let act = run(input, before).after(trace.last()).1;
        assert(acts.push(act).drop_last() == acts);
    }
}

proof fn lemma_passed_stays_passed(
    input: EngineInputView,
    trace: EngineTrace,
    event: EngineEventView,
    release: ReleaseView,
)
    requires
        passed_checks(input, trace, release),
    ensures
        passed_checks(input, trace.push(event), release),
{
    lemma_push_contains(trace, event);
    let manifest = choose|manifest: ManifestView|
        #![trigger trace.contains(EngineEventView::ManifestFetched(Ok(manifest)))]
        trace.contains(EngineEventView::ManifestFetched(Ok(manifest))) && release_to_install(
            input,
            manifest,
        ) == Ok::<ReleaseView, GateErrorView>(release);
    assert(trace.push(event).contains(EngineEventView::ManifestFetched(Ok(manifest))));
}

#[verifier::spinoff_prover]
proof fn lemma_justified(input: EngineInputView, trace: EngineTrace)
    requires
        can_happen(input, trace),
    ensures
        justified(input, trace),
    decreases trace.len(),
{
    if trace.len() > 0 {
        let before = trace.drop_last();
        let event = trace.last();
        lemma_justified(input, before);
        assert(before.push(event) == trace);
        lemma_push_contains(before, event);
        let acts = actions(input, before);
        let act = run(input, before).after(event).1;
        assert(actions(input, trace) == acts.push(act));
        assert(acts.push(act).drop_last() == acts);
        lemma_push_contains(acts, act);
        match run(input, before).phase {
            EnginePhase::FetchingManifest => {
                if let EngineEventView::ManifestFetched(Ok(manifest)) = event {
                    assert(trace.contains(EngineEventView::ManifestFetched(Ok(manifest))));
                }
                assert(justified(input, trace));
            },
            EnginePhase::AnnouncingDownload(release) => {
                lemma_passed_stays_passed(input, before, event, release);
                assert(justified(input, trace));
            },
            EnginePhase::Downloading(release) => {
                lemma_passed_stays_passed(input, before, event, release);
                assert(justified(input, trace));
            },
            EnginePhase::Verifying(release, _) => {
                lemma_passed_stays_passed(input, before, event, release);
                assert(justified(input, trace));
            },
            EnginePhase::Pinning(release, _) => {
                lemma_passed_stays_passed(input, before, event, release);
                assert(justified(input, trace));
            },
            EnginePhase::Installing(_, plan) => {
                lemma_passed_stays_passed(input, before, event, plan.release);
                assert(justified(input, trace));
            },
            EnginePhase::Dismissing(release, _) => {
                lemma_passed_stays_passed(input, before, event, release);
                assert(justified(input, trace));
            },
            EnginePhase::Settling(release, _) => {
                lemma_passed_stays_passed(input, before, event, release);
                assert(justified(input, trace));
            },
            EnginePhase::New | EnginePhase::AnnouncingCheck | EnginePhase::AskingVpn => {
                assert(justified(input, trace));
            },
            phase => {
                lemma_end_stays_fitting(input, before, event, end_of(phase, acts));
                assert(justified(input, trace));
            },
        }
    }
}

proof fn lemma_end_stays_fitting(
    input: EngineInputView,
    trace: EngineTrace,
    event: EngineEventView,
    status: StatusView,
)
    requires
        fitting_end(input, trace, status),
        !(event is Installed),
    ensures
        fitting_end(input, trace.push(event), status),
{
    lemma_push_contains(trace, event);
    if let StatusView::Completed { new_version } = status {
        let release = choose|release: ReleaseView|
            #[trigger] passed_checks(input, trace, release) && release.version == new_version;
        lemma_passed_stays_passed(input, trace, event, release);
    }
}

/// A run reports `Checking`, `Downloading` and `Installing`, in that order and
/// as far as it gets, and then one status that ends it and is the last; success
/// is told only after all three.
pub proof fn law_statuses_come_in_order(input: EngineInputView, trace: EngineTrace)
    requires
        can_happen(input, trace),
    ensures
        ({
            let told = reports(actions(input, trace));
            let phase = run(input, trace).phase;
            if phase is AnnouncingEnd || phase is Over {
                &&& 2 <= told.len() <= 4
                &&& told.drop_last() == progress().take(told.len() - 1)
                &&& told.last().ends_run()
                &&& told.last() is Completed ==> told.len() == 4
            } else {
                told.len() <= 3 && told == progress().take(told.len() as int)
            }
        }),
{
    lemma_told_in_order(input, trace);
    let told = reports(actions(input, trace));
    if told.len() > 0 {
        let n = told.len() - 1;
        assert(progress().take(n).push(told.last()).drop_last() == progress().take(n));
    }
}

/// A run stops only once it has reported how it ended.
pub proof fn law_stops_after_the_end_is_told(input: EngineInputView, trace: EngineTrace)
    requires
        trace.len() > 0,
        can_happen(input, trace),
        actions(input, trace).last() is Stop,
    ensures
        reports(actions(input, trace)).len() > 0,
        reports(actions(input, trace)).last().ends_run(),
        forall|event: EngineEventView| !(#[trigger] run(input, trace).awaits(event)),
{
    lemma_told_in_order(input, trace);
}

/// The installer is run only on a file that was downloaded and found to be the
/// artifact of a release which the manifest has for the channel and the gates
/// let pass, with the VPN connected or not asked for, and with the choices
/// pinned.
pub proof fn law_only_a_verified_release_is_installed(
    input: EngineInputView,
    trace: EngineTrace,
    artifact: Seq<char>,
    choice_changes: Option<Seq<char>>,
)
    requires
        trace.len() > 0,
        can_happen(input, trace),
        actions(input, trace).last() == EngineActionView::Install(artifact, choice_changes),
    ensures
        exists|release: ReleaseView| #[trigger]
            passed_checks(input, trace, release) && is_verified(input, trace, release, artifact),
        trace.contains(EngineEventView::ChoicesPinned(Ok(choice_changes))),
{
    lemma_justified(input, trace);
    assert(passed_checks(input, trace, run(input, trace).phase->Installing_1.release));
}

/// Nothing is fetched before the VPN is known to be connected, unless that is
/// not asked for.
pub proof fn law_nothing_is_fetched_without_the_vpn(input: EngineInputView, trace: EngineTrace)
    requires
        can_happen(input, trace),
        !input.skip_vpn_check,
        !trace.contains(EngineEventView::VpnAnswered(true)),
    ensures
        !actions(input, trace).contains(EngineActionView::FetchManifest(input.channel)),
        forall|release: ReleaseView, dir: Seq<char>|
            !(#[trigger] actions(input, trace).contains(EngineActionView::Download(release, dir))),
    decreases trace.len(),
{
    if trace.len() > 0 {
        let before = trace.drop_last();
        let act = run(input, before).after(trace.last()).1;
        lemma_push_contains(before, trace.last());
        assert(before.push(trace.last()) == trace);
        lemma_push_contains(actions(input, before), act);
        law_nothing_is_fetched_without_the_vpn(input, before);
        lemma_justified(input, before);
    }
}

/// Once the loader is up it is taken down, and once the updater's own file is
/// aside it is put right, before the run ends: however the installation went.
pub proof fn law_installation_is_tidied_up(input: EngineInputView, trace: EngineTrace)
    requires
        can_happen(input, trace),
        has_ended(run(input, trace).phase),
    ensures
        !loader_is_up(actions(input, trace)),
        !file_is_aside(actions(input, trace)),
{
    lemma_tidy(input, trace);
}

/// A run ends with success just when the installer succeeded, and tells the
/// version of a release that the checks let pass; where the installer failed
/// it tells that, and its error.
pub proof fn law_end_tells_what_the_installer_did(
    input: EngineInputView,
    trace: EngineTrace,
    status: StatusView,
)
    requires
        trace.len() > 0,
        can_happen(input, trace),
        actions(input, trace).last() == EngineActionView::Report(status),
        status.ends_run(),
    ensures
        fitting_end(input, trace, status),
{
    lemma_justified(input, trace);
    let acts = actions(input, trace);
    assert(reports(acts).last() == status);
}

/// How a run ended is recorded and logged once each, where that is asked for,
/// before it is told.
pub proof fn law_end_is_recorded_before_it_is_told(
    input: EngineInputView,
    trace: EngineTrace,
    status: StatusView,
)
    requires
        trace.len() > 0,
        can_happen(input, trace),
        actions(input, trace).last() == EngineActionView::Report(status),
        status.ends_run(),
    ensures
        records(actions(input, trace)) == if input.attempt_state_path is Some {
            seq![status]
        } else {
            Seq::empty()
        },
        logs(actions(input, trace)) == if input.audit_log_path is Some {
            seq![status]
        } else {
            Seq::empty()
        },
{
    lemma_told_in_order(input, trace);
    let acts = actions(input, trace);
    assert(reports(acts).last() == status);
}

/// The status with which an action ends a run, if it does.
pub open spec fn ends_with(act: EngineActionView) -> Option<StatusView> {
    match act {
        EngineActionView::Report(status) => Some(status),
        EngineActionView::Persist(_, _, status) => Some(status),
        EngineActionView::Log(_, _, status, _) => Some(status),
        _ => None,
    }
}

/// The exit code tells why a run failed: that the VPN was not connected, that
/// the manifest or the artifact was not to be trusted, or anything else; and it
/// tells success just where the installer succeeded.
pub proof fn law_exit_code_tells_the_reason(run: EngineView, event: EngineEventView)
    requires
        run.awaits(event),
    ensures
        ends_with(run.after(event).1) matches Some(end) ==> match event {
            EngineEventView::VpnAnswered(_) => end.exit_code() == 77,
            EngineEventView::ManifestFetched(Err(ErrorView::Integrity(_))) => end.exit_code()
                == 70,
            EngineEventView::ManifestFetched(Err(ErrorView::Other(_))) => end.exit_code() == 69,
            EngineEventView::ManifestFetched(Ok(manifest)) => release_to_install(
                run.input,
                manifest,
            ) is Err ==> end.exit_code() == 69,
            EngineEventView::Downloaded(_) => end.exit_code() == 69,
            EngineEventView::Verified(_) => end.exit_code() == 70,
            EngineEventView::ChoicesPinned(_) => end.exit_code() == 69,
            EngineEventView::Settled(_) => end.exit_code() == if run.phase->Settling_1 is None {
                0i32
            } else {
                69i32
            },
            _ => true,
        },
{
    reveal_strlit("Manifest integrity error: ");
    reveal_strlit("VPN not connected — updating without an active VPN connection is insecure");
    reveal_strlit("Update check error: ");
    reveal_strlit("Channel ");
    reveal_strlit("Candidate ");
    if let Some(StatusView::Failed { error, .. }) = ends_with(run.after(event).1) {
        let start = error.subrange(0, INTEGRITY_ERROR@.len() as int);
        assert(INTEGRITY_ERROR@.is_prefix_of(error) ==> start[0] == 'M' && error[0] == start[0]);
        match event {
            EngineEventView::ManifestFetched(Err(ErrorView::Integrity(m))) => {
                assert(error[0] == 'M');
                assert(INTEGRITY_ERROR@ =~= error.subrange(0, INTEGRITY_ERROR@.len() as int));
            },
            EngineEventView::ManifestFetched(Err(ErrorView::Other(m))) => {
                assert(error[0] == 'U');
            },
            EngineEventView::ManifestFetched(Ok(manifest)) => {
                assert(error[0] == 'C');
            },
            _ => {},
        }
    }
}

/// The release that is installed is the one that the manifest has for the
/// channel, unless the gates refuse it, and then the reason is theirs.
pub proof fn law_channel_and_gates_pick_the_release(input: EngineInputView, manifest: ManifestView)
    ensures
        manifest.release_of(input.channel) is None ==> release_to_install(input, manifest) == Err::<
            ReleaseView,
            GateErrorView,
        >(GateErrorView::NoReleaseForChannel(input.channel)),
        manifest.release_of(input.channel) matches Some(release) ==> {
            let verdict = install_verdict(
                release,
                input.current_app_version,
                input.channel,
                input.allow_downgrade,
            );
            &&& verdict is Ok ==> release_to_install(input, manifest) == Ok::<
                ReleaseView,
                GateErrorView,
            >(release)
            &&& verdict matches Err(e) ==> release_to_install(input, manifest) == Err::<
                ReleaseView,
                GateErrorView,
            >(e)
        },
{
}

/// Whether an action is the first of those that end a run with `status`: the
/// record where one is asked for, else the log where that is, else the report.
pub open spec fn starts_the_end(
    input: EngineInputView,
    act: EngineActionView,
    status: StatusView,
    updater: Option<Seq<char>>,
) -> bool {
    match (input.attempt_state_path, input.audit_log_path) {
        (Some(path), _) => act == EngineActionView::Persist(path, input.channel, status),
        (None, Some(path)) => act == EngineActionView::Log(path, input.channel, status, updater),
        (None, None) => act == EngineActionView::Report(status),
    }
}

/// Each step leads to the next as long as nothing fails, and what fails ends the
/// run at its stage with its reason.
pub proof fn law_run_goes_step_by_step(run: EngineView, event: EngineEventView)
    requires
        run.awaits(event),
    ensures
        ({
            let (next, act) = run.after(event);
            let failed = |stage: UpdateStage, error: Seq<char>|
                starts_the_end(run.input, act, StatusView::Failed { stage, error }, None);
            &&& next.input == run.input
            &&& match event {
                EngineEventView::Begin => act == EngineActionView::Report(StatusView::Checking),
                EngineEventView::VpnAnswered(true) => act == EngineActionView::FetchManifest(
                    run.input.channel,
                ),
                EngineEventView::VpnAnswered(false) => failed(UpdateStage::Check, NOT_CONNECTED@),
                EngineEventView::ManifestFetched(Err(e)) => failed(UpdateStage::Check, e.text()),
                EngineEventView::ManifestFetched(Ok(manifest)) => match release_to_install(
                    run.input,
                    manifest,
                ) {
                    Ok(_) => act == EngineActionView::Report(StatusView::Downloading),
                    Err(e) => failed(UpdateStage::Check, e.text()),
                },
                EngineEventView::Downloaded(Err(e)) => failed(UpdateStage::Download, e.text()),
                EngineEventView::Downloaded(Ok(path)) => act == EngineActionView::Verify(
                    path,
                    run.phase->Downloading_0,
                ),
                EngineEventView::Verified(Some(e)) => failed(UpdateStage::Verify, e),
                EngineEventView::Verified(None) => act == EngineActionView::PinChoices(
                    run.input.download_dir,
                ),
                EngineEventView::ChoicesPinned(Err(e)) => failed(UpdateStage::Install, e),
                EngineEventView::ChoicesPinned(Ok(_)) => act is Shield,
                EngineEventView::Shielded => act is ShowLoader,
                EngineEventView::LoaderShown => act == EngineActionView::Report(
                    StatusView::Installing,
                ),
                EngineEventView::RenamedAside => act is Install,
                EngineEventView::Installed(_) => act is DismissLoader,
                EngineEventView::LoaderDismissed => act == EngineActionView::Settle(
                    run.phase->Dismissing_1 is None,
                ),
                EngineEventView::Settled(updater) => match run.phase->Settling_1 {
                    None => starts_the_end(
                        run.input,
                        act,
                        StatusView::Completed { new_version: run.phase->Settling_0.version },
                        updater,
                    ),
                    Some(e) => failed(UpdateStage::Install, e),
                },
                EngineEventView::Persisted => match run.input.audit_log_path {
                    Some(path) => act == EngineActionView::Log(
                        path,
                        run.input.channel,
                        run.phase->Persisting_0,
                        run.phase->Persisting_1,
                    ),
                    None => act == EngineActionView::Report(run.phase->Persisting_0),
                },
                EngineEventView::Logged => act == EngineActionView::Report(run.phase->Logging_0),
                EngineEventView::Reported => match run.phase {
                    EnginePhase::AnnouncingCheck => act == if run.input.skip_vpn_check {
                        EngineActionView::FetchManifest(run.input.channel)
                    } else {
                        EngineActionView::AskVpn(run.input.socket_path)
                    },
                    EnginePhase::AnnouncingDownload(release) => act == EngineActionView::Download(
                        release,
                        run.input.download_dir,
                    ),
                    EnginePhase::Installing(_, _) => act is RenameAside,
                    _ => act is Stop,
                },
            }
        }),
{
}

/// What a run has to remember it does remember: the release, the artifact and
/// the choices until the installer has run, how the installer ended until the
/// end, and the end until it is told.
pub proof fn law_run_remembers(run: EngineView, event: EngineEventView)
    requires
        run.awaits(event),
    ensures
        ({
            let next = run.after(event).0.phase;
            match next {
                EnginePhase::AnnouncingDownload(release) => event
                    matches EngineEventView::ManifestFetched(Ok(manifest)) && release_to_install(
                    run.input,
                    manifest,
                ) == Ok::<ReleaseView, GateErrorView>(release),
                EnginePhase::Downloading(release) => run.phase == EnginePhase::AnnouncingDownload(
                    release,
                ),
                EnginePhase::Verifying(release, path) => run.phase == EnginePhase::Downloading(
                    release,
                ) && event == EngineEventView::Downloaded(Ok(path)),
                EnginePhase::Pinning(release, path) => run.phase == EnginePhase::Verifying(
                    release,
                    path,
                ) && event == EngineEventView::Verified(None),
                EnginePhase::Installing(InstallStep::Shielding, plan) => run.phase
                    == EnginePhase::Pinning(plan.release, plan.artifact) && event
                    == EngineEventView::ChoicesPinned(Ok(plan.choice_changes)),
                EnginePhase::Installing(_, plan) => run.phase matches EnginePhase::Installing(
                    _,
                    before,
                ) && before == plan,
                EnginePhase::Dismissing(release, error) => run.phase
                    matches EnginePhase::Installing(_, plan) && plan.release == release && event
                    == EngineEventView::Installed(error),
                EnginePhase::Settling(release, error) => run.phase == EnginePhase::Dismissing(
                    release,
                    error,
                ),
                _ => true,
            }
        }),
        run.after(event).1 matches EngineActionView::Install(artifact, changes) ==> (run.phase
            matches EnginePhase::Installing(_, plan) && plan.artifact == artifact
            && plan.choice_changes == changes),
        run.after(event).0.phase matches EnginePhase::Persisting(status, updater) ==> run.after(
            event,
        ).1 matches EngineActionView::Persist(_, _, told) && told == status && updater
            == match event {
            EngineEventView::Settled(version) => if status is Completed {
                version
            } else {
                None
            },
            _ => None,
        },
        run.after(event).0.phase matches EnginePhase::Logging(status) ==> run.after(event).1
            matches EngineActionView::Log(_, _, told, _) && told == status,
{
}

/// A run waits for whatever can come of what it has done.
pub proof fn law_run_takes_what_comes(run: EngineView, event: EngineEventView)
    requires
        run.awaits(event),
    ensures
        ({
            let (next, act) = run.after(event);
            match act {
                EngineActionView::Report(_) => next.awaits(EngineEventView::Reported),
                EngineActionView::AskVpn(_) => forall|connected: bool| #[trigger]
                    next.awaits(EngineEventView::VpnAnswered(connected)),
                EngineActionView::FetchManifest(_) => forall|
                    fetched: Result<ManifestView, ErrorView>,
                | #[trigger]
                    next.awaits(EngineEventView::ManifestFetched(fetched)),
                EngineActionView::Download(_, _) => {
                    &&& forall|path: Seq<char>| #[trigger]
                        next.awaits(EngineEventView::Downloaded(Ok(path)))
                    &&& forall|e: DownloadErrorView|
                        e.valid() ==> #[trigger] next.awaits(EngineEventView::Downloaded(Err(e)))
                },
                EngineActionView::Verify(_, _) => forall|e: Option<Seq<char>>| #[trigger]
                    next.awaits(EngineEventView::Verified(e)),
                EngineActionView::PinChoices(_) => forall|
                    pinned: Result<Option<Seq<char>>, Seq<char>>,
                | #[trigger]
                    next.awaits(EngineEventView::ChoicesPinned(pinned)),
                EngineActionView::Shield => next.awaits(EngineEventView::Shielded),
                EngineActionView::ShowLoader => next.awaits(EngineEventView::LoaderShown),
                EngineActionView::RenameAside => next.awaits(EngineEventView::RenamedAside),
                EngineActionView::Install(_, _) => forall|e: Option<Seq<char>>| #[trigger]
                    next.awaits(EngineEventView::Installed(e)),
                EngineActionView::DismissLoader => next.awaits(EngineEventView::LoaderDismissed),
                EngineActionView::Settle(_) => forall|updater: Option<Seq<char>>| #[trigger]
                    next.awaits(EngineEventView::Settled(updater)),
                EngineActionView::Persist(_, _, _) => next.awaits(EngineEventView::Persisted),
                EngineActionView::Log(_, _, _, _) => next.awaits(EngineEventView::Logged),
                EngineActionView::Stop => forall|e: EngineEventView| !(#[trigger] next.awaits(e)),
            }
        }),
        EngineView::fresh(run.input).awaits(EngineEventView::Begin),
        EngineView::fresh(run.input).input == run.input,
{
}

} // verus!
