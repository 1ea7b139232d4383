//! What holds of a run of the apt engine as a whole, whatever happens in it.
//!
//! A trace is what happened, in order. The laws here speak of the trace and of
//! what an [`AptEngine`](crate::update::apt_engine::AptEngine) had done in
//! answer to it.

use vstd::prelude::*;

use crate::manifest::INTEGRITY_ERROR;
use crate::text::{trimmed, CharClass};
use crate::update::apt::{follows, law_switched_source_follows_channel, switched};
use crate::update::apt_engine::{
    apt_error, package_version, update_arguments, upgrade_arguments, AptActionView, AptEventView,
    AptPhase, AptView,
};
use crate::update::engine_trace::{lemma_progress, lemma_push_contains, progress};
use crate::update::process::OutputView;
use crate::update::status::{StatusView, UpdateStage};
use crate::vpn_status::NOT_CONNECTED;

verus! {

/// What happened, in order.
pub type AptTrace = Seq<AptEventView>;

/// Where a run stands after a trace.
pub open spec fn run(start: AptView, trace: AptTrace) -> AptView
    decreases trace.len(),
{
    if trace.len() == 0 {
        start
    } else {
        run(start, trace.drop_last()).after(trace.last()).0
    }
}

/// What a run had done in answer to a trace, in order.
pub open spec fn actions(start: AptView, trace: AptTrace) -> Seq<AptActionView>
    decreases trace.len(),
{
    if trace.len() == 0 {
        Seq::empty()
    } else {
        actions(start, trace.drop_last()).push(
            run(start, trace.drop_last()).after(trace.last()).1,
        )
    }
}

/// Whether each event of a trace was one that the run waited for.
pub open spec fn can_happen(start: AptView, trace: AptTrace) -> bool
    decreases trace.len(),
{
    trace.len() == 0 || {
        &&& can_happen(start, trace.drop_last())
        &&& run(start, trace.drop_last()).awaits(trace.last())
    }
}

/// The statuses that were reported, in order.
pub open spec fn reports(acts: Seq<AptActionView>) -> Seq<StatusView>
    decreases acts.len(),
{
    if acts.len() == 0 {
        Seq::empty()
    } else {
        match acts.last() {
            AptActionView::Report(status) => reports(acts.drop_last()).push(status),
            _ => reports(acts.drop_last()),
        }
    }
}

/// How many statuses have been reported where a run stands in `phase`, unless
/// it has ended.
pub open spec fn reports_in(phase: AptPhase) -> int {
    match phase {
        AptPhase::New => 0,
        AptPhase::AnnouncingCheck | AptPhase::AskingVpn => 1,
        AptPhase::ReadingSource | AptPhase::WritingSource => 1,
        AptPhase::AnnouncingDownload | AptPhase::Updating => 2,
        _ => 3,
    }
}

/// Whether the source file was made to follow the channel of the run: it did
/// already, or it was written so that it does.
pub open spec fn source_follows(start: AptView, trace: AptTrace) -> bool {
    exists|content: Seq<char>|
        #![trigger trace.contains(AptEventView::SourceRead(Ok(content)))]
        {
            &&& trace.contains(AptEventView::SourceRead(Ok(content)))
            &&& follows(content, start.channel) || {
                &&& actions(start, trace).contains(
                    AptActionView::WriteSource(switched(content, start.channel)),
                )
                &&& trace.contains(AptEventView::SourceWritten(None))
                &&& follows(switched(content, start.channel), start.channel)
            }
        }
}

/// Whether the VPN is connected, or need not be.
pub open spec fn vpn_allows(start: AptView, trace: AptTrace) -> bool {
    start.skip_vpn_check || trace.contains(AptEventView::VpnAnswered(true))
}

/// What was reported is what belongs where the run stands.
pub open spec fn told_in_order(start: AptView, trace: AptTrace) -> bool {
    let phase = run(start, trace).phase;
    let told = reports(actions(start, trace));
    if phase is AnnouncingEnd || phase is Over {
        &&& 2 <= told.len() <= 4
        &&& told == progress().take(told.len() - 1).push(told.last())
        &&& told.last().ends_run()
        &&& told.last() is Completed ==> told.len() == 4
    } else {
        told == progress().take(reports_in(phase))
    }
}

proof fn lemma_told_in_order(start: AptView, trace: AptTrace)
    requires
        start.phase is New,
        can_happen(start, trace),
    ensures
        told_in_order(start, trace),
    decreases trace.len(),
{
    lemma_progress();
    if trace.len() > 0 {
        let before = trace.drop_last();
        lemma_told_in_order(start, before);
        let acts = actions(start, before);
        let act = run(start, before).after(trace.last()).1;
        assert(actions(start, trace) == acts.push(act));
        assert(acts.push(act).drop_last() == acts);
    }
}

/// What the run has let pass is what the trace shows to have passed.
pub open spec fn justified(start: AptView, trace: AptTrace) -> bool {
    let state = run(start, trace);
    &&& state.channel == start.channel
    &&& state.skip_vpn_check == start.skip_vpn_check
    &&& state.socket_path == start.socket_path
    &&& match state.phase {
        AptPhase::New | AptPhase::AnnouncingCheck | AptPhase::AskingVpn => true,
        AptPhase::ReadingSource => vpn_allows(start, trace),
        AptPhase::WritingSource => {
            &&& vpn_allows(start, trace)
            &&& exists|content: Seq<char>|
                #![trigger trace.contains(AptEventView::SourceRead(Ok(content)))]
                trace.contains(AptEventView::SourceRead(Ok(content))) && actions(
                    start,
                    trace,
                ).contains(AptActionView::WriteSource(switched(content, start.channel)))
        },
        AptPhase::AnnouncingEnd | AptPhase::Over => true,
        _ => vpn_allows(start, trace) && source_follows(start, trace),
    }
}

proof fn lemma_source_still_follows(start: AptView, trace: AptTrace, event: AptEventView)
    requires
        source_follows(start, trace),
    ensures
        source_follows(start, trace.push(event)),
{
    lemma_push_contains(trace, event);
    let act = run(start, trace).after(event).1;
    lemma_push_contains(actions(start, trace), act);
    assert(trace.push(event).drop_last() == trace);
    assert(actions(start, trace.push(event)) == actions(start, trace).push(act));
    let content = choose|content: Seq<char>|
        #![trigger trace.contains(AptEventView::SourceRead(Ok(content)))]
        {
            &&& trace.contains(AptEventView::SourceRead(Ok(content)))
            &&& follows(content, start.channel) || {
                &&& actions(start, trace).contains(
                    AptActionView::WriteSource(switched(content, start.channel)),
                )
                &&& trace.contains(AptEventView::SourceWritten(None))
                &&& follows(switched(content, start.channel), start.channel)
            }
        };
    assert(trace.push(event).contains(AptEventView::SourceRead(Ok(content))));
}

proof fn lemma_justified(start: AptView, trace: AptTrace)
    requires
        start.phase is New,
        can_happen(start, trace),
    ensures
        justified(start, trace),
    decreases trace.len(),
{
    if trace.len() > 0 {
        let before = trace.drop_last();
        let event = trace.last();
        lemma_justified(start, before);
        let state = run(start, before);
        let acts = actions(start, before);
        let act = state.after(event).1;
        assert(before.push(event) == trace);
        lemma_push_contains(before, event);
        lemma_push_contains(acts, act);
        assert(actions(start, trace) == acts.push(act));
        match state.phase {
            AptPhase::ReadingSource => {
                if let AptEventView::SourceRead(Ok(content)) = event {
                    assert(trace.contains(AptEventView::SourceRead(Ok(content))));
                }
            },
            AptPhase::WritingSource => {
                let content = choose|content: Seq<char>|
                    #![trigger before.contains(AptEventView::SourceRead(Ok(content)))]
                    before.contains(AptEventView::SourceRead(Ok(content))) && acts.contains(
                        AptActionView::WriteSource(switched(content, start.channel)),
                    );
                law_switched_source_follows_channel(content, start.channel);
                assert(trace.contains(AptEventView::SourceRead(Ok(content))));
            },
            AptPhase::AnnouncingDownload | AptPhase::Updating | AptPhase::AnnouncingInstall => {
                lemma_source_still_follows(start, before, event);
            },
            AptPhase::Upgrading | AptPhase::AskingVersion => {
                lemma_source_still_follows(start, before, event);
            },
            _ => {},
        }
    }
}

/// A run reports `Checking`, `Downloading` and `Installing`, in that order and
/// as far as it gets, and then one status that ends it and is the last; success
/// is told only after all three.
pub proof fn law_statuses_come_in_order(start: AptView, trace: AptTrace)
    requires
        start.phase is New,
        can_happen(start, trace),
    ensures
        told_in_order(start, trace),
{
    lemma_told_in_order(start, trace);
}

/// Apt is run only with the VPN connected or not asked for, and only once the
/// source file follows the channel.
pub proof fn law_apt_runs_on_the_channel(start: AptView, trace: AptTrace)
    requires
        start.phase is New,
        trace.len() > 0,
        can_happen(start, trace),
        actions(start, trace).last() is RunApt,
    ensures
        vpn_allows(start, trace),
        source_follows(start, trace),
{
    lemma_justified(start, trace);
}

/// The package is upgraded only right after the lists were fetched with
/// success, and success is told, with the version that the package then has,
/// only right after its version was asked for and told.
pub proof fn law_each_step_needs_the_one_before(run: AptView, event: AptEventView)
    requires
        run.awaits(event),
    ensures
        run.after(event).1 == AptActionView::RunApt(upgrade_arguments()) ==> run.phase
            is AnnouncingInstall,
        run.after(event).0.phase is AnnouncingInstall ==> {
            &&& run.phase is Updating
            &&& event matches AptEventView::AptRan(command, ran)
            &&& apt_error(command, ran) is None
        },
        run.after(event).1 matches AptActionView::Report(StatusView::Completed { new_version })
            ==> event matches AptEventView::VersionAsked(ran) && package_version(ran) == Ok::<
            Seq<char>,
            Seq<char>,
        >(new_version),
{
    assert(upgrade_arguments().len() != update_arguments().len());
}

/// The exit code tells why a run failed: that the VPN was not connected, or
/// anything else.
pub proof fn law_exit_code_tells_the_reason(run: AptView, event: AptEventView)
    requires
        run.awaits(event),
    ensures
        run.after(event).1 matches AptActionView::Report(StatusView::Failed { stage, error })
            ==> (StatusView::Failed { stage, error }).exit_code() == if event is VpnAnswered {
            77i32
        } else {
            69i32
        },
{
    reveal_strlit("Manifest integrity error: ");
    reveal_strlit("VPN not connected — updating without an active VPN connection is insecure");
    reveal_strlit("apt sources file /etc/apt/sources.list.d/gnosisvpn.sources not found (");
    reveal_strlit("write ");
    if let AptActionView::Report(StatusView::Failed { error, .. }) = run.after(event).1 {
        let start = error.subrange(0, INTEGRITY_ERROR@.len() as int);
        assert(INTEGRITY_ERROR@.is_prefix_of(error) ==> start[0] == 'M' && error[0] == start[0]);
        match event {
            AptEventView::SourceRead(_) => {
                assert(error[0] == 'a');
            },
            AptEventView::SourceWritten(_) => {
                assert(error[0] == 'w');
            },
            _ => {},
        }
    }
}

/// Each step leads to the next as long as nothing fails, and what fails ends the
/// run with its reason; what the run is about stays the same.
pub proof fn law_run_goes_step_by_step(run: AptView, event: AptEventView)
    requires
        run.awaits(event),
    ensures
        ({
            let (next, act) = run.after(event);
            let failed = |stage: UpdateStage, error: Seq<char>|
                act == AptActionView::Report(StatusView::Failed { stage, error });
            &&& next.channel == run.channel && next.socket_path == run.socket_path
            &&& next.skip_vpn_check == run.skip_vpn_check
            &&& match event {
                AptEventView::Begin => act == AptActionView::Report(StatusView::Checking),
                AptEventView::Reported => match run.phase {
                    AptPhase::AnnouncingCheck => act == if run.skip_vpn_check {
                        AptActionView::ReadSource
                    } else {
                        AptActionView::AskVpn(run.socket_path)
                    },
                    AptPhase::AnnouncingDownload => act == AptActionView::RunApt(seq!["update"@]),
                    AptPhase::AnnouncingInstall => act == AptActionView::RunApt(
                        seq!["install"@, "--only-upgrade"@, "-y"@, "gnosisvpn"@],
                    ),
                    _ => act is Stop,
                },
                AptEventView::VpnAnswered(true) => act is ReadSource,
                AptEventView::VpnAnswered(false) => failed(UpdateStage::Check, NOT_CONNECTED@),
                AptEventView::SourceRead(Err(e)) => failed(
                    UpdateStage::Check,
                    "apt sources file /etc/apt/sources.list.d/gnosisvpn.sources not found ("@ + e
                        + "); re-run the gnosisvpn install script"@,
                ),
                AptEventView::SourceRead(Ok(content)) => act == if follows(content, run.channel) {
                    AptActionView::Report(StatusView::Downloading)
                } else {
                    AptActionView::WriteSource(switched(content, run.channel))
                },
                AptEventView::SourceWritten(None) => act == AptActionView::Report(
                    StatusView::Downloading,
                ),
                AptEventView::SourceWritten(Some(e)) => failed(
                    UpdateStage::Check,
                    "write "@ + "/etc/apt/sources.list.d/gnosisvpn.sources"@ + ": "@ + e,
                ),
                AptEventView::AptRan(command, Err(e)) => failed(
                    if run.phase is Updating {
                        UpdateStage::Download
                    } else {
                        UpdateStage::Install
                    },
                    "spawn "@ + command + ": "@ + e,
                ),
                AptEventView::AptRan(command, Ok(output)) => if !output.success {
                    failed(
                        if run.phase is Updating {
                            UpdateStage::Download
                        } else {
                            UpdateStage::Install
                        },
                        command + " exited with "@ + output.status + ": "@ + output.stderr,
                    )
                } else if run.phase is Updating {
                    act == AptActionView::Report(StatusView::Installing)
                } else {
                    act == AptActionView::AskVersion(
                        seq!["-W"@, "-f=${Version}"@, "gnosisvpn"@],
                    )
                },
                AptEventView::VersionAsked(Err(e)) => failed(
                    UpdateStage::Install,
                    "spawn dpkg-query: "@ + e,
                ),
                AptEventView::VersionAsked(Ok(output)) => {
                    let version = trimmed(output.stdout, CharClass::WhiteSpace);
                    if !output.success {
                        failed(UpdateStage::Install, "dpkg-query failed: "@ + output.stderr)
                    } else if version.len() == 0 {
                        failed(UpdateStage::Install, "dpkg-query returned empty version"@)
                    } else {
                        act == AptActionView::Report(
                            StatusView::Completed { new_version: version },
                        )
                    }
                },
            }
        }),
{
}

/// A run waits for whatever can come of what it has done, and for nothing once
/// it has stopped.
pub proof fn law_run_takes_what_comes(run: AptView, event: AptEventView)
    requires
        run.awaits(event),
    ensures
        ({
            let (next, act) = run.after(event);
            match act {
                AptActionView::Report(_) => next.awaits(AptEventView::Reported),
                AptActionView::AskVpn(_) => forall|connected: bool| #[trigger]
                    next.awaits(AptEventView::VpnAnswered(connected)),
                AptActionView::ReadSource => forall|content: Result<Seq<char>, Seq<char>>|
                 #[trigger]
                    next.awaits(AptEventView::SourceRead(content)),
                AptActionView::WriteSource(_) => forall|e: Option<Seq<char>>| #[trigger]
                    next.awaits(AptEventView::SourceWritten(e)),
                AptActionView::RunApt(_) => forall|
                    command: Seq<char>,
                    ran: Result<OutputView, Seq<char>>,
                | #[trigger]
                    next.awaits(AptEventView::AptRan(command, ran)),
                AptActionView::AskVersion(_) => forall|ran: Result<OutputView, Seq<char>>|
                 #[trigger]
                    next.awaits(AptEventView::VersionAsked(ran)),
                AptActionView::Stop => forall|e: AptEventView| !(#[trigger] next.awaits(e)),
            }
        }),
{
}

} // verus!
