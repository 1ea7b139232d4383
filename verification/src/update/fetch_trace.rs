//! What holds of a download as a whole, whatever the network does.
//!
//! A trace is what happened, in order, each with the time at which it did.
//! What is in the file, and since when there has been no connection, can be
//! told from the trace alone; the laws here say that a
//! [`Fetch`](crate::update::download::Fetch) acts on just that.

use vstd::prelude::*;

use crate::update::download::{
    elapsed, validator_of, DownloadErrorView, FetchActionView, FetchEventView, FetchPhase, FetchView,
    RetryPolicy, NANOS_PER_SEC,
};

verus! {

/// What happened, and when.
pub type FetchTrace = Seq<(FetchEventView, u64)>;

/// Where a download of an artifact of `expected` bytes stands after a trace.
pub open spec fn run(expected: u64, policy: RetryPolicy, trace: FetchTrace) -> FetchView
    decreases trace.len(),
{
    if trace.len() == 0 {
        FetchView::fresh(expected, policy)
    } else {
        run(expected, policy, trace.drop_last()).after(trace.last().0, trace.last().1).0
    }
}

/// What a download has done after a trace that is not empty.
pub open spec fn last_action(expected: u64, policy: RetryPolicy, trace: FetchTrace) -> FetchActionView {
    run(expected, policy, trace.drop_last()).after(trace.last().0, trace.last().1).1
}

/// Whether each event of a trace was one that the download waited for.
pub open spec fn can_happen(expected: u64, policy: RetryPolicy, trace: FetchTrace) -> bool
    decreases trace.len(),
{
    trace.len() == 0 || {
        &&& can_happen(expected, policy, trace.drop_last())
        &&& run(expected, policy, trace.drop_last()).awaits(trace.last().0)
    }
}

/// The length of the chunk that came last.
pub open spec fn last_chunk(trace: FetchTrace) -> u64
    decreases trace.len(),
{
    if trace.len() == 0 {
        0
    } else {
        match trace.last().0 {
            FetchEventView::Chunk(n) => n,
            _ => last_chunk(trace.drop_last()),
        }
    }
}

/// The length of the file: each chunk that was written adds to it, and
/// emptying it starts anew.
pub open spec fn file_len(trace: FetchTrace) -> int
    decreases trace.len(),
{
    if trace.len() == 0 {
        0
    } else {
        match trace.last().0 {
            FetchEventView::Emptied(None) => 0,
            FetchEventView::Written(None) => file_len(trace.drop_last()) + last_chunk(
                trace.drop_last(),
            ),
            _ => file_len(trace.drop_last()),
        }
    }
}

/// Whether an event is a failure of the network.
pub open spec fn is_network_failure(event: FetchEventView) -> bool {
    match event {
        FetchEventView::SendFailed { retryable, .. } => retryable,
        FetchEventView::ReadFailed { retryable, .. } => retryable,
        FetchEventView::SendTimedOut => true,
        _ => false,
    }
}

/// The time of the first failure of the network since data was last written.
pub open spec fn offline_since(trace: FetchTrace) -> Option<u64>
    decreases trace.len(),
{
    if trace.len() == 0 {
        None
    } else if is_network_failure(trace.last().0) {
        match offline_since(trace.drop_last()) {
            Some(since) => Some(since),
            None => Some(trace.last().1),
        }
    } else if trace.last().0 == FetchEventView::Written(None) {
        None
    } else {
        offline_since(trace.drop_last())
    }
}

/// How the failure of the network that came last is worded.
pub open spec fn last_failure(trace: FetchTrace) -> Seq<char>
    decreases trace.len(),
{
    if trace.len() == 0 {
        Seq::empty()
    } else {
        match trace.last().0 {
            FetchEventView::SendFailed { retryable: true, text } => text,
            FetchEventView::ReadFailed { retryable: true, text } => text,
            FetchEventView::SendTimedOut => "reconnect attempt timed out"@,
            _ => last_failure(trace.drop_last()),
        }
    }
}

/// What tells whether the artifact is still the same: the first that a response
/// gave, unless the artifact has since been taken from its start again.
pub open spec fn known_validator(trace: FetchTrace) -> Option<Seq<u8>>
    decreases trace.len(),
{
    if trace.len() == 0 {
        None
    } else {
        let before = known_validator(trace.drop_last());
        match trace.last().0 {
            FetchEventView::Response { status, etag, last_modified, .. } => if status == 200
                && file_len(trace.drop_last()) > 0 {
                validator_of(etag, last_modified)
            } else if before is None && ((status == 200) || (status == 206 && file_len(
                trace.drop_last(),
            ) > 0)) {
                validator_of(etag, last_modified)
            } else {
                before
            },
            _ => before,
        }
    }
}

/// Whether the file has all the bytes that were expected.
pub open spec fn is_complete(expected: u64, trace: FetchTrace) -> bool {
    expected != 0 && file_len(trace) >= expected
}

/// Where a download stands agrees with what its trace tells.
pub open spec fn agrees(state: FetchView, expected: u64, policy: RetryPolicy, trace: FetchTrace) -> bool {
    &&& state.expected == expected
    &&& state.policy == policy
    &&& state.bytes_done == file_len(trace)
    &&& state.counts()
    &&& state.validator == known_validator(trace)
    &&& match state.outage {
        Some(outage) => offline_since(trace) == Some(outage.since) && outage.last_error
            == last_failure(trace),
        None => offline_since(trace) is None,
    }
    &&& state.phase matches FetchPhase::Writing(n) ==> n == last_chunk(trace)
    &&& state.phase is Pausing ==> !is_complete(expected, trace)
}

/// A download knows how long the file is and since when it has been offline:
/// a connection that was made and delivered nothing does not end an outage.
pub proof fn law_state_agrees_with_trace(expected: u64, policy: RetryPolicy, trace: FetchTrace)
    requires
        can_happen(expected, policy, trace),
    ensures
        agrees(run(expected, policy, trace), expected, policy, trace),
    decreases trace.len(),
{
    if trace.len() > 0 {
        law_state_agrees_with_trace(expected, policy, trace.drop_last());
    }
}

/// A request asks for what comes after the end of the file, and for the whole
/// artifact only while the file is empty.
pub proof fn law_request_continues_the_file(expected: u64, policy: RetryPolicy, trace: FetchTrace)
    requires
        trace.len() > 0,
        can_happen(expected, policy, trace),
    ensures
        last_action(expected, policy, trace) matches FetchActionView::Send { range_from, .. }
            ==> match range_from {
            Some(from) => from == file_len(trace) && from > 0,
            None => file_len(trace) == 0,
        },
{
    law_state_agrees_with_trace(expected, policy, trace.drop_last());
    law_state_agrees_with_trace(expected, policy, trace);
}

/// A request for the rest of the artifact is made on condition that the
/// artifact is still the same, wherever that can be told; so the parts of two
/// different artifacts are not put together.
pub proof fn law_rest_is_requested_on_condition(
    expected: u64,
    policy: RetryPolicy,
    trace: FetchTrace,
)
    requires
        trace.len() > 0,
        can_happen(expected, policy, trace),
    ensures
        last_action(expected, policy, trace) matches FetchActionView::Send {
            range_from,
            if_range,
            ..
        } ==> if_range == if range_from is Some {
            known_validator(trace)
        } else {
            None
        },
{
    law_state_agrees_with_trace(expected, policy, trace.drop_last());
    law_state_agrees_with_trace(expected, policy, trace);
}

/// A file that has all its bytes is not requested again, even if the end of
/// the body got lost.
pub proof fn law_complete_file_is_not_requested(expected: u64, policy: RetryPolicy, trace: FetchTrace)
    requires
        trace.len() > 0,
        can_happen(expected, policy, trace),
        is_complete(expected, trace),
    ensures
        !(last_action(expected, policy, trace) is Send),
        !(last_action(expected, policy, trace) is Pause),
        is_network_failure(trace.last().0) ==> last_action(expected, policy, trace)
            == FetchActionView::Finish(Ok(file_len(trace) as u64)),
{
    law_state_agrees_with_trace(expected, policy, trace.drop_last());
    law_state_agrees_with_trace(expected, policy, trace);
}

/// The number of bytes that a download reports is the length of the file.
pub proof fn law_success_reports_the_file_length(
    expected: u64,
    policy: RetryPolicy,
    trace: FetchTrace,
)
    requires
        trace.len() > 0,
        can_happen(expected, policy, trace),
    ensures
        last_action(expected, policy, trace) matches FetchActionView::Finish(Ok(n)) ==> n
            == file_len(trace),
{
    law_state_agrees_with_trace(expected, policy, trace.drop_last());
}

/// A download is given up for want of a connection only after a failure, once
/// no data has come for as long as the policy allows, and it reports how long
/// that was, where it stopped and what failed last.
pub proof fn law_gives_up_only_after_the_budget(
    expected: u64,
    policy: RetryPolicy,
    trace: FetchTrace,
)
    requires
        trace.len() > 0,
        can_happen(expected, policy, trace),
    ensures
        last_action(expected, policy, trace) matches FetchActionView::Finish(
            Err(
                DownloadErrorView::ConnectionLost {
                    offline_secs,
                    bytes_done,
                    expected: e,
                    last_error,
                },
            ),
        ) ==> {
            &&& is_network_failure(trace.last().0)
            &&& offline_since(trace) matches Some(since)
            &&& elapsed(since, trace.last().1) >= policy.reconnect_budget
            &&& offline_secs == elapsed(since, trace.last().1) / NANOS_PER_SEC
            &&& bytes_done == file_len(trace)
            &&& e == expected
            &&& last_error == last_failure(trace)
        },
{
    law_state_agrees_with_trace(expected, policy, trace.drop_last());
    law_state_agrees_with_trace(expected, policy, trace);
}

/// Once no data has come for as long as the policy allows, the next failure of
/// the network ends the download, unless the file is complete. So a server
/// that takes connections and never delivers cannot keep it going.
pub proof fn law_gives_up_once_the_budget_is_spent(
    expected: u64,
    policy: RetryPolicy,
    trace: FetchTrace,
)
    requires
        trace.len() > 0,
        can_happen(expected, policy, trace),
        is_network_failure(trace.last().0),
        offline_since(trace) matches Some(since) && elapsed(since, trace.last().1)
            >= policy.reconnect_budget,
        !is_complete(expected, trace),
    ensures
        last_action(expected, policy, trace) matches FetchActionView::Finish(
            Err(DownloadErrorView::ConnectionLost { .. }),
        ),
{
    law_state_agrees_with_trace(expected, policy, trace.drop_last());
    law_state_agrees_with_trace(expected, policy, trace);
}

/// A failure of the network within the budget leads to another attempt, after
/// the pause that the policy asks for.
pub proof fn law_failure_within_the_budget_is_retried(
    expected: u64,
    policy: RetryPolicy,
    trace: FetchTrace,
)
    requires
        trace.len() > 0,
        can_happen(expected, policy, trace),
        is_network_failure(trace.last().0),
        offline_since(trace) matches Some(since) && elapsed(since, trace.last().1)
            < policy.reconnect_budget,
        !is_complete(expected, trace),
    ensures
        last_action(expected, policy, trace) == FetchActionView::Pause(policy.retry_interval),
{
    law_state_agrees_with_trace(expected, policy, trace.drop_last());
    law_state_agrees_with_trace(expected, policy, trace);
}

/// An attempt made while offline is given no more time than the budget has
/// left, and one made while online is given no limit.
pub proof fn law_attempt_stays_within_the_budget(
    expected: u64,
    policy: RetryPolicy,
    trace: FetchTrace,
)
    requires
        trace.len() > 0,
        can_happen(expected, policy, trace),
    ensures
        last_action(expected, policy, trace) matches FetchActionView::Send { limit, .. }
            ==> match offline_since(trace) {
            Some(since) => limit matches Some(n) && (elapsed(since, trace.last().1) + n
                == policy.reconnect_budget || (n == 0 && elapsed(since, trace.last().1)
                >= policy.reconnect_budget)),
            None => limit is None,
        },
{
    law_state_agrees_with_trace(expected, policy, trace.drop_last());
    law_state_agrees_with_trace(expected, policy, trace);
}

/// The byte of the artifact that the last request asked for the artifact from.
pub open spec fn asked_from(expected: u64, policy: RetryPolicy, trace: FetchTrace) -> int
    decreases trace.len(),
{
    if trace.len() == 0 {
        0
    } else {
        match last_action(expected, policy, trace) {
            FetchActionView::Send { range_from, .. } => match range_from {
                Some(from) => from as int,
                None => 0,
            },
            _ => asked_from(expected, policy, trace.drop_last()),
        }
    }
}

/// The byte of the artifact at which what is still to come of a body starts,
/// where a body with status 200 starts with the first byte, and one with status
/// 206 with the byte that was asked for.
pub open spec fn body_at(expected: u64, policy: RetryPolicy, trace: FetchTrace) -> int
    decreases trace.len(),
{
    if trace.len() == 0 {
        0
    } else {
        let before = trace.drop_last();
        match trace.last().0 {
            FetchEventView::Response { status, .. } => if status == 206 {
                asked_from(expected, policy, before)
            } else {
                0
            },
            FetchEventView::Chunk(n) => body_at(expected, policy, before) + n,
            _ => body_at(expected, policy, before),
        }
    }
}

/// How many chunks have come.
pub open spec fn chunk_count(trace: FetchTrace) -> nat
    decreases trace.len(),
{
    if trace.len() == 0 {
        0
    } else if trace.last().0 is Chunk {
        chunk_count(trace.drop_last()) + 1
    } else {
        chunk_count(trace.drop_last())
    }
}

/// Whether the server sent parts of `artifact`: each of the `chunks` that came
/// is the part of it that was due.
pub open spec fn served_from(
    expected: u64,
    policy: RetryPolicy,
    trace: FetchTrace,
    chunks: Seq<Seq<u8>>,
    artifact: Seq<u8>,
) -> bool
    decreases trace.len(),
{
    trace.len() == 0 || {
        let before = trace.drop_last();
        &&& served_from(expected, policy, before, chunks, artifact)
        &&& trace.last().0 matches FetchEventView::Chunk(n) ==> {
            let from = body_at(expected, policy, before);
            let count = chunk_count(before) as int;
            &&& count < chunks.len()
            &&& from + n <= artifact.len()
            &&& chunks[count] == artifact.subrange(from, from + n)
        }
    }
}

/// What is in the file: the chunks that were written since it was last emptied.
pub open spec fn file_content(trace: FetchTrace, chunks: Seq<Seq<u8>>) -> Seq<u8>
    decreases trace.len(),
{
    if trace.len() == 0 {
        Seq::empty()
    } else {
        let before = trace.drop_last();
        match trace.last().0 {
            FetchEventView::Emptied(None) => Seq::empty(),
            FetchEventView::Written(None) => file_content(before, chunks) + chunks[chunk_count(
                before,
            ) - 1],
            _ => file_content(before, chunks),
        }
    }
}

/// What is in the file, and what is on its way there, where a download stands.
pub open spec fn on_its_way(
    expected: u64,
    policy: RetryPolicy,
    trace: FetchTrace,
    chunks: Seq<Seq<u8>>,
    artifact: Seq<u8>,
) -> bool {
    let at = file_len(trace);
    &&& 0 <= at <= artifact.len()
    &&& file_content(trace, chunks) == artifact.take(at)
    &&& match run(expected, policy, trace).phase {
        FetchPhase::Requesting => asked_from(expected, policy, trace) == at,
        FetchPhase::Restarting => body_at(expected, policy, trace) == 0,
        FetchPhase::Reading => body_at(expected, policy, trace) == at,
        FetchPhase::Writing(n) => {
            &&& chunk_count(trace) > 0
            &&& at + n <= artifact.len()
            &&& chunks[chunk_count(trace) - 1] == artifact.subrange(at, at + n)
            &&& body_at(expected, policy, trace) == at + n
        },
        _ => true,
    }
}

proof fn lemma_on_its_way(
    expected: u64,
    policy: RetryPolicy,
    trace: FetchTrace,
    chunks: Seq<Seq<u8>>,
    artifact: Seq<u8>,
)
    requires
        can_happen(expected, policy, trace),
        served_from(expected, policy, trace, chunks, artifact),
    ensures
        on_its_way(expected, policy, trace, chunks, artifact),
    decreases trace.len(),
{
    if trace.len() == 0 {
        assert(artifact.take(0) =~= Seq::<u8>::empty());
    } else {
        let before = trace.drop_last();
        lemma_on_its_way(expected, policy, before, chunks, artifact);
        law_state_agrees_with_trace(expected, policy, before);
        law_state_agrees_with_trace(expected, policy, trace);
        let at = file_len(before);
        match trace.last().0 {
            FetchEventView::Written(None) => {
                let n = run(expected, policy, before).phase->Writing_0;
                assert(artifact.take(at) + artifact.subrange(at, at + n) =~= artifact.take(at + n));
            },
            FetchEventView::Emptied(None) => {
                assert(artifact.take(0) =~= Seq::<u8>::empty());
            },
            _ => {},
        }
    }
}

/// Where the server sends parts of one artifact, the file holds the start of
/// it, however often the connection was lost, and all of it once it is as long.
pub proof fn law_file_holds_the_artifact(
    expected: u64,
    policy: RetryPolicy,
    trace: FetchTrace,
    chunks: Seq<Seq<u8>>,
    artifact: Seq<u8>,
)
    requires
        can_happen(expected, policy, trace),
        served_from(expected, policy, trace, chunks, artifact),
    ensures
        file_content(trace, chunks).is_prefix_of(artifact),
        file_content(trace, chunks).len() == file_len(trace),
        file_len(trace) == artifact.len() ==> file_content(trace, chunks) == artifact,
{
    lemma_on_its_way(expected, policy, trace, chunks, artifact);
    let at = file_len(trace);
    assert(artifact.take(at) =~= artifact.subrange(0, at));
    if at == artifact.len() {
        assert(artifact.take(at) =~= artifact);
    }
}

/// An error status ends the download at once.
pub proof fn law_error_status_is_not_retried(
    expected: u64,
    policy: RetryPolicy,
    trace: FetchTrace,
)
    requires
        trace.len() > 0,
        can_happen(expected, policy, trace),
    ensures
        trace.last().0 matches FetchEventView::Response { status, status_error, .. } ==> (400
            <= status < 600 ==> last_action(expected, policy, trace) == FetchActionView::Finish(
            Err(DownloadErrorView::Http(status_error)),
        )),
{
}

/// Nothing comes after the end: once a download has told its result there is
/// no event that it waits for.
pub proof fn law_result_is_last(
    expected: u64,
    policy: RetryPolicy,
    trace: FetchTrace,
    event: FetchEventView,
)
    requires
        trace.len() > 0,
        last_action(expected, policy, trace) is Finish,
    ensures
        !run(expected, policy, trace).awaits(event),
{
}

/// A body that is due is read, whatever headers come with it: the rest where the
/// file has some bytes already, or the whole artifact where it has none.
pub proof fn law_due_body_is_read(expected: u64, policy: RetryPolicy, trace: FetchTrace)
    requires
        trace.len() > 0,
        can_happen(expected, policy, trace),
    ensures
        trace.last().0 matches FetchEventView::Response { status, .. } ==> ((status == 206
            && file_len(trace) > 0) || (status == 200 && file_len(trace) == 0) ==> last_action(
            expected,
            policy,
            trace,
        ) == FetchActionView::Read),
{
    law_state_agrees_with_trace(expected, policy, trace.drop_last());
}

/// A whole artifact that comes in place of its rest starts the file anew,
/// whatever headers come with it; and the file is emptied only for that.
pub proof fn law_whole_artifact_starts_the_file_anew(
    expected: u64,
    policy: RetryPolicy,
    trace: FetchTrace,
)
    requires
        trace.len() > 0,
        can_happen(expected, policy, trace),
    ensures
        last_action(expected, policy, trace) is Empty <==> file_len(trace) > 0
            && trace.last().0 matches FetchEventView::Response { status: 200, .. },
{
    law_state_agrees_with_trace(expected, policy, trace.drop_last());
}

/// A status that is neither due nor the whole artifact ends the download: with
/// the error of the status where it is an error status, and else with the
/// status.
pub proof fn law_other_statuses_end_the_download(
    expected: u64,
    policy: RetryPolicy,
    trace: FetchTrace,
)
    requires
        trace.len() > 0,
        can_happen(expected, policy, trace),
    ensures
        trace.last().0 matches FetchEventView::Response { status, status_error, .. } ==> (status
            != 200 && !(status == 206 && file_len(trace) > 0) ==> last_action(
            expected,
            policy,
            trace,
        ) == FetchActionView::Finish(
            Err(
                if 400 <= status <= 599 {
                    DownloadErrorView::Http(status_error)
                } else {
                    DownloadErrorView::UnexpectedStatus(status)
                },
            ),
        )),
{
    law_state_agrees_with_trace(expected, policy, trace.drop_last());
}

/// What comes is written and read on until the end, which tells success; what
/// the disk refuses, and what is wrong with a request itself, ends the download
/// with that error.
pub proof fn law_body_is_written_to_its_end(
    expected: u64,
    policy: RetryPolicy,
    trace: FetchTrace,
)
    requires
        trace.len() > 0,
        can_happen(expected, policy, trace),
    ensures
        ({
            let act = last_action(expected, policy, trace);
            match trace.last().0 {
                FetchEventView::Begin => act == FetchActionView::Send {
                    range_from: None,
                    if_range: None,
                    limit: None,
                },
                FetchEventView::Woke => act is Send,
                FetchEventView::Chunk(_) => act is Write,
                FetchEventView::Written(None) => act is Read,
                FetchEventView::Written(Some(e)) => act == FetchActionView::Finish(
                    Err(DownloadErrorView::Io(e)),
                ),
                FetchEventView::Emptied(None) => act is Read,
                FetchEventView::Emptied(Some(e)) => act == FetchActionView::Finish(
                    Err(DownloadErrorView::Io(e)),
                ),
                FetchEventView::End => act matches FetchActionView::Finish(Ok(n)) && n
                    == file_len(trace),
                FetchEventView::SendFailed { retryable: false, text } => act
                    == FetchActionView::Finish(Err(DownloadErrorView::Http(text))),
                FetchEventView::ReadFailed { retryable: false, text } => act
                    == FetchActionView::Finish(Err(DownloadErrorView::Http(text))),
                _ => true,
            }
        }),
{
    law_state_agrees_with_trace(expected, policy, trace.drop_last());
    if trace.last().0 is Begin {
        lemma_begins_once(expected, policy, trace.drop_last());
    }
}

/// A download that is still to be begun is one to which nothing has happened.
proof fn lemma_begins_once(expected: u64, policy: RetryPolicy, trace: FetchTrace)
    requires
        run(expected, policy, trace).phase is New,
    ensures
        trace.len() == 0,
{
    if trace.len() > 0 {
        let before = run(expected, policy, trace.drop_last());
        assert(!(before.after(trace.last().0, trace.last().1).0.phase is New));
    }
}

/// A download waits for whatever can come of what it has done.
pub proof fn law_download_takes_what_comes(expected: u64, policy: RetryPolicy, trace: FetchTrace)
    requires
        can_happen(expected, policy, trace),
    ensures
        trace.len() == 0 ==> run(expected, policy, trace).awaits(FetchEventView::Begin),
        trace.len() > 0 ==> {
            let state = run(expected, policy, trace);
            match last_action(expected, policy, trace) {
                FetchActionView::Pause(_) => state.awaits(FetchEventView::Woke),
                FetchActionView::Send { .. } => {
                    &&& forall|
                        status: u16,
                        etag: Option<Seq<u8>>,
                        last_modified: Option<Seq<u8>>,
                        status_error: Seq<char>,
                    |
                        100 <= status <= 999 ==> #[trigger] state.awaits(
                            FetchEventView::Response { status, etag, last_modified, status_error },
                        )
                    &&& forall|retryable: bool, text: Seq<char>| #[trigger]
                        state.awaits(FetchEventView::SendFailed { retryable, text })
                    &&& state.awaits(FetchEventView::SendTimedOut)
                },
                FetchActionView::Empty => forall|error: Option<Seq<char>>| #[trigger]
                    state.awaits(FetchEventView::Emptied(error)),
                FetchActionView::Read => {
                    &&& forall|n: u64|
                        file_len(trace) + n <= u64::MAX ==> #[trigger] state.awaits(
                            FetchEventView::Chunk(n),
                        )
                    &&& state.awaits(FetchEventView::End)
                    &&& forall|retryable: bool, text: Seq<char>| #[trigger]
                        state.awaits(FetchEventView::ReadFailed { retryable, text })
                },
                FetchActionView::Write => forall|error: Option<Seq<char>>| #[trigger]
                    state.awaits(FetchEventView::Written(error)),
                FetchActionView::Finish(_) => true,
            }
        },
{
    law_state_agrees_with_trace(expected, policy, trace);
    if trace.len() > 0 {
        law_state_agrees_with_trace(expected, policy, trace.drop_last());
    }
}

} // verus!
