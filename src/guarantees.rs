use vstd::prelude::*;
use crate::updater::{
    DownloadEvent, ManifestEntry, Stream, UpdateAgent, UpdateHandle, UpdateMetadata,
    UpdaterError, begin_check_step, begin_install_step, event_step, finish_check_step, reported,
};

verus! {

/// `Finished` is only ever sent after `Started`, and is the last event of
/// its download.
pub proof fn lemma_finished_follows_started(a: UpdateAgent)
    requires
        a.wf(),
    ensures
        forall|i: int|
            0 <= i < a.emitted().len() && #[trigger] a.emitted()[i] is Finished ==> {
                &&& 0 < i
                &&& a.emitted()[0] is Started
                &&& i == a.emitted().len() - 1
            },
{
}

/// Once `Finished` has been sent, no further event of that download is
/// accepted, and the agent stays as it was.
pub proof fn lemma_nothing_after_finished(
    a: UpdateAgent,
    b: UpdateAgent,
    due: Stream,
    ev: DownloadEvent,
    after: Stream,
    r: Option<DownloadEvent>,
)
    requires
        a.wf(),
        a.emitted().len() > 0,
        a.emitted().last() is Finished,
        due != Stream::Done,
        event_step(a, b, due, ev, after, r),
    ensures
        r is None,
        b == a,
{
}

/// Two checks answered alike by the provider report alike: the same
/// versions, or both nothing, or both the same failure.
pub proof fn lemma_check_is_stable(
    a0: UpdateAgent,
    a1: UpdateAgent,
    r1: Result<Option<(UpdateMetadata, UpdateHandle)>, UpdaterError>,
    b0: UpdateAgent,
    b1: UpdateAgent,
    r2: Result<Option<(UpdateMetadata, UpdateHandle)>, UpdaterError>,
    provider: Result<Option<ManifestEntry>, String>,
)
    requires
        finish_check_step(a0, a1, provider, r1),
        finish_check_step(b0, b1, provider, r2),
    ensures
        reported(r1) == reported(r2),
        r1 is Ok <==> r2 is Ok,
        r1 is Err ==> r1 == r2,
{
}

/// "Keeps every used handle used" chains through successive steps.
pub proof fn lemma_keeps_consumed_chains(a: UpdateAgent, b: UpdateAgent, c: UpdateAgent)
    requires
        b.keeps_consumed(a),
        c.keeps_consumed(b),
    ensures
        c.keeps_consumed(a),
{
    assert forall|i: int| 0 <= i < a.consumed().len() && #[trigger] a.consumed()[i] implies c.consumed()[i] by {
        assert(b.consumed()[i]);
    }
}

/// A handle serves one install attempt: once an install has started with
/// it, every later attempt with it fails with `HandleAlreadyConsumed` and
/// leaves the agent, and so the first attempt, untouched.
pub proof fn lemma_handle_is_single_use(
    a0: UpdateAgent,
    a1: UpdateAgent,
    r1: Result<(), UpdaterError>,
    b0: UpdateAgent,
    b1: UpdateAgent,
    r2: Result<(), UpdaterError>,
    id: usize,
)
    requires
        begin_install_step(a0, a1, id, r1),
        r1 is Ok,
        b0.keeps_consumed(a1),
        begin_install_step(b0, b1, id, r2),
    ensures
        r2 == Err::<(), UpdaterError>(UpdaterError::HandleAlreadyConsumed),
        b1 == b0,
{
    assert(a1.consumed()[id as int]);
}

/// While a check or download runs, a new check fails at once with
/// `UpdateInProgress` and changes nothing, the running attempt's events
/// included.
pub proof fn lemma_busy_agent_refuses_check(
    a: UpdateAgent,
    b: UpdateAgent,
    r: Result<(), UpdaterError>,
)
    requires
        a.in_flight(),
        begin_check_step(a, b, r),
    ensures
        r == Err::<(), UpdaterError>(UpdaterError::UpdateInProgress),
        b == a,
        b.emitted() == a.emitted(),
{
}

/// While a check or download runs, an install with a fresh handle fails at
/// once with `UpdateInProgress` and changes nothing: the handle stays
/// usable and the running attempt's events are untouched.
pub proof fn lemma_busy_agent_refuses_install(
    a: UpdateAgent,
    b: UpdateAgent,
    r: Result<(), UpdaterError>,
    id: usize,
)
    requires
        a.in_flight(),
        id < a.consumed().len(),
        !a.consumed()[id as int],
        begin_install_step(a, b, id, r),
    ensures
        r == Err::<(), UpdaterError>(UpdaterError::UpdateInProgress),
        b == a,
        !b.consumed()[id as int],
        b.emitted() == a.emitted(),
{
}

} // verus!
