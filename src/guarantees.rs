//! What the supervision protocol guarantees across several operations,
//! stated over the registry model that the operations' contracts use.

use vstd::prelude::*;
use crate::monitor::{
    registry_wf, is_running, started, stopped, start_outcome, stop_outcome, status_outcome,
    running_status, stopped_status, shutdown_steps, GRACE_PERIOD_MILLIS, tagged, pump_emits,
    MonitorError, ProjectStatus, ReadEvent, RegistryModel, StopAction,
};

verus! {

/// Recording a process keeps the registry consistent.
pub proof fn lemma_started_wf(m: RegistryModel, name: Seq<char>, pid: u32)
    requires
        registry_wf(m),
    ensures
        registry_wf(started(m, name, pid)),
{
}

/// Removing a verified-dead process keeps the registry consistent.
pub proof fn lemma_stopped_wf(m: RegistryModel, name: Seq<char>)
    requires
        registry_wf(m),
    ensures
        registry_wf(stopped(m, name)),
{
}

/// Once a start of `name` has spawned its process, a second start of `name`
/// is refused with `AlreadyRunning` and changes nothing: the registry holds
/// one record for `name`, the one of the first start.
pub proof fn lemma_second_start_refused(m: RegistryModel, name: Seq<char>, pid: u32, second: Result<u32, String>)
    requires
        registry_wf(m),
    ensures
        ({
            let m1 = start_outcome(m, name, Ok(pid)).0;
            &&& registry_wf(m1)
            &&& m1.pids.contains_key(name)
            &&& start_outcome(m1, name, second) == (m1, Err::<ProjectStatus, MonitorError>(MonitorError::AlreadyRunning))
        }),
{
    if !is_running(m, name) {
        lemma_started_wf(m, name, pid);
    }
}

/// A stop of a name without a process record fails with `NotRunning` and
/// leaves the registry as it was.
pub proof fn lemma_stop_without_record(m: RegistryModel, name: Seq<char>, still_alive: bool)
    requires
        !is_running(m, name),
    ensures
        stop_outcome(m, name, still_alive) == (m, Err::<ProjectStatus, MonitorError>(MonitorError::NotRunning)),
{
}

/// A start that spawned its process, then a stop that found it gone, leave
/// `name` with the status not running and no pid.
pub proof fn lemma_start_stop_status(m: RegistryModel, name: Seq<char>, pid: u32)
    requires
        registry_wf(m),
    ensures
        ({
            let m1 = start_outcome(m, name, Ok(pid)).0;
            let (m2, r) = stop_outcome(m1, name, false);
            &&& r == Ok::<ProjectStatus, MonitorError>(stopped_status())
            &&& status_outcome(m2, name) == Ok::<ProjectStatus, MonitorError>(stopped_status())
        }),
{
}

/// An empty registry answers `NotFound` for every name; so does any registry
/// for a name that has no status recorded.
pub proof fn lemma_never_started_not_found(m: RegistryModel, name: Seq<char>)
    requires
        !m.statuses.contains_key(name),
    ensures
        status_outcome(m, name) == Err::<ProjectStatus, MonitorError>(MonitorError::NotFound),
{
}

/// The forced signal follows the grace period whatever the graceful signal
/// achieved, and precedes the liveness check; a process that it killed is
/// reported stopped.
pub proof fn lemma_forced_signal_suffices(m: RegistryModel, name: Seq<char>)
    requires
        registry_wf(m),
        is_running(m, name),
    ensures
        ({
            let pid = m.pids[name];
            let steps = shutdown_steps(pid);
            let (m2, r) = stop_outcome(m, name, false);
            &&& steps[0] == StopAction::Terminate { pid, force: false }
            &&& steps[1] == StopAction::Pause { millis: GRACE_PERIOD_MILLIS }
            &&& steps[2] == StopAction::Terminate { pid, force: true }
            &&& steps[4] == StopAction::CheckAlive { pid }
            &&& r == Ok::<ProjectStatus, MonitorError>(stopped_status())
            &&& !is_running(m2, name)
            &&& status_outcome(m2, name) == Ok::<ProjectStatus, MonitorError>(stopped_status())
        }),
{
}

/// A process that the process table still lists after both signals makes
/// the stop fail with `StillRunning` and its pid; the project's status still
/// says running.
pub proof fn lemma_survivor_stays_running(m: RegistryModel, name: Seq<char>)
    requires
        registry_wf(m),
        is_running(m, name),
    ensures
        ({
            let pid = m.pids[name];
            let (m2, r) = stop_outcome(m, name, true);
            &&& r == Err::<ProjectStatus, MonitorError>(MonitorError::StillRunning(pid))
            &&& m2 == m
            &&& status_outcome(m2, name) == Ok::<ProjectStatus, MonitorError>(running_status(pid))
        }),
{
}

/// The reads of one stream that gives the lines `lines` and then ends.
pub open spec fn stream_of(lines: Seq<String>) -> Seq<ReadEvent> {
    lines.map_values(|l: String| ReadEvent::Line(l)).push(ReadEvent::End)
}

/// Each line of a stream is published exactly once, tagged with the
/// project's name, in the order of the stream.
pub proof fn lemma_every_line_published_once(name: Seq<char>, lines: Seq<String>)
    ensures
        pump_emits(name, stream_of(lines)) == lines.map_values(|l: String| tagged(name, l@)),
    decreases lines.len(),
{
    let events = stream_of(lines);
    if lines.len() == 0 {
        assert(events[0] == ReadEvent::End);
        assert(pump_emits(name, events) =~= Seq::<Seq<char>>::empty());
        assert(lines.map_values(|l: String| tagged(name, l@)) =~= Seq::<Seq<char>>::empty());
    } else {
        let rest = lines.drop_first();
        lemma_every_line_published_once(name, rest);
        assert(events.drop_first() =~= stream_of(rest));
        assert(lines.map_values(|l: String| tagged(name, l@)) =~= seq![tagged(name, lines[0]@)] + rest.map_values(|l: String| tagged(name, l@)));
    }
}

/// Starts of two distinct names that both spawn their process both succeed,
/// each records its own pid, and the order of the two starts does not matter.
pub proof fn lemma_distinct_starts_independent(m: RegistryModel, a: Seq<char>, b: Seq<char>, pa: u32, pb: u32)
    requires
        registry_wf(m),
        a != b,
        !is_running(m, a),
        !is_running(m, b),
    ensures
        ({
            let (ma, ra) = start_outcome(m, a, Ok(pa));
            let (mab, rb) = start_outcome(ma, b, Ok(pb));
            let mba = start_outcome(start_outcome(m, b, Ok(pb)).0, a, Ok(pa)).0;
            &&& ra == Ok::<ProjectStatus, MonitorError>(running_status(pa))
            &&& rb == Ok::<ProjectStatus, MonitorError>(running_status(pb))
            &&& mab.pids[a] == pa && mab.pids[b] == pb
            &&& registry_wf(mab)
            &&& mab == mba
        }),
{
    let mab = started(started(m, a, pa), b, pb);
    let mba = started(started(m, b, pb), a, pa);
    lemma_started_wf(m, a, pa);
    lemma_started_wf(started(m, a, pa), b, pb);
    assert(mab.statuses =~= mba.statuses);
    assert(mab.pids =~= mba.pids);
}

} // verus!
