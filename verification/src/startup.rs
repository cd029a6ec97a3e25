//! The decisions of starting the backend, as a machine from the last
//! action and what came of it to the next action. The caller performs each
//! action (checking health, probing the port, installing, preparing the
//! database, secret and log files, spawning, waiting, stopping) and hands
//! back its outcome.

use vstd::prelude::*;
use crate::backend::{port_in_use_message, port_in_use_text, startup_timeout_message, startup_timeout_text};

verus! {

/// Why starting the backend failed.
pub enum StartFailure {
    /// The port is taken by a service that is not the backend.
    PortInUse,
    /// An outside operation failed with this message.
    Io(String),
    /// The spawned backend never became healthy.
    Timeout,
}

/// The next thing to do while starting the backend.
pub enum StartAction {
    /// Ask the health endpoint whether a backend already runs.
    CheckHealth,
    /// Probe whether anything listens on the backend port.
    CheckPort,
    /// Resolve the application directories and install the bundled binary.
    InstallBinary,
    /// Make sure the database file exists.
    PrepareDatabase,
    /// Read or create the secret key.
    PrepareSecret,
    /// Create the log directory and log files.
    PrepareLogs,
    /// Start the backend process and keep hold of it.
    SpawnBackend,
    /// Wait until the backend answers its health check.
    AwaitReady,
    /// Stop the backend process that was started.
    StopBackend,
    /// No binary is bundled: log it, and starting ends without error.
    ReportMissingBinary,
    /// Starting ends with this result.
    Finish(Result<(), StartFailure>),
}

/// What came of the last action.
pub enum StartEvent {
    /// The health check answered (for `CheckHealth`).
    Healthy(bool),
    /// Whether the port is open (for `CheckPort`).
    PortOpen(bool),
    /// Whether a bundled binary was found and installed (for `InstallBinary`).
    BinaryFound(bool),
    /// The action succeeded.
    Succeeded,
    /// The action failed with this message.
    Failed(String),
    /// Whether the backend became ready (for `AwaitReady`).
    Ready(bool),
}

/// The action that starts the machine.
pub fn first_start_action() -> (a: StartAction)
    ensures
        a == StartAction::CheckHealth,
{
    StartAction::CheckHealth
}

/// Actions after which starting is over.
pub open spec fn is_final(a: StartAction) -> bool {
    a is ReportMissingBinary || a is Finish
}

/// Which outcomes each action can have.
pub open spec fn event_fits(a: StartAction, e: StartEvent) -> bool {
    match a {
        StartAction::CheckHealth => e is Healthy,
        StartAction::CheckPort => e is PortOpen,
        StartAction::InstallBinary => e is BinaryFound || e is Failed,
        StartAction::PrepareDatabase => e is Succeeded || e is Failed,
        StartAction::PrepareSecret => e is Succeeded || e is Failed,
        StartAction::PrepareLogs => e is Succeeded || e is Failed,
        StartAction::SpawnBackend => e is Succeeded || e is Failed,
        StartAction::AwaitReady => e is Ready,
        StartAction::StopBackend => e is Succeeded,
        _ => false,
    }
}

/// Whether starting is over after this action.
pub fn is_final_action(a: &StartAction) -> (r: bool)
    ensures
        r == is_final(*a),
{
    match a {
        StartAction::ReportMissingBinary | StartAction::Finish(_) => true,
        _ => false,
    }
}

/// Whether `e` is an outcome that action `a` can have.
pub fn outcome_fits(a: &StartAction, e: &StartEvent) -> (r: bool)
    ensures
        r == event_fits(*a, *e),
{
    match a {
        StartAction::CheckHealth => matches!(e, StartEvent::Healthy(_)),
        StartAction::CheckPort => matches!(e, StartEvent::PortOpen(_)),
        StartAction::InstallBinary => matches!(e, StartEvent::BinaryFound(_) | StartEvent::Failed(_)),
        StartAction::PrepareDatabase | StartAction::PrepareSecret | StartAction::PrepareLogs
        | StartAction::SpawnBackend => matches!(e, StartEvent::Succeeded | StartEvent::Failed(_)),
        StartAction::AwaitReady => matches!(e, StartEvent::Ready(_)),
        StartAction::StopBackend => matches!(e, StartEvent::Succeeded),
        _ => false,
    }
}

/// The action that follows `a` when it came to `e`.
pub open spec fn next_action(a: StartAction, e: StartEvent) -> StartAction {
    match (a, e) {
        (StartAction::CheckHealth, StartEvent::Healthy(true)) => StartAction::Finish(Ok(())),
        (StartAction::CheckHealth, _) => StartAction::CheckPort,
        (StartAction::CheckPort, StartEvent::PortOpen(true)) => StartAction::Finish(
            Err(StartFailure::PortInUse),
        ),
        (StartAction::CheckPort, _) => StartAction::InstallBinary,
        (_, StartEvent::Failed(m)) => StartAction::Finish(Err(StartFailure::Io(m))),
        (StartAction::InstallBinary, StartEvent::BinaryFound(false)) => StartAction::ReportMissingBinary,
        (StartAction::InstallBinary, _) => StartAction::PrepareDatabase,
        (StartAction::PrepareDatabase, _) => StartAction::PrepareSecret,
        (StartAction::PrepareSecret, _) => StartAction::PrepareLogs,
        (StartAction::PrepareLogs, _) => StartAction::SpawnBackend,
        (StartAction::SpawnBackend, _) => StartAction::AwaitReady,
        (StartAction::AwaitReady, StartEvent::Ready(true)) => StartAction::Finish(Ok(())),
        (StartAction::AwaitReady, _) => StartAction::StopBackend,
        (_, _) => StartAction::Finish(Err(StartFailure::Timeout)),
    }
}

/// Decides the next action of starting the backend from the last action and
/// its outcome: a healthy backend is kept, a port held by something else is
/// an error, a missing binary is only reported, any failed step ends with
/// its error, and a backend that never becomes ready is stopped before the
/// timeout is reported.
pub fn start_step(last: StartAction, event: StartEvent) -> (next: StartAction)
    requires
        !is_final(last),
        event_fits(last, event),
    ensures
        next == next_action(last, event),
{
    match last {
        StartAction::CheckHealth => match event {
            StartEvent::Healthy(true) => StartAction::Finish(Ok(())),
            _ => StartAction::CheckPort,
        },
        StartAction::CheckPort => match event {
            StartEvent::PortOpen(true) => StartAction::Finish(Err(StartFailure::PortInUse)),
            _ => StartAction::InstallBinary,
        },
        StartAction::InstallBinary => match event {
            StartEvent::Failed(m) => StartAction::Finish(Err(StartFailure::Io(m))),
            StartEvent::BinaryFound(false) => StartAction::ReportMissingBinary,
            _ => StartAction::PrepareDatabase,
        },
        StartAction::PrepareDatabase => match event {
            StartEvent::Failed(m) => StartAction::Finish(Err(StartFailure::Io(m))),
            _ => StartAction::PrepareSecret,
        },
        StartAction::PrepareSecret => match event {
            StartEvent::Failed(m) => StartAction::Finish(Err(StartFailure::Io(m))),
            _ => StartAction::PrepareLogs,
        },
        StartAction::PrepareLogs => match event {
            StartEvent::Failed(m) => StartAction::Finish(Err(StartFailure::Io(m))),
            _ => StartAction::SpawnBackend,
        },
        StartAction::SpawnBackend => match event {
            StartEvent::Failed(m) => StartAction::Finish(Err(StartFailure::Io(m))),
            _ => StartAction::AwaitReady,
        },
        StartAction::AwaitReady => match event {
            StartEvent::Ready(true) => StartAction::Finish(Ok(())),
            _ => StartAction::StopBackend,
        },
        _ => StartAction::Finish(Err(StartFailure::Timeout)),
    }
}

/// The message reported for a failed start.
pub open spec fn failure_text(f: StartFailure) -> Seq<char> {
    match f {
        StartFailure::PortInUse => port_in_use_text(),
        StartFailure::Io(m) => m@,
        StartFailure::Timeout => startup_timeout_text(),
    }
}

/// The message reported for a failed start.
pub fn start_failure_message(f: StartFailure) -> (r: String)
    ensures
        r@ == failure_text(f),
{
    match f {
        StartFailure::PortInUse => port_in_use_message(),
        StartFailure::Io(m) => m,
        StartFailure::Timeout => startup_timeout_message(),
    }
}


// ───────────────────────── runs of the machine ─────────────────────────

/// The actions issued when the outcomes `events` are handed back in turn,
/// starting from `CheckHealth`; the run stops at a final action or at an
/// outcome that does not fit the action it answers.
pub open spec fn start_run(events: Seq<StartEvent>) -> Seq<StartAction>
    decreases events.len(),
{
    if events.len() == 0 {
        seq![StartAction::CheckHealth]
    } else {
        let prev = start_run(events.drop_last());
        let e = events.last();
        if prev.len() == events.len() && !is_final(prev.last()) && event_fits(prev.last(), e) {
            prev.push(next_action(prev.last(), e))
        } else {
            prev
        }
    }
}

/// How far along starting an action is.
pub open spec fn stage(a: StartAction) -> int {
    match a {
        StartAction::CheckHealth => 0,
        StartAction::CheckPort => 1,
        StartAction::InstallBinary => 2,
        StartAction::PrepareDatabase => 3,
        StartAction::PrepareSecret => 4,
        StartAction::PrepareLogs => 5,
        StartAction::SpawnBackend => 6,
        StartAction::AwaitReady => 7,
        StartAction::StopBackend => 8,
        _ => 9,
    }
}

proof fn lemma_step_advances(a: StartAction, e: StartEvent)
    requires
        !is_final(a),
        event_fits(a, e),
    ensures
        stage(next_action(a, e)) > stage(a),
        !is_final(next_action(a, e)) ==> stage(next_action(a, e)) == stage(a) + 1,
        is_final(next_action(a, e)) ==> stage(next_action(a, e)) == 9,
{
}

proof fn lemma_run_shape(events: Seq<StartEvent>)
    ensures
        1 <= start_run(events).len() <= events.len() + 1,
        start_run(events)[0] == StartAction::CheckHealth,
        forall|j: int|
            0 <= j < start_run(events).len() - 1 ==> {
                &&& !is_final(#[trigger] start_run(events)[j])
                &&& event_fits(start_run(events)[j], events[j])
                &&& start_run(events)[j + 1] == next_action(start_run(events)[j], events[j])
            },
    decreases events.len(),
{
    if events.len() > 0 {
        let pre = events.drop_last();
        lemma_run_shape(pre);
        let prev = start_run(pre);
        let r = start_run(events);
        assert forall|j: int| 0 <= j < r.len() - 1 implies {
            &&& !is_final(#[trigger] r[j])
            &&& event_fits(r[j], events[j])
            &&& r[j + 1] == next_action(r[j], events[j])
        } by {
            if j < prev.len() - 1 {
                assert(events[j] == pre[j]);
            }
        }
    }
}

proof fn lemma_run_stages(events: Seq<StartEvent>, j: int)
    requires
        0 <= j < start_run(events).len(),
    ensures
        stage(start_run(events)[j]) >= j,
        !is_final(start_run(events)[j]) ==> stage(start_run(events)[j]) == j,
    decreases j,
{
    lemma_run_shape(events);
    let r = start_run(events);
    if j > 0 {
        lemma_run_stages(events, j - 1);
        lemma_step_advances(r[j - 1], events[j - 1]);
    }
}

/// Starting the backend always comes to an end: a run issues at most ten
/// actions, and a run of fitting outcomes is only cut short by a final one.
pub proof fn law_start_run_is_bounded(events: Seq<StartEvent>)
    ensures
        start_run(events).len() <= 10,
        start_run(events).len() < events.len() + 1 ==> is_final(start_run(events).last()) || !event_fits(
            start_run(events).last(),
            events[start_run(events).len() - 1],
        ),
    decreases events.len(),
{
    lemma_run_shape(events);
    let r = start_run(events);
    lemma_run_stages(events, r.len() - 1);
    if events.len() > 0 {
        let pre = events.drop_last();
        law_start_run_is_bounded(pre);
        let prev = start_run(pre);
        if r.len() < events.len() + 1 {
            assert(r == prev);
            if prev.len() < pre.len() + 1 {
                assert(events[prev.len() - 1] == pre[prev.len() - 1]);
            }
        }
    }
}

/// A backend process is only spawned after the health check found no
/// running backend and the port was found free.
pub proof fn law_spawn_only_when_no_backend_and_port_free(events: Seq<StartEvent>, k: int)
    requires
        0 <= k < start_run(events).len(),
        start_run(events)[k] is SpawnBackend,
    ensures
        k == 6,
        events[0] == StartEvent::Healthy(false),
        events[1] == StartEvent::PortOpen(false),
{
    lemma_run_shape(events);
    let r = start_run(events);
    lemma_run_stages(events, k);
    lemma_run_stages(events, 1);
    lemma_run_stages(events, 2);
}

/// Any failure of installing, preparing the database, the secret or the
/// logs, or spawning ends starting at once with that failure's message.
pub proof fn law_failure_ends_start(a: StartAction, m: String)
    requires
        !is_final(a),
        event_fits(a, StartEvent::Failed(m)),
    ensures
        a is InstallBinary || a is PrepareDatabase || a is PrepareSecret || a is PrepareLogs
            || a is SpawnBackend,
        next_action(a, StartEvent::Failed(m)) == StartAction::Finish(Err(StartFailure::Io(m))),
{
}

/// The backend is only spawned after a binary was found and installed and
/// the database, the secret key and the log files were all prepared.
pub proof fn law_spawn_only_after_preparation(events: Seq<StartEvent>, k: int)
    requires
        0 <= k < start_run(events).len(),
        start_run(events)[k] is SpawnBackend,
    ensures
        events[2] == StartEvent::BinaryFound(true),
        events[3] is Succeeded,
        events[4] is Succeeded,
        events[5] is Succeeded,
{
    lemma_run_shape(events);
    lemma_run_stages(events, k);
    lemma_run_stages(events, 2);
    lemma_run_stages(events, 3);
    lemma_run_stages(events, 4);
    lemma_run_stages(events, 5);
}

/// A stop is only issued for a backend that was spawned successfully and
/// then did not become ready.
pub proof fn law_stop_only_after_failed_wait(events: Seq<StartEvent>, k: int)
    requires
        0 <= k < start_run(events).len(),
        start_run(events)[k] is StopBackend,
    ensures
        k == 8,
        start_run(events)[6] is SpawnBackend,
        events[6] is Succeeded,
        start_run(events)[7] is AwaitReady,
        events[7] == StartEvent::Ready(false),
{
    lemma_run_shape(events);
    lemma_run_stages(events, k);
    lemma_run_stages(events, 6);
    lemma_run_stages(events, 7);
}

/// A start that times out has stopped the backend it spawned just before.
pub proof fn law_timeout_comes_after_stop(events: Seq<StartEvent>, k: int)
    requires
        0 <= k < start_run(events).len(),
        start_run(events)[k] == StartAction::Finish(Err(StartFailure::Timeout)),
    ensures
        k == 9,
        start_run(events)[8] is StopBackend,
        start_run(events)[6] is SpawnBackend,
{
    lemma_run_shape(events);
    let r = start_run(events);
    assert(k > 0);
    lemma_run_stages(events, k - 1);
    assert(r[k - 1] is StopBackend);
    law_stop_only_after_failed_wait(events, k - 1);
}

} // verus!
