//! The orderly end of the worker when the application shuts down.
//!
//! [`begin`] takes the handle out of the slot and says what to do with the
//! process. The caller sends the requests to the operating system and reports
//! what happened to [`step`]. A slot that is empty, or a second shutdown
//! signal, ends at once with nothing to do. [`terminate_worker`] runs the
//! whole course against a given answer of the process.

use crate::state::SupervisorState;
use crate::worker::{WorkerHandle, WorkerStatus};
use vstd::prelude::*;

verus! {

/// How long the worker has to end once it was asked to, in milliseconds.
pub const TERMINATION_TIMEOUT_MS: u64 = 5000;

/// Who asked the application to shut down.
#[derive(Clone, Copy, Debug, PartialEq, Eq)]
pub enum ShutdownOrigin {
    UserExit,
    WindowClose,
    SystemTerminate,
}

/// A request to shut down. It is handed over by value: one signal begins one
/// termination.
#[derive(Debug, PartialEq, Eq)]
pub struct ShutdownSignal {
    pub origin: ShutdownOrigin,
}

/// Where the termination of one worker stands.
#[derive(Clone, Copy, Debug, PartialEq, Eq)]
pub enum TerminationPhase {
    /// The process was asked to end and has the timeout to do so.
    AwaitingExit { handle: WorkerHandle },
    /// The process did not end in time and was killed by force.
    AwaitingKill { handle: WorkerHandle },
    /// Nothing is left to do. The handle, where there was one, carries its
    /// last status.
    Finished { ended: Option<WorkerHandle> },
}

/// What the caller reports to the termination.
#[derive(Clone, Copy, Debug, PartialEq, Eq)]
pub enum TerminationEvent {
    /// The operating system confirmed that the process is gone.
    ExitConfirmed,
    /// The timeout ran out and the process is still there.
    TimeoutElapsed,
}

/// What the termination asks the caller to do next.
#[derive(Clone, Copy, Debug, PartialEq, Eq)]
pub enum TerminationAction {
    /// Ask the process to end, and wait for its exit for at most the timeout.
    RequestTermination { pid: u32, timeout_ms: u64 },
    /// The graceful request went unanswered: kill the process by force, and
    /// wait for its exit.
    ForceKill { pid: u32 },
    /// The termination is over.
    Complete { handle: Option<WorkerHandle> },
    /// The event does not belong to the phase: nothing to do for it.
    Ignore,
}

/// The handle as it is once the supervisor has ended its process.
pub open spec fn killed(handle: WorkerHandle) -> WorkerHandle {
    WorkerHandle { pid: handle.pid, status: handle.status.after_kill() }
}

/// How a termination begins, by what the slot held.
///
/// An empty slot leaves nothing to do. A worker that has already ended is
/// handed back as it is. A worker that has not ended is asked to end.
pub open spec fn spec_begin(slot: Option<WorkerHandle>, timeout_ms: u64) -> (
    TerminationPhase,
    TerminationAction,
) {
    match slot {
        None => (
            TerminationPhase::Finished { ended: None },
            TerminationAction::Complete { handle: None },
        ),
        Some(h) => if h.status.spec_is_terminal() {
            (
                TerminationPhase::Finished { ended: Some(h) },
                TerminationAction::Complete { handle: Some(h) },
            )
        } else {
            (
                TerminationPhase::AwaitingExit { handle: h },
                TerminationAction::RequestTermination { pid: h.pid, timeout_ms },
            )
        },
    }
}

/// The transition table of a termination that has begun.
pub open spec fn spec_step(phase: TerminationPhase, event: TerminationEvent) -> (
    TerminationPhase,
    TerminationAction,
) {
    match (phase, event) {
        (TerminationPhase::AwaitingExit { handle }, TerminationEvent::ExitConfirmed) => (
            TerminationPhase::Finished { ended: Some(killed(handle)) },
            TerminationAction::Complete { handle: Some(killed(handle)) },
        ),
        (TerminationPhase::AwaitingExit { handle }, TerminationEvent::TimeoutElapsed) => (
            TerminationPhase::AwaitingKill { handle },
            TerminationAction::ForceKill { pid: handle.pid },
        ),
        (TerminationPhase::AwaitingKill { handle }, TerminationEvent::ExitConfirmed) => (
            TerminationPhase::Finished { ended: Some(killed(handle)) },
            TerminationAction::Complete { handle: Some(killed(handle)) },
        ),
        _ => (phase, TerminationAction::Ignore),
    }
}

/// Begins the termination that a shutdown signal asks for: takes the handle
/// out of the slot, which is empty afterwards, and says what to do with the
/// process. The origin of the signal makes no difference.
pub fn begin(state: &mut SupervisorState, signal: ShutdownSignal, timeout_ms: u64) -> (r: (
    TerminationPhase,
    TerminationAction,
))
    ensures
        final(state)@ is None,
        r == spec_begin(old(state)@, timeout_ms),
{
    match state.take() {
        None => (
            TerminationPhase::Finished { ended: None },
            TerminationAction::Complete { handle: None },
        ),
        Some(h) => if h.status.is_terminal() {
            (
                TerminationPhase::Finished { ended: Some(h) },
                TerminationAction::Complete { handle: Some(h) },
            )
        } else {
            (
                TerminationPhase::AwaitingExit { handle: h },
                TerminationAction::RequestTermination { pid: h.pid, timeout_ms },
            )
        },
    }
}

/// One move of a termination: the next phase and what the caller has to do.
pub fn step(phase: TerminationPhase, event: TerminationEvent) -> (r: (
    TerminationPhase,
    TerminationAction,
))
    ensures
        r == spec_step(phase, event),
{
    match phase {
        TerminationPhase::AwaitingExit { handle } => match event {
            TerminationEvent::ExitConfirmed => {
                let mut ended = handle;
                ended.mark_killed();
                (
                    TerminationPhase::Finished { ended: Some(ended) },
                    TerminationAction::Complete { handle: Some(ended) },
                )
            },
            TerminationEvent::TimeoutElapsed => (
                TerminationPhase::AwaitingKill { handle },
                TerminationAction::ForceKill { pid: handle.pid },
            ),
        },
        TerminationPhase::AwaitingKill { handle } => match event {
            TerminationEvent::ExitConfirmed => {
                let mut ended = handle;
                ended.mark_killed();
                (
                    TerminationPhase::Finished { ended: Some(ended) },
                    TerminationAction::Complete { handle: Some(ended) },
                )
            },
            TerminationEvent::TimeoutElapsed => (phase, TerminationAction::Ignore),
        },
        TerminationPhase::Finished { .. } => (phase, TerminationAction::Ignore),
    }
}

/// What one termination did.
#[derive(Clone, Copy, Debug, PartialEq, Eq)]
pub struct TerminationTrace {
    /// How many times the process was asked to end.
    pub requests: u32,
    /// How many times the process was killed by force.
    pub kills: u32,
    /// The handle that was in the slot, with its last status.
    pub handle: Option<WorkerHandle>,
}

/// What a termination does, given what the slot held and whether the process
/// ends within the timeout once it is asked to.
pub open spec fn expected_termination(slot: Option<WorkerHandle>, exits_in_time: bool)
    -> TerminationTrace {
    match slot {
        None => TerminationTrace { requests: 0, kills: 0, handle: None },
        Some(h) => if h.status.spec_is_terminal() {
            TerminationTrace { requests: 0, kills: 0, handle: Some(h) }
        } else {
            TerminationTrace {
                requests: 1,
                kills: if exits_in_time {
                    0
                } else {
                    1
                },
                handle: Some(WorkerHandle { pid: h.pid, status: WorkerStatus::Killed }),
            }
        },
    }
}

spec fn moves_left(phase: TerminationPhase) -> int {
    match phase {
        TerminationPhase::AwaitingExit { .. } => 2,
        TerminationPhase::AwaitingKill { .. } => 1,
        TerminationPhase::Finished { .. } => 0,
    }
}

/// What holds between two moves of a termination that is run from its
/// beginning: the phase, the action that is about to be carried out and the
/// counts kept so far agree with what the slot held.
spec fn run_is_coherent(
    slot: Option<WorkerHandle>,
    timeout_ms: u64,
    exits_in_time: bool,
    phase: TerminationPhase,
    action: TerminationAction,
    trace: TerminationTrace,
) -> bool {
    match (phase, action) {
        (
            TerminationPhase::AwaitingExit { handle },
            TerminationAction::RequestTermination { pid, timeout_ms: asked },
        ) => {
            &&& slot == Some(handle)
            &&& !handle.status.spec_is_terminal()
            &&& pid == handle.pid
            &&& asked == timeout_ms
            &&& trace.requests == 0
            &&& trace.kills == 0
        },
        (TerminationPhase::AwaitingKill { handle }, TerminationAction::ForceKill { pid }) => {
            &&& slot == Some(handle)
            &&& !handle.status.spec_is_terminal()
            &&& pid == handle.pid
            &&& !exits_in_time
            &&& trace.requests == 1
            &&& trace.kills == 0
        },
        (TerminationPhase::Finished { ended }, TerminationAction::Complete { handle }) => {
            &&& handle == ended
            &&& handle == expected_termination(slot, exits_in_time).handle
            &&& trace.requests == expected_termination(slot, exits_in_time).requests
            &&& trace.kills == expected_termination(slot, exits_in_time).kills
        },
        _ => false,
    }
}

/// Runs one termination from the shutdown signal to its end.
///
/// `exits_in_time` is the answer of the process to the request to end: whether
/// it is gone before the timeout runs out. A process that is killed by force
/// is gone.
pub fn terminate_worker(
    state: &mut SupervisorState,
    signal: ShutdownSignal,
    timeout_ms: u64,
    exits_in_time: bool,
) -> (trace: TerminationTrace)
    ensures
        final(state)@ is None,
        trace == expected_termination(old(state)@, exits_in_time),
{
    let (first_phase, first_action) = begin(state, signal, timeout_ms);
    let mut phase = first_phase;
    let mut action = first_action;
    let mut trace = TerminationTrace { requests: 0, kills: 0, handle: None };
    loop
        invariant
            state@ is None,
            trace.handle is None,
            run_is_coherent(old(state)@, timeout_ms, exits_in_time, phase, action, trace),
        decreases moves_left(phase),
    {
        let event = match action {
            TerminationAction::RequestTermination { .. } => {
                trace.requests = trace.requests + 1;
                if exits_in_time {
                    TerminationEvent::ExitConfirmed
                } else {
                    TerminationEvent::TimeoutElapsed
                }
            },
            TerminationAction::ForceKill { .. } => {
                trace.kills = trace.kills + 1;
                TerminationEvent::ExitConfirmed
            },
            TerminationAction::Complete { handle } => {
                trace.handle = handle;
                return trace;
            },
            TerminationAction::Ignore => {
                return trace;
            },
        };
        let (next_phase, next_action) = step(phase, event);
        phase = next_phase;
        action = next_action;
    }
}

/// A shutdown when no worker was ever launched, or after the handle was
/// already taken, does nothing: no request is sent, no handle comes back, and
/// the slot stays empty.
pub proof fn law_shutdown_of_empty_slot(timeout_ms: u64, exits_in_time: bool)
    ensures
        spec_begin(None, timeout_ms) == (
            TerminationPhase::Finished { ended: None },
            TerminationAction::Complete { handle: None },
        ),
        expected_termination(None, exits_in_time) == (TerminationTrace {
            requests: 0,
            kills: 0,
            handle: None,
        }),
{
}

/// The termination of a worker that has not ended asks it once to end, kills
/// it by force exactly where it does not end in time, and leaves it `Killed`
/// either way, healthy or not.
pub proof fn law_live_worker_ends_killed(h: WorkerHandle, timeout_ms: u64, exits_in_time: bool)
    requires
        !h.status.spec_is_terminal(),
    ensures
        spec_begin(Some(h), timeout_ms).1 == (TerminationAction::RequestTermination {
            pid: h.pid,
            timeout_ms,
        }),
        expected_termination(Some(h), exits_in_time).handle == Some(
            WorkerHandle { pid: h.pid, status: WorkerStatus::Killed },
        ),
        expected_termination(Some(h), exits_in_time).requests == 1,
        expected_termination(Some(h), exits_in_time).kills == 1 <==> !exits_in_time,
        expected_termination(Some(h), exits_in_time).kills == 0 <==> exits_in_time,
{
}

/// A force kill is asked for only after the timeout of a graceful request ran
/// out, and a finished termination answers every event with `Ignore`.
pub proof fn law_force_only_after_timeout(phase: TerminationPhase, event: TerminationEvent)
    ensures
        spec_step(phase, event).1 is ForceKill ==> phase is AwaitingExit && event
            == TerminationEvent::TimeoutElapsed,
        phase is Finished ==> spec_step(phase, event) == (phase, TerminationAction::Ignore),
        spec_step(phase, event).1 matches TerminationAction::Complete { handle: Some(h) }
            ==> h.status is Killed || h.status is Exited,
{
}

} // verus!
