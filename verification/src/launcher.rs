//! The launch of the worker: whether a spawn may be attempted, and what
//! becomes of its outcome.
//!
//! The caller resolves the worker's executable and spawns it. Before that it
//! asks [`plan_launch`], and afterwards it hands what happened to [`launch`],
//! which installs the handle of the new process in the slot.

use crate::policy::{ensure_running, expected_trace, Decision, RetryConfig, SpawnAnswer};
use crate::state::{slot_install, slot_is_live, AppState, InstallReport, SupervisorState};
use crate::worker::{WorkerHandle, WorkerStatus};
use vstd::prelude::*;
use vstd::string::*;

verus! {

/// The name under which the worker's executable is bundled.
pub const SIDECAR_NAME: &'static str = "ocr_mlx";

/// What an attempt to spawn the worker came to.
#[derive(Clone, Debug, PartialEq, Eq)]
pub enum SpawnOutcome {
    /// The process was started and has this identifier.
    Spawned { pid: u32 },
    /// The worker's executable could not be found.
    ResolveFailed { message: String },
    /// The operating system refused to start the process.
    SpawnFailed { message: String },
}

/// The step at which a spawn failed.
#[derive(Clone, Copy, Debug, PartialEq, Eq)]
pub enum SpawnStage {
    Resolve,
    Spawn,
}

/// Why no worker process was started.
#[derive(Clone, Debug, PartialEq, Eq)]
pub struct SpawnError {
    pub stage: SpawnStage,
    /// What the platform said.
    pub message: String,
}

/// Why the worker is not known to be started.
#[derive(Clone, Debug, PartialEq, Eq)]
pub enum LaunchError {
    /// The worker had to be spawned and the spawn failed, for this reason
    /// where one was reported.
    SpawnFailed { cause: Option<SpawnError> },
    /// A shutdown was requested before the worker was found or spawned.
    Cancelled,
}

/// Whether to spawn.
#[derive(Clone, Copy, Debug, PartialEq, Eq)]
pub enum LaunchPlan {
    /// The slot holds no worker that could still run: spawn one.
    Spawn,
    /// The slot holds a worker that has not ended: it stays, and nothing is
    /// spawned.
    KeepExisting { handle: WorkerHandle },
}

/// A worker that was spawned and installed.
#[derive(Clone, Copy, Debug, PartialEq, Eq)]
pub struct LaunchedWorker {
    pub handle: WorkerHandle,
    /// What the install found in the slot.
    pub report: InstallReport,
}

/// The plan for a slot: the worker in it stays where it has not ended.
pub open spec fn spec_plan_launch(slot: Option<WorkerHandle>) -> LaunchPlan {
    if slot_is_live(slot) {
        LaunchPlan::KeepExisting { handle: slot->0 }
    } else {
        LaunchPlan::Spawn
    }
}

/// What a spawn outcome comes to for a slot: the slot afterwards, and the
/// result of the launch.
///
/// The process that was started gets a handle with the status `Starting`,
/// which is installed. A failure leaves the slot as it was.
pub open spec fn spec_launch(slot: Option<WorkerHandle>, outcome: SpawnOutcome) -> (
    Option<WorkerHandle>,
    Result<LaunchedWorker, SpawnError>,
) {
    match outcome {
        SpawnOutcome::Spawned { pid } => {
            let handle = WorkerHandle { pid, status: WorkerStatus::Starting };
            (Some(handle), Ok(LaunchedWorker { handle, report: slot_install(slot, handle).1 }))
        },
        SpawnOutcome::ResolveFailed { message } => (
            slot,
            Err(SpawnError { stage: SpawnStage::Resolve, message }),
        ),
        SpawnOutcome::SpawnFailed { message } => (
            slot,
            Err(SpawnError { stage: SpawnStage::Spawn, message }),
        ),
    }
}

/// What the caller of the launch policy is told.
pub open spec fn spec_conclude(outcome: Option<Decision>, cause: Option<SpawnError>) -> Result<
    (),
    LaunchError,
> {
    match outcome {
        Some(Decision::AlreadyRunning) => Ok(()),
        Some(Decision::Launched) => Ok(()),
        Some(Decision::Failed) => Err(LaunchError::SpawnFailed { cause }),
        None => Err(LaunchError::Cancelled),
    }
}

/// Says whether a spawn may be attempted: not while the slot holds a worker
/// that has not ended.
pub fn plan_launch(state: &SupervisorState) -> (plan: LaunchPlan)
    ensures
        plan == spec_plan_launch(state@),
{
    match state.current() {
        Some(h) => if h.status.is_terminal() {
            LaunchPlan::Spawn
        } else {
            LaunchPlan::KeepExisting { handle: *h }
        },
        None => LaunchPlan::Spawn,
    }
}

/// Takes the outcome of a spawn: installs the handle of the process that was
/// started, or reports why none was.
pub fn launch(state: &mut SupervisorState, outcome: SpawnOutcome) -> (r: Result<
    LaunchedWorker,
    SpawnError,
>)
    ensures
        (final(state)@, r) == spec_launch(old(state)@, outcome),
{
    match outcome {
        SpawnOutcome::Spawned { pid } => {
            let handle = WorkerHandle::starting(pid);
            let report = state.install(handle);
            Ok(LaunchedWorker { handle, report })
        },
        SpawnOutcome::ResolveFailed { message } => Err(
            SpawnError { stage: SpawnStage::Resolve, message },
        ),
        SpawnOutcome::SpawnFailed { message } => Err(
            SpawnError { stage: SpawnStage::Spawn, message },
        ),
    }
}

/// Takes the outcome of a spawn of the sidecar for the application state:
/// keeps the handle of the process that was started and confirms the start,
/// or hands back what the platform said.
pub fn launch_sidecar_nougat(state: &mut AppState, outcome: SpawnOutcome) -> (r: Result<
    String,
    String,
>)
    ensures
        final(state).app_name == old(state).app_name,
        final(state).sidecar_child@ == spec_launch(old(state).sidecar_child@, outcome).0,
        match spec_launch(old(state).sidecar_child@, outcome).1 {
            Ok(_) => r is Ok && r->Ok_0@ == "Nougat sidecar started and logging."@,
            Err(e) => r == Err::<String, String>(e.message),
        },
{
    match launch(&mut state.sidecar_child, outcome) {
        Ok(_) => Ok(String::from_str("Nougat sidecar started and logging.")),
        Err(e) => Err(e.message),
    }
}

/// Turns what the launch policy came to into the answer for the caller:
/// success where a worker is there, the failure of the spawn where it failed,
/// and a cancellation where a shutdown ended the policy first.
pub fn conclude(outcome: Option<Decision>, cause: Option<SpawnError>) -> (r: Result<
    (),
    LaunchError,
>)
    ensures
        r == spec_conclude(outcome, cause),
{
    match outcome {
        Some(Decision::AlreadyRunning) => Ok(()),
        Some(Decision::Launched) => Ok(()),
        Some(Decision::Failed) => Err(LaunchError::SpawnFailed { cause }),
        None => Err(LaunchError::Cancelled),
    }
}

/// The answer that a request of the launch policy to spawn gets, by what the
/// slot holds and what the spawn comes to: a worker that has not ended stays
/// and nothing is spawned.
pub open spec fn spawn_answer(slot: Option<WorkerHandle>, outcome: SpawnOutcome) -> SpawnAnswer {
    if slot_is_live(slot) {
        SpawnAnswer::Held
    } else if outcome is Spawned {
        SpawnAnswer::Spawned
    } else {
        SpawnAnswer::Failed
    }
}

/// What making sure that the worker is started comes to: the slot afterwards
/// and the answer for the caller.
///
/// The launch policy runs against the answers of the probes. Only where it
/// attempts a spawn does the outcome of the spawn count: the new handle is
/// installed, or the failure is handed to the caller. In every other run the
/// slot stays as it was.
pub open spec fn spec_ensure_worker_started(
    slot: Option<WorkerHandle>,
    cfg: RetryConfig,
    probes: Seq<bool>,
    outcome: SpawnOutcome,
    shutdown_during_wait: Option<u32>,
) -> (Option<WorkerHandle>, Result<(), LaunchError>) {
    let trace = expected_trace(cfg, probes, spawn_answer(slot, outcome), shutdown_during_wait);
    if trace.spawns == 1 {
        match spec_launch(slot, outcome) {
            (after, Ok(_)) => (after, Ok(())),
            (after, Err(cause)) => (after, Err(LaunchError::SpawnFailed { cause: Some(cause) })),
        }
    } else {
        (slot, spec_conclude(trace.outcome, None))
    }
}

/// Makes sure that the worker is started, against given answers: runs the
/// launch policy, and installs the worker where the policy has it spawned.
///
/// `probes` holds the answer that each probe gets, a probe beyond the end of
/// the list fails; `outcome` is what a spawn comes to, if one is attempted;
/// `shutdown_during_wait` is the number (from 1) of the delay during which a
/// shutdown request arrives, `None` where none arrives.
pub fn ensure_worker_started(
    state: &mut SupervisorState,
    cfg: &RetryConfig,
    probes: &Vec<bool>,
    outcome: SpawnOutcome,
    shutdown_during_wait: Option<u32>,
) -> (r: Result<(), LaunchError>)
    ensures
        (final(state)@, r) == spec_ensure_worker_started(
            old(state)@,
            *cfg,
            probes@,
            outcome,
            shutdown_during_wait,
        ),
{
    let answer = match plan_launch(state) {
        LaunchPlan::KeepExisting { .. } => SpawnAnswer::Held,
        LaunchPlan::Spawn => match &outcome {
            SpawnOutcome::Spawned { .. } => SpawnAnswer::Spawned,
            _ => SpawnAnswer::Failed,
        },
    };
    let trace = ensure_running(cfg, probes, answer, shutdown_during_wait);
    if trace.spawns == 1 {
        match launch(state, outcome) {
            Ok(_) => conclude(trace.outcome, None),
            Err(cause) => conclude(trace.outcome, Some(cause)),
        }
    } else {
        conclude(trace.outcome, None)
    }
}

/// A worker that is held in the slot and has not ended is never replaced by
/// making sure that the worker is started: the slot stays as it was, and the
/// answer is a success unless a shutdown request came first.
pub proof fn law_held_worker_stays(
    h: WorkerHandle,
    cfg: RetryConfig,
    probes: Seq<bool>,
    outcome: SpawnOutcome,
    shutdown_during_wait: Option<u32>,
)
    requires
        !h.status.spec_is_terminal(),
    ensures
        ({
            let (after, answer) = spec_ensure_worker_started(
                Some(h),
                cfg,
                probes,
                outcome,
                shutdown_during_wait,
            );
            &&& after == Some(h)
            &&& answer is Ok || answer == Err::<(), LaunchError>(LaunchError::Cancelled)
        }),
{
}

/// A launch that is planned for a slot never replaces a worker that has not
/// ended: where the plan is to spawn, the install that follows reports no
/// double install.
pub proof fn law_planned_launch_replaces_no_live_worker(slot: Option<WorkerHandle>, pid: u32)
    requires
        spec_plan_launch(slot) == LaunchPlan::Spawn,
    ensures
        spec_launch(slot, SpawnOutcome::Spawned { pid }).1 matches Ok(worker)
            && !worker.report.double_install && worker.handle.status is Starting,
{
}

} // verus!
