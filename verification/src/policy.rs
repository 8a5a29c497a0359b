//! The launch policy: probe a bounded number of times, wait a fixed delay
//! after each failed probe, and spawn the worker only when no probe succeeded.
//!
//! The policy is a state machine. [`step`] takes the phase the policy is in
//! and what just happened, and gives the next phase and what the caller has to
//! do next. The caller does the probing, sleeping and spawning, and reports
//! back. [`ensure_running`] runs the machine against a given list of probe
//! answers.

use crate::probe::HealthCheckResult;
use vstd::prelude::*;

verus! {

/// How often to probe before launching, and how long to wait after a failed
/// probe.
#[derive(Clone, Copy, Debug, PartialEq, Eq)]
pub struct RetryConfig {
    pub max_attempts: u32,
    pub delay_ms: u64,
}

impl Default for RetryConfig {
    /// Ten attempts, one second apart.
    fn default() -> (cfg: RetryConfig)
        ensures
            cfg == (RetryConfig { max_attempts: 10, delay_ms: 1000 }),
    {
        RetryConfig { max_attempts: 10, delay_ms: 1000 }
    }
}

/// What the policy came to.
#[derive(Clone, Copy, Debug, PartialEq, Eq)]
pub enum Decision {
    /// A worker is there already, found by a probe or held in the slot:
    /// nothing was launched.
    AlreadyRunning,
    /// No probe succeeded and the worker was spawned.
    Launched,
    /// No probe succeeded and the worker could not be spawned.
    Failed,
}

/// Where the policy stands.
#[derive(Clone, Copy, Debug, PartialEq, Eq)]
pub enum LaunchPhase {
    /// Nothing was done yet.
    Idle,
    /// The probe with this number, counted from 1, is under way.
    Probing { attempt: u32 },
    /// The probe with this number failed and the delay after it is running.
    Waiting { attempt: u32 },
    /// The spawn of the worker is under way.
    Spawning,
    /// The policy has decided.
    Done(Decision),
    /// A shutdown was requested before the policy had decided.
    Cancelled,
}

/// What the caller reports to the policy.
#[derive(Clone, Copy, Debug, PartialEq, Eq)]
pub enum PolicyEvent {
    /// The caller asks the policy to begin.
    Start,
    /// The probe that was asked for has ended.
    ProbeResult { reachable: bool },
    /// The delay that was asked for has run out.
    DelayElapsed,
    /// The spawn that was asked for has succeeded.
    Spawned,
    /// The spawn that was asked for has failed.
    SpawnFailed,
    /// The spawn was not attempted: the slot already holds a worker that has
    /// not ended, and that worker stays.
    WorkerHeld,
    /// The application is shutting down.
    ShutdownRequested,
}

/// What the policy asks the caller to do next.
#[derive(Clone, Copy, Debug, PartialEq, Eq)]
pub enum PolicyAction {
    /// Make one liveness probe and report its result.
    Probe,
    /// Wait this many milliseconds, then report that the delay has run out.
    Sleep(u64),
    /// Spawn the worker and report how it went.
    Spawn,
    /// The policy has decided: nothing is left to do.
    Finish(Decision),
    /// The policy was cancelled: nothing is left to do.
    Stop,
    /// The event does not belong to the phase: nothing to do for it.
    Ignore,
}

/// What becomes of the policy's request to spawn.
#[derive(Clone, Copy, Debug, PartialEq, Eq)]
pub enum SpawnAnswer {
    /// The worker is spawned.
    Spawned,
    /// The spawn is attempted and fails.
    Failed,
    /// The slot holds a worker that has not ended: no spawn is attempted.
    Held,
}

impl SpawnAnswer {
    /// The event that reports the answer to the policy.
    pub open spec fn event(self) -> PolicyEvent {
        match self {
            SpawnAnswer::Spawned => PolicyEvent::Spawned,
            SpawnAnswer::Failed => PolicyEvent::SpawnFailed,
            SpawnAnswer::Held => PolicyEvent::WorkerHeld,
        }
    }

    /// What the policy decides on the answer.
    pub open spec fn decision(self) -> Decision {
        match self {
            SpawnAnswer::Spawned => Decision::Launched,
            SpawnAnswer::Failed => Decision::Failed,
            SpawnAnswer::Held => Decision::AlreadyRunning,
        }
    }

    /// How many spawns are attempted on the answer.
    pub open spec fn attempts(self) -> u32 {
        match self {
            SpawnAnswer::Held => 0,
            _ => 1,
        }
    }
}

impl LaunchPhase {
    /// A final phase is never left again.
    pub open spec fn is_final(self) -> bool {
        self is Done || self is Cancelled
    }
}

/// The transition table of the policy.
pub open spec fn spec_step(cfg: RetryConfig, phase: LaunchPhase, event: PolicyEvent) -> (
    LaunchPhase,
    PolicyAction,
) {
    match (phase, event) {
        (LaunchPhase::Idle, PolicyEvent::Start) => if cfg.max_attempts == 0 {
            (LaunchPhase::Spawning, PolicyAction::Spawn)
        } else {
            (LaunchPhase::Probing { attempt: 1 }, PolicyAction::Probe)
        },
        (LaunchPhase::Probing { attempt }, PolicyEvent::ProbeResult { reachable }) => if reachable {
            (
                LaunchPhase::Done(Decision::AlreadyRunning),
                PolicyAction::Finish(Decision::AlreadyRunning),
            )
        } else {
            (LaunchPhase::Waiting { attempt }, PolicyAction::Sleep(cfg.delay_ms))
        },
        (LaunchPhase::Waiting { attempt }, PolicyEvent::DelayElapsed) => if attempt
            < cfg.max_attempts {
            (LaunchPhase::Probing { attempt: (attempt + 1) as u32 }, PolicyAction::Probe)
        } else {
            (LaunchPhase::Spawning, PolicyAction::Spawn)
        },
        (LaunchPhase::Spawning, PolicyEvent::Spawned) => (
            LaunchPhase::Done(Decision::Launched),
            PolicyAction::Finish(Decision::Launched),
        ),
        (LaunchPhase::Spawning, PolicyEvent::SpawnFailed) => (
            LaunchPhase::Done(Decision::Failed),
            PolicyAction::Finish(Decision::Failed),
        ),
        (LaunchPhase::Spawning, PolicyEvent::WorkerHeld) => (
            LaunchPhase::Done(Decision::AlreadyRunning),
            PolicyAction::Finish(Decision::AlreadyRunning),
        ),
        (_, PolicyEvent::ShutdownRequested) => if phase.is_final() {
            (phase, PolicyAction::Ignore)
        } else {
            (LaunchPhase::Cancelled, PolicyAction::Stop)
        },
        _ => (phase, PolicyAction::Ignore),
    }
}

/// One move of the policy: the next phase and what the caller has to do.
///
/// An event that does not belong to the phase changes nothing. A shutdown
/// request ends the policy from every phase that is not final.
pub fn step(cfg: &RetryConfig, phase: LaunchPhase, event: PolicyEvent) -> (r: (
    LaunchPhase,
    PolicyAction,
))
    ensures
        r == spec_step(*cfg, phase, event),
{
    match event {
        PolicyEvent::ShutdownRequested => match phase {
            LaunchPhase::Done(_) => (phase, PolicyAction::Ignore),
            LaunchPhase::Cancelled => (phase, PolicyAction::Ignore),
            _ => (LaunchPhase::Cancelled, PolicyAction::Stop),
        },
        PolicyEvent::Start => match phase {
            LaunchPhase::Idle => if cfg.max_attempts == 0 {
                (LaunchPhase::Spawning, PolicyAction::Spawn)
            } else {
                (LaunchPhase::Probing { attempt: 1 }, PolicyAction::Probe)
            },
            _ => (phase, PolicyAction::Ignore),
        },
        PolicyEvent::ProbeResult { reachable } => match phase {
            LaunchPhase::Probing { attempt } => if reachable {
                (
                    LaunchPhase::Done(Decision::AlreadyRunning),
                    PolicyAction::Finish(Decision::AlreadyRunning),
                )
            } else {
                (LaunchPhase::Waiting { attempt }, PolicyAction::Sleep(cfg.delay_ms))
            },
            _ => (phase, PolicyAction::Ignore),
        },
        PolicyEvent::DelayElapsed => match phase {
            LaunchPhase::Waiting { attempt } => if attempt < cfg.max_attempts {
                (LaunchPhase::Probing { attempt: attempt + 1 }, PolicyAction::Probe)
            } else {
                (LaunchPhase::Spawning, PolicyAction::Spawn)
            },
            _ => (phase, PolicyAction::Ignore),
        },
        PolicyEvent::Spawned => match phase {
            LaunchPhase::Spawning => (
                LaunchPhase::Done(Decision::Launched),
                PolicyAction::Finish(Decision::Launched),
            ),
            _ => (phase, PolicyAction::Ignore),
        },
        PolicyEvent::SpawnFailed => match phase {
            LaunchPhase::Spawning => (
                LaunchPhase::Done(Decision::Failed),
                PolicyAction::Finish(Decision::Failed),
            ),
            _ => (phase, PolicyAction::Ignore),
        },
        PolicyEvent::WorkerHeld => match phase {
            LaunchPhase::Spawning => (
                LaunchPhase::Done(Decision::AlreadyRunning),
                PolicyAction::Finish(Decision::AlreadyRunning),
            ),
            _ => (phase, PolicyAction::Ignore),
        },
    }
}

/// The event that reports the outcome of a probe to the policy.
pub fn probe_event(result: HealthCheckResult) -> (event: PolicyEvent)
    ensures
        event == (PolicyEvent::ProbeResult { reachable: result.reachable }),
{
    PolicyEvent::ProbeResult { reachable: result.reachable }
}

/// What one run of the policy did.
#[derive(Clone, Copy, Debug, PartialEq, Eq)]
pub struct LaunchTrace {
    /// How many probes were made.
    pub probes: u32,
    /// How many delays were begun.
    pub sleeps: u32,
    /// The milliseconds of the delays that ran to their end.
    pub waited_ms: u128,
    /// How many times a spawn was attempted.
    pub spawns: u32,
    /// The decision, or `None` where a shutdown request ended the run first.
    pub outcome: Option<Decision>,
}

/// The answer of the probe with index `i` (from 0) in a list of answers. A
/// probe beyond the end of the list finds nothing.
pub open spec fn answer(probes: Seq<bool>, i: int) -> bool {
    0 <= i < probes.len() && probes[i]
}

/// The number of probes that fail in a row, from the probe with index `from`
/// on and below index `limit`.
pub open spec fn failures_from(probes: Seq<bool>, from: int, limit: int) -> int
    decreases limit - from,
{
    if from >= limit || answer(probes, from) {
        0
    } else {
        1 + failures_from(probes, from + 1, limit)
    }
}

/// The number of probes that fail before the first success, `max_attempts`
/// where none of the first `max_attempts` succeeds.
pub open spec fn leading_failures(probes: Seq<bool>, max_attempts: u32) -> int {
    failures_from(probes, 0, max_attempts as int)
}

/// Whether a shutdown request that arrives during the delay with this number
/// (from 1) finds the policy waiting: the delay is begun only after that many
/// probes have failed in a row.
pub open spec fn shutdown_takes_effect(
    cfg: RetryConfig,
    probes: Seq<bool>,
    shutdown_during_wait: Option<u32>,
) -> bool {
    match shutdown_during_wait {
        Some(wait) => 1 <= wait <= leading_failures(probes, cfg.max_attempts),
        None => false,
    }
}

/// What a run of the policy does, given the answers that the probes get, the
/// answer to a request to spawn, and the delay during which a shutdown
/// request arrives, if any.
///
/// - A shutdown request during the delay after failed probe `w` ends the run
///   there: `w` probes, no spawn, no decision.
/// - Otherwise, where probe `k + 1` is the first to succeed, the run ends after
///   it: `k + 1` probes, `k` delays, no spawn, `AlreadyRunning`.
/// - Otherwise all `max_attempts` probes fail, each followed by a delay, and
///   the policy asks for a spawn. One spawn is attempted, and the decision is
///   `Launched` where it succeeds and `Failed` where not; unless the slot
///   holds a worker that has not ended, which stays: then no spawn is
///   attempted and the decision is `AlreadyRunning`.
pub open spec fn expected_trace(
    cfg: RetryConfig,
    probes: Seq<bool>,
    spawn: SpawnAnswer,
    shutdown_during_wait: Option<u32>,
) -> LaunchTrace {
    let failed = leading_failures(probes, cfg.max_attempts);
    if shutdown_takes_effect(cfg, probes, shutdown_during_wait) {
        let wait = shutdown_during_wait->0;
        LaunchTrace {
            probes: wait,
            sleeps: wait,
            waited_ms: ((wait - 1) * cfg.delay_ms) as u128,
            spawns: 0,
            outcome: None,
        }
    } else if failed < cfg.max_attempts {
        LaunchTrace {
            probes: (failed + 1) as u32,
            sleeps: failed as u32,
            waited_ms: (failed * cfg.delay_ms) as u128,
            spawns: 0,
            outcome: Some(Decision::AlreadyRunning),
        }
    } else {
        LaunchTrace {
            probes: cfg.max_attempts,
            sleeps: cfg.max_attempts,
            waited_ms: (cfg.max_attempts * cfg.delay_ms) as u128,
            spawns: spawn.attempts(),
            outcome: Some(spawn.decision()),
        }
    }
}

/// The first `n` probes all fail.
pub open spec fn all_fail(probes: Seq<bool>, n: int) -> bool {
    forall|j: int| 0 <= j < n ==> !#[trigger] answer(probes, j)
}

proof fn lemma_failures_bounds(probes: Seq<bool>, from: int, limit: int)
    requires
        0 <= from <= limit,
    ensures
        0 <= failures_from(probes, from, limit) <= limit - from,
    decreases limit - from,
{
    if from < limit && !answer(probes, from) {
        lemma_failures_bounds(probes, from + 1, limit);
    }
}

proof fn lemma_failures_exact(probes: Seq<bool>, from: int, k: int, limit: int)
    requires
        0 <= from <= k <= limit,
        forall|j: int| from <= j < k ==> !#[trigger] answer(probes, j),
        k == limit || answer(probes, k),
    ensures
        failures_from(probes, from, limit) == k - from,
    decreases k - from,
{
    if from < k {
        lemma_failures_exact(probes, from + 1, k, limit);
    }
}

proof fn lemma_failures_at_least(probes: Seq<bool>, from: int, k: int, limit: int)
    requires
        0 <= from <= k <= limit,
        forall|j: int| from <= j < k ==> !#[trigger] answer(probes, j),
    ensures
        failures_from(probes, from, limit) >= k - from,
    decreases k - from,
{
    if from < k {
        lemma_failures_at_least(probes, from + 1, k, limit);
    } else {
        lemma_failures_bounds(probes, from, limit);
    }
}

/// How many moves the policy can still make from a phase.
spec fn moves_left(cfg: RetryConfig, phase: LaunchPhase) -> int {
    match phase {
        LaunchPhase::Idle => 2 * cfg.max_attempts + 4,
        LaunchPhase::Probing { attempt } => 2 * (cfg.max_attempts - attempt) + 3,
        LaunchPhase::Waiting { attempt } => 2 * (cfg.max_attempts - attempt) + 2,
        LaunchPhase::Spawning => 1,
        LaunchPhase::Done(_) => 0,
        LaunchPhase::Cancelled => 0,
    }
}

/// What holds between two moves of a run: the phase, the event that is about to
/// be reported and the counts kept so far agree with the answers given.
spec fn run_is_coherent(
    cfg: RetryConfig,
    probes: Seq<bool>,
    spawn: SpawnAnswer,
    shutdown_during_wait: Option<u32>,
    phase: LaunchPhase,
    event: PolicyEvent,
    trace: LaunchTrace,
) -> bool {
    let not_cut_short = match shutdown_during_wait {
        Some(wait) => wait == 0 || wait > trace.sleeps,
        None => true,
    };
    match (phase, event) {
        (LaunchPhase::Idle, PolicyEvent::Start) => {
            &&& trace.probes == 0
            &&& trace.sleeps == 0
            &&& trace.waited_ms == 0
            &&& trace.spawns == 0
        },
        (LaunchPhase::Probing { attempt }, PolicyEvent::ProbeResult { reachable }) => {
            &&& 1 <= attempt <= cfg.max_attempts
            &&& trace.probes == attempt
            &&& trace.sleeps == attempt - 1
            &&& trace.waited_ms == (attempt - 1) * cfg.delay_ms
            &&& trace.spawns == 0
            &&& all_fail(probes, attempt - 1)
            &&& reachable == answer(probes, attempt - 1)
            &&& not_cut_short
        },
        (LaunchPhase::Waiting { attempt }, PolicyEvent::DelayElapsed) => {
            &&& 1 <= attempt <= cfg.max_attempts
            &&& trace.probes == attempt
            &&& trace.sleeps == attempt
            &&& trace.waited_ms == attempt * cfg.delay_ms
            &&& trace.spawns == 0
            &&& all_fail(probes, attempt as int)
            &&& not_cut_short
        },
        (LaunchPhase::Waiting { attempt }, PolicyEvent::ShutdownRequested) => {
            &&& 1 <= attempt <= cfg.max_attempts
            &&& trace.probes == attempt
            &&& trace.sleeps == attempt
            &&& trace.waited_ms == (attempt - 1) * cfg.delay_ms
            &&& trace.spawns == 0
            &&& all_fail(probes, attempt as int)
            &&& shutdown_during_wait == Some(attempt)
        },
        (LaunchPhase::Spawning, _) => {
            &&& event == spawn.event()
            &&& trace.probes == cfg.max_attempts
            &&& trace.sleeps == cfg.max_attempts
            &&& trace.waited_ms == cfg.max_attempts * cfg.delay_ms
            &&& trace.spawns == spawn.attempts()
            &&& all_fail(probes, cfg.max_attempts as int)
            &&& not_cut_short
        },
        _ => false,
    }
}

proof fn lemma_wait_fits(n: int, delay: int)
    requires
        0 <= n < u32::MAX,
        0 <= delay <= u64::MAX,
    ensures
        (n + 1) * delay == n * delay + delay,
        0 <= n * delay,
        (n + 1) * delay <= u128::MAX,
{
    assert((n + 1) * delay == n * delay + delay) by (nonlinear_arith);
    assert(0 <= n * delay) by (nonlinear_arith)
        requires
            0 <= n,
            0 <= delay,
    ;
    assert((n + 1) * delay <= 0x1_0000_0000 * 0xffff_ffff_ffff_ffff) by (nonlinear_arith)
        requires
            0 <= n + 1 <= 0x1_0000_0000,
            0 <= delay <= 0xffff_ffff_ffff_ffff,
    ;
}

/// Runs the policy from its beginning to its end against given answers.
///
/// `probes` holds the answer that each probe gets, in order; a probe beyond
/// the end of the list fails. `spawn` is the answer to a request to spawn.
/// `shutdown_during_wait` is the number (from 1) of the delay during which a
/// shutdown request arrives, `None` where none arrives.
pub fn ensure_running(
    cfg: &RetryConfig,
    probes: &Vec<bool>,
    spawn: SpawnAnswer,
    shutdown_during_wait: Option<u32>,
) -> (trace: LaunchTrace)
    ensures
        trace == expected_trace(*cfg, probes@, spawn, shutdown_during_wait),
{
    let mut phase = LaunchPhase::Idle;
    let mut event = PolicyEvent::Start;
    let mut trace = LaunchTrace { probes: 0, sleeps: 0, waited_ms: 0, spawns: 0, outcome: None };
    loop
        invariant
            run_is_coherent(
                *cfg,
                probes@,
                spawn,
                shutdown_during_wait,
                phase,
                event,
                trace,
            ),
            trace.outcome is None,
        decreases moves_left(*cfg, phase),
    {
        let (next, action) = step(cfg, phase, event);
        let ghost before = phase;
        phase = next;
        match action {
            PolicyAction::Probe => {
                let index: usize = trace.probes as usize;
                let reachable = index < probes.len() && probes[index];
                trace.probes = trace.probes + 1;
                event = PolicyEvent::ProbeResult { reachable };
                proof {
                    if before is Waiting {
                        lemma_wait_fits(trace.sleeps - 1, cfg.delay_ms as int);
                    }
                }
            },
            PolicyAction::Sleep(delay_ms) => {
                trace.sleeps = trace.sleeps + 1;
                let cut_short = match shutdown_during_wait {
                    Some(wait) => wait == trace.sleeps,
                    None => false,
                };
                proof {
                    lemma_wait_fits(trace.sleeps - 1, cfg.delay_ms as int);
                }
                if cut_short {
                    event = PolicyEvent::ShutdownRequested;
                } else {
                    trace.waited_ms = trace.waited_ms + delay_ms as u128;
                    event = PolicyEvent::DelayElapsed;
                }
            },
            PolicyAction::Spawn => {
                event = match spawn {
                    SpawnAnswer::Spawned => {
                        trace.spawns = trace.spawns + 1;
                        PolicyEvent::Spawned
                    },
                    SpawnAnswer::Failed => {
                        trace.spawns = trace.spawns + 1;
                        PolicyEvent::SpawnFailed
                    },
                    SpawnAnswer::Held => PolicyEvent::WorkerHeld,
                };
            },
            PolicyAction::Finish(decision) => {
                proof {
                    lemma_failures_bounds(probes@, 0, cfg.max_attempts as int);
                    if before is Probing {
                        lemma_failures_exact(
                            probes@,
                            0,
                            trace.probes - 1,
                            cfg.max_attempts as int,
                        );
                    } else {
                        lemma_failures_exact(
                            probes@,
                            0,
                            cfg.max_attempts as int,
                            cfg.max_attempts as int,
                        );
                    }
                }
                trace.outcome = Some(decision);
                return trace;
            },
            PolicyAction::Stop => {
                proof {
                    lemma_failures_at_least(
                        probes@,
                        0,
                        trace.sleeps as int,
                        cfg.max_attempts as int,
                    );
                }
                return trace;
            },
            PolicyAction::Ignore => {
                return trace;
            },
        }
    }
}

/// The first success wins. Where the first `k` probes fail and the next one
/// succeeds, with `k` below `max_attempts`, a run that no shutdown request
/// interrupts makes `k + 1` probes, attempts no spawn and decides
/// `AlreadyRunning`, whatever the later answers would have been.
pub proof fn law_first_success_wins(
    cfg: RetryConfig,
    probes: Seq<bool>,
    spawn: SpawnAnswer,
    k: int,
)
    requires
        0 <= k < cfg.max_attempts,
        all_fail(probes, k),
        answer(probes, k),
    ensures
        expected_trace(cfg, probes, spawn, None) == (LaunchTrace {
            probes: (k + 1) as u32,
            sleeps: k as u32,
            waited_ms: (k * cfg.delay_ms) as u128,
            spawns: 0,
            outcome: Some(Decision::AlreadyRunning),
        }),
{
    lemma_failures_exact(probes, 0, k, cfg.max_attempts as int);
}

/// Where all `max_attempts` probes fail and the slot holds no worker that has
/// not ended, a run that no shutdown request interrupts makes exactly
/// `max_attempts` probes and attempts exactly one spawn; its decision is
/// `Launched` where the spawn succeeds and `Failed` where it does not.
pub proof fn law_exhausted_probes_spawn_once(
    cfg: RetryConfig,
    probes: Seq<bool>,
    spawn_succeeds: bool,
)
    requires
        all_fail(probes, cfg.max_attempts as int),
    ensures
        expected_trace(
            cfg,
            probes,
            if spawn_succeeds {
                SpawnAnswer::Spawned
            } else {
                SpawnAnswer::Failed
            },
            None,
        ) == (LaunchTrace {
            probes: cfg.max_attempts,
            sleeps: cfg.max_attempts,
            waited_ms: (cfg.max_attempts * cfg.delay_ms) as u128,
            spawns: 1,
            outcome: Some(
                if spawn_succeeds {
                    Decision::Launched
                } else {
                    Decision::Failed
                },
            ),
        }),
{
    lemma_failures_exact(probes, 0, cfg.max_attempts as int, cfg.max_attempts as int);
}

/// No run spawns twice, no run probes more than `max_attempts` times, and a
/// spawn is attempted exactly in the runs that decide `Launched` or `Failed`.
/// A run decides `AlreadyRunning` only where its last probe succeeded or the
/// slot holds a worker that has not ended.
pub proof fn law_at_most_one_spawn(
    cfg: RetryConfig,
    probes: Seq<bool>,
    spawn: SpawnAnswer,
    shutdown_during_wait: Option<u32>,
)
    ensures
        ({
            let trace = expected_trace(cfg, probes, spawn, shutdown_during_wait);
            &&& trace.spawns <= 1
            &&& trace.probes <= cfg.max_attempts
            &&& trace.spawns == 1 <==> (trace.outcome == Some(Decision::Launched) || trace.outcome
                == Some(Decision::Failed))
            &&& trace.outcome == Some(Decision::AlreadyRunning) ==> (answer(
                probes,
                trace.probes - 1,
            ) || spawn is Held)
        }),
{
    lemma_failures_bounds(probes, 0, cfg.max_attempts as int);
    lemma_first_success(probes, 0, cfg.max_attempts as int);
}

proof fn lemma_first_success(probes: Seq<bool>, from: int, limit: int)
    requires
        0 <= from <= limit,
    ensures
        failures_from(probes, from, limit) < limit - from ==> answer(
            probes,
            from + failures_from(probes, from, limit),
        ),
    decreases limit - from,
{
    if from < limit && !answer(probes, from) {
        lemma_first_success(probes, from + 1, limit);
    }
}

/// A shutdown request that arrives during the delay after failed probe `wait`
/// ends the run there: not one more probe is made, no further delay is begun,
/// no spawn is attempted and nothing is decided. The delays that ran to their
/// end are those before the interrupted one.
pub proof fn law_shutdown_cuts_wait_short(
    cfg: RetryConfig,
    probes: Seq<bool>,
    spawn: SpawnAnswer,
    wait: u32,
)
    requires
        1 <= wait <= cfg.max_attempts,
        all_fail(probes, wait as int),
    ensures
        expected_trace(cfg, probes, spawn, Some(wait)) == (LaunchTrace {
            probes: wait,
            sleeps: wait,
            waited_ms: ((wait - 1) * cfg.delay_ms) as u128,
            spawns: 0,
            outcome: None,
        }),
{
    lemma_failures_at_least(probes, 0, wait as int, cfg.max_attempts as int);
}

/// A shutdown request ends the policy in one move from every phase that is
/// not final, a final phase answers every event with `Ignore` and stays, and
/// every delay that the policy asks for is the configured one.
pub proof fn law_shutdown_ends_policy(cfg: RetryConfig, phase: LaunchPhase, event: PolicyEvent)
    ensures
        !phase.is_final() ==> spec_step(cfg, phase, PolicyEvent::ShutdownRequested) == (
            LaunchPhase::Cancelled,
            PolicyAction::Stop,
        ),
        phase.is_final() ==> spec_step(cfg, phase, event) == (phase, PolicyAction::Ignore),
        spec_step(cfg, phase, event).1 is Sleep ==> spec_step(cfg, phase, event).1
            == PolicyAction::Sleep(cfg.delay_ms),
        spec_step(cfg, phase, event).1 is Spawn ==> spec_step(cfg, phase, event).0 is Spawning,
{
}

/// The phase that the policy is in after a sequence of events, and the
/// actions that it asked for on the way, one for each event.
pub open spec fn run(cfg: RetryConfig, phase: LaunchPhase, events: Seq<PolicyEvent>) -> (
    LaunchPhase,
    Seq<PolicyAction>,
)
    decreases events.len(),
{
    if events.len() == 0 {
        (phase, Seq::empty())
    } else {
        let (before, actions) = run(cfg, phase, events.drop_last());
        let (after, action) = spec_step(cfg, before, events.last());
        (after, actions.push(action))
    }
}

/// How many of the actions ask for a spawn.
pub open spec fn spawns_asked(actions: Seq<PolicyAction>) -> nat
    decreases actions.len(),
{
    if actions.len() == 0 {
        0
    } else {
        spawns_asked(actions.drop_last()) + if actions.last() is Spawn {
            1nat
        } else {
            0nat
        }
    }
}

/// How many of the actions ask for a probe.
pub open spec fn probes_asked(actions: Seq<PolicyAction>) -> nat
    decreases actions.len(),
{
    if actions.len() == 0 {
        0
    } else {
        probes_asked(actions.drop_last()) + if actions.last() is Probe {
            1nat
        } else {
            0nat
        }
    }
}

/// How many spawns the policy can still ask for from a phase.
spec fn spawns_open(phase: LaunchPhase) -> nat {
    match phase {
        LaunchPhase::Idle => 1,
        LaunchPhase::Probing { .. } => 1,
        LaunchPhase::Waiting { .. } => 1,
        _ => 0,
    }
}

/// How many probes the policy can still ask for from a phase.
spec fn probes_open(cfg: RetryConfig, phase: LaunchPhase) -> int {
    match phase {
        LaunchPhase::Idle => cfg.max_attempts as int,
        LaunchPhase::Probing { attempt } => cfg.max_attempts - attempt,
        LaunchPhase::Waiting { attempt } => cfg.max_attempts - attempt,
        _ => 0,
    }
}

proof fn lemma_run_keeps_budget(cfg: RetryConfig, events: Seq<PolicyEvent>)
    ensures
        ({
            let (phase, actions) = run(cfg, LaunchPhase::Idle, events);
            &&& spawns_asked(actions) + spawns_open(phase) <= 1
            &&& probes_asked(actions) + probes_open(cfg, phase) <= cfg.max_attempts
            &&& probes_open(cfg, phase) >= 0
        }),
    decreases events.len(),
{
    if events.len() > 0 {
        lemma_run_keeps_budget(cfg, events.drop_last());
        let (before, actions) = run(cfg, LaunchPhase::Idle, events.drop_last());
        let (after, action) = spec_step(cfg, before, events.last());
        assert(actions.push(action).drop_last() == actions);
    }
}

/// Whatever is reported to the policy, in whatever order and however often,
/// it asks for at most one spawn and for at most `max_attempts` probes.
pub proof fn law_never_a_second_spawn(cfg: RetryConfig, events: Seq<PolicyEvent>)
    ensures
        spawns_asked(run(cfg, LaunchPhase::Idle, events).1) <= 1,
        probes_asked(run(cfg, LaunchPhase::Idle, events).1) <= cfg.max_attempts,
{
    lemma_run_keeps_budget(cfg, events);
}

} // verus!
