//! The worker slot: the one place where the handle of the running worker is
//! kept, and the application state that owns it.
//!
//! Every operation takes the slot by exclusive reference, so no two of them
//! ever overlap; a caller that shares the state between tasks keeps it behind
//! one lock.

use crate::probe::HealthCheckResult;
use crate::pump::{PumpEvent, PumpState, StreamKind};
use crate::worker::{WorkerHandle, WorkerStatus};
use vstd::prelude::*;
use vstd::string::*;

verus! {

/// The slot that holds the handle of at most one worker.
#[derive(Debug)]
pub struct SupervisorState {
    slot: Option<WorkerHandle>,
}

/// What an install found in the slot.
#[derive(Clone, Copy, Debug, PartialEq, Eq)]
pub struct InstallReport {
    /// The handle that the new one replaced.
    pub previous: Option<WorkerHandle>,
    /// Whether the replaced handle was of a worker that had not ended: the
    /// caller should have looked before launching, and logs a warning.
    pub double_install: bool,
}

impl View for SupervisorState {
    type V = Option<WorkerHandle>;

    closed spec fn view(&self) -> Option<WorkerHandle> {
        self.slot
    }
}

/// Whether a slot holds a worker whose status is `Running`.
pub open spec fn slot_is_running(slot: Option<WorkerHandle>) -> bool {
    slot matches Some(h) && h.status is Running
}

/// Whether a slot holds a worker that has not ended.
pub open spec fn slot_is_live(slot: Option<WorkerHandle>) -> bool {
    slot matches Some(h) && !h.status.spec_is_terminal()
}

/// The slot after `handle` was installed, and what the install reports.
pub open spec fn slot_install(slot: Option<WorkerHandle>, handle: WorkerHandle) -> (
    Option<WorkerHandle>,
    InstallReport,
) {
    (Some(handle), InstallReport { previous: slot, double_install: slot_is_live(slot) })
}

/// The slot after a take, and what the take returns.
pub open spec fn slot_take(slot: Option<WorkerHandle>) -> (
    Option<WorkerHandle>,
    Option<WorkerHandle>,
) {
    (None, slot)
}

/// The slot after a liveness probe: a reachable worker that was starting is
/// running now. Nothing else changes.
pub open spec fn slot_after_probe(slot: Option<WorkerHandle>, reachable: bool) -> Option<
    WorkerHandle,
> {
    match slot {
        Some(h) if reachable => Some(
            WorkerHandle { pid: h.pid, status: h.status.after_probe_success() },
        ),
        _ => slot,
    }
}

/// The slot after the process `pid` was seen to end by itself. The handle
/// stays in the slot; the exit of another process changes nothing.
pub open spec fn slot_after_exit(slot: Option<WorkerHandle>, pid: u32, code: Option<i32>) -> Option<
    WorkerHandle,
> {
    match slot {
        Some(h) if h.pid == pid => Some(
            WorkerHandle { pid: h.pid, status: h.status.after_exit(code) },
        ),
        _ => slot,
    }
}

/// The slot after the pump of the process `pid` was looked at: once both
/// streams are closed, the process has ended by itself, with the exit code
/// that the pump has seen. Until then nothing changes.
pub open spec fn slot_after_pump(slot: Option<WorkerHandle>, pid: u32, pump: PumpState) -> Option<
    WorkerHandle,
> {
    if pump.spec_finished() {
        slot_after_exit(slot, pid, pump.exit_code)
    } else {
        slot
    }
}

impl SupervisorState {
    /// An empty slot.
    pub fn new() -> (s: SupervisorState)
        ensures
            s@ is None,
    {
        SupervisorState { slot: None }
    }

    /// Puts `handle` into the slot, over whatever was there.
    pub fn install(&mut self, handle: WorkerHandle) -> (report: InstallReport)
        ensures
            (final(self)@, report) == slot_install(old(self)@, handle),
    {
        let previous = self.slot;
        let double_install = match previous {
            Some(h) => !h.status.is_terminal(),
            None => false,
        };
        self.slot = Some(handle);
        InstallReport { previous, double_install }
    }

    /// The handle in the slot, which stays there.
    pub fn current(&self) -> (r: Option<&WorkerHandle>)
        ensures
            r == match self@ {
                Some(h) => Some(&h),
                None => None,
            },
    {
        self.slot.as_ref()
    }

    /// Removes the handle from the slot and hands it to the caller.
    pub fn take(&mut self) -> (r: Option<WorkerHandle>)
        ensures
            (final(self)@, r) == slot_take(old(self)@),
    {
        let held = self.slot;
        self.slot = None;
        held
    }

    /// Whether the slot holds a worker whose status is `Running`.
    pub fn is_worker_running(&self) -> (r: bool)
        ensures
            r == slot_is_running(self@),
    {
        match self.slot {
            Some(h) => h.status.is_running(),
            None => false,
        }
    }

    /// Records the outcome of a liveness probe on the worker in the slot.
    pub fn record_probe(&mut self, result: HealthCheckResult)
        ensures
            final(self)@ == slot_after_probe(old(self)@, result.reachable),
    {
        match self.slot {
            Some(h) => {
                if result.reachable {
                    let mut handle = h;
                    handle.mark_running();
                    self.slot = Some(handle);
                }
            },
            None => {},
        }
    }

    /// Records that the process `pid` ended by itself. Returns whether the
    /// slot holds the handle of that process.
    pub fn observe_exit(&mut self, pid: u32, code: Option<i32>) -> (known: bool)
        ensures
            final(self)@ == slot_after_exit(old(self)@, pid, code),
            known == (old(self)@ matches Some(h) && h.pid == pid),
    {
        match self.slot {
            Some(h) => {
                if h.pid == pid {
                    let mut handle = h;
                    handle.observe_exit(code);
                    self.slot = Some(handle);
                    true
                } else {
                    false
                }
            },
            None => false,
        }
    }

    /// Records what the pump of the process `pid` has come to: where both
    /// streams are closed, the process has ended by itself. Returns whether
    /// that was recorded on the handle in the slot.
    pub fn record_pump_end(&mut self, pid: u32, pump: &PumpState) -> (recorded: bool)
        ensures
            final(self)@ == slot_after_pump(old(self)@, pid, *pump),
            recorded == (old(self)@ matches Some(h) && h.pid == pid && pump.spec_finished()),
    {
        if pump.finished() {
            self.observe_exit(pid, pump.exit_code)
        } else {
            false
        }
    }
}

/// The state that the application keeps for its whole life.
#[derive(Debug)]
pub struct AppState {
    pub app_name: String,
    /// The slot of the sidecar worker.
    pub sidecar_child: SupervisorState,
}

impl AppState {
    /// The state at startup: the application's name, and no worker.
    pub fn new() -> (s: AppState)
        ensures
            s.app_name@ == "My Tauri App"@,
            s.sidecar_child@ is None,
    {
        AppState { app_name: String::from_str("My Tauri App"), sidecar_child: SupervisorState::new() }
    }
}

/// A take empties the slot: a second take finds nothing and changes nothing.
pub proof fn law_take_twice(slot: Option<WorkerHandle>)
    ensures
        ({
            let (after_first, first) = slot_take(slot);
            let (after_second, second) = slot_take(after_first);
            &&& first == slot
            &&& second is None
            &&& after_first is None
            &&& after_second == after_first
        }),
{
}

/// After the worker in the slot was seen to end by itself, the slot still
/// holds its handle, with the status `Exited` and the code that was seen, and
/// the worker no longer counts as running.
pub proof fn law_exit_is_recorded_not_cleared(h: WorkerHandle, code: Option<i32>)
    requires
        !h.status.spec_is_terminal(),
    ensures
        slot_after_exit(Some(h), h.pid, code) == Some(
            WorkerHandle { pid: h.pid, status: WorkerStatus::Exited(code) },
        ),
        !slot_is_running(slot_after_exit(Some(h), h.pid, code)),
{
}

/// The end of a worker is seen through its streams. Once the exit code was
/// reported and both streams were closed, in whatever order, the pump is
/// done, and the slot that holds the worker shows it as `Exited` with that
/// code: no longer running, and still there until it is taken.
pub proof fn law_stream_closure_shows_exit(h: WorkerHandle, pump: PumpState, code: Option<i32>)
    requires
        !h.status.spec_is_terminal(),
    ensures
        ({
            let ended = pump.after(PumpEvent::Terminated { code }).after(
                PumpEvent::Closed { stream: StreamKind::Stdout },
            ).after(PumpEvent::Closed { stream: StreamKind::Stderr });
            let after = slot_after_pump(Some(h), h.pid, ended);
            &&& ended.spec_finished()
            &&& after == Some(WorkerHandle { pid: h.pid, status: WorkerStatus::Exited(code) })
            &&& !slot_is_running(after)
            &&& slot_take(after).1 == after
        }),
        ({
            let ended = pump.after(PumpEvent::Closed { stream: StreamKind::Stderr }).after(
                PumpEvent::Terminated { code },
            ).after(PumpEvent::Closed { stream: StreamKind::Stdout });
            ended.spec_finished() && slot_after_pump(Some(h), h.pid, ended) == Some(
                WorkerHandle { pid: h.pid, status: WorkerStatus::Exited(code) },
            )
        }),
        !pump.spec_finished() ==> slot_after_pump(Some(h), h.pid, pump) == Some(h),
{
}

/// An install into a slot leaves exactly the installed handle there, and
/// reports a double install exactly where it replaced a worker that had not
/// ended.
pub proof fn law_install_overwrites(slot: Option<WorkerHandle>, handle: WorkerHandle)
    ensures
        slot_install(slot, handle).0 == Some(handle),
        slot_install(slot, handle).1.previous == slot,
        slot_install(slot, handle).1.double_install <==> (slot matches Some(h)
            && !h.status.spec_is_terminal()),
        slot_take(slot_install(slot, handle).0).1 == Some(handle),
{
}

} // verus!
