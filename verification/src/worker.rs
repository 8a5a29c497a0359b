//! One spawned worker process as the supervisor sees it: its process
//! identifier and where it stands in its life.

use vstd::prelude::*;

verus! {

/// Where a worker process stands in its life.
///
/// A worker begins as `Starting`, may become `Running`, and ends as either
/// `Exited` (it died by itself) or `Killed` (the supervisor ended it). The two
/// last states are terminal.
#[derive(Clone, Copy, Debug, PartialEq, Eq)]
pub enum WorkerStatus {
    /// The process was spawned and has not been found healthy yet.
    Starting,
    /// The process answered a liveness probe.
    Running,
    /// The process ended by itself, with the exit code where one was reported.
    Exited(Option<i32>),
    /// The supervisor terminated the process.
    Killed,
}

impl WorkerStatus {
    /// A terminal status never changes again.
    pub open spec fn spec_is_terminal(self) -> bool {
        self is Exited || self is Killed
    }

    /// The one-step moves of the lifecycle.
    pub open spec fn may_become(self, next: WorkerStatus) -> bool {
        match self {
            WorkerStatus::Starting => next is Running || next is Exited || next is Killed,
            WorkerStatus::Running => next is Exited || next is Killed,
            WorkerStatus::Exited(_) => false,
            WorkerStatus::Killed => false,
        }
    }

    /// The status after a successful liveness probe.
    pub open spec fn after_probe_success(self) -> WorkerStatus {
        match self {
            WorkerStatus::Starting => WorkerStatus::Running,
            other => other,
        }
    }

    /// The status after the process was seen to end by itself.
    pub open spec fn after_exit(self, code: Option<i32>) -> WorkerStatus {
        if self.spec_is_terminal() {
            self
        } else {
            WorkerStatus::Exited(code)
        }
    }

    /// The status after the supervisor terminated the process.
    pub open spec fn after_kill(self) -> WorkerStatus {
        if self.spec_is_terminal() {
            self
        } else {
            WorkerStatus::Killed
        }
    }

    #[verifier::when_used_as_spec(spec_is_terminal)]
    pub fn is_terminal(self) -> (r: bool)
        ensures
            r == self.spec_is_terminal(),
    {
        match self {
            WorkerStatus::Exited(_) => true,
            WorkerStatus::Killed => true,
            _ => false,
        }
    }

    pub fn is_running(self) -> (r: bool)
        ensures
            r == (self is Running),
    {
        match self {
            WorkerStatus::Running => true,
            _ => false,
        }
    }
}

/// The supervisor's record of one worker process.
#[derive(Clone, Copy, Debug, PartialEq, Eq)]
pub struct WorkerHandle {
    /// The identifier that the operating system gave the process.
    pub pid: u32,
    pub status: WorkerStatus,
}

impl WorkerHandle {
    /// The handle of a process that was just spawned.
    pub fn starting(pid: u32) -> (h: WorkerHandle)
        ensures
            h == (WorkerHandle { pid, status: WorkerStatus::Starting }),
    {
        WorkerHandle { pid, status: WorkerStatus::Starting }
    }

    /// Records a successful liveness probe: a starting worker becomes running.
    pub fn mark_running(&mut self)
        ensures
            final(self).pid == old(self).pid,
            final(self).status == old(self).status.after_probe_success(),
    {
        match self.status {
            WorkerStatus::Starting => {
                self.status = WorkerStatus::Running;
            },
            _ => {},
        }
    }

    /// Records that the process ended by itself.
    pub fn observe_exit(&mut self, code: Option<i32>)
        ensures
            final(self).pid == old(self).pid,
            final(self).status == old(self).status.after_exit(code),
    {
        if !self.status.is_terminal() {
            self.status = WorkerStatus::Exited(code);
        }
    }

    /// Records that the supervisor terminated the process.
    pub fn mark_killed(&mut self)
        ensures
            final(self).pid == old(self).pid,
            final(self).status == old(self).status.after_kill(),
    {
        if !self.status.is_terminal() {
            self.status = WorkerStatus::Killed;
        }
    }
}

/// Every change that the three transitions make is a move of the lifecycle,
/// and none of them changes a terminal status: there is no resurrection.
pub proof fn law_transitions_follow_lifecycle(s: WorkerStatus, code: Option<i32>)
    ensures
        s.after_probe_success() == s || s.may_become(s.after_probe_success()),
        s.after_exit(code) == s || s.may_become(s.after_exit(code)),
        s.after_kill() == s || s.may_become(s.after_kill()),
        s.spec_is_terminal() ==> s.after_probe_success() == s && s.after_exit(code) == s
            && s.after_kill() == s,
        s.after_exit(code).spec_is_terminal(),
        s.after_kill().spec_is_terminal(),
{
}

} // verus!
