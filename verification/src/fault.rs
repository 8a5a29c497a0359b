//! The kinds of failure that the supervisor meets, and what is done about
//! each: at which severity it is logged, and whether the caller gets to see
//! it.

use crate::record::Severity;
use vstd::prelude::*;

verus! {

/// The kinds of failure.
#[derive(Clone, Copy, Debug, PartialEq, Eq)]
pub enum Fault {
    /// A liveness probe could not be completed: the worker counts as not
    /// ready.
    Transport,
    /// The operating system refused to create the worker process.
    Spawn,
    /// Reading one output stream failed.
    Stream,
    /// A request to end went unanswered within the timeout: the process is
    /// killed by force.
    TerminationTimeout,
    /// A handle was installed over a worker that had not ended.
    DoubleInstall,
}

impl Fault {
    /// The severity at which a failure of this kind is logged.
    pub open spec fn spec_severity(self) -> Severity {
        match self {
            Fault::Transport => Severity::Warn,
            Fault::Spawn => Severity::Error,
            Fault::Stream => Severity::Error,
            Fault::TerminationTimeout => Severity::Error,
            Fault::DoubleInstall => Severity::Warn,
        }
    }

    /// Whether a failure of this kind is handed to the caller as a failure.
    /// Only a failed spawn is: every other kind is dealt with by the
    /// supervisor itself and logged.
    pub open spec fn spec_is_surfaced(self) -> bool {
        self is Spawn
    }

    #[verifier::when_used_as_spec(spec_severity)]
    pub fn severity(self) -> (s: Severity)
        ensures
            s == self.spec_severity(),
    {
        match self {
            Fault::Transport => Severity::Warn,
            Fault::Spawn => Severity::Error,
            Fault::Stream => Severity::Error,
            Fault::TerminationTimeout => Severity::Error,
            Fault::DoubleInstall => Severity::Warn,
        }
    }

    #[verifier::when_used_as_spec(spec_is_surfaced)]
    pub fn is_surfaced(self) -> (r: bool)
        ensures
            r == self.spec_is_surfaced(),
    {
        match self {
            Fault::Spawn => true,
            _ => false,
        }
    }
}

} // verus!
