//! The outcome of a supervised run: what waiting for the child yielded,
//! the two final snapshots, and the decisions taken from them — whether a
//! diagnostic must be submitted and which exit code the wrapper owes its
//! caller.

use crate::snapshot::Snapshot;
use crate::EXIT_INTERNAL;
use vstd::prelude::*;

verus! {

/// What waiting for the child process yielded.
pub enum ExitReport {
    /// The wait itself failed with an operating-system error.
    WaitFailed,
    /// The child exited. `code` is None when a signal terminated it.
    Exited { success: bool, code: Option<i32> },
}

/// Everything a finished run produced: the wait result and the final
/// snapshot of each output stream.
pub struct ProcessOutcome {
    pub exit: ExitReport,
    pub stdout: Snapshot,
    pub stderr: Snapshot,
}

/// The exit code the wrapper owes its caller: the child's own code unchanged,
/// and the internal code when the wait failed or a signal ended the child.
pub open spec fn spec_exit_code(e: ExitReport) -> int {
    match e {
        ExitReport::WaitFailed => EXIT_INTERNAL as int,
        ExitReport::Exited { success: _, code } => match code {
            Some(c) => c as int,
            None => EXIT_INTERNAL as int,
        },
    }
}

/// Whether a diagnostic event is owed: exactly when the child itself ran and
/// exited unsuccessfully. A failed wait is a local tooling error, not a
/// child-program failure, and is never reported.
pub open spec fn spec_should_report(e: ExitReport) -> bool {
    match e {
        ExitReport::WaitFailed => false,
        ExitReport::Exited { success, code: _ } => !success,
    }
}

/// Translates the wait result into the wrapper's own exit code.
pub fn exit_code_for(e: &ExitReport) -> (r: i32)
    ensures
        r as int == spec_exit_code(*e),
{
    match e {
        ExitReport::WaitFailed => EXIT_INTERNAL,
        ExitReport::Exited { success: _, code } => match code {
            Some(c) => *c,
            None => EXIT_INTERNAL,
        },
    }
}

/// Decides whether the run's snapshots must be submitted as a diagnostic.
pub fn should_report(e: &ExitReport) -> (r: bool)
    ensures
        r == spec_should_report(*e),
{
    match e {
        ExitReport::WaitFailed => false,
        ExitReport::Exited { success, code: _ } => !*success,
    }
}

impl ProcessOutcome {
    /// The exit code this outcome translates to.
    pub fn exit_code(&self) -> (r: i32)
        ensures
            r as int == spec_exit_code(self.exit),
    {
        exit_code_for(&self.exit)
    }

    /// Whether this outcome owes a diagnostic submission.
    pub fn should_report(&self) -> (r: bool)
        ensures
            r == spec_should_report(self.exit),
    {
        should_report(&self.exit)
    }
}

} // verus!
