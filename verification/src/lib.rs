//! Verified core of a process wrapper that forwards a child program's output
//! while retaining a bounded tail of each stream for diagnostics: a rolling
//! capture buffer, the per-line pump step, the snapshot formatter, and the
//! exit-code and reporting decisions taken from a finished run.

use vstd::prelude::*;

pub mod capture;
pub mod laws;
pub mod outcome;
pub mod pump;
pub mod ring;
pub mod snapshot;

verus! {

/// Size cap, in bytes, on a diagnostic text blob, truncation notice included.
pub const MAXIMUM_CHARACTERS: usize = 16365;

/// Exit code used when no program was named or the program could not be started.
pub const EXIT_NOT_FOUND: i32 = 127;

/// Exit code used for local tooling failures and for signal-terminated children.
pub const EXIT_INTERNAL: i32 = 1;

} // verus!
