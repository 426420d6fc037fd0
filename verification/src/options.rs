//! Immutable configuration for a whole run.

use vstd::prelude::*;

use crate::variables::Variables;

verus! {

/// Run-scope options: supplied once by the caller, read-only for the run's
/// duration. The pre/post-entry hooks are collaborators that answer at run
/// time, so the driver holds them; everything that is plain data stands here.
pub struct RunnerOptions {
    /// Stop the run at the first entry whose final outcome carries an error.
    pub fail_fast: bool,
    /// The initial variables. A run copies them once at its start and then
    /// mutates only the copy; the caller's originals stay as they were.
    pub variables: Variables,
    /// When set, how many entries of the script to consider, at most. This is
    /// a count of entries, not an index.
    pub to_entry: Option<usize>,
    /// Root directory against which file-related parts of entries resolve.
    pub context_dir: String,
    /// Whether the asserts embedded in entries are skipped by the executor.
    pub ignore_asserts: bool,
    /// Base verbosity for entries that declare no override of their own.
    pub very_verbose: bool,
}

} // verus!
