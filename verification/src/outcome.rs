//! What a run produces: per-entry outcomes, the errors they carry, and the
//! final aggregate result of a whole run.

use vstd::prelude::*;

verus! {

/// One error raised while an entry's transmission executed: a failed
/// assertion, a network failure, and so on. The orchestrator never looks at
/// an error's content, only at its presence; rendering is the caller's
/// business.
#[derive(Debug)]
pub struct RunnerError {
    pub message: String,
}

/// The recorded result of one transmission performed for an entry. An entry
/// that follows redirects produces several of these, in hop order. An empty
/// error list means the transmission succeeded.
#[derive(Debug)]
pub struct EntryResult {
    pub errors: Vec<RunnerError>,
    pub time_in_ms: u64,
}

/// One cookie of the client session's cookie storage, as snapshotted when a
/// run ends. The orchestrator stores the snapshot without reading it.
#[derive(Debug)]
pub struct Cookie {
    pub name: String,
    pub value: String,
}

/// The aggregate result of one run: the identifier the run was started with,
/// every entry outcome collected in script order, the elapsed wall-clock
/// duration, the overall success flag, and the session's cookies at run end.
#[derive(Debug)]
pub struct HurlResult {
    pub filename: String,
    pub entries: Vec<EntryResult>,
    pub time_in_ms: u128,
    pub success: bool,
    pub cookies: Vec<Cookie>,
}

/// Whether an outcome carries no error at all.
pub open spec fn outcome_ok(e: EntryResult) -> bool {
    e.errors@.len() == 0
}

/// Whether no outcome of `s` carries any error: the overall success of a run
/// whose collected outcomes are `s`.
pub open spec fn all_ok(s: Seq<EntryResult>) -> bool {
    forall|i: int| 0 <= i < s.len() ==> outcome_ok(#[trigger] s[i])
}

} // verus!
