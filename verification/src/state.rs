//! The orchestrator's state machine.
//!
//! A run is driven one step at a time: the driver asks [`next_entry`] which
//! entry to work on, performs the collaborator calls for it (pre-entry hook,
//! policy resolution, logging, the entry executor, post-entry hook) and feeds
//! each answer back through the step functions here. Every decision — whether
//! to go on, what to record, when to stop — is taken by this module.

use vstd::prelude::*;

use crate::options::RunnerOptions;
use crate::outcome::{all_ok, outcome_ok, Cookie, EntryResult, HurlResult};
use crate::variables::Variables;

verus! {

/// The orchestrator's state while a run is in progress.
pub struct RunState {
    /// How many entries of the script this run considers at most.
    pub bound: usize,
    /// The index of the next entry to execute; equally, how many entries have
    /// been executed so far.
    pub next_index: usize,
    /// Every entry outcome collected so far, in script order.
    pub outcomes: Vec<EntryResult>,
    /// The variable environment threaded across the entries.
    pub variables: Variables,
    /// Whether the run has come to its end before the entry bound: a hook
    /// asked to stop, or fail-fast struck.
    pub stopped: bool,
}

/// How many entries a run considers: `to_entry`, when set, counts entries to
/// execute (it is not an index) and is clamped by the script length; when
/// unset the whole script is considered.
pub open spec fn entry_bound(to_entry: Option<usize>, script_len: usize) -> int {
    match to_entry {
        Some(k) => if k <= script_len {
            k as int
        } else {
            script_len as int
        },
        None => script_len as int,
    }
}

/// Opens a run over a script of `script_len` entries: no entry executed yet,
/// no outcome collected, and the variable environment seeded with a copy of
/// the caller's initial variables.
pub fn start_run(script_len: usize, options: &RunnerOptions) -> (s: RunState)
    ensures
        s.bound as int == entry_bound(options.to_entry, script_len),
        s.next_index == 0,
        s.outcomes@ == Seq::<EntryResult>::empty(),
        s.variables@ == options.variables@,
        !s.stopped,
{
    let bound = match options.to_entry {
        Some(k) => if k <= script_len {
            k
        } else {
            script_len
        },
        None => script_len,
    };
    RunState {
        bound,
        next_index: 0,
        outcomes: Vec::new(),
        variables: options.variables.duplicate(),
        stopped: false,
    }
}

/// Which entry to execute next: `Some(index)` while entries are left and no
/// stop was recorded, `None` when the run is over.
pub fn next_entry(state: &RunState) -> (r: Option<usize>)
    ensures
        r == (if !state.stopped && state.next_index < state.bound {
            Some(state.next_index)
        } else {
            None::<usize>
        }),
{
    if !state.stopped && state.next_index < state.bound {
        Some(state.next_index)
    } else {
        None
    }
}

/// Records the pre-entry hook's answer for the entry about to execute:
/// `true` stops the run before anything is done for that entry, so it
/// produces no outcome and is not counted as executed.
pub fn apply_pre_hook(state: &mut RunState, stop: bool)
    ensures
        final(state).stopped == (old(state).stopped || stop),
        final(state).bound == old(state).bound,
        final(state).next_index == old(state).next_index,
        final(state).outcomes@ == old(state).outcomes@,
        final(state).variables == old(state).variables,
{
    if stop {
        state.stopped = true;
    }
}

/// Records the outcomes the entry executor returned for the entry at
/// `next_index`, in the order the executor produced them, and counts that
/// entry as executed. The executor returns at least one outcome per entry.
pub fn record_outcomes(state: &mut RunState, outcomes: Vec<EntryResult>)
    requires
        old(state).next_index < old(state).bound,
        outcomes@.len() > 0,
    ensures
        final(state).outcomes@ == old(state).outcomes@ + outcomes@,
        final(state).next_index == old(state).next_index + 1,
        final(state).bound == old(state).bound,
        final(state).stopped == old(state).stopped,
        final(state).variables == old(state).variables,
{
    let mut outcomes = outcomes;
    state.outcomes.append(&mut outcomes);
    state.next_index = state.next_index + 1;
}

/// Records the post-entry hook's answer, given after an entry's outcomes were
/// recorded: `true` stops the run, keeping everything recorded so far.
pub fn apply_post_hook(state: &mut RunState, stop: bool)
    ensures
        final(state).stopped == (old(state).stopped || stop),
        final(state).bound == old(state).bound,
        final(state).next_index == old(state).next_index,
        final(state).outcomes@ == old(state).outcomes@,
        final(state).variables == old(state).variables,
{
    if stop {
        state.stopped = true;
    }
}

/// Applies the fail-fast policy after an entry's outcomes were recorded: with
/// `fail_fast` set, the run stops when the entry's last outcome carries an
/// error. Only the last outcome counts — earlier outcomes of the same entry,
/// such as intermediate redirect hops, do not trigger fail-fast.
pub fn apply_fail_fast(state: &mut RunState, fail_fast: bool)
    requires
        old(state).outcomes@.len() > 0,
    ensures
        final(state).stopped == (old(state).stopped || (fail_fast
            && old(state).outcomes@.last().errors@.len() > 0)),
        final(state).bound == old(state).bound,
        final(state).next_index == old(state).next_index,
        final(state).outcomes@ == old(state).outcomes@,
        final(state).variables == old(state).variables,
{
    if fail_fast {
        let n = state.outcomes.len();
        if state.outcomes[n - 1].errors.len() > 0 {
            state.stopped = true;
        }
    }
}

/// Closes a run: builds the final result from the identifier the run was
/// started with, the collected outcomes in script order, the elapsed
/// duration, and the session's cookie snapshot. The run succeeded exactly
/// when no collected outcome carries any error.
pub fn finish_run(state: RunState, filename: &str, time_in_ms: u128, cookies: Vec<Cookie>) -> (r:
    HurlResult)
    ensures
        r.filename@ == filename@,
        r.entries@ == state.outcomes@,
        r.time_in_ms == time_in_ms,
        r.success == all_ok(state.outcomes@),
        r.cookies@ == cookies@,
{
    let n = state.outcomes.len();
    let mut success = true;
    let mut j: usize = 0;
    while j < n
        invariant
            j <= n,
            n == state.outcomes@.len(),
            success == (forall|l: int| 0 <= l < j ==> outcome_ok(#[trigger] state.outcomes@[l])),
        decreases n - j,
    {
        if state.outcomes[j].errors.len() > 0 {
            success = false;
        }
        j += 1;
    }
    HurlResult {
        filename: filename.to_owned(),
        entries: state.outcomes,
        time_in_ms,
        success,
        cookies,
    }
}

} // verus!
