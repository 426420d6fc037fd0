//! The orchestration loop: executes a script end-to-end and aggregates one
//! final result.
//!
//! The loop's decisions are the step functions of [`crate::state`]; what the
//! collaborators (the pre/post-entry hooks and the entry executor) answer for
//! each entry is supplied here as data, one [`EntryBehavior`] per entry. A
//! driver whose collaborators answer at run time performs the same loop by
//! calling the step functions itself.

use vstd::prelude::*;

use crate::clock::{clock_elapsed_ms, clock_now};
use crate::options::RunnerOptions;
use crate::outcome::{all_ok, Cookie, EntryResult, HurlResult};
use crate::state::{
    apply_fail_fast, apply_post_hook, apply_pre_hook, entry_bound, finish_run, record_outcomes,
    start_run,
};
use crate::value::Value;

verus! {

/// What the collaborators answer while one entry is worked on: whether the
/// pre-entry hook asks to stop before the entry executes (`false` where no
/// hook is configured), the outcomes the entry executor returns for the
/// entry, the variables its execution captures, and whether the post-entry
/// hook asks to stop afterwards.
pub struct EntryBehavior {
    pub pre_stop: bool,
    pub results: Vec<EntryResult>,
    pub captures: Vec<(String, Value)>,
    pub post_stop: bool,
}

/// Whether the run stops right after this entry executed: its post-entry
/// hook asked to stop, or fail-fast is on and the entry's last outcome
/// carries an error.
pub open spec fn stops_after(b: EntryBehavior, fail_fast: bool) -> bool {
    b.post_stop || (fail_fast && b.results@.last().errors@.len() > 0)
}

/// The outcomes a run collects from entry `i` on, up to the entry bound `n`,
/// when the collaborators answer as `bs` says: outcomes of executed entries
/// stand in script order; an entry whose pre-entry hook stops the run
/// contributes nothing; a stop after an entry keeps that entry's outcomes and
/// drops everything later.
pub open spec fn collected_outcomes(
    bs: Seq<EntryBehavior>,
    n: int,
    i: int,
    fail_fast: bool,
) -> Seq<EntryResult>
    decreases n - i when i <= n
{
    if i >= n {
        Seq::empty()
    } else if bs[i].pre_stop {
        Seq::empty()
    } else if stops_after(bs[i], fail_fast) {
        bs[i].results@
    } else {
        bs[i].results@ + collected_outcomes(bs, n, i + 1, fail_fast)
    }
}

/// How many entries, from entry `i` on, are handed to the entry executor
/// before the run ends.
pub open spec fn executed_entries(bs: Seq<EntryBehavior>, n: int, i: int, fail_fast: bool) -> int
    decreases n - i when i <= n
{
    if i >= n {
        0
    } else if bs[i].pre_stop {
        0
    } else if stops_after(bs[i], fail_fast) {
        1
    } else {
        1 + executed_entries(bs, n, i + 1, fail_fast)
    }
}

/// Runs a script of `script_len` entries end-to-end and returns the final
/// result: the collected outcomes in script order, the overall success flag
/// (no outcome carries any error), the identifier the run was started with,
/// the elapsed wall-clock milliseconds and the session's cookie snapshot.
/// Per-entry failures never fail the run as a whole; they are data in the
/// result.
pub fn run(
    filename: &str,
    options: &RunnerOptions,
    script_len: usize,
    behaviors: Vec<EntryBehavior>,
    cookies: Vec<Cookie>,
) -> (r: HurlResult)
    requires
        behaviors@.len() == script_len,
        forall|i: int| 0 <= i < behaviors@.len() ==> (#[trigger] behaviors@[i]).results@.len() > 0,
    ensures
        r.entries@ == collected_outcomes(
            behaviors@,
            entry_bound(options.to_entry, script_len),
            0,
            options.fail_fast,
        ),
        r.success == all_ok(r.entries@),
        r.filename@ == filename@,
        r.cookies@ == cookies@,
{
    let ghost all_bs = behaviors@;
    let ghost n = entry_bound(options.to_entry, script_len);
    let ghost ff = options.fail_fast;
    let timer = clock_now();
    let mut behaviors = behaviors;
    let mut state = start_run(script_len, options);
    proof {
        assert(behaviors@ =~= all_bs.skip(0));
        assert(Seq::<EntryResult>::empty() + collected_outcomes(all_bs, n, 0, ff)
            =~= collected_outcomes(all_bs, n, 0, ff));
    }
    while !state.stopped && state.next_index < state.bound
        invariant
            state.bound as int == n,
            n <= all_bs.len(),
            state.next_index <= state.bound,
            options.fail_fast == ff,
            forall|i: int| 0 <= i < all_bs.len() ==> (#[trigger] all_bs[i]).results@.len() > 0,
            !state.stopped ==> behaviors@ == all_bs.skip(state.next_index as int),
            collected_outcomes(all_bs, n, 0, ff) == state.outcomes@ + (if state.stopped {
                Seq::<EntryResult>::empty()
            } else {
                collected_outcomes(all_bs, n, state.next_index as int, ff)
            }),
        decreases state.bound - state.next_index + (if state.stopped { 0int } else { 1int }),
    {
        let ghost i = state.next_index as int;
        let b = behaviors.remove(0);
        let ghost gb = all_bs[i];
        proof {
            assert(all_bs.skip(i)[0] == all_bs[i]);
            assert(behaviors@ =~= all_bs.skip(i + 1));
        }
        let EntryBehavior { pre_stop, results, captures, post_stop } = b;
        if pre_stop {
            apply_pre_hook(&mut state, true);
            proof {
                assert(state.outcomes@ + Seq::<EntryResult>::empty() =~= state.outcomes@);
                assert(collected_outcomes(all_bs, n, i, ff) =~= Seq::<EntryResult>::empty());
            }
        } else {
            apply_pre_hook(&mut state, false);
            state.variables.insert_all(captures);
            let ghost outcomes_pre = state.outcomes@;
            record_outcomes(&mut state, results);
            apply_post_hook(&mut state, post_stop);
            apply_fail_fast(&mut state, options.fail_fast);
            proof {
                assert(state.outcomes@ == outcomes_pre + gb.results@);
                assert(state.outcomes@.last() == gb.results@.last());
                assert(state.stopped == stops_after(gb, ff));
                if stops_after(gb, ff) {
                    assert(collected_outcomes(all_bs, n, i, ff) == gb.results@);
                    assert(state.outcomes@ + Seq::<EntryResult>::empty() =~= state.outcomes@);
                } else {
                    assert(collected_outcomes(all_bs, n, i, ff) == gb.results@
                        + collected_outcomes(all_bs, n, i + 1, ff));
                    assert(outcomes_pre + (gb.results@ + collected_outcomes(all_bs, n, i + 1, ff))
                        =~= state.outcomes@ + collected_outcomes(all_bs, n, i + 1, ff));
                }
            }
        }
    }
    let elapsed = clock_elapsed_ms(&timer);
    proof {
        if !state.stopped {
            assert(collected_outcomes(all_bs, n, state.next_index as int, ff)
                =~= Seq::<EntryResult>::empty());
        }
        assert(state.outcomes@ + Seq::<EntryResult>::empty() =~= state.outcomes@);
    }
    finish_run(state, filename, elapsed, cookies)
}

} // verus!
