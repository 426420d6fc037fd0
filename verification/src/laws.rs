//! Properties of whole runs, proved once and for all: how the entry bound,
//! the hooks and fail-fast shape what a run collects, and how captured
//! variables travel to the entries that follow.

use vstd::prelude::*;

use crate::outcome::{all_ok, outcome_ok, EntryResult};
use crate::runner::{collected_outcomes, executed_entries, stops_after, EntryBehavior};
use crate::state::entry_bound;
use crate::value::Value;
use crate::variables::with_all_bound;

verus! {

/// Whether the run ends at this entry, either before it executes (pre-entry
/// hook) or right after it (post-entry hook or fail-fast).
pub open spec fn entry_stops(b: EntryBehavior, fail_fast: bool) -> bool {
    b.pre_stop || stops_after(b, fail_fast)
}

/// Every outcome produced by entries `lo` up to (excluding) `hi`, in script
/// order.
pub open spec fn results_between(bs: Seq<EntryBehavior>, lo: int, hi: int) -> Seq<EntryResult>
    decreases hi - lo when lo <= hi
{
    if lo >= hi {
        Seq::empty()
    } else {
        bs[lo].results@ + results_between(bs, lo + 1, hi)
    }
}

proof fn lemma_results_between_snoc(bs: Seq<EntryBehavior>, lo: int, hi: int)
    requires
        lo <= hi,
    ensures
        results_between(bs, lo, hi + 1) == results_between(bs, lo, hi) + bs[hi].results@,
    decreases hi - lo,
{
    if lo >= hi {
        assert(results_between(bs, lo, hi) =~= Seq::<EntryResult>::empty());
        assert(results_between(bs, lo, lo + 1) == bs[lo].results@ + results_between(
            bs,
            lo + 1,
            lo + 1,
        ));
        assert(results_between(bs, lo + 1, lo + 1) =~= Seq::<EntryResult>::empty());
        assert(bs[lo].results@ + Seq::<EntryResult>::empty() =~= bs[lo].results@);
        assert(Seq::<EntryResult>::empty() + bs[lo].results@ =~= bs[lo].results@);
    } else {
        lemma_results_between_snoc(bs, lo + 1, hi);
        assert((bs[lo].results@ + results_between(bs, lo + 1, hi)) + bs[hi].results@
            =~= bs[lo].results@ + (results_between(bs, lo + 1, hi) + bs[hi].results@));
    }
}

/// While no entry stops the run, the loop just walks forward: what a run
/// collects from entry `i0` on is everything entries `i0..i` produced,
/// followed by what it collects from entry `i` on; and those `i - i0`
/// entries are all executed.
proof fn lemma_no_stop_segment(bs: Seq<EntryBehavior>, n: int, i0: int, i: int, fail_fast: bool)
    requires
        0 <= i0 <= i <= n <= bs.len(),
        forall|j: int| i0 <= j < i ==> !entry_stops(#[trigger] bs[j], fail_fast),
    ensures
        collected_outcomes(bs, n, i0, fail_fast) == results_between(bs, i0, i)
            + collected_outcomes(bs, n, i, fail_fast),
        executed_entries(bs, n, i0, fail_fast) == (i - i0) + executed_entries(
            bs,
            n,
            i,
            fail_fast,
        ),
    decreases i - i0,
{
    if i0 < i {
        lemma_no_stop_segment(bs, n, i0 + 1, i, fail_fast);
        assert(collected_outcomes(bs, n, i0, fail_fast) == bs[i0].results@ + collected_outcomes(
            bs,
            n,
            i0 + 1,
            fail_fast,
        ));
        assert(bs[i0].results@ + (results_between(bs, i0 + 1, i) + collected_outcomes(
            bs,
            n,
            i,
            fail_fast,
        )) =~= (bs[i0].results@ + results_between(bs, i0 + 1, i)) + collected_outcomes(
            bs,
            n,
            i,
            fail_fast,
        ));
    } else {
        assert(results_between(bs, i0, i) =~= Seq::<EntryResult>::empty());
        assert(Seq::<EntryResult>::empty() + collected_outcomes(bs, n, i, fail_fast)
            =~= collected_outcomes(bs, n, i, fail_fast));
    }
}

proof fn lemma_executed_at_most(bs: Seq<EntryBehavior>, n: int, i: int, fail_fast: bool)
    requires
        0 <= i <= n,
    ensures
        0 <= executed_entries(bs, n, i, fail_fast) <= n - i,
    decreases n - i,
{
    if i < n && !bs[i].pre_stop && !stops_after(bs[i], fail_fast) {
        lemma_executed_at_most(bs, n, i + 1, fail_fast);
    }
}

/// A script with zero entries yields an empty outcome list, and a run with an
/// empty outcome list counts as successful.
pub proof fn lemma_empty_script(bs: Seq<EntryBehavior>, to_entry: Option<usize>, fail_fast: bool)
    ensures
        entry_bound(to_entry, 0) == 0,
        collected_outcomes(bs, 0, 0, fail_fast) == Seq::<EntryResult>::empty(),
        all_ok(Seq::<EntryResult>::empty()),
{
    assert(collected_outcomes(bs, 0, 0, fail_fast) =~= Seq::<EntryResult>::empty());
}

/// Overall success is exhaustive and mutually exclusive: a run succeeds when
/// no collected outcome carries an error, and fails exactly when at least one
/// outcome carries at least one error.
pub proof fn lemma_success_characterization(s: Seq<EntryResult>)
    ensures
        all_ok(s) <==> !(exists|i: int|
            0 <= i < s.len() && (#[trigger] s[i]).errors@.len() > 0),
{
    if forall|i: int| 0 <= i < s.len() ==> outcome_ok(#[trigger] s[i]) {
        assert(!(exists|i: int| 0 <= i < s.len() && (#[trigger] s[i]).errors@.len() > 0));
    }
}

/// An entry bound of `k`, with `k` at most the script length, lets at most
/// `k` entries reach the entry executor — and exactly `k` of them when no
/// hook and no fail-fast stop strikes among the first `k` entries.
pub proof fn lemma_to_entry_limits_execution(
    bs: Seq<EntryBehavior>,
    k: usize,
    script_len: usize,
    fail_fast: bool,
)
    requires
        k <= script_len,
        script_len == bs.len(),
    ensures
        entry_bound(Some(k), script_len) == k,
        executed_entries(bs, k as int, 0, fail_fast) <= k,
        (forall|j: int| 0 <= j < k ==> !entry_stops(#[trigger] bs[j], fail_fast))
            ==> executed_entries(bs, k as int, 0, fail_fast) == k,
{
    lemma_executed_at_most(bs, k as int, 0, fail_fast);
    if forall|j: int| 0 <= j < k ==> !entry_stops(#[trigger] bs[j], fail_fast) {
        lemma_no_stop_segment(bs, k as int, 0, k as int, fail_fast);
    }
}

/// A run in which no entry stops early executes every entry up to the entry
/// bound and collects exactly what those entries produced, in script order.
pub proof fn lemma_unstopped_run_collects_everything(
    bs: Seq<EntryBehavior>,
    n: int,
    fail_fast: bool,
)
    requires
        0 <= n <= bs.len(),
        forall|j: int| 0 <= j < n ==> !entry_stops(#[trigger] bs[j], fail_fast),
    ensures
        collected_outcomes(bs, n, 0, fail_fast) == results_between(bs, 0, n),
        executed_entries(bs, n, 0, fail_fast) == n,
{
    lemma_no_stop_segment(bs, n, 0, n, fail_fast);
    assert(collected_outcomes(bs, n, n, fail_fast) =~= Seq::<EntryResult>::empty());
    assert(results_between(bs, 0, n) + Seq::<EntryResult>::empty() =~= results_between(bs, 0, n));
}

/// A pre-entry stop at entry `i` (the first stop of the run) yields outcomes
/// deriving only from the entries before `i`: everything entries `0..i-1`
/// produced, nothing from entry `i` or later; entry `i` itself is not
/// executed.
pub proof fn lemma_pre_hook_stop(bs: Seq<EntryBehavior>, n: int, i: int, fail_fast: bool)
    requires
        0 <= i < n <= bs.len(),
        bs[i].pre_stop,
        forall|j: int| 0 <= j < i ==> !entry_stops(#[trigger] bs[j], fail_fast),
    ensures
        collected_outcomes(bs, n, 0, fail_fast) == results_between(bs, 0, i),
        executed_entries(bs, n, 0, fail_fast) == i,
{
    lemma_no_stop_segment(bs, n, 0, i, fail_fast);
    assert(collected_outcomes(bs, n, i, fail_fast) =~= Seq::<EntryResult>::empty());
    assert(results_between(bs, 0, i) + Seq::<EntryResult>::empty() =~= results_between(bs, 0, i));
}

/// The shared core of the two stop-after-an-entry laws.
proof fn lemma_stop_after_entry(bs: Seq<EntryBehavior>, n: int, i: int, fail_fast: bool)
    requires
        0 <= i < n <= bs.len(),
        !bs[i].pre_stop,
        stops_after(bs[i], fail_fast),
        forall|j: int| 0 <= j < i ==> !entry_stops(#[trigger] bs[j], fail_fast),
    ensures
        collected_outcomes(bs, n, 0, fail_fast) == results_between(bs, 0, i + 1),
        executed_entries(bs, n, 0, fail_fast) == i + 1,
{
    lemma_no_stop_segment(bs, n, 0, i, fail_fast);
    assert(collected_outcomes(bs, n, i, fail_fast) == bs[i].results@);
    lemma_results_between_snoc(bs, 0, i);
}

/// A post-entry stop after entry `i` (the first stop of the run) keeps entry
/// `i`'s outcomes and drops everything later: the run's outcomes are exactly
/// what entries `0..i` produced.
pub proof fn lemma_post_hook_stop(bs: Seq<EntryBehavior>, n: int, i: int, fail_fast: bool)
    requires
        0 <= i < n <= bs.len(),
        !bs[i].pre_stop,
        bs[i].post_stop,
        forall|j: int| 0 <= j < i ==> !entry_stops(#[trigger] bs[j], fail_fast),
    ensures
        collected_outcomes(bs, n, 0, fail_fast) == results_between(bs, 0, i + 1),
        executed_entries(bs, n, 0, fail_fast) == i + 1,
{
    lemma_stop_after_entry(bs, n, i, fail_fast);
}

/// With fail-fast on, an entry whose last outcome carries an error ends the
/// run: that entry's outcomes are still included, and no entry after it is
/// executed.
pub proof fn lemma_fail_fast_stops(bs: Seq<EntryBehavior>, n: int, i: int)
    requires
        0 <= i < n <= bs.len(),
        !bs[i].pre_stop,
        bs[i].results@.len() > 0,
        bs[i].results@.last().errors@.len() > 0,
        forall|j: int| 0 <= j < i ==> !entry_stops(#[trigger] bs[j], true),
    ensures
        collected_outcomes(bs, n, 0, true) == results_between(bs, 0, i + 1),
        executed_entries(bs, n, 0, true) == i + 1,
{
    lemma_stop_after_entry(bs, n, i, true);
}

/// A name that no capture of an entry binds keeps, after that entry, exactly
/// the binding it had before: mutations touch nothing else.
pub proof fn lemma_uncaptured_name_unchanged(
    env: Map<Seq<char>, Value>,
    caps: Seq<(String, Value)>,
    name: Seq<char>,
)
    requires
        forall|l: int| 0 <= l < caps.len() ==> (#[trigger] caps[l]).0@ != name,
    ensures
        with_all_bound(env, caps).contains_key(name) == env.contains_key(name),
        env.contains_key(name) ==> with_all_bound(env, caps)[name] == env[name],
    decreases caps.len(),
{
    if caps.len() > 0 {
        let t = caps.drop_first();
        assert forall|l: int| 0 <= l < t.len() implies (#[trigger] t[l]).0@ != name by {
            assert(t[l] == caps[l + 1]);
        }
        lemma_uncaptured_name_unchanged(env.insert(caps[0].0@, caps[0].1), t, name);
    }
}

/// A value captured while an entry executes is visible in the environment the
/// following entry receives: the environment binds the captured name, to the
/// last value captured for it.
pub proof fn lemma_captured_name_visible(
    env: Map<Seq<char>, Value>,
    caps: Seq<(String, Value)>,
    j: int,
)
    requires
        0 <= j < caps.len(),
        forall|l: int| j < l < caps.len() ==> (#[trigger] caps[l]).0@ != caps[j].0@,
    ensures
        with_all_bound(env, caps).contains_key(caps[j].0@),
        with_all_bound(env, caps)[caps[j].0@] == caps[j].1,
    decreases caps.len(),
{
    let t = caps.drop_first();
    let env2 = env.insert(caps[0].0@, caps[0].1);
    if j == 0 {
        assert forall|l: int| 0 <= l < t.len() implies (#[trigger] t[l]).0@ != caps[0].0@ by {
            assert(t[l] == caps[l + 1]);
        }
        lemma_uncaptured_name_unchanged(env2, t, caps[0].0@);
    } else {
        assert(t[j - 1] == caps[j]);
        assert forall|l: int| j - 1 < l < t.len() implies (#[trigger] t[l]).0@ != t[j - 1].0@ by {
            assert(t[l] == caps[l + 1]);
        }
        lemma_captured_name_visible(env2, t, j - 1);
    }
}

} // verus!
