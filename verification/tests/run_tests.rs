use hurl_runner::run;
use hurl_runner::Cookie;
use hurl_runner::EntryBehavior;
use hurl_runner::EntryResult;
use hurl_runner::RunnerError;
use hurl_runner::RunnerOptions;
use hurl_runner::Value;
use hurl_runner::Variables;

fn options() -> RunnerOptions {
    RunnerOptions {
        fail_fast: false,
        variables: Variables::new(),
        to_entry: None,
        context_dir: String::new(),
        ignore_asserts: false,
        very_verbose: false,
    }
}

fn ok_outcome(tag: u64) -> EntryResult {
    EntryResult { errors: Vec::new(), time_in_ms: tag }
}

fn err_outcome(tag: u64, message: &str) -> EntryResult {
    EntryResult {
        errors: vec![RunnerError { message: message.to_string() }],
        time_in_ms: tag,
    }
}

fn ok_entry(tag: u64) -> EntryBehavior {
    EntryBehavior {
        pre_stop: false,
        results: vec![ok_outcome(tag)],
        captures: Vec::new(),
        post_stop: false,
    }
}

fn total_errors(entries: &[EntryResult]) -> usize {
    entries.iter().map(|e| e.errors.len()).sum()
}

#[test]
fn empty_script_succeeds() {
    let r = run("empty.hurl", &options(), 0, Vec::new(), Vec::new());
    assert_eq!(r.entries.len(), 0);
    assert!(r.success);
    assert_eq!(r.filename, "empty.hurl");
}

#[test]
fn to_entry_zero_runs_nothing() {
    let mut opts = options();
    opts.to_entry = Some(0);
    let r = run("a.hurl", &opts, 2, vec![ok_entry(1), ok_entry(2)], Vec::new());
    assert_eq!(r.entries.len(), 0);
    assert!(r.success);
}

#[test]
fn to_entry_limits_executed_entries() {
    let mut opts = options();
    opts.to_entry = Some(2);
    let r = run(
        "a.hurl",
        &opts,
        3,
        vec![ok_entry(1), ok_entry(2), ok_entry(3)],
        Vec::new(),
    );
    assert_eq!(r.entries.len(), 2);
    assert_eq!(r.entries[0].time_in_ms, 1);
    assert_eq!(r.entries[1].time_in_ms, 2);
    assert!(r.success);
}

#[test]
fn to_entry_beyond_script_length_is_clamped() {
    let mut opts = options();
    opts.to_entry = Some(5);
    let r = run("a.hurl", &opts, 2, vec![ok_entry(1), ok_entry(2)], Vec::new());
    assert_eq!(r.entries.len(), 2);
    assert!(r.success);
}

#[test]
fn pre_stop_on_first_entry_yields_empty_result() {
    let mut first = ok_entry(1);
    first.pre_stop = true;
    let r = run("a.hurl", &options(), 2, vec![first, ok_entry(2)], Vec::new());
    assert_eq!(r.entries.len(), 0);
    assert!(r.success);
}

#[test]
fn pre_stop_drops_current_and_later_entries() {
    let mut second = ok_entry(2);
    second.pre_stop = true;
    let r = run(
        "a.hurl",
        &options(),
        3,
        vec![ok_entry(1), second, ok_entry(3)],
        Vec::new(),
    );
    assert_eq!(r.entries.len(), 1);
    assert_eq!(r.entries[0].time_in_ms, 1);
    assert!(r.success);
}

#[test]
fn post_stop_keeps_current_entry_outcomes() {
    let mut second = ok_entry(2);
    second.post_stop = true;
    let r = run(
        "a.hurl",
        &options(),
        3,
        vec![ok_entry(1), second, ok_entry(3)],
        Vec::new(),
    );
    assert_eq!(r.entries.len(), 2);
    assert_eq!(r.entries[0].time_in_ms, 1);
    assert_eq!(r.entries[1].time_in_ms, 2);
    assert!(r.success);
}

#[test]
fn fail_fast_stops_after_failed_entry() {
    let mut opts = options();
    opts.fail_fast = true;
    let failed = EntryBehavior {
        pre_stop: false,
        results: vec![err_outcome(1, "assert failure")],
        captures: Vec::new(),
        post_stop: false,
    };
    let r = run("a.hurl", &opts, 2, vec![failed, ok_entry(2)], Vec::new());
    assert_eq!(r.entries.len(), 1);
    assert_eq!(r.entries[0].time_in_ms, 1);
    assert!(!r.success);
}

#[test]
fn without_fail_fast_the_run_continues_after_errors() {
    let failed = EntryBehavior {
        pre_stop: false,
        results: vec![err_outcome(1, "assert failure")],
        captures: Vec::new(),
        post_stop: false,
    };
    let r = run("a.hurl", &options(), 2, vec![failed, ok_entry(2)], Vec::new());
    assert_eq!(r.entries.len(), 2);
    assert_eq!(total_errors(&r.entries), 1);
    assert!(!r.success);
}

#[test]
fn fail_fast_checks_only_the_last_outcome_of_an_entry() {
    let mut opts = options();
    opts.fail_fast = true;
    let redirecting = EntryBehavior {
        pre_stop: false,
        results: vec![err_outcome(1, "intermediate hop failure"), ok_outcome(2)],
        captures: Vec::new(),
        post_stop: false,
    };
    let r = run("a.hurl", &opts, 2, vec![redirecting, ok_entry(3)], Vec::new());
    assert_eq!(r.entries.len(), 3);
    assert_eq!(r.entries[0].time_in_ms, 1);
    assert_eq!(r.entries[1].time_in_ms, 2);
    assert_eq!(r.entries[2].time_in_ms, 3);
    assert!(!r.success);
}

#[test]
fn two_entries_with_capture_succeed() {
    let mut first = ok_entry(1);
    first.captures = vec![("token".to_string(), Value::Text("abc123".to_string()))];
    let r = run(
        "login.hurl",
        &options(),
        2,
        vec![first, ok_entry(2)],
        Vec::new(),
    );
    assert_eq!(r.entries.len(), 2);
    assert_eq!(total_errors(&r.entries), 0);
    assert!(r.success);
}

#[test]
fn failing_first_entry_with_fail_fast_skips_the_second() {
    let mut opts = options();
    opts.fail_fast = true;
    let mut first = EntryBehavior {
        pre_stop: false,
        results: vec![err_outcome(1, "http error")],
        captures: Vec::new(),
        post_stop: false,
    };
    first.captures = vec![("token".to_string(), Value::Bool(false))];
    let r = run("login.hurl", &opts, 2, vec![first, ok_entry(2)], Vec::new());
    assert_eq!(r.entries.len(), 1);
    assert!(!r.success);
}

#[test]
fn filename_time_and_cookies_are_carried_into_the_result() {
    let cookies = vec![Cookie { name: "session".to_string(), value: "abc".to_string() }];
    let r = run("c.hurl", &options(), 1, vec![ok_entry(7)], cookies);
    assert_eq!(r.filename, "c.hurl");
    assert_eq!(r.cookies.len(), 1);
    assert_eq!(r.cookies[0].name, "session");
    assert_eq!(r.cookies[0].value, "abc");
    assert_eq!(r.entries.len(), 1);
    assert_eq!(r.entries[0].time_in_ms, 7);
}

#[test]
fn outcomes_are_flattened_in_script_and_hop_order() {
    let redirecting = EntryBehavior {
        pre_stop: false,
        results: vec![ok_outcome(10), ok_outcome(11)],
        captures: Vec::new(),
        post_stop: false,
    };
    let r = run(
        "a.hurl",
        &options(),
        2,
        vec![redirecting, ok_entry(20)],
        Vec::new(),
    );
    let tags: Vec<u64> = r.entries.iter().map(|e| e.time_in_ms).collect();
    assert_eq!(tags, vec![10, 11, 20]);
    assert!(r.success);
}
