//! The per-host report of a run, and when a run counts as failed.
use vstd::prelude::*;

use crate::ssh::SshError;

verus! {

/// What happened on one host: its exit code when the command ran to the
/// end, otherwise the text of the error that stopped it.
pub struct HostResult {
    pub host: String,
    pub exit_code: Option<i32>,
    pub error: Option<String>,
}

/// Where the remote output of the SSH runs is written.
pub enum OutputStream {
    Stdout,
    Stderr,
}

/// Builds the report entry of a host from the outcome of its SSH run.
pub fn host_result(host: String, outcome: Result<i32, SshError>) -> (r: HostResult)
    ensures
        r.host == host,
        outcome matches Ok(code) ==> r.exit_code == Some(code) && r.error is None,
        outcome matches Err(e) ==> r.exit_code is None && (r.error matches Some(m) && m@
            == e.message()),
{
    match outcome {
        Ok(code) => HostResult { host, exit_code: Some(code), error: None },
        Err(e) => HostResult { host, exit_code: None, error: Some(e.describe()) },
    }
}

/// What a run does with the matched hosts.
pub enum RunPlan {
    /// No command was given: the hostnames are listed and nothing is run.
    ListHosts,
    /// The command to run on every host.
    Execute(String),
}

/// Lists the hosts when no command was given, else runs the command.
pub fn run_plan(command: Option<String>) -> (plan: RunPlan)
    ensures
        command matches Some(c) ==> plan == RunPlan::Execute(c),
        command is None ==> plan is ListHosts,
{
    match command {
        Some(c) => RunPlan::Execute(c),
        None => RunPlan::ListHosts,
    }
}

/// The report of a whole run: one entry per host, in the order of the
/// hosts, each built by `host_result` from that host's SSH outcome.
pub fn host_results(runs: Vec<(String, Result<i32, SshError>)>) -> (results: Vec<HostResult>)
    ensures
        results@.len() == runs@.len(),
        forall|i: int| 0 <= i < runs@.len() ==> (#[trigger] results@[i]).host == runs@[i].0,
        forall|i: int|
            0 <= i < runs@.len() ==> (runs@[i].1 matches Ok(code) ==> (#[trigger] results@[i]).exit_code
                == Some(code) && results@[i].error is None),
        forall|i: int|
            0 <= i < runs@.len() ==> (runs@[i].1 matches Err(e) ==> (#[trigger] results@[i]).exit_code is None
                && (results@[i].error matches Some(m) && m@ == e.message())),
{
    let ghost all = runs@;
    let mut rest = runs;
    let mut results: Vec<HostResult> = Vec::new();
    let n = rest.len();
    let mut k: usize = 0;
    assert(all.skip(0) =~= all);
    while k < n
        invariant
            n == all.len(),
            k <= n,
            rest@ == all.skip(k as int),
            results@.len() == k,
            forall|i: int| 0 <= i < k ==> (#[trigger] results@[i]).host == all[i].0,
            forall|i: int|
                0 <= i < k ==> (all[i].1 matches Ok(code) ==> (#[trigger] results@[i]).exit_code
                    == Some(code) && results@[i].error is None),
            forall|i: int|
                0 <= i < k ==> (all[i].1 matches Err(e) ==> (#[trigger] results@[i]).exit_code is None
                    && (results@[i].error matches Some(m) && m@ == e.message())),
        decreases n - k,
    {
        let ghost before = rest@;
        let (host, outcome) = rest.remove(0);
        assert(before[0] == all[k as int]);
        assert(before.remove(0) =~= all.skip(k + 1));
        results.push(host_result(host, outcome));
        k = k + 1;
    }
    results
}

/// A host failed when it gave no exit code, or one outside the success set.
pub open spec fn host_failed(r: HostResult, success_codes: Seq<i32>) -> bool {
    match r.exit_code {
        Some(code) => !success_codes.contains(code),
        None => true,
    }
}

/// A run failed when some host failed.
pub open spec fn run_failed(results: Seq<HostResult>, success_codes: Seq<i32>) -> bool {
    exists|i: int| 0 <= i < results.len() && host_failed(#[trigger] results[i], success_codes)
}

/// Whether `code` is one of `codes`.
pub fn contains_code(codes: &Vec<i32>, code: i32) -> (found: bool)
    ensures
        found == codes@.contains(code),
{
    let n = codes.len();
    let mut i: usize = 0;
    while i < n
        invariant
            n == codes@.len(),
            i <= n,
            forall|j: int| 0 <= j < i ==> codes@[j] != code,
        decreases n - i,
    {
        if codes[i] == code {
            assert(codes@[i as int] == code);
            return true;
        }
        i = i + 1;
    }
    false
}

/// Whether some host of the run failed.
pub fn any_failed(results: &Vec<HostResult>, success_codes: &Vec<i32>) -> (failed: bool)
    ensures
        failed == run_failed(results@, success_codes@),
        forall|i: int|
            0 <= i < results@.len() && (match #[trigger] results@[i].exit_code {
                Some(code) => !success_codes@.contains(code),
                None => true,
            }) ==> failed,
        failed ==> exists|i: int|
            0 <= i < results@.len() && (match #[trigger] results@[i].exit_code {
                Some(code) => !success_codes@.contains(code),
                None => true,
            }),
{
    let n = results.len();
    let mut i: usize = 0;
    while i < n
        invariant
            n == results@.len(),
            i <= n,
            forall|j: int| 0 <= j < i ==> !host_failed(#[trigger] results@[j], success_codes@),
        decreases n - i,
    {
        let this_failed = match results[i].exit_code {
            Some(code) => !contains_code(success_codes, code),
            None => true,
        };
        if this_failed {
            assert(host_failed(results@[i as int], success_codes@));
            return true;
        }
        i = i + 1;
    }
    false
}

/// The process exit status after a run: 1 when some host failed, else 0.
pub fn exit_status(results: &Vec<HostResult>, success_codes: &Vec<i32>) -> (status: i32)
    ensures
        status == (if run_failed(results@, success_codes@) { 1i32 } else { 0i32 }),
        status == 0 || status == 1,
        status == 1 <==> exists|i: int|
            0 <= i < results@.len() && (match #[trigger] results@[i].exit_code {
                Some(code) => !success_codes@.contains(code),
                None => true,
            }),
{
    if any_failed(results, success_codes) {
        1
    } else {
        0
    }
}

/// With a JSON report the remote output goes to standard error, so that
/// standard output holds the report alone; otherwise to standard output.
pub fn ssh_output_stream(report_json: bool) -> (stream: OutputStream)
    ensures
        report_json ==> stream is Stderr,
        !report_json ==> stream is Stdout,
{
    if report_json {
        OutputStream::Stderr
    } else {
        OutputStream::Stdout
    }
}

/// A host anywhere in the results that gave no exit code, or one outside
/// the success set, makes the run fail.
pub proof fn lemma_failing_host_fails_run(results: Seq<HostResult>, success_codes: Seq<i32>, i: int)
    requires
        0 <= i < results.len(),
        results[i].exit_code is None || !success_codes.contains(results[i].exit_code->0),
    ensures
        run_failed(results, success_codes),
{
    assert(host_failed(results[i], success_codes));
}

/// A run in which every host exited with a success code does not fail.
pub proof fn lemma_all_succeeding_hosts_pass(results: Seq<HostResult>, success_codes: Seq<i32>)
    requires
        forall|i: int|
            0 <= i < results.len() ==> (#[trigger] results[i]).exit_code is Some
                && success_codes.contains(results[i].exit_code->0),
    ensures
        !run_failed(results, success_codes),
{
    assert forall|i: int| 0 <= i < results.len() implies !host_failed(
        #[trigger] results[i],
        success_codes,
    ) by {}
}

/// Accepting more exit codes as success never makes a run fail that did
/// not fail before.
pub proof fn lemma_more_success_codes_fail_less(
    results: Seq<HostResult>,
    fewer: Seq<i32>,
    more: Seq<i32>,
)
    requires
        forall|c: i32| fewer.contains(c) ==> more.contains(c),
    ensures
        run_failed(results, more) ==> run_failed(results, fewer),
{
    if run_failed(results, more) {
        let i = choose|i: int| 0 <= i < results.len() && host_failed(#[trigger] results[i], more);
        assert(host_failed(results[i], fewer));
    }
}

/// A run with no host results (as when hosts are only listed) never fails.
pub proof fn lemma_empty_run_succeeds(success_codes: Seq<i32>)
    ensures
        !run_failed(Seq::<HostResult>::empty(), success_codes),
{
}

} // verus!
