//! Counting the measured runs of a benchmark: which succeeded, which
//! failed or timed out, and how many tokens the successful ones produced.
use vstd::prelude::*;

verus! {

/// What the tally reads of one measured run.
#[derive(Debug, Clone)]
pub struct RunRecord {
    /// `ok` for a run that completed.
    pub run_status: String,
    pub timed_out: bool,
    pub generated_tokens: usize,
}

/// The run completed.
pub open spec fn succeeded(r: RunRecord) -> bool {
    r.run_status@ == "ok"@
}

pub open spec fn failed_count(runs: Seq<RunRecord>) -> nat
    decreases runs.len(),
{
    if runs.len() == 0 {
        0
    } else {
        failed_count(runs.drop_last()) + if succeeded(runs.last()) {
            0nat
        } else {
            1nat
        }
    }
}

pub open spec fn timed_out_count(runs: Seq<RunRecord>) -> nat
    decreases runs.len(),
{
    if runs.len() == 0 {
        0
    } else {
        timed_out_count(runs.drop_last()) + if runs.last().timed_out {
            1nat
        } else {
            0nat
        }
    }
}

/// Tokens generated by the successful runs.
pub open spec fn ok_tokens(runs: Seq<RunRecord>) -> nat
    decreases runs.len(),
{
    if runs.len() == 0 {
        0
    } else {
        ok_tokens(runs.drop_last()) + if succeeded(runs.last()) {
            runs.last().generated_tokens as nat
        } else {
            0nat
        }
    }
}

/// Positions of the successful runs, in order.
pub open spec fn ok_positions(runs: Seq<RunRecord>) -> Seq<usize>
    decreases runs.len(),
{
    if runs.len() == 0 {
        Seq::empty()
    } else if succeeded(runs.last()) {
        ok_positions(runs.drop_last()).push((runs.len() - 1) as usize)
    } else {
        ok_positions(runs.drop_last())
    }
}

/// The counts over a list of measured runs.
#[derive(Debug)]
pub struct RunTally {
    pub measured_runs: usize,
    pub failed_runs: usize,
    pub timed_out_runs: usize,
    pub generated_tokens_total: usize,
    /// Positions of the successful runs, in order; the latency and
    /// throughput summaries are taken over these.
    pub successful: Vec<usize>,
}

/// Counts the runs. The token total sums the successful runs only.
pub fn tally_runs(runs: &Vec<RunRecord>) -> (t: RunTally)
    requires
        ok_tokens(runs@) <= usize::MAX,
    ensures
        t.measured_runs == runs@.len(),
        t.failed_runs == failed_count(runs@),
        t.timed_out_runs == timed_out_count(runs@),
        t.generated_tokens_total == ok_tokens(runs@),
        t.successful@ == ok_positions(runs@),
{
    let ok = String::from_str("ok");
    let mut failed: usize = 0;
    let mut timed_out: usize = 0;
    let mut tokens: usize = 0;
    let mut successful: Vec<usize> = Vec::new();
    let mut i: usize = 0;
    while i < runs.len()
        invariant
            i <= runs@.len(),
            ok@ == "ok"@,
            ok_tokens(runs@) <= usize::MAX,
            failed == failed_count(runs@.take(i as int)),
            timed_out == timed_out_count(runs@.take(i as int)),
            tokens == ok_tokens(runs@.take(i as int)),
            successful@ == ok_positions(runs@.take(i as int)),
        decreases runs@.len() - i,
    {
        let r = &runs[i];
        proof {
            let next = runs@.take(i + 1);
            assert(next.drop_last() =~= runs@.take(i as int));
            assert(next.last() == runs@[i as int]);
            lemma_counts_bounded_by_prefix(runs@, i + 1);
        }
        if r.run_status == ok {
            tokens = tokens + r.generated_tokens;
            successful.push(i);
        } else {
            failed = failed + 1;
        }
        if r.timed_out {
            timed_out = timed_out + 1;
        }
        i = i + 1;
    }
    proof {
        assert(runs@.take(runs@.len() as int) =~= runs@);
    }
    RunTally {
        measured_runs: runs.len(),
        failed_runs: failed,
        timed_out_runs: timed_out,
        generated_tokens_total: tokens,
        successful,
    }
}

/// Where a run's token timeline is cut into its early and late halves for
/// the drift measure: only successful runs with at least four timeline
/// points take part, and the early half is the first `len / 2` points.
pub fn drift_split(run: &RunRecord, flow_len: usize) -> (cut: Option<usize>)
    ensures
        cut is Some <==> succeeded(*run) && flow_len >= 4,
        cut matches Some(c) ==> c == flow_len / 2 && 0 < c < flow_len,
{
    let ok = String::from_str("ok");
    if run.run_status != ok || flow_len < 4 {
        return None;
    }
    Some(flow_len / 2)
}

/// The counts over a prefix stay within the prefix's length, and its token
/// total within the whole list's.
proof fn lemma_counts_bounded_by_prefix(runs: Seq<RunRecord>, n: int)
    requires
        0 <= n <= runs.len(),
    ensures
        failed_count(runs.take(n)) <= n,
        timed_out_count(runs.take(n)) <= n,
        ok_tokens(runs.take(n)) <= ok_tokens(runs),
    decreases runs.len() - n,
{
    lemma_counts_within_length(runs.take(n));
    if n < runs.len() {
        lemma_counts_bounded_by_prefix(runs, n + 1);
        let next = runs.take(n + 1);
        assert(next.drop_last() =~= runs.take(n));
    } else {
        assert(runs.take(n) =~= runs);
    }
}

proof fn lemma_counts_within_length(runs: Seq<RunRecord>)
    ensures
        failed_count(runs) <= runs.len(),
        timed_out_count(runs) <= runs.len(),
    decreases runs.len(),
{
    if runs.len() > 0 {
        lemma_counts_within_length(runs.drop_last());
    }
}

/// Every measured run either succeeded or failed: the successful positions
/// and the failures add up to the measured runs, and each listed position
/// is that of a successful run.
pub proof fn lemma_runs_partition(runs: Seq<RunRecord>)
    requires
        runs.len() <= usize::MAX,
    ensures
        ok_positions(runs).len() + failed_count(runs) == runs.len(),
        forall|k: int|
            0 <= k < ok_positions(runs).len() ==> #[trigger] ok_positions(runs)[k] < runs.len()
                && succeeded(runs[ok_positions(runs)[k] as int]),
    decreases runs.len(),
{
    if runs.len() > 0 {
        let prev = runs.drop_last();
        lemma_runs_partition(prev);
        assert forall|k: int|
            0 <= k < ok_positions(runs).len() implies #[trigger] ok_positions(runs)[k] < runs.len()
            && succeeded(runs[ok_positions(runs)[k] as int]) by {
            if k < ok_positions(prev).len() {
                assert(ok_positions(runs)[k] == ok_positions(prev)[k]);
                assert(runs[ok_positions(prev)[k] as int] == prev[ok_positions(prev)[k] as int]);
            } else {
                assert(succeeded(runs.last()));
                assert(ok_positions(runs)[k] == runs.len() - 1);
            }
        }
    }
}

/// Appending a failed run adds one measured and one failed run, adds to the
/// timed-out runs exactly when it timed out, and leaves the successful runs
/// and their token total as they were.
pub proof fn lemma_failed_run_appended(runs: Seq<RunRecord>, r: RunRecord)
    requires
        !succeeded(r),
    ensures
        runs.push(r).len() == runs.len() + 1,
        failed_count(runs.push(r)) == failed_count(runs) + 1,
        timed_out_count(runs.push(r)) == timed_out_count(runs) + if r.timed_out {
            1nat
        } else {
            0nat
        },
        ok_tokens(runs.push(r)) == ok_tokens(runs),
        ok_positions(runs.push(r)) == ok_positions(runs),
{
    assert(runs.push(r).drop_last() =~= runs);
    assert(runs.push(r).last() == r);
}

} // verus!
