use uncanny::generation::{GenerationTracker, MicroTimer, StopReason};
use uncanny::summary::{drift_split, tally_runs, RunRecord};

fn run(status: &str, timed_out: bool, tokens: usize) -> RunRecord {
    RunRecord { run_status: status.to_string(), timed_out, generated_tokens: tokens }
}

#[test]
fn tally_counts_failures_and_successful_tokens() {
    let runs = vec![run("ok", false, 10), run("failed", false, 0), run("ok", true, 7), run("failed", true, 3)];
    let t = tally_runs(&runs);
    assert_eq!(t.measured_runs, 4);
    assert_eq!(t.failed_runs, 2);
    assert_eq!(t.timed_out_runs, 2);
    assert_eq!(t.generated_tokens_total, 17);
    assert_eq!(t.successful, vec![0, 2]);
}

#[test]
fn tally_of_no_runs() {
    let t = tally_runs(&Vec::new());
    assert_eq!(t.measured_runs, 0);
    assert_eq!(t.failed_runs, 0);
    assert_eq!(t.generated_tokens_total, 0);
    assert!(t.successful.is_empty());
}

#[test]
fn status_must_be_exactly_ok() {
    let t = tally_runs(&vec![run("OK", false, 5), run("ok ", false, 5)]);
    assert_eq!(t.failed_runs, 2);
    assert_eq!(t.generated_tokens_total, 0);
}

#[test]
fn tracker_stops_at_budget() {
    let mut g = GenerationTracker::new(3);
    let mut n = 0;
    while g.wants_token() {
        n = g.record_token(100);
    }
    assert_eq!(n, 3);
    assert_eq!(g.generated_tokens(), 3);
    assert!(!g.timed_out());
}

#[test]
fn ttft_uses_first_generated_token() {
    let mut g = GenerationTracker::new(5);
    assert_eq!(g.first_token_decode_us(), 0);
    assert_eq!(g.record_token(0), 1);
    assert_eq!(g.record_token(40), 2);
    assert_eq!(g.record_token(30), 3);
    assert_eq!(g.first_token_decode_us(), 0);
    assert_eq!(g.ttft_us(1000), 1000);
    assert_eq!(g.itl_samples_us(), &vec![0u128, 40, 30]);
    let mut h = GenerationTracker::new(5);
    h.record_token(25);
    h.record_token(10);
    assert_eq!(h.first_token_decode_us(), 25);
    assert_eq!(h.ttft_us(100), 125);
}

#[test]
fn tracker_stops_on_timeout_or_end_token() {
    let mut g = GenerationTracker::new(10);
    g.record_token(5);
    g.stop(StopReason::TimedOut);
    assert!(!g.wants_token());
    assert!(g.timed_out());
    let mut h = GenerationTracker::new(10);
    h.stop(StopReason::EndOfGeneration);
    assert!(!h.wants_token());
    assert!(!h.timed_out());
    assert_eq!(h.ttft_us(7), 7);
}

#[test]
fn drift_uses_successful_runs_with_four_points() {
    assert_eq!(drift_split(&run("ok", false, 0), 4), Some(2));
    assert_eq!(drift_split(&run("ok", false, 0), 9), Some(4));
    assert_eq!(drift_split(&run("ok", false, 0), 3), None);
    assert_eq!(drift_split(&run("failed", false, 0), 10), None);
}

#[test]
fn micro_timer_counts_whole_microseconds() {
    let mut t = MicroTimer::start_new(1_000);
    assert_eq!(t.elapsed_us(1_999), 0);
    assert_eq!(t.elapsed_us(3_500), 2);
    assert_eq!(t.elapsed_us(500), 0);
    t.restart(10_000);
    assert_eq!(t.elapsed_us(12_000), 2);
}
