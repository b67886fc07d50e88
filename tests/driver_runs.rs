use kvbench::config::{RunConfig, WriteStrategy};
use kvbench::driver::{Action, Driver, Outcome, Phase};

#[derive(Default, Debug)]
struct Tally {
    opens: u64,
    begins: u64,
    writes: u64,
    stages: u64,
    skips: u64,
    pairs: u64,
    submits: u64,
    progress: Vec<u64>,
    flushes: u64,
    summaries: Vec<u64>,
    trace: Vec<Action>,
}

/// Runs a driver to its end; `fail` decides, per action and its index among
/// the actions of the run, whether the host reports a failure.
fn run<F: FnMut(usize, Action) -> bool>(config: RunConfig, mut fail: F, keep_trace: bool) -> (Driver, Tally) {
    let mut d = Driver::new(config);
    let mut t = Tally::default();
    let mut outcome = Outcome::Succeeded;
    let mut i = 0usize;
    loop {
        let cmd = d.step(outcome);
        assert_eq!(cmd.pair.is_some(), matches!(cmd.action, Action::Write | Action::Stage | Action::Skip));
        if cmd.pair.is_some() {
            t.pairs += 1;
        }
        if keep_trace {
            t.trace.push(cmd.action);
        }
        match cmd.action {
            Action::Open => t.opens += 1,
            Action::BeginUnit => t.begins += 1,
            Action::Write => t.writes += 1,
            Action::Stage => t.stages += 1,
            Action::Skip => t.skips += 1,
            Action::Submit => t.submits += 1,
            Action::LogProgress { entries } => t.progress.push(entries),
            Action::Flush => t.flushes += 1,
            Action::Summary { entries } => t.summaries.push(entries),
            Action::Stop => break,
        }
        outcome = if fail(i, cmd.action) { Outcome::Failed } else { Outcome::Succeeded };
        i += 1;
    }
    (d, t)
}

fn config(n: u64, b: u64, l: u64, s: WriteStrategy) -> RunConfig {
    RunConfig::new(n, b, l, s).unwrap()
}

#[test]
fn million_entries_batched() {
    let (d, t) = run(RunConfig::bulk_load(WriteStrategy::Batched), |_, _| false, false);
    assert_eq!(t.pairs, 1_000_000);
    assert_eq!(t.stages, 1_000_000);
    assert_eq!(t.submits, 100);
    assert_eq!(t.progress.len(), 100);
    assert_eq!(t.progress[0], 10_000);
    assert_eq!(t.progress[99], 1_000_000);
    assert_eq!(t.flushes, 1);
    assert_eq!(t.summaries, vec![1_000_000]);
    assert_eq!(d.phase, Phase::Done);
}

#[test]
fn million_entries_transactional() {
    let (d, t) = run(RunConfig::bulk_load(WriteStrategy::Transactional), |_, _| false, false);
    assert_eq!(t.pairs, 1_000_000);
    assert_eq!(t.begins, 100);
    assert_eq!(t.submits, 100);
    assert_eq!(t.progress.len(), 100);
    assert_eq!(t.flushes, 1);
    assert_eq!(t.summaries, vec![1_000_000]);
    assert_eq!(d.submits, 100);
}

#[test]
fn flush_and_summary_come_last() {
    let (_, t) = run(config(20, 10, 10, WriteStrategy::Batched), |_, _| false, true);
    let n = t.trace.len();
    assert_eq!(t.trace[0], Action::Open);
    assert_eq!(t.trace[n - 3], Action::Flush);
    assert_eq!(t.trace[n - 2], Action::Summary { entries: 20 });
    assert_eq!(t.trace[n - 1], Action::Stop);
    // a full batch is submitted before the progress report that it completes
    assert_eq!(t.trace[11], Action::Submit);
    assert_eq!(t.trace[12], Action::LogProgress { entries: 10 });
}

#[test]
fn open_failure_does_nothing() {
    let (d, t) = run(config(100, 10, 10, WriteStrategy::Batched), |_, a| a == Action::Open, true);
    assert_eq!(t.trace, vec![Action::Open, Action::Stop]);
    assert_eq!(d.phase, Phase::Aborted);
    assert_eq!(d.generated, 0);
    assert_eq!(d.flushes, 0);
    assert_eq!(d.progress_logs, 0);
    let mut d = d;
    assert_eq!(d.step(Outcome::Succeeded).action, Action::Stop);
    assert_eq!(d.phase, Phase::Aborted);
}

#[test]
fn partial_last_batch_is_submitted() {
    let (d, t) = run(config(25, 10, 10, WriteStrategy::Batched), |_, _| false, false);
    assert_eq!(t.pairs, 25);
    assert_eq!(t.submits, 3);
    assert_eq!(t.progress, vec![10, 20]);
    assert_eq!(t.summaries, vec![25]);
    assert!(d.tail_closed);
}

#[test]
fn progress_interval_differs_from_batch_size() {
    let (_, t) = run(config(1000, 300, 70, WriteStrategy::Transactional), |_, _| false, false);
    assert_eq!(t.progress.len(), 14);
    assert_eq!(t.submits, 4);
    assert_eq!(t.begins, 4);
}

#[test]
fn write_failures_do_not_stop_the_run() {
    let (d, t) = run(
        config(50, 10, 10, WriteStrategy::Batched),
        |_, a| a == Action::Stage || a == Action::Submit,
        false,
    );
    assert_eq!(t.pairs, 50);
    assert_eq!(t.submits, 5);
    assert_eq!(d.write_failures, 50);
    assert_eq!(d.submit_failures, 5);
    assert_eq!(t.flushes, 1);
    assert_eq!(t.summaries, vec![50]);
}

#[test]
fn failed_begin_drops_that_transaction() {
    let mut begins = 0;
    let (d, t) = run(
        config(5, 2, 1, WriteStrategy::Transactional),
        |_, a| {
            if a == Action::BeginUnit {
                begins += 1;
                begins == 1
            } else {
                false
            }
        },
        false,
    );
    assert_eq!(t.pairs, 5);
    assert_eq!(t.skips, 2);
    assert_eq!(t.stages, 3);
    assert_eq!(t.begins, 3);
    assert_eq!(t.submits, 2);
    assert_eq!(d.abandoned, 1);
    assert_eq!(d.begin_failures, 1);
    assert_eq!(t.progress, vec![1, 2, 3, 4, 5]);
}

#[test]
fn failed_last_begin_drops_the_tail() {
    let (d, t) = run(config(3, 2, 10, WriteStrategy::Transactional), |i, a| i > 3 && a == Action::BeginUnit, false);
    assert_eq!(t.pairs, 3);
    assert_eq!(t.skips, 1);
    assert_eq!(t.submits, 1);
    assert_eq!(d.abandoned, 1);
    assert!(t.progress.is_empty());
}

#[test]
fn immediate_writes_each_pair() {
    let (d, t) = run(config(7, 3, 2, WriteStrategy::Immediate), |_, _| false, false);
    assert_eq!(t.writes, 7);
    assert_eq!(t.submits, 0);
    assert_eq!(t.progress, vec![2, 4, 6]);
    assert_eq!(d.written, 7);
}

#[test]
fn empty_run_flushes_and_reports() {
    let (_, t) = run(config(0, 10, 10, WriteStrategy::Transactional), |_, _| false, true);
    assert_eq!(t.trace, vec![Action::Open, Action::Flush, Action::Summary { entries: 0 }, Action::Stop]);
}

#[test]
fn flush_failure_is_recorded() {
    let (d, t) = run(config(4, 2, 2, WriteStrategy::Batched), |_, a| a == Action::Flush, false);
    assert!(d.flush_failed);
    assert_eq!(t.summaries, vec![4]);
    assert_eq!(d.phase, Phase::Done);
}
