use vstd::prelude::*;
use crate::obstacles::Obstacles;

verus! {

/// Number of runs that a benchmark batch reports.
pub const NUM_RUNS: u32 = 10_000;

/// Runs are counted from one. Timings are recorded from this run on; the runs
/// before it only warm up caches and branch predictors.
pub const FIRST_RECORDED_RUN: u32 = 100;

/// Nanoseconds in a second.
pub const NANOS_PER_SEC: i64 = 1_000_000_000;

/// Details and results of a batch of benchmark runs.
pub struct Batch {
    pub num_runs: u32,
    pub run_times: Vec<i64>,
}

impl Batch {
    /// Creates a batch from the given values.
    pub fn new(num_runs: u32, run_times: Vec<i64>) -> (r: Batch)
        ensures
            r.num_runs == num_runs,
            r.run_times@ == run_times@,
    {
        Batch { num_runs, run_times }
    }
}

/// A batch together with the obstacle counts of the scenarios it timed.
pub struct ObstacleBatch {
    pub obstacles: Obstacles,
    pub batch: Batch,
}

impl ObstacleBatch {
    /// Creates an obstacle batch from the given values.
    pub fn new(obstacles: Obstacles, batch: Batch) -> (r: ObstacleBatch)
        ensures
            r.obstacles == obstacles,
            r.batch.num_runs == batch.num_runs,
            r.batch.run_times@ == batch.run_times@,
    {
        ObstacleBatch { obstacles, batch }
    }
}

/// Relies on time::precise_time_ns: a reading of the high-resolution
/// performance counter, in nanoseconds since an unspecified epoch.
#[verifier::external_body]
fn clock_ns() -> (r: u64) {
    time::precise_time_ns()
}

/// Whole seconds in a span of `nanos` nanoseconds, rounded toward zero.
pub open spec fn whole_seconds_spec(nanos: int) -> int {
    if nanos >= 0 {
        nanos / NANOS_PER_SEC as int
    } else {
        -((-nanos) / NANOS_PER_SEC as int)
    }
}

/// Relies on time::Duration::nanoseconds and Duration::num_seconds: the
/// number of whole seconds in a duration of `nanos` nanoseconds, rounded
/// toward zero.
#[verifier::external_body]
fn whole_seconds(nanos: i64) -> (r: i64)
    ensures
        r == whole_seconds_spec(nanos as int),
{
    time::Duration::nanoseconds(nanos).num_seconds()
}

/// Nanoseconds between two counter readings. A reading that is not later
/// than the start counts as no time at all, and a span too long for an
/// `i64` is cut to `i64::MAX`.
pub open spec fn span_nanos(start: u64, end: u64) -> int {
    if end <= start {
        0
    } else if end - start > i64::MAX {
        i64::MAX as int
    } else {
        end - start
    }
}

/// Returns the nanoseconds between two counter readings.
pub fn elapsed_nanos(start: u64, end: u64) -> (r: i64)
    ensures
        r == span_nanos(start, end),
{
    if end <= start {
        0
    } else if end - start > i64::MAX as u64 {
        i64::MAX
    } else {
        (end - start) as i64
    }
}

/// Returns the whole seconds between two counter readings.
pub fn elapsed_seconds(start: u64, end: u64) -> (r: i64)
    ensures
        r == span_nanos(start, end) / NANOS_PER_SEC as int,
{
    whole_seconds(elapsed_nanos(start, end))
}

/// Times the execution of the given function in whole seconds.
pub fn time_execution_seconds<F: Fn()>(to_execute: F) -> (r: i64)
    requires
        to_execute.requires(()),
    ensures
        0 <= r <= i64::MAX / NANOS_PER_SEC,
{
    let start = clock_ns();
    to_execute();
    let end = clock_ns();
    elapsed_seconds(start, end)
}

/// The timings that a batch keeps out of the timings of all runs, in order:
/// those of the runs from `FIRST_RECORDED_RUN` on.
pub open spec fn recorded_runs(times: Seq<i64>) -> Seq<i64> {
    if times.len() < FIRST_RECORDED_RUN {
        Seq::empty()
    } else {
        times.subrange(FIRST_RECORDED_RUN - 1, times.len() as int)
    }
}

/// Returns the batch record of scenarios with the given obstacle counts,
/// from the timings of all their runs in order.
pub fn record_batch(obstacles: Obstacles, num_runs: u32, times: &Vec<i64>) -> (r: ObstacleBatch)
    ensures
        r.obstacles == obstacles,
        r.batch.num_runs == num_runs,
        r.batch.run_times@ == recorded_runs(times@),
{
    let mut timing: Vec<i64> = Vec::new();
    let mut count: usize = 0;
    while count < times.len()
        invariant
            count <= times.len(),
            timing@ == recorded_runs(times@.subrange(0, count as int)),
        decreases times.len() - count,
    {
        let elapsed = times[count];
        count = count + 1;
        proof {
            let before = times@.subrange(0, count - 1);
            let after = times@.subrange(0, count as int);
            assert(after.drop_last() =~= before);
            if count >= FIRST_RECORDED_RUN {
                assert(recorded_runs(after) =~= recorded_runs(before).push(elapsed));
            } else {
                assert(recorded_runs(after) =~= Seq::<i64>::empty());
            }
        }
        if count >= FIRST_RECORDED_RUN as usize {
            timing.push(elapsed);
        }
    }
    assert(times@.subrange(0, times.len() as int) =~= times@);
    ObstacleBatch::new(obstacles, Batch::new(num_runs, timing))
}

/// Times `NUM_RUNS + FIRST_RECORDED_RUN` runs of `run`, each given its run
/// index counted from zero, and records them for scenarios with the given
/// obstacle counts.
pub fn time_batch<F: Fn(usize)>(obstacles: &Obstacles, run: F) -> (r: ObstacleBatch)
    requires
        forall|i: usize| i < NUM_RUNS + FIRST_RECORDED_RUN ==> run.requires((i,)),
    ensures
        r.obstacles == *obstacles,
        r.batch.num_runs == NUM_RUNS,
        exists|times: Seq<i64>|
            {
                &&& times.len() == NUM_RUNS + FIRST_RECORDED_RUN
                &&& forall|j: int| 0 <= j < times.len() ==> 0 <= #[trigger] times[j]
                &&& r.batch.run_times@ == recorded_runs(times)
            },
{
    let total: usize = (NUM_RUNS + FIRST_RECORDED_RUN) as usize;
    let mut times: Vec<i64> = Vec::new();
    let mut i: usize = 0;
    while i < total
        invariant
            total == NUM_RUNS + FIRST_RECORDED_RUN,
            i <= total,
            times@.len() == i,
            forall|j: int| 0 <= j < i ==> 0 <= #[trigger] times@[j],
            forall|k: usize| k < NUM_RUNS + FIRST_RECORDED_RUN ==> run.requires((k,)),
        decreases total - i,
    {
        let start = clock_ns();
        run(i);
        let end = clock_ns();
        times.push(elapsed_nanos(start, end));
        i = i + 1;
    }
    record_batch(*obstacles, NUM_RUNS, &times)
}

} // verus!
