//! The built-in observability subsystem.
//!
//! `TasksSubsystem` records what the dispatch loops report: per-invocation
//! task logs keyed by correlation id, and per-task-name benchmark
//! accumulators. Both collections keep insertion order and never hold two
//! records under one key. The subsystem is itself addressed through the
//! ordinary dispatch machinery, via the `TasksMessage` type, and is started
//! quiet so that it does not instrument itself.

use vstd::prelude::*;
use vstd::pervasive::VecAdditionalExecFns;
use vstd::string::StringExecFns;

use crate::duration::benchmark_display;
use crate::duration::decimal_string;
use crate::duration::dec_digits;
use crate::duration::format_duration;
use crate::duration::spec_benchmark_display;
use crate::duration::spec_format_duration;
use crate::subsystem::SubsystemMessage;
use crate::subsystem::Subsystem;
use crate::task::ImmutableTask;
use crate::task::MutableTask;
use crate::task::Task;
use crate::task::TaskMeta;

verus! {

/// A name paired with a rendered line, ready for a presentation layer.
#[derive(Clone, Debug)]
pub struct Display {
    /// The name of the record the line belongs to.
    pub name: String,
    /// The rendered line.
    pub display: String,
}

/// One task invocation: its correlation id, name, nesting depth, whether it
/// has completed, and its timing, with durations in whole nanoseconds.
#[derive(Clone, Debug)]
pub struct TaskLog {
    /// The invocation's correlation id.
    pub id: String,
    /// The task's stable name.
    pub name: &'static str,
    /// The nesting depth the invocation was reported at.
    pub depth: usize,
    /// Whether the invocation has completed.
    pub complete: bool,
    /// When the invocation started, in nanoseconds.
    pub start: u64,
    /// How long the invocation ran, in nanoseconds.
    pub duration: u64,
    /// The rendered line for presentation layers.
    pub display: String,
}

/// The running statistics of one benchmarked task name, with durations in
/// whole nanoseconds. `min` starts at the largest representable duration
/// and `max` at zero, so the first sample establishes both bounds.
#[derive(Clone, Debug)]
pub struct BenchmarkLog {
    /// The benchmarked task's stable name.
    pub name: &'static str,
    /// When the current run started, in nanoseconds.
    pub start: u64,
    /// The most recent run's duration.
    pub duration: u64,
    /// The longest observed duration.
    pub max: u64,
    /// The shortest observed duration.
    pub min: u64,
    /// The mean duration over all runs.
    pub average: u64,
    /// How many runs have been recorded.
    pub runs: u64,
    /// The total duration over all runs.
    pub run_time: u64,
    /// The rendered line for presentation layers.
    pub display: String,
}

/// Addition on durations that stops at the largest representable value
/// instead of wrapping.
pub open spec fn spec_sat_add(a: u64, b: u64) -> u64 {
    if a + b <= u64::MAX {
        (a + b) as u64
    } else {
        u64::MAX
    }
}

/// A task log marked complete with its measured duration; the rendered
/// line is untouched.
pub open spec fn spec_task_mark(l: TaskLog, end: u64) -> TaskLog {
    TaskLog { complete: true, duration: end, ..l }
}

/// A benchmark accumulator folded over one more run of duration `end`:
/// the run count and total grow, the average is the total divided by the
/// count, and the bounds take the new sample in; the rendered line is
/// untouched.
pub open spec fn spec_bench_update(b: BenchmarkLog, end: u64) -> BenchmarkLog {
    let run_time = spec_sat_add(b.run_time, end);
    let runs = spec_sat_add(b.runs, 1);
    BenchmarkLog {
        duration: end,
        run_time,
        runs,
        average: (run_time as int / runs as int) as u64,
        max: if end > b.max {
            end
        } else {
            b.max
        },
        min: if end < b.min {
            end
        } else {
            b.min
        },
        ..b
    }
}

/// A benchmark accumulator that has seen no run: counts and bounds as a
/// fresh record holds them.
pub open spec fn spec_fresh_benchmark(b: BenchmarkLog) -> bool {
    &&& b.runs == 0
    &&& b.run_time == 0
    &&& b.duration == 0
    &&& b.average == 0
    &&& b.start == 0
    &&& b.max == 0
    &&& b.min == u64::MAX
}

/// What `start_task` leaves behind: the benchmark side untouched; an id
/// already present leaves the task logs untouched, and a fresh id appends a
/// not-yet-complete log holding exactly the reported fields.
pub open spec fn spec_start_task_post(
    pre: TasksSubsystem,
    post: TasksSubsystem,
    id: String,
    name: &'static str,
    depth: usize,
) -> bool {
    &&& post.benchmark_logs() == pre.benchmark_logs()
    &&& (exists|i: int|
        0 <= i < pre.task_logs().len() && (#[trigger] pre.task_logs()[i]).id@ == id@)
        ==> post.task_logs() == pre.task_logs()
    &&& (forall|i: int|
        0 <= i < pre.task_logs().len() ==> (#[trigger] pre.task_logs()[i]).id@ != id@) ==> {
        &&& post.task_logs().len() == pre.task_logs().len() + 1
        &&& post.task_logs().take(pre.task_logs().len() as int) == pre.task_logs()
        &&& {
            let l = post.task_logs().last();
            &&& l.id == id
            &&& l.name == name
            &&& l.depth == depth
            &&& !l.complete
            &&& l.start == 0
            &&& l.duration == 0
            &&& l.display@ == "Exec..."@
        }
    }
}

/// What `end_task` yields under the standard duration formatter: nothing
/// when the id was never started, and otherwise the found log's name beside
/// its rendered duration.
pub open spec fn spec_end_task_answer(
    pre: TasksSubsystem,
    out: Option<Display>,
    id: String,
    end: u64,
) -> bool {
    &&& (forall|i: int|
        0 <= i < pre.task_logs().len() ==> (#[trigger] pre.task_logs()[i]).id@ != id@) ==> out
        is None
    &&& forall|i: int|
        (0 <= i < pre.task_logs().len() && (#[trigger] pre.task_logs()[i]).id@ == id@ && (
        forall|j: int| 0 <= j < i ==> (#[trigger] pre.task_logs()[j]).id@ != id@)) ==> {
            let mid = spec_task_mark(pre.task_logs()[i], end);
            &&& out is Some
            &&& out->Some_0.name@ == mid.name@
            &&& out->Some_0.display@ == spec_format_duration(mid.duration as nat)
        }
}

/// What `end_task` leaves behind under the standard duration formatter: an
/// unknown id changes nothing; otherwise the found log is marked complete
/// with the measured duration and a line rendering it.
pub open spec fn spec_end_task_update(
    pre: TasksSubsystem,
    post: TasksSubsystem,
    id: String,
    end: u64,
) -> bool {
    &&& post.benchmark_logs() == pre.benchmark_logs()
    &&& (forall|i: int|
        0 <= i < pre.task_logs().len() ==> (#[trigger] pre.task_logs()[i]).id@ != id@)
        ==> post.task_logs() == pre.task_logs()
    &&& forall|i: int|
        (0 <= i < pre.task_logs().len() && (#[trigger] pre.task_logs()[i]).id@ == id@ && (
        forall|j: int| 0 <= j < i ==> (#[trigger] pre.task_logs()[j]).id@ != id@)) ==> {
            let mid = spec_task_mark(pre.task_logs()[i], end);
            exists|d: String|
                d@ == spec_format_duration(mid.duration as nat) && post.task_logs()
                    == pre.task_logs().update(i, TaskLog { display: d, ..mid })
        }
}

/// What `start_benchmark` leaves behind: the task side untouched; a name
/// already present leaves the accumulators untouched, and a fresh name
/// appends a fresh accumulator displaying the name.
pub open spec fn spec_start_benchmark_post(
    pre: TasksSubsystem,
    post: TasksSubsystem,
    name: &'static str,
) -> bool {
    &&& post.task_logs() == pre.task_logs()
    &&& (exists|i: int|
        0 <= i < pre.benchmark_logs().len() && (#[trigger] pre.benchmark_logs()[i]).name@
            == name@) ==> post.benchmark_logs() == pre.benchmark_logs()
    &&& (forall|i: int|
        0 <= i < pre.benchmark_logs().len() ==> (#[trigger] pre.benchmark_logs()[i]).name@
            != name@) ==> {
        &&& post.benchmark_logs().len() == pre.benchmark_logs().len() + 1
        &&& post.benchmark_logs().take(pre.benchmark_logs().len() as int)
            == pre.benchmark_logs()
        &&& {
            let b = post.benchmark_logs().last();
            &&& b.name == name
            &&& spec_fresh_benchmark(b)
            &&& b.display@ == name@
        }
    }
}

/// What `end_benchmark` leaves behind under the standard statistics
/// formatter: an unknown name changes nothing; otherwise the found
/// accumulator is folded over the run and rendered.
pub open spec fn spec_end_benchmark_update(
    pre: TasksSubsystem,
    post: TasksSubsystem,
    name: &'static str,
    end: u64,
) -> bool {
    &&& post.task_logs() == pre.task_logs()
    &&& (forall|i: int|
        0 <= i < pre.benchmark_logs().len() ==> (#[trigger] pre.benchmark_logs()[i]).name@
            != name@) ==> post.benchmark_logs() == pre.benchmark_logs()
    &&& forall|i: int|
        (0 <= i < pre.benchmark_logs().len() && (#[trigger] pre.benchmark_logs()[i]).name@
            == name@ && (forall|j: int|
            0 <= j < i ==> (#[trigger] pre.benchmark_logs()[j]).name@ != name@)) ==> {
            let mid = spec_bench_update(pre.benchmark_logs()[i], end);
            exists|d: String|
                d@ == spec_benchmark_display(
                    mid.duration as nat,
                    mid.average as nat,
                    mid.min as nat,
                    mid.max as nat,
                ) && post.benchmark_logs() == pre.benchmark_logs().update(
                    i,
                    BenchmarkLog { display: d, ..mid },
                )
        }
}

/// What `get_task_displays` yields: one `(name - depth, line)` pair per
/// recorded task log, in insertion order.
pub open spec fn spec_task_displays(s: TasksSubsystem, out: Vec<Display>) -> bool {
    &&& out@.len() == s.task_logs().len()
    &&& forall|i: int|
        0 <= i < out@.len() ==> (#[trigger] out@[i]).name@ == (s.task_logs()[i]).name@ + " - "@
            + dec_digits(s.task_logs()[i].depth as nat) && out@[i].display
            == s.task_logs()[i].display
}

/// What `get_benchmark_displays` yields: one `(name, line)` pair per
/// accumulator, in insertion order.
pub open spec fn spec_benchmark_displays(s: TasksSubsystem, out: Vec<Display>) -> bool {
    &&& out@.len() == s.benchmark_logs().len()
    &&& forall|i: int|
        0 <= i < out@.len() ==> (#[trigger] out@[i]).name@ == (s.benchmark_logs()[i]).name@
            && out@[i].display == s.benchmark_logs()[i].display
}

/// After exactly one recorded run of duration `d`, an accumulator that was
/// fresh reads: one run, average `d`, and both bounds `d`.
pub proof fn lemma_benchmark_first_run(b: BenchmarkLog, d: u64)
    requires
        spec_fresh_benchmark(b),
    ensures
        spec_bench_update(b, d).runs == 1,
        spec_bench_update(b, d).average == d,
        spec_bench_update(b, d).min == d,
        spec_bench_update(b, d).max == d,
{
    assert(spec_sat_add(b.run_time, d) == d);
    assert(spec_sat_add(b.runs, 1) == 1);
    assert(d as int / 1int == d as int);
}

/// After a run of duration `d1` and then one of `d2`, an accumulator that
/// was fresh reads: two runs, average `(d1 + d2) / 2`, minimum the smaller
/// and maximum the larger of the two.
pub proof fn lemma_benchmark_two_runs(b: BenchmarkLog, d1: u64, d2: u64)
    requires
        spec_fresh_benchmark(b),
        d1 + d2 <= u64::MAX,
    ensures
        spec_bench_update(spec_bench_update(b, d1), d2).runs == 2,
        spec_bench_update(spec_bench_update(b, d1), d2).average == (d1 + d2) as int / 2,
        spec_bench_update(spec_bench_update(b, d1), d2).min == if d1 < d2 {
            d1
        } else {
            d2
        },
        spec_bench_update(spec_bench_update(b, d1), d2).max == if d1 > d2 {
            d1
        } else {
            d2
        },
{
}

/// The rendered line the dispatch loop asks for when a task ends: the
/// invocation's duration.
pub fn task_duration_display(log: &TaskLog) -> (r: String)
    ensures
        r@ == spec_format_duration(log.duration as nat),
{
    format_duration(log.duration)
}

/// The rendered line the dispatch loop asks for when a benchmarked run
/// ends: the run's duration beside the average and the bounds.
pub fn benchmark_stats_display(b: &BenchmarkLog) -> (r: String)
    ensures
        r@ == spec_benchmark_display(b.duration as nat, b.average as nat, b.min as nat, b.max as nat),
{
    benchmark_display(b.duration, b.average, b.min, b.max)
}

/// The observability subsystem's state: insertion-ordered task logs keyed
/// by correlation id, and insertion-ordered benchmark accumulators keyed
/// by task name.
pub struct TasksSubsystem {
    tasks: Vec<TaskLog>,
    benchmarks: Vec<BenchmarkLog>,
}

impl TasksSubsystem {
    /// The recorded task logs, in insertion order.
    pub closed spec fn task_logs(self) -> Seq<TaskLog> {
        self.tasks@
    }

    /// The benchmark accumulators, in insertion order.
    pub closed spec fn benchmark_logs(self) -> Seq<BenchmarkLog> {
        self.benchmarks@
    }

    /// A subsystem with nothing recorded yet.
    pub fn new() -> (r: Self)
        ensures
            r.task_logs().len() == 0,
            r.benchmark_logs().len() == 0,
    {
        TasksSubsystem { tasks: Vec::new(), benchmarks: Vec::new() }
    }

    /// How many task invocations have been recorded.
    pub fn task_count(&self) -> (r: usize)
        ensures
            r == self.task_logs().len(),
    {
        self.tasks.len()
    }

    /// The task log at one position of the insertion order.
    pub fn task_at(&self, i: usize) -> (r: &TaskLog)
        requires
            i < self.task_logs().len(),
        ensures
            *r == self.task_logs()[i as int],
    {
        &self.tasks[i]
    }

    /// How many benchmark accumulators exist.
    pub fn benchmark_count(&self) -> (r: usize)
        ensures
            r == self.benchmark_logs().len(),
    {
        self.benchmarks.len()
    }

    /// The benchmark accumulator at one position of the insertion order.
    pub fn benchmark_at(&self, i: usize) -> (r: &BenchmarkLog)
        requires
            i < self.benchmark_logs().len(),
        ensures
            *r == self.benchmark_logs()[i as int],
    {
        &self.benchmarks[i]
    }

    /// Record that a task invocation started: insert a not-yet-complete
    /// log under its correlation id. An id that is already present is left
    /// untouched.
    pub fn start_task(&mut self, id: String, name: &'static str, depth: usize)
        ensures
            final(self).benchmark_logs() == old(self).benchmark_logs(),
            (exists|i: int|
                0 <= i < old(self).task_logs().len() && (#[trigger] old(self).task_logs()[i]).id@
                    == id@) ==> final(self).task_logs() == old(self).task_logs(),
            (forall|i: int|
                0 <= i < old(self).task_logs().len() ==> (#[trigger] old(self).task_logs()[i]).id@
                    != id@) ==> {
                &&& final(self).task_logs().len() == old(self).task_logs().len() + 1
                &&& final(self).task_logs().take(old(self).task_logs().len() as int) == old(
                    self,
                ).task_logs()
                &&& {
                    let l = final(self).task_logs().last();
                    &&& l.id == id
                    &&& l.name == name
                    &&& l.depth == depth
                    &&& !l.complete
                    &&& l.start == 0
                    &&& l.duration == 0
                    &&& l.display@ == "Exec..."@
                }
            },
    {
        let n = self.tasks.len();
        let mut i: usize = 0;
        while i < n
            invariant
                self.task_logs() == old(self).task_logs(),
                self.benchmark_logs() == old(self).benchmark_logs(),
                n == self.task_logs().len(),
                i <= n,
                forall|j: int| 0 <= j < i ==> (#[trigger] self.task_logs()[j]).id@ != id@,
            decreases n - i,
        {
            if self.tasks[i].id == id {
                return ;
            }
            i = i + 1;
        }
        let log = TaskLog {
            id,
            name,
            depth,
            complete: false,
            start: 0,
            duration: 0,
            display: String::from_str("Exec..."),
        };
        self.tasks.push(log);
        proof {
            assert(self.task_logs().take(self.task_logs().len() - 1) =~= old(self).task_logs());
        }
    }

    /// Record that a task invocation ended: mark its log complete, store
    /// the measured duration, and store the line the caller-supplied
    /// formatter renders from the updated log. Yields the task's name and
    /// that line, or nothing when the id was never started.
    pub fn end_task<F: Fn(&TaskLog) -> String>(&mut self, id: String, end: u64, display: F) -> (r:
        Option<Display>)
        requires
            forall|l: TaskLog| #[trigger] call_requires(display, (&l,)),
        ensures
            final(self).benchmark_logs() == old(self).benchmark_logs(),
            (forall|i: int|
                0 <= i < old(self).task_logs().len() ==> (#[trigger] old(self).task_logs()[i]).id@
                    != id@) ==> r is None && final(self).task_logs() == old(self).task_logs(),
            forall|i: int|
                (0 <= i < old(self).task_logs().len() && (#[trigger] old(self).task_logs()[i]).id@
                    == id@ && (forall|j: int|
                    0 <= j < i ==> (#[trigger] old(self).task_logs()[j]).id@ != id@)) ==> {
                    let mid = spec_task_mark(old(self).task_logs()[i], end);
                    exists|d: String|
                        {
                            &&& #[trigger] call_ensures(display, (&mid,), d)
                            &&& final(self).task_logs() == old(self).task_logs().update(
                                i,
                                TaskLog { display: d, ..mid },
                            )
                            &&& r is Some
                            &&& r->Some_0.name@ == mid.name@
                            &&& r->Some_0.display == d
                        }
                },
    {
        let n = self.tasks.len();
        let mut i: usize = 0;
        while i < n
            invariant
                self.task_logs() == old(self).task_logs(),
                self.benchmark_logs() == old(self).benchmark_logs(),
                forall|l: TaskLog| #[trigger] call_requires(display, (&l,)),
                n == self.task_logs().len(),
                i <= n,
                forall|j: int| 0 <= j < i ==> (#[trigger] self.task_logs()[j]).id@ != id@,
            decreases n - i,
        {
            if self.tasks[i].id == id {
                let found = &self.tasks[i];
                let mid = TaskLog {
                    id: found.id.clone(),
                    name: found.name,
                    depth: found.depth,
                    complete: true,
                    start: found.start,
                    duration: end,
                    display: found.display.clone(),
                };
                proof {
                    assert(mid == spec_task_mark(old(self).task_logs()[i as int], end));
                }
                let line = display(&mid);
                let name_string = String::from_str(mid.name);
                let updated = TaskLog { display: line.clone(), ..mid };
                self.tasks.set(i, updated);
                return Some(Display { name: name_string, display: line });
            }
            i = i + 1;
        }
        None
    }

    /// Project the task logs into `(name - depth, line)` pairs for a
    /// presentation layer, in insertion order.
    pub fn get_task_displays(&self) -> (r: Vec<Display>)
        ensures
            r@.len() == self.task_logs().len(),
            forall|i: int|
                0 <= i < r@.len() ==> (#[trigger] r@[i]).name@ == (self.task_logs()[i]).name@
                    + " - "@ + dec_digits(self.task_logs()[i].depth as nat) && r@[i].display
                    == self.task_logs()[i].display,
    {
        let n = self.tasks.len();
        let mut out: Vec<Display> = Vec::new();
        let mut i: usize = 0;
        while i < n
            invariant
                n == self.task_logs().len(),
                i <= n,
                out@.len() == i,
                forall|k: int|
                    0 <= k < i ==> (#[trigger] out@[k]).name@ == (self.task_logs()[k]).name@
                        + " - "@ + dec_digits(self.task_logs()[k].depth as nat) && out@[k].display
                        == self.task_logs()[k].display,
            decreases n - i,
        {
            let log = &self.tasks[i];
            let name = String::from_str(log.name).concat(" - ").concat(
                decimal_string(log.depth as u64).as_str(),
            );
            proof {
                assert(log.depth as u64 as nat == log.depth as nat);
            }
            out.push(Display { name, display: log.display.clone() });
            i = i + 1;
        }
        out
    }

    /// Make sure a benchmark accumulator exists for `name`: a fresh one is
    /// inserted when absent, and a repeated start is a no-op.
    pub fn start_benchmark(&mut self, name: &'static str)
        ensures
            final(self).task_logs() == old(self).task_logs(),
            (exists|i: int|
                0 <= i < old(self).benchmark_logs().len() && (#[trigger] old(
                    self,
                ).benchmark_logs()[i]).name@ == name@) ==> final(self).benchmark_logs() == old(
                self,
            ).benchmark_logs(),
            (forall|i: int|
                0 <= i < old(self).benchmark_logs().len() ==> (#[trigger] old(
                    self,
                ).benchmark_logs()[i]).name@ != name@) ==> {
                &&& final(self).benchmark_logs().len() == old(self).benchmark_logs().len() + 1
                &&& final(self).benchmark_logs().take(old(self).benchmark_logs().len() as int)
                    == old(self).benchmark_logs()
                &&& {
                    let b = final(self).benchmark_logs().last();
                    &&& b.name == name
                    &&& spec_fresh_benchmark(b)
                    &&& b.display@ == name@
                }
            },
    {
        let n = self.benchmarks.len();
        let mut i: usize = 0;
        while i < n
            invariant
                self.task_logs() == old(self).task_logs(),
                self.benchmark_logs() == old(self).benchmark_logs(),
                n == self.benchmark_logs().len(),
                i <= n,
                forall|j: int| 0 <= j < i ==> (#[trigger] self.benchmark_logs()[j]).name@ != name@,
            decreases n - i,
        {
            if str_eq(self.benchmarks[i].name, name) {
                return ;
            }
            i = i + 1;
        }
        let bench = BenchmarkLog {
            name,
            start: 0,
            duration: 0,
            average: 0,
            runs: 0,
            run_time: 0,
            display: String::from_str(name),
            max: 0,
            min: u64::MAX,
        };
        self.benchmarks.push(bench);
        proof {
            assert(self.benchmark_logs().take(self.benchmark_logs().len() - 1) =~= old(
                self,
            ).benchmark_logs());
        }
    }

    /// Record one finished run of a benchmarked task: fold the measured
    /// duration into the accumulator under `name` and store the line the
    /// caller-supplied formatter renders from the updated record. A name
    /// that was never started is left untouched.
    pub fn end_benchmark<F: Fn(&BenchmarkLog) -> String>(&mut self, name: &'static str, end: u64, display: F)
        requires
            forall|b: BenchmarkLog| #[trigger] call_requires(display, (&b,)),
        ensures
            final(self).task_logs() == old(self).task_logs(),
            (forall|i: int|
                0 <= i < old(self).benchmark_logs().len() ==> (#[trigger] old(
                    self,
                ).benchmark_logs()[i]).name@ != name@) ==> final(self).benchmark_logs() == old(
                self,
            ).benchmark_logs(),
            forall|i: int|
                (0 <= i < old(self).benchmark_logs().len() && (#[trigger] old(
                    self,
                ).benchmark_logs()[i]).name@ == name@ && (forall|j: int|
                    0 <= j < i ==> (#[trigger] old(self).benchmark_logs()[j]).name@ != name@))
                    ==> {
                    let mid = spec_bench_update(old(self).benchmark_logs()[i], end);
                    exists|d: String|
                        {
                            &&& #[trigger] call_ensures(display, (&mid,), d)
                            &&& final(self).benchmark_logs() == old(self).benchmark_logs().update(
                                i,
                                BenchmarkLog { display: d, ..mid },
                            )
                        }
                },
    {
        let n = self.benchmarks.len();
        let mut i: usize = 0;
        while i < n
            invariant
                self.task_logs() == old(self).task_logs(),
                self.benchmark_logs() == old(self).benchmark_logs(),
                forall|b: BenchmarkLog| #[trigger] call_requires(display, (&b,)),
                n == self.benchmark_logs().len(),
                i <= n,
                forall|j: int| 0 <= j < i ==> (#[trigger] self.benchmark_logs()[j]).name@ != name@,
            decreases n - i,
        {
            if str_eq(self.benchmarks[i].name, name) {
                let found = &self.benchmarks[i];
                let run_time = sat_add(found.run_time, end);
                let runs = sat_add(found.runs, 1);
                let mid = BenchmarkLog {
                    name: found.name,
                    start: found.start,
                    duration: end,
                    max: if end > found.max {
                        end
                    } else {
                        found.max
                    },
                    min: if end < found.min {
                        end
                    } else {
                        found.min
                    },
                    average: run_time / runs,
                    runs,
                    run_time,
                    display: found.display.clone(),
                };
                proof {
                    assert(mid == spec_bench_update(old(self).benchmark_logs()[i as int], end));
                }
                let line = display(&mid);
                let updated = BenchmarkLog { display: line, ..mid };
                self.benchmarks.set(i, updated);
                return ;
            }
            i = i + 1;
        }
    }

    /// Project the benchmark accumulators into `(name, line)` pairs for a
    /// presentation layer, in insertion order.
    pub fn get_benchmark_displays(&self) -> (r: Vec<Display>)
        ensures
            r@.len() == self.benchmark_logs().len(),
            forall|i: int|
                0 <= i < r@.len() ==> (#[trigger] r@[i]).name@ == (
                self.benchmark_logs()[i]).name@ && r@[i].display
                    == self.benchmark_logs()[i].display,
    {
        let n = self.benchmarks.len();
        let mut out: Vec<Display> = Vec::new();
        let mut i: usize = 0;
        while i < n
            invariant
                n == self.benchmark_logs().len(),
                i <= n,
                out@.len() == i,
                forall|k: int|
                    0 <= k < i ==> (#[trigger] out@[k]).name@ == (
                    self.benchmark_logs()[k]).name@ && out@[k].display
                        == self.benchmark_logs()[k].display,
            decreases n - i,
        {
            let bench = &self.benchmarks[i];
            out.push(
                Display { name: String::from_str(bench.name), display: bench.display.clone() },
            );
            i = i + 1;
        }
        out
    }
}

/// The registry key of the observability subsystem.
pub const TASKS_SUBSYSTEM_KEY: u64 = 1;

/// Report that a task invocation started.
pub struct StartTask {
    /// The invocation's correlation id.
    pub id: String,
    /// The task's stable name.
    pub name: &'static str,
    /// The nesting depth the invocation is reported at.
    pub depth: usize,
}

/// Report that a task invocation ended after `end` nanoseconds.
pub struct EndTask {
    /// The invocation's correlation id.
    pub id: String,
    /// The measured duration, in nanoseconds.
    pub end: u64,
}

/// Ask for the task logs as `(name, line)` pairs.
pub struct GetTaskDisplays;

/// Make sure a benchmark accumulator exists for a task name.
pub struct StartBenchmark {
    /// The benchmarked task's stable name.
    pub name: &'static str,
}

/// Report one finished run of a benchmarked task.
pub struct EndBenchmark {
    /// The benchmarked task's stable name.
    pub name: &'static str,
    /// The measured duration, in nanoseconds.
    pub end: u64,
}

/// Ask for the benchmark accumulators as `(name, line)` pairs.
pub struct GetBenchmarkDisplays;

impl Task for StartTask {
    type Subsystem = TasksSubsystem;

    type Event = ();

    type Inputs = ();

    type Output = ();

    open spec fn spec_name() -> Seq<char> {
        "TasksSubsystem::StartTask"@
    }

    fn name() -> (r: &'static str) {
        "TasksSubsystem::StartTask"
    }

    fn log() -> (r: bool) {
        true
    }

    fn benchmark() -> (r: bool) {
        false
    }

    fn io() -> (r: bool) {
        false
    }

    fn inputs(&self) -> Self::Inputs {
    }
}

impl MutableTask for StartTask {
    open spec fn spec_answers(&self, pre: TasksSubsystem, out: ()) -> bool {
        true
    }

    open spec fn spec_transforms(&self, pre: TasksSubsystem, post: TasksSubsystem) -> bool {
        spec_start_task_post(pre, post, self.id, self.name, self.depth)
    }

    fn execute(self, subsystem: &mut TasksSubsystem) -> Self::Output {
        subsystem.start_task(self.id, self.name, self.depth)
    }
}

impl Task for EndTask {
    type Subsystem = TasksSubsystem;

    type Event = ();

    type Inputs = ();

    type Output = Option<Display>;

    open spec fn spec_name() -> Seq<char> {
        "TasksSubsystem::EndTask"@
    }

    fn name() -> (r: &'static str) {
        "TasksSubsystem::EndTask"
    }

    fn log() -> (r: bool) {
        true
    }

    fn benchmark() -> (r: bool) {
        false
    }

    fn io() -> (r: bool) {
        false
    }

    fn inputs(&self) -> Self::Inputs {
    }
}

impl MutableTask for EndTask {
    open spec fn spec_answers(&self, pre: TasksSubsystem, out: Option<Display>) -> bool {
        spec_end_task_answer(pre, out, self.id, self.end)
    }

    open spec fn spec_transforms(&self, pre: TasksSubsystem, post: TasksSubsystem) -> bool {
        spec_end_task_update(pre, post, self.id, self.end)
    }

    fn execute(self, subsystem: &mut TasksSubsystem) -> Self::Output {
        let out = subsystem.end_task(self.id, self.end, task_duration_display);
        proof {
            assert forall|l: TaskLog, d: String|
                #[trigger] call_ensures(task_duration_display, (&l,), d) implies d@
                == spec_format_duration(l.duration as nat) by {}
        }
        out
    }
}

impl Task for GetTaskDisplays {
    type Subsystem = TasksSubsystem;

    type Event = ();

    type Inputs = ();

    type Output = Vec<Display>;

    open spec fn spec_name() -> Seq<char> {
        "TasksSubsystem::GetTaskDisplays"@
    }

    fn name() -> (r: &'static str) {
        "TasksSubsystem::GetTaskDisplays"
    }

    fn log() -> (r: bool) {
        true
    }

    fn benchmark() -> (r: bool) {
        false
    }

    fn io() -> (r: bool) {
        false
    }

    fn inputs(&self) -> Self::Inputs {
    }
}

impl ImmutableTask for GetTaskDisplays {
    open spec fn spec_answers(&self, state: TasksSubsystem, out: Vec<Display>) -> bool {
        spec_task_displays(state, out)
    }

    fn execute(self, subsystem: &TasksSubsystem) -> Self::Output {
        subsystem.get_task_displays()
    }
}

impl Task for StartBenchmark {
    type Subsystem = TasksSubsystem;

    type Event = ();

    type Inputs = ();

    type Output = ();

    open spec fn spec_name() -> Seq<char> {
        "TasksSubsystem::StartBenchmark"@
    }

    fn name() -> (r: &'static str) {
        "TasksSubsystem::StartBenchmark"
    }

    fn log() -> (r: bool) {
        true
    }

    fn benchmark() -> (r: bool) {
        false
    }

    fn io() -> (r: bool) {
        false
    }

    fn inputs(&self) -> Self::Inputs {
    }
}

impl MutableTask for StartBenchmark {
    open spec fn spec_answers(&self, pre: TasksSubsystem, out: ()) -> bool {
        true
    }

    open spec fn spec_transforms(&self, pre: TasksSubsystem, post: TasksSubsystem) -> bool {
        spec_start_benchmark_post(pre, post, self.name)
    }

    fn execute(self, subsystem: &mut TasksSubsystem) -> Self::Output {
        subsystem.start_benchmark(self.name)
    }
}

impl Task for EndBenchmark {
    type Subsystem = TasksSubsystem;

    type Event = ();

    type Inputs = ();

    type Output = ();

    open spec fn spec_name() -> Seq<char> {
        "TasksSubsystem::EndBenchmark"@
    }

    fn name() -> (r: &'static str) {
        "TasksSubsystem::EndBenchmark"
    }

    fn log() -> (r: bool) {
        true
    }

    fn benchmark() -> (r: bool) {
        false
    }

    fn io() -> (r: bool) {
        false
    }

    fn inputs(&self) -> Self::Inputs {
    }
}

impl MutableTask for EndBenchmark {
    open spec fn spec_answers(&self, pre: TasksSubsystem, out: ()) -> bool {
        true
    }

    open spec fn spec_transforms(&self, pre: TasksSubsystem, post: TasksSubsystem) -> bool {
        spec_end_benchmark_update(pre, post, self.name, self.end)
    }

    fn execute(self, subsystem: &mut TasksSubsystem) -> Self::Output {
        let out = subsystem.end_benchmark(self.name, self.end, benchmark_stats_display);
        proof {
            assert forall|b: BenchmarkLog, d: String|
                #[trigger] call_ensures(benchmark_stats_display, (&b,), d) implies d@
                == spec_benchmark_display(
                b.duration as nat,
                b.average as nat,
                b.min as nat,
                b.max as nat,
            ) by {}
        }
        out
    }
}

impl Task for GetBenchmarkDisplays {
    type Subsystem = TasksSubsystem;

    type Event = ();

    type Inputs = ();

    type Output = Vec<Display>;

    open spec fn spec_name() -> Seq<char> {
        "TasksSubsystem::GetBenchmarkDisplays"@
    }

    fn name() -> (r: &'static str) {
        "TasksSubsystem::GetBenchmarkDisplays"
    }

    fn log() -> (r: bool) {
        true
    }

    fn benchmark() -> (r: bool) {
        false
    }

    fn io() -> (r: bool) {
        false
    }

    fn inputs(&self) -> Self::Inputs {
    }
}

impl ImmutableTask for GetBenchmarkDisplays {
    open spec fn spec_answers(&self, state: TasksSubsystem, out: Vec<Display>) -> bool {
        spec_benchmark_displays(state, out)
    }

    fn execute(self, subsystem: &TasksSubsystem) -> Self::Output {
        subsystem.get_benchmark_displays()
    }
}

/// What an observability task returns, as one type for the subsystem's
/// mailbox.
pub enum TasksOutput {
    /// The task recorded something and returns nothing.
    Done,
    /// What `end_task` yields: the finished task's name and rendered line,
    /// or nothing when the id was never started.
    Ended(Option<Display>),
    /// A projection of the recorded logs for a presentation layer.
    Displays(Vec<Display>),
}

/// The observability subsystem's mailbox message: one of its task types.
pub enum TasksMessage {
    /// Report that a task invocation started.
    StartTask(StartTask),
    /// Report that a task invocation ended.
    EndTask(EndTask),
    /// Ask for the task logs.
    GetTaskDisplays(GetTaskDisplays),
    /// Make sure a benchmark accumulator exists.
    StartBenchmark(StartBenchmark),
    /// Report one finished benchmarked run.
    EndBenchmark(EndBenchmark),
    /// Ask for the benchmark accumulators.
    GetBenchmarkDisplays(GetBenchmarkDisplays),
}

impl SubsystemMessage<TasksSubsystem> for TasksMessage {
    type Output = TasksOutput;

    open spec fn spec_name(&self) -> Seq<char> {
        match self {
            TasksMessage::StartTask(_) => <StartTask as Task>::spec_name(),
            TasksMessage::EndTask(_) => <EndTask as Task>::spec_name(),
            TasksMessage::GetTaskDisplays(_) => <GetTaskDisplays as Task>::spec_name(),
            TasksMessage::StartBenchmark(_) => <StartBenchmark as Task>::spec_name(),
            TasksMessage::EndBenchmark(_) => <EndBenchmark as Task>::spec_name(),
            TasksMessage::GetBenchmarkDisplays(_) => <GetBenchmarkDisplays as Task>::spec_name(),
        }
    }

    open spec fn spec_mutating(&self) -> bool {
        match self {
            TasksMessage::StartTask(_) => true,
            TasksMessage::EndTask(_) => true,
            TasksMessage::GetTaskDisplays(_) => false,
            TasksMessage::StartBenchmark(_) => true,
            TasksMessage::EndBenchmark(_) => true,
            TasksMessage::GetBenchmarkDisplays(_) => false,
        }
    }

    open spec fn spec_log(&self) -> bool {
        match self {
            TasksMessage::StartTask(_) => <StartTask as Task>::spec_log(),
            TasksMessage::EndTask(_) => <EndTask as Task>::spec_log(),
            TasksMessage::GetTaskDisplays(_) => <GetTaskDisplays as Task>::spec_log(),
            TasksMessage::StartBenchmark(_) => <StartBenchmark as Task>::spec_log(),
            TasksMessage::EndBenchmark(_) => <EndBenchmark as Task>::spec_log(),
            TasksMessage::GetBenchmarkDisplays(_) => <GetBenchmarkDisplays as Task>::spec_log(),
        }
    }

    open spec fn spec_benchmark(&self) -> bool {
        match self {
            TasksMessage::StartTask(_) => <StartTask as Task>::spec_benchmark(),
            TasksMessage::EndTask(_) => <EndTask as Task>::spec_benchmark(),
            TasksMessage::GetTaskDisplays(_) => <GetTaskDisplays as Task>::spec_benchmark(),
            TasksMessage::StartBenchmark(_) => <StartBenchmark as Task>::spec_benchmark(),
            TasksMessage::EndBenchmark(_) => <EndBenchmark as Task>::spec_benchmark(),
            TasksMessage::GetBenchmarkDisplays(_) => <GetBenchmarkDisplays as Task>::spec_benchmark(),
        }
    }

    open spec fn spec_io(&self) -> bool {
        match self {
            TasksMessage::StartTask(_) => <StartTask as Task>::spec_io(),
            TasksMessage::EndTask(_) => <EndTask as Task>::spec_io(),
            TasksMessage::GetTaskDisplays(_) => <GetTaskDisplays as Task>::spec_io(),
            TasksMessage::StartBenchmark(_) => <StartBenchmark as Task>::spec_io(),
            TasksMessage::EndBenchmark(_) => <EndBenchmark as Task>::spec_io(),
            TasksMessage::GetBenchmarkDisplays(_) => <GetBenchmarkDisplays as Task>::spec_io(),
        }
    }

    open spec fn spec_answers(&self, state: TasksSubsystem, out: TasksOutput) -> bool {
        match self {
            TasksMessage::StartTask(_) => out == TasksOutput::Done,
            TasksMessage::EndTask(m) => out matches TasksOutput::Ended(r) && m.spec_answers(
                state,
                r,
            ),
            TasksMessage::GetTaskDisplays(m) => out matches TasksOutput::Displays(ds)
                && m.spec_answers(state, ds),
            TasksMessage::StartBenchmark(_) => out == TasksOutput::Done,
            TasksMessage::EndBenchmark(_) => out == TasksOutput::Done,
            TasksMessage::GetBenchmarkDisplays(m) => out matches TasksOutput::Displays(ds)
                && m.spec_answers(state, ds),
        }
    }

    open spec fn spec_transforms(&self, pre: TasksSubsystem, post: TasksSubsystem) -> bool {
        match self {
            TasksMessage::StartTask(m) => m.spec_transforms(pre, post),
            TasksMessage::EndTask(m) => m.spec_transforms(pre, post),
            TasksMessage::StartBenchmark(m) => m.spec_transforms(pre, post),
            TasksMessage::EndBenchmark(m) => m.spec_transforms(pre, post),
            TasksMessage::GetTaskDisplays(_) => post == pre,
            TasksMessage::GetBenchmarkDisplays(_) => post == pre,
        }
    }

    fn task(&self) -> (m: TaskMeta) {
        match self {
            TasksMessage::StartTask(_) => TaskMeta {
                name: <StartTask as Task>::name(),
                is_mut: true,
                log: <StartTask as Task>::log(),
                benchmark: <StartTask as Task>::benchmark(),
                io: <StartTask as Task>::io(),
            },
            TasksMessage::EndTask(_) => TaskMeta {
                name: <EndTask as Task>::name(),
                is_mut: true,
                log: <EndTask as Task>::log(),
                benchmark: <EndTask as Task>::benchmark(),
                io: <EndTask as Task>::io(),
            },
            TasksMessage::GetTaskDisplays(_) => TaskMeta {
                name: <GetTaskDisplays as Task>::name(),
                is_mut: false,
                log: <GetTaskDisplays as Task>::log(),
                benchmark: <GetTaskDisplays as Task>::benchmark(),
                io: <GetTaskDisplays as Task>::io(),
            },
            TasksMessage::StartBenchmark(_) => TaskMeta {
                name: <StartBenchmark as Task>::name(),
                is_mut: true,
                log: <StartBenchmark as Task>::log(),
                benchmark: <StartBenchmark as Task>::benchmark(),
                io: <StartBenchmark as Task>::io(),
            },
            TasksMessage::EndBenchmark(_) => TaskMeta {
                name: <EndBenchmark as Task>::name(),
                is_mut: true,
                log: <EndBenchmark as Task>::log(),
                benchmark: <EndBenchmark as Task>::benchmark(),
                io: <EndBenchmark as Task>::io(),
            },
            TasksMessage::GetBenchmarkDisplays(_) => TaskMeta {
                name: <GetBenchmarkDisplays as Task>::name(),
                is_mut: false,
                log: <GetBenchmarkDisplays as Task>::log(),
                benchmark: <GetBenchmarkDisplays as Task>::benchmark(),
                io: <GetBenchmarkDisplays as Task>::io(),
            },
        }
    }

    fn execute(self, state: &TasksSubsystem) -> Self::Output {
        match self {
            TasksMessage::GetTaskDisplays(t) => TasksOutput::Displays(t.execute(state)),
            TasksMessage::GetBenchmarkDisplays(t) => TasksOutput::Displays(t.execute(state)),
            _ => vstd::pervasive::unreached(),
        }
    }

    fn execute_mut(self, state: &mut TasksSubsystem) -> Self::Output {
        match self {
            TasksMessage::StartTask(t) => {
                t.execute(state);
                TasksOutput::Done
            },
            TasksMessage::EndTask(t) => TasksOutput::Ended(t.execute(state)),
            TasksMessage::StartBenchmark(t) => {
                t.execute(state);
                TasksOutput::Done
            },
            TasksMessage::EndBenchmark(t) => {
                t.execute(state);
                TasksOutput::Done
            },
            _ => vstd::pervasive::unreached(),
        }
    }
}

impl Subsystem for TasksSubsystem {
    type Message = TasksMessage;

    open spec fn spec_name() -> Seq<char> {
        "TasksSubsystem"@
    }

    open spec fn spec_key() -> u64 {
        TASKS_SUBSYSTEM_KEY
    }

    fn name() -> (r: &'static str) {
        "TasksSubsystem"
    }

    fn key() -> (r: u64) {
        TASKS_SUBSYSTEM_KEY
    }
}

/// Addition on durations that stops at the largest representable value.
fn sat_add(a: u64, b: u64) -> (r: u64)
    ensures
        r == spec_sat_add(a, b),
{
    if b <= u64::MAX - a {
        a + b
    } else {
        u64::MAX
    }
}

/// Whether two borrowed strings hold the same characters.
fn str_eq(a: &str, b: &str) -> (r: bool)
    ensures
        r == (a@ == b@),
{
    let a_string = String::from_str(a);
    let b_string = String::from_str(b);
    a_string == b_string
}

} // verus!
