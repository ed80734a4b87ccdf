use titan_core::counter::CounterMessage;
use titan_core::counter::CounterSubsystem;
use titan_core::counter::Increment;
use titan_core::counter::Sample;
use titan_core::duration::benchmark_display;
use titan_core::duration::format_duration;
use titan_core::subsystem::start;
use titan_core::subsystem::start_quiet;
use titan_core::subsystem::SubsystemRef;
use titan_core::tasks::benchmark_stats_display;
use titan_core::tasks::task_duration_display;
use titan_core::tasks::TasksSubsystem;

#[test]
fn first_benchmark_run_sets_all_stats() {
    let mut observer = TasksSubsystem::new();
    observer.start_benchmark("X");
    observer.end_benchmark("X", 2_000_000, benchmark_stats_display);
    assert_eq!(observer.benchmark_count(), 1);
    let b = observer.benchmark_at(0);
    assert_eq!(b.runs, 1);
    assert_eq!(b.average, 2_000_000);
    assert_eq!(b.min, 2_000_000);
    assert_eq!(b.max, 2_000_000);
    assert_eq!(
        b.display,
        benchmark_display(2_000_000, 2_000_000, 2_000_000, 2_000_000)
    );
}

#[test]
fn second_benchmark_run_updates_average_and_bounds() {
    let mut observer = TasksSubsystem::new();
    observer.start_benchmark("X");
    observer.end_benchmark("X", 2_000_000, benchmark_stats_display);
    observer.end_benchmark("X", 6_000_000, benchmark_stats_display);
    let b = observer.benchmark_at(0);
    assert_eq!(b.runs, 2);
    assert_eq!(b.average, 4_000_000);
    assert_eq!(b.min, 2_000_000);
    assert_eq!(b.max, 6_000_000);
    assert_eq!(b.run_time, 8_000_000);
}

#[test]
fn repeated_benchmark_start_is_a_no_op() {
    let mut observer = TasksSubsystem::new();
    observer.start_benchmark("X");
    observer.end_benchmark("X", 5, benchmark_stats_display);
    observer.start_benchmark("X");
    assert_eq!(observer.benchmark_count(), 1);
    assert_eq!(observer.benchmark_at(0).runs, 1);
}

#[test]
fn fresh_benchmark_has_extreme_bounds() {
    let mut observer = TasksSubsystem::new();
    observer.start_benchmark("X");
    let b = observer.benchmark_at(0);
    assert_eq!(b.runs, 0);
    assert_eq!(b.max, 0);
    assert_eq!(b.min, u64::MAX);
    assert_eq!(b.display, "X");
}

#[test]
fn ending_an_unknown_benchmark_is_a_no_op() {
    let mut observer = TasksSubsystem::new();
    observer.end_benchmark("X", 5, benchmark_stats_display);
    assert_eq!(observer.benchmark_count(), 0);
}

#[test]
fn start_task_then_end_task_completes_the_log() {
    let mut observer = TasksSubsystem::new();
    observer.start_task(String::from("id-a"), "T", 0);
    assert_eq!(observer.task_count(), 1);
    assert!(!observer.task_at(0).complete);
    assert_eq!(observer.task_at(0).display, "Exec...");
    let out = observer.end_task(String::from("id-a"), 1_000_000, task_duration_display);
    let display = out.expect("the started task should be found");
    assert_eq!(display.name, "T");
    assert_eq!(display.display, format_duration(1_000_000));
    assert!(observer.task_at(0).complete);
    assert_eq!(observer.task_at(0).duration, 1_000_000);
}

#[test]
fn ending_an_unknown_task_returns_nothing() {
    let mut observer = TasksSubsystem::new();
    let out = observer.end_task(String::from("missing"), 5, task_duration_display);
    assert!(out.is_none());
}

#[test]
fn repeated_start_task_is_a_no_op() {
    let mut observer = TasksSubsystem::new();
    observer.start_task(String::from("id-a"), "T", 0);
    observer.start_task(String::from("id-a"), "T", 1);
    assert_eq!(observer.task_count(), 1);
    assert_eq!(observer.task_at(0).depth, 0);
}

#[test]
fn task_displays_carry_name_and_depth() {
    let mut observer = TasksSubsystem::new();
    observer.start_task(String::from("id-a"), "T", 2);
    let displays = observer.get_task_displays();
    assert_eq!(displays.len(), 1);
    assert_eq!(displays[0].name, "T - 2");
    assert_eq!(displays[0].display, "Exec...");
}

#[test]
fn benchmark_displays_carry_names() {
    let mut observer = TasksSubsystem::new();
    observer.start_benchmark("X");
    observer.start_benchmark("Y");
    let displays = observer.get_benchmark_displays();
    assert_eq!(displays.len(), 2);
    assert_eq!(displays[0].name, "X");
    assert_eq!(displays[1].name, "Y");
}

#[test]
fn instrumented_dispatch_feeds_the_observer() {
    let mut counter_ref = SubsystemRef::<CounterSubsystem>::new();
    let mut tasks_ref = SubsystemRef::<TasksSubsystem>::new();
    let _a = counter_ref.send_mut(CounterMessage::Increment(Increment { n: 1 }));
    let _b = counter_ref.send_mut(CounterMessage::Increment(Increment { n: 2 }));
    let _c = counter_ref.send(CounterMessage::Sample(Sample));
    let (_state, records) = start(CounterSubsystem::new(0), &mut counter_ref, &mut tasks_ref);
    let (observer, _quiet) = start_quiet(TasksSubsystem::new(), &mut tasks_ref);
    assert_eq!(records.len(), 3);
    // The two logged increments each left a completed task log under their
    // correlation ids; the benchmarked sample fed the accumulator instead.
    assert_eq!(observer.task_count(), 2);
    assert_eq!(observer.task_at(0).id, records[0].id);
    assert!(observer.task_at(0).complete);
    assert_eq!(observer.task_at(1).id, records[1].id);
    assert!(observer.task_at(1).complete);
    assert_eq!(observer.benchmark_count(), 1);
    assert_eq!(observer.benchmark_at(0).name, "CounterSubsystem::Sample");
    assert_eq!(observer.benchmark_at(0).runs, 1);
}
