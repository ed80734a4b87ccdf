use titan_core::counter::entry;
use titan_core::counter::run;
use titan_core::counter::CounterMessage;
use titan_core::counter::CounterOutput;
use titan_core::counter::CounterSubsystem;
use titan_core::counter::Get;
use titan_core::counter::Increment;
use titan_core::counter::Sample;
use titan_core::errors::CoreError;
use titan_core::subsystem::start_quiet;
use titan_core::subsystem::BatchHandle;
use titan_core::subsystem::Lane;
use titan_core::subsystem::SubsystemRef;
use titan_core::task::TaskInfo;

#[test]
fn receive_order_equals_send_order() {
    let mut r = SubsystemRef::<CounterSubsystem>::new();
    let _a = r.send_mut(CounterMessage::Increment(Increment { n: 1 }));
    let _b = r.send(CounterMessage::Get(Get));
    let _c = r.send_mut(CounterMessage::Increment(Increment { n: 2 }));
    let _d = r.send(CounterMessage::Get(Get));
    let (_state, records) = start_quiet(CounterSubsystem::new(0), &mut r);
    assert_eq!(records.len(), 4);
    let expected_names = [
        "CounterSubsystem::Increment",
        "CounterSubsystem::Get",
        "CounterSubsystem::Increment",
        "CounterSubsystem::Get",
    ];
    let expected_modes = [true, false, true, false];
    for (i, rec) in records.iter().enumerate() {
        assert_eq!(rec.ticket, i);
        assert_eq!(rec.meta.name, expected_names[i]);
        assert_eq!(rec.meta.is_mut, expected_modes[i]);
        assert_eq!(rec.lane, Lane::Concurrent);
    }
}

#[test]
fn increment_twice_then_get_returns_eight() {
    let mut r = SubsystemRef::<CounterSubsystem>::new();
    let first = r.send_mut(CounterMessage::Increment(Increment { n: 5 }));
    let second = r.send_mut(CounterMessage::Increment(Increment { n: 3 }));
    let read = r.send(CounterMessage::Get(Get));
    let (_state, _records) = start_quiet(CounterSubsystem::new(0), &mut r);
    assert_eq!(first.resolve(&mut r), Ok(CounterOutput::Done));
    assert_eq!(second.resolve(&mut r), Ok(CounterOutput::Done));
    assert_eq!(read.resolve(&mut r), Ok(CounterOutput::Value(8)));
}

#[test]
fn run_demo_observes_eight() {
    assert_eq!(run(), Ok(8));
}

#[test]
fn entry_boots_the_demo() {
    assert_eq!(entry(), Ok(()));
}

#[test]
fn new_ids_extend_the_task_name() {
    let task = Increment { n: 0 };
    let id = task.new_id();
    let name = "CounterSubsystem::Increment";
    assert_eq!(id.len(), name.len() + 17);
    assert!(id.starts_with(name));
    assert_eq!(id.as_bytes()[name.len()], b'_');
    assert_ne!(id, task.new_id());
}

#[test]
fn abandoned_reply_resolves_to_cancellation() {
    let mut r = SubsystemRef::<CounterSubsystem>::new();
    let handle = r.send(CounterMessage::Get(Get));
    assert!(!handle.is_ready(&r));
    r.close();
    assert!(handle.is_ready(&r));
    assert_eq!(handle.resolve(&mut r), Err(CoreError::TaskCancelled));
}

#[test]
fn send_after_close_resolves_to_cancellation() {
    let mut r = SubsystemRef::<CounterSubsystem>::new();
    r.close();
    let handle = r.send(CounterMessage::Get(Get));
    assert!(handle.is_ready(&r));
    assert_eq!(handle.resolve(&mut r), Err(CoreError::TaskCancelled));
    let (_state, records) = start_quiet(CounterSubsystem::new(0), &mut r);
    assert_eq!(records.len(), 0);
}

#[test]
fn batch_yields_one_result_per_task() {
    let mut r = SubsystemRef::<CounterSubsystem>::new();
    let batch = r.send_batch(vec![
        CounterMessage::Get(Get),
        CounterMessage::Get(Get),
        CounterMessage::Get(Get),
    ]);
    let (_state, records) = start_quiet(CounterSubsystem::new(7), &mut r);
    assert_eq!(records.len(), 3);
    let results = batch.resolve_all(&mut r);
    assert_eq!(results.len(), 3);
    for outcome in results {
        assert_eq!(outcome, Ok(CounterOutput::Value(7)));
    }
}

#[test]
fn batch_mut_applies_every_task() {
    let mut r = SubsystemRef::<CounterSubsystem>::new();
    let batch = r.send_batch_mut(vec![
        CounterMessage::Increment(Increment { n: 2 }),
        CounterMessage::Increment(Increment { n: 40 }),
    ]);
    let read = r.send(CounterMessage::Get(Get));
    let (_state, _records) = start_quiet(CounterSubsystem::new(0), &mut r);
    let results = batch.resolve_all(&mut r);
    assert_eq!(results.len(), 2);
    assert_eq!(read.resolve(&mut r), Ok(CounterOutput::Value(42)));
}

#[test]
fn empty_batch_resolves_to_nothing() {
    let mut r = SubsystemRef::<CounterSubsystem>::new();
    let batch = r.send_batch(Vec::new());
    let results = batch.resolve_all(&mut r);
    assert_eq!(results.len(), 0);
}

#[test]
fn one_abandoned_task_does_not_block_the_batch() {
    let mut r = SubsystemRef::<CounterSubsystem>::new();
    let answered = r.send(CounterMessage::Get(Get));
    let (_state, _records) = start_quiet(CounterSubsystem::new(3), &mut r);
    let abandoned = r.send(CounterMessage::Get(Get));
    r.close();
    let batch = BatchHandle::new(vec![answered, abandoned]);
    let results = batch.resolve_all(&mut r);
    assert_eq!(results.len(), 2);
    assert_eq!(results[0], Ok(CounterOutput::Value(3)));
    assert_eq!(results[1], Err(CoreError::TaskCancelled));
}

#[test]
fn io_flagged_task_takes_the_blocking_lane() {
    let mut r = SubsystemRef::<CounterSubsystem>::new();
    let sample = r.send(CounterMessage::Sample(Sample));
    let (_state, records) = start_quiet(CounterSubsystem::new(11), &mut r);
    assert_eq!(records.len(), 1);
    assert_eq!(records[0].lane, Lane::Blocking);
    assert!(records[0].meta.io);
    assert_eq!(sample.resolve(&mut r), Ok(CounterOutput::Value(11)));
}

#[test]
fn correlation_ids_join_name_and_suffix() {
    let mut r = SubsystemRef::<CounterSubsystem>::new();
    let _h = r.send(CounterMessage::Get(Get));
    let _k = r.send(CounterMessage::Get(Get));
    let (_state, records) = start_quiet(CounterSubsystem::new(0), &mut r);
    let name = "CounterSubsystem::Get";
    assert_eq!(records[0].id.len(), name.len() + 17);
    assert!(records[0].id.starts_with(name));
    assert_eq!(records[0].id.as_bytes()[name.len()], b'_');
    assert_ne!(records[0].id, records[1].id);
}
