//! A minimal counter subsystem, exercising the dispatch machinery end to
//! end: a mutating task that adds to an owned counter and a read-only task
//! that observes it, wrapped in one mailbox message type.

use vstd::prelude::*;

use crate::errors::CoreError;
use crate::subsystem::record_matches;
use crate::subsystem::spec_dispatch_run;
use crate::subsystem::start;
use crate::subsystem::ReplyState;
use crate::subsystem::start_quiet;
use crate::subsystem::Subsystem;
use crate::subsystem::SubsystemMessage;
use crate::subsystem::SubsystemRef;
use crate::task::ImmutableTask;
use crate::task::MutableTask;
use crate::task::Task;
use crate::task::TaskMeta;
use crate::tasks::TasksSubsystem;

verus! {

/// The registry key of the counter subsystem.
pub const COUNTER_SUBSYSTEM_KEY: u64 = 2;

/// A subsystem owning one counter.
pub struct CounterSubsystem {
    value: u64,
}

/// Addition on counter values, wrapping at the type's bound.
pub open spec fn spec_wrapping_add(a: u64, b: u64) -> u64 {
    if a + b <= u64::MAX {
        (a + b) as u64
    } else {
        (a + b - 0x1_0000_0000_0000_0000) as u64
    }
}

impl CounterSubsystem {
    /// The counter's current value.
    pub closed spec fn spec_value(self) -> u64 {
        self.value
    }

    /// A counter holding `value`.
    pub fn new(value: u64) -> (r: Self)
        ensures
            r.spec_value() == value,
    {
        CounterSubsystem { value }
    }

    /// Add `n` to the counter, wrapping at the type's bound.
    pub fn add(&mut self, n: u64)
        ensures
            final(self).spec_value() == spec_wrapping_add(old(self).spec_value(), n),
    {
        self.value = self.value.wrapping_add(n);
    }

    /// The counter's current value.
    pub fn get(&self) -> (r: u64)
        ensures
            r == self.spec_value(),
    {
        self.value
    }
}

/// Add an amount to the counter; demands exclusive access.
pub struct Increment {
    /// How much to add.
    pub n: u64,
}

impl Task for Increment {
    type Subsystem = CounterSubsystem;

    type Event = ();

    type Inputs = u64;

    type Output = ();

    open spec fn spec_name() -> Seq<char> {
        "CounterSubsystem::Increment"@
    }

    fn name() -> (r: &'static str) {
        "CounterSubsystem::Increment"
    }

    fn log() -> (r: bool) {
        true
    }

    fn benchmark() -> (r: bool) {
        false
    }

    fn io() -> (r: bool) {
        false
    }

    fn inputs(&self) -> Self::Inputs {
        self.n
    }
}

impl MutableTask for Increment {
    open spec fn spec_answers(&self, pre: CounterSubsystem, out: ()) -> bool {
        true
    }

    open spec fn spec_transforms(&self, pre: CounterSubsystem, post: CounterSubsystem) -> bool {
        post.spec_value() == spec_wrapping_add(pre.spec_value(), self.n)
    }

    fn execute(self, subsystem: &mut CounterSubsystem) -> Self::Output {
        subsystem.add(self.n)
    }
}

/// Observe the counter; runs under shared access.
pub struct Get;

impl Task for Get {
    type Subsystem = CounterSubsystem;

    type Event = ();

    type Inputs = ();

    type Output = u64;

    open spec fn spec_name() -> Seq<char> {
        "CounterSubsystem::Get"@
    }

    fn name() -> (r: &'static str) {
        "CounterSubsystem::Get"
    }

    fn log() -> (r: bool) {
        true
    }

    fn benchmark() -> (r: bool) {
        false
    }

    fn io() -> (r: bool) {
        false
    }

    fn inputs(&self) -> Self::Inputs {
    }
}

impl ImmutableTask for Get {
    open spec fn spec_answers(&self, state: CounterSubsystem, out: u64) -> bool {
        out == state.spec_value()
    }

    fn execute(self, subsystem: &CounterSubsystem) -> Self::Output {
        subsystem.get()
    }
}

/// Sample the counter for running statistics: read-only, benchmarked
/// instead of logged, and placed on the blocking-capable lane.
pub struct Sample;

impl Task for Sample {
    type Subsystem = CounterSubsystem;

    type Event = ();

    type Inputs = ();

    type Output = u64;

    open spec fn spec_name() -> Seq<char> {
        "CounterSubsystem::Sample"@
    }

    open spec fn spec_benchmark() -> bool {
        true
    }

    open spec fn spec_io() -> bool {
        true
    }

    fn name() -> (r: &'static str) {
        "CounterSubsystem::Sample"
    }

    fn log() -> (r: bool) {
        true
    }

    fn benchmark() -> (r: bool) {
        true
    }

    fn io() -> (r: bool) {
        true
    }

    fn inputs(&self) -> Self::Inputs {
    }
}

impl ImmutableTask for Sample {
    open spec fn spec_answers(&self, state: CounterSubsystem, out: u64) -> bool {
        out == state.spec_value()
    }

    fn execute(self, subsystem: &CounterSubsystem) -> Self::Output {
        subsystem.get()
    }
}

/// What a counter task returns, as one type for the subsystem's mailbox.
#[derive(Clone, Copy, Debug, PartialEq, Eq, Structural)]
pub enum CounterOutput {
    /// The task mutated the counter and returns nothing.
    Done,
    /// The observed counter value.
    Value(u64),
}

/// The counter subsystem's mailbox message: one of its task types.
pub enum CounterMessage {
    /// Add an amount to the counter.
    Increment(Increment),
    /// Observe the counter.
    Get(Get),
    /// Sample the counter for running statistics.
    Sample(Sample),
}

impl SubsystemMessage<CounterSubsystem> for CounterMessage {
    type Output = CounterOutput;

    open spec fn spec_name(&self) -> Seq<char> {
        match self {
            CounterMessage::Increment(_) => <Increment as Task>::spec_name(),
            CounterMessage::Get(_) => <Get as Task>::spec_name(),
            CounterMessage::Sample(_) => <Sample as Task>::spec_name(),
        }
    }

    open spec fn spec_mutating(&self) -> bool {
        match self {
            CounterMessage::Increment(_) => true,
            CounterMessage::Get(_) => false,
            CounterMessage::Sample(_) => false,
        }
    }

    open spec fn spec_log(&self) -> bool {
        match self {
            CounterMessage::Increment(_) => <Increment as Task>::spec_log(),
            CounterMessage::Get(_) => <Get as Task>::spec_log(),
            CounterMessage::Sample(_) => <Sample as Task>::spec_log(),
        }
    }

    open spec fn spec_benchmark(&self) -> bool {
        match self {
            CounterMessage::Increment(_) => <Increment as Task>::spec_benchmark(),
            CounterMessage::Get(_) => <Get as Task>::spec_benchmark(),
            CounterMessage::Sample(_) => <Sample as Task>::spec_benchmark(),
        }
    }

    open spec fn spec_io(&self) -> bool {
        match self {
            CounterMessage::Increment(_) => <Increment as Task>::spec_io(),
            CounterMessage::Get(_) => <Get as Task>::spec_io(),
            CounterMessage::Sample(_) => <Sample as Task>::spec_io(),
        }
    }

    open spec fn spec_answers(&self, state: CounterSubsystem, out: CounterOutput) -> bool {
        match self {
            CounterMessage::Increment(_) => out == CounterOutput::Done,
            CounterMessage::Get(m) => out matches CounterOutput::Value(v) && m.spec_answers(
                state,
                v,
            ),
            CounterMessage::Sample(m) => out matches CounterOutput::Value(v) && m.spec_answers(
                state,
                v,
            ),
        }
    }

    open spec fn spec_transforms(&self, pre: CounterSubsystem, post: CounterSubsystem) -> bool {
        match self {
            CounterMessage::Increment(m) => m.spec_transforms(pre, post),
            CounterMessage::Get(_) => post == pre,
            CounterMessage::Sample(_) => post == pre,
        }
    }

    fn task(&self) -> (m: TaskMeta) {
        match self {
            CounterMessage::Increment(_) => TaskMeta {
                name: <Increment as Task>::name(),
                is_mut: true,
                log: <Increment as Task>::log(),
                benchmark: <Increment as Task>::benchmark(),
                io: <Increment as Task>::io(),
            },
            CounterMessage::Get(_) => TaskMeta {
                name: <Get as Task>::name(),
                is_mut: false,
                log: <Get as Task>::log(),
                benchmark: <Get as Task>::benchmark(),
                io: <Get as Task>::io(),
            },
            CounterMessage::Sample(_) => TaskMeta {
                name: <Sample as Task>::name(),
                is_mut: false,
                log: <Sample as Task>::log(),
                benchmark: <Sample as Task>::benchmark(),
                io: <Sample as Task>::io(),
            },
        }
    }

    fn execute(self, state: &CounterSubsystem) -> Self::Output {
        match self {
            CounterMessage::Get(t) => CounterOutput::Value(t.execute(state)),
            CounterMessage::Sample(t) => CounterOutput::Value(t.execute(state)),
            _ => vstd::pervasive::unreached(),
        }
    }

    fn execute_mut(self, state: &mut CounterSubsystem) -> Self::Output {
        match self {
            CounterMessage::Increment(t) => {
                t.execute(state);
                CounterOutput::Done
            },
            _ => vstd::pervasive::unreached(),
        }
    }
}

impl Subsystem for CounterSubsystem {
    type Message = CounterMessage;

    open spec fn spec_name() -> Seq<char> {
        "CounterSubsystem"@
    }

    open spec fn spec_key() -> u64 {
        COUNTER_SUBSYSTEM_KEY
    }

    fn name() -> (r: &'static str) {
        "CounterSubsystem"
    }

    fn key() -> (r: u64) {
        COUNTER_SUBSYSTEM_KEY
    }
}

/// Boot a small pipeline end to end: a counter subsystem beside the
/// observability subsystem. Two increments of five and three and then a
/// read are sent through one mailbox; the counter's loop runs instrumented,
/// the observability subsystem's loop runs quiet behind it, and the read's
/// answer is resolved from its handle. The loop answers the read with the
/// counter the read ran against, so the yielded value is exactly eight.
pub fn run() -> (r: Result<u64, CoreError>)
    ensures
        r == Result::<u64, CoreError>::Ok(8),
{
    let mut counter_ref = SubsystemRef::<CounterSubsystem>::new();
    let mut tasks_ref = SubsystemRef::<TasksSubsystem>::new();
    let _increment_once = counter_ref.send_mut(CounterMessage::Increment(Increment { n: 5 }));
    let _increment_again = counter_ref.send_mut(CounterMessage::Increment(Increment { n: 3 }));
    let read_back = counter_ref.send(CounterMessage::Get(Get));
    let ghost queued = counter_ref.spec_queue();
    proof {
        assert(queued.len() == 3);
        assert(queued[0].message == CounterMessage::Increment(Increment { n: 5 }));
        assert(queued[1].message == CounterMessage::Increment(Increment { n: 3 }));
        assert(queued[2].message == CounterMessage::Get(Get));
        assert(queued[2].ticket == 2);
        assert(read_back.spec_ticket() == 2);
    }
    let seed = CounterSubsystem::new(0);
    let ghost c0 = seed;
    let (final_counter, records) = start(seed, &mut counter_ref, &mut tasks_ref);
    proof {
        assert(records@.len() == 3);
        assert(record_matches(records@[2], queued[2]));
        let sts = choose|sts: Seq<CounterSubsystem>|
            spec_dispatch_run(c0, queued, counter_ref.spec_replies(), sts) && final_counter
                == sts[3];
        assert(sts[1].spec_value() == 5);
        assert(sts[2].spec_value() == 8);
        assert(counter_ref.spec_replies()[2] == ReplyState::Answered(CounterOutput::Value(8)));
    }
    let (_observer, _quiet_records) = start_quiet(TasksSubsystem::new(), &mut tasks_ref);
    let answer = read_back.resolve(&mut counter_ref)?;
    match answer {
        CounterOutput::Value(v) => Ok(v),
        CounterOutput::Done => vstd::pervasive::unreached(),
    }
}

/// Boot the demonstration pipeline and report only whether it ran: the
/// thin entry point a host program calls.
pub fn entry() -> (r: Result<(), CoreError>)
    ensures
        r == Result::<(), CoreError>::Ok(()),
{
    let _observed = run()?;
    Ok(())
}

} // verus!
