//! Tasks: typed units of work addressed to a subsystem.
//!
//! A task type fixes its subsystem, its output, a stable name, and the
//! `log`, `benchmark` and `io` flags the dispatch loop reads. A task that
//! only reads the subsystem state implements `ImmutableTask`; one that
//! mutates it implements `MutableTask`. `TaskInfo` is the uniform,
//! per-value face of those declarations, and also mints the correlation
//! ids that join a task's `Start` and `End` instrumentation events.

use vstd::prelude::*;
use vstd::string::StrSliceExecFns;
use vstd::string::StringExecFns;

verus! {

/// A marker for event types a task may announce.
pub trait Event {}

impl Event for () {

}

/// The declaration a dispatched task presents to the loop: its stable name,
/// its access mode, and its `log`, `benchmark` and `io` flags.
#[derive(Clone, Copy, Debug)]
pub struct TaskMeta {
    /// The task's stable name.
    pub name: &'static str,
    /// Whether the task demands exclusive access to the subsystem state.
    pub is_mut: bool,
    /// Whether the loop should record the task in the task log.
    pub log: bool,
    /// Whether the loop should feed the task into the benchmark statistics
    /// instead of the task log.
    pub benchmark: bool,
    /// Whether the task belongs on the blocking-capable lane.
    pub io: bool,
}

/// A typed unit of work. The associated items fix, at the type level, which
/// subsystem the task addresses, what it returns, and the flags the
/// dispatch loop reads.
pub trait Task: Sized {
    /// The subsystem the task addresses.
    type Subsystem;

    /// The event type the task may announce.
    type Event: Event;

    /// The inputs the task was built from.
    type Inputs;

    /// What the task returns.
    type Output;

    /// The task's stable name, as specification-level characters.
    spec fn spec_name() -> Seq<char>;

    /// Whether the task declares the `log` flag.
    open spec fn spec_log() -> bool {
        true
    }

    /// Whether the task declares the `benchmark` flag.
    open spec fn spec_benchmark() -> bool {
        false
    }

    /// Whether the task declares the `io` flag.
    open spec fn spec_io() -> bool {
        false
    }

    /// The task's stable name.
    fn name() -> (r: &'static str)
        ensures
            r@ == Self::spec_name(),
    ;

    /// Whether the loop should record the task in the task log.
    fn log() -> (r: bool)
        ensures
            r == Self::spec_log(),
    ;

    /// Whether the loop should feed the task into the benchmark statistics.
    fn benchmark() -> (r: bool)
        ensures
            r == Self::spec_benchmark(),
    ;

    /// Whether the task belongs on the blocking-capable lane.
    fn io() -> (r: bool)
        ensures
            r == Self::spec_io(),
    ;

    /// The inputs the task was built from.
    fn inputs(&self) -> Self::Inputs;
}

/// A task that reads the subsystem state under shared access.
pub trait ImmutableTask: Task {
    /// Whether `out` is what the task yields when read against `state`.
    spec fn spec_answers(&self, state: Self::Subsystem, out: Self::Output) -> bool;

    /// Consume the task, reading the subsystem state.
    fn execute(self, subsystem: &Self::Subsystem) -> (r: Self::Output)
        ensures
            self.spec_answers(*subsystem, r),
    ;
}

/// A task that mutates the subsystem state under exclusive access.
pub trait MutableTask: Task {
    /// Whether `out` is what the task yields when run against state `pre`.
    spec fn spec_answers(&self, pre: Self::Subsystem, out: Self::Output) -> bool;

    /// Whether `post` is the state the task leaves behind from `pre`.
    spec fn spec_transforms(&self, pre: Self::Subsystem, post: Self::Subsystem) -> bool;

    /// Consume the task, mutating the subsystem state.
    fn execute(self, subsystem: &mut Self::Subsystem) -> (r: Self::Output)
        ensures
            self.spec_answers(*old(subsystem), r),
            self.spec_transforms(*old(subsystem), *final(subsystem)),
    ;
}

/// Whether `id` is a correlation id for a task named `name`: the name, one
/// underscore, and a sixteen-character random suffix.
pub open spec fn correlation_id_of(id: Seq<char>, name: Seq<char>) -> bool {
    &&& id.len() == name.len() + 17
    &&& id.subrange(0, name.len() as int) == name
    &&& id[name.len() as int] == '_'
}

/// Relies on `nanoid::format` with the crate's URL-safe alphabet: the
/// result holds exactly sixteen characters drawn from that alphabet; which
/// characters is random.
#[verifier::external_body]
fn random_suffix() -> (r: String)
    ensures
        r@.len() == 16,
{
    nanoid::format(nanoid::rngs::default, &nanoid::alphabet::SAFE, 16)
}

/// Mint a fresh correlation id for a task named `name`.
pub fn make_correlation_id(name: &str) -> (r: String)
    ensures
        correlation_id_of(r@, name@),
{
    let mut id = String::from_str(name);
    id.append("_");
    let suffix = random_suffix();
    id.append(suffix.as_str());
    proof {
        reveal_strlit("_");
        assert(id@.subrange(0, name@.len() as int) =~= name@);
    }
    id
}

/// The uniform, per-value face of a task's declaration, used where task
/// values of different types travel through one dispatch path.
pub trait TaskInfo {
    /// The task's stable name, as specification-level characters.
    spec fn spec_info_name(&self) -> Seq<char>;

    /// Whether the task declares the `log` flag.
    spec fn spec_info_log(&self) -> bool;

    /// Whether the task declares the `benchmark` flag.
    spec fn spec_info_benchmark(&self) -> bool;

    /// Whether the task declares the `io` flag.
    spec fn spec_info_io(&self) -> bool;

    /// The task's stable name.
    fn name(&self) -> (r: &'static str)
        ensures
            r@ == self.spec_info_name(),
    ;

    /// Whether the loop should record the task in the task log.
    fn log(&self) -> (r: bool)
        ensures
            r == self.spec_info_log(),
    ;

    /// Whether the loop should feed the task into the benchmark statistics.
    fn benchmark(&self) -> (r: bool)
        ensures
            r == self.spec_info_benchmark(),
    ;

    /// Whether the task belongs on the blocking-capable lane.
    fn io(&self) -> (r: bool)
        ensures
            r == self.spec_info_io(),
    ;

    /// Mint a fresh correlation id: the task's name, an underscore, and a
    /// random sixteen-character suffix. Ids join a task's `Start` and `End`
    /// instrumentation events and never address anything.
    fn new_id(&self) -> (r: String)
        ensures
            correlation_id_of(r@, self.spec_info_name()),
    ;
}

impl<T: Task> TaskInfo for T {
    open spec fn spec_info_name(&self) -> Seq<char> {
        T::spec_name()
    }

    open spec fn spec_info_log(&self) -> bool {
        T::spec_log()
    }

    open spec fn spec_info_benchmark(&self) -> bool {
        T::spec_benchmark()
    }

    open spec fn spec_info_io(&self) -> bool {
        T::spec_io()
    }

    fn name(&self) -> (r: &'static str)
        ensures
            r@ == self.spec_info_name(),
    {
        <T as Task>::name()
    }

    fn log(&self) -> (r: bool)
        ensures
            r == self.spec_info_log(),
    {
        <T as Task>::log()
    }

    fn benchmark(&self) -> (r: bool)
        ensures
            r == self.spec_info_benchmark(),
    {
        <T as Task>::benchmark()
    }

    fn io(&self) -> (r: bool)
        ensures
            r == self.spec_info_io(),
    {
        <T as Task>::io()
    }

    fn new_id(&self) -> (r: String)
        ensures
            correlation_id_of(r@, self.spec_info_name()),
    {
        make_correlation_id(<T as Task>::name())
    }
}

} // verus!
