//! Subsystems, mailboxes and the dispatch loop.
//!
//! A subsystem owns private state and is addressed only through its
//! mailbox: callers wrap a task into a `TaskMessage`, enqueue it with
//! `send`/`send_mut` on the subsystem's `SubsystemRef`, and hold the
//! task's pending result as a `TaskHandle`. The dispatch loop (`start`, or
//! `start_quiet` for a subsystem that must not instrument itself) dequeues
//! messages strictly in send order, picks an execution lane from the
//! task's `io` flag, takes a shared or exclusive pass on the state for the
//! task's access mode, emits instrumentation to the observability
//! subsystem, and answers the reply slot the handle reads.
//!
//! Task messages of different task types travel through one mailbox behind
//! a narrow executor interface (`SubsystemMessage`): a name, the declared
//! flags, and an execute operation per access mode, implemented by each
//! subsystem's message type.

use vstd::prelude::*;

use crate::arclock::ArcLock;
use crate::errors::CoreError;
use crate::task::ImmutableTask;
use crate::task::MutableTask;
use crate::task::Task;
use crate::task::TaskMeta;
use crate::task::correlation_id_of;
use crate::task::make_correlation_id;
use crate::tasks::EndBenchmark;
use crate::tasks::EndTask;
use crate::tasks::StartBenchmark;
use crate::tasks::StartTask;
use crate::tasks::TasksMessage;
use crate::tasks::TasksSubsystem;

verus! {

/// The narrow executor interface a subsystem's message type implements:
/// the wrapped task's name and flags, and one execute operation per
/// access mode. One mailbox carries values of one such type, which wraps
/// every task type addressed to the subsystem.
pub trait SubsystemMessage<S>: Sized {
    /// What the wrapped task returns.
    type Output;

    /// The wrapped task's stable name, as specification-level characters.
    spec fn spec_name(&self) -> Seq<char>;

    /// Whether the wrapped task demands exclusive access.
    spec fn spec_mutating(&self) -> bool;

    /// Whether the wrapped task declares the `log` flag.
    spec fn spec_log(&self) -> bool;

    /// Whether the wrapped task declares the `benchmark` flag.
    spec fn spec_benchmark(&self) -> bool;

    /// Whether the wrapped task declares the `io` flag.
    spec fn spec_io(&self) -> bool;

    /// Whether `out` is what the wrapped task yields when run against
    /// `state`.
    spec fn spec_answers(&self, state: S, out: Self::Output) -> bool;

    /// Whether `post` is the state the wrapped task leaves behind from
    /// `pre`; meaningful only for a task demanding exclusive access.
    spec fn spec_transforms(&self, pre: S, post: S) -> bool;

    /// The wrapped task's declaration: its name and flags.
    fn task(&self) -> (m: TaskMeta)
        ensures
            m.name@ == self.spec_name(),
            m.is_mut == self.spec_mutating(),
            m.log == self.spec_log(),
            m.benchmark == self.spec_benchmark(),
            m.io == self.spec_io(),
    ;

    /// Execute the wrapped task under shared access.
    fn execute(self, state: &S) -> (r: Self::Output)
        requires
            !self.spec_mutating(),
        ensures
            self.spec_answers(*state, r),
    ;

    /// Execute the wrapped task under exclusive access.
    fn execute_mut(self, state: &mut S) -> (r: Self::Output)
        requires
            self.spec_mutating(),
        ensures
            self.spec_answers(*old(state), r),
            self.spec_transforms(*old(state), *final(state)),
    ;
}

/// An envelope pairing one task message with the reply slot its handle
/// reads.
pub struct TaskMessage<S: Subsystem> {
    /// The wrapped task message.
    pub message: S::Message,
    /// The index of the reply slot `send` paired with this message.
    pub ticket: usize,
}

/// The state of one reply slot: unanswered, answered with the task's
/// output, abandoned without an answer, or already read through its
/// handle.
pub enum ReplyState<T> {
    /// The task has not been answered yet.
    Pending,
    /// The task's output, not yet read.
    Answered(T),
    /// The slot was abandoned before it was answered; its handle resolves
    /// to a cancellation error.
    Abandoned,
    /// The answer was read through the handle.
    Taken,
}

/// The output type of a subsystem's message type.
pub type MessageOutput<S> = <<S as Subsystem>::Message as SubsystemMessage<S>>::Output;

/// A subsystem's mailbox: the queue of pending task messages, in send
/// order, and the reply slots of every message ever sent through it.
///
/// In this synchronous core the capability owns the whole mailbox — the
/// send side callers use and the receive side the loop drains are one
/// value. Sharing clones of one mailbox would take concurrent ownership,
/// which this model deliberately forgoes; whoever holds the mailbox is the
/// one who may send.
pub struct SubsystemRef<S: Subsystem> {
    queue: Vec<TaskMessage<S>>,
    replies: Vec<ReplyState<MessageOutput<S>>>,
    closed: bool,
}

/// A pending task result: reads the reply slot that `send` paired with the
/// task.
pub struct TaskHandle<S: Subsystem> {
    ticket: usize,
    _subsystem: core::marker::PhantomData<S>,
}

impl<S: Subsystem> TaskHandle<S> {
    /// The reply slot this handle reads.
    pub closed spec fn spec_ticket(self) -> int {
        self.ticket as int
    }

    /// The index of the reply slot this handle reads; never negative.
    pub fn ticket(&self) -> (r: usize)
        ensures
            r == self.spec_ticket(),
            0 <= self.spec_ticket(),
    {
        self.ticket
    }

    /// Whether the handle would resolve now: its slot is answered or
    /// abandoned.
    pub fn is_ready(&self, source: &SubsystemRef<S>) -> (r: bool)
        requires
            self.spec_ticket() < source.spec_replies().len(),
        ensures
            r == (source.spec_replies()[self.spec_ticket()] is Answered
                || source.spec_replies()[self.spec_ticket()] is Abandoned),
    {
        match &source.replies[self.ticket] {
            ReplyState::Answered(_) => true,
            ReplyState::Abandoned => true,
            _ => false,
        }
    }

    /// Read the task's outcome: the answer if the subsystem answered, and
    /// a `TaskCancelled` error if the slot was abandoned unanswered. In
    /// this synchronous core a pending slot cannot be awaited, so the
    /// handle is resolved after the loop has run.
    pub fn resolve(self, source: &mut SubsystemRef<S>) -> (r: Result<MessageOutput<S>, CoreError>)
        requires
            self.spec_ticket() < old(source).spec_replies().len(),
            old(source).spec_replies()[self.spec_ticket()] is Answered || old(source).spec_replies()[self.spec_ticket()] is Abandoned,
        ensures
            final(source).spec_queue() == old(source).spec_queue(),
            final(source).spec_replies().len() == old(source).spec_replies().len(),
            old(source).spec_replies()[self.spec_ticket()] matches ReplyState::Answered(v) ==> (r
                == Result::<MessageOutput<S>, CoreError>::Ok(v) && final(source).spec_replies()
                == old(source).spec_replies().update(self.spec_ticket(), ReplyState::Taken)),
            old(source).spec_replies()[self.spec_ticket()] is Abandoned ==> (r == Result::<
                MessageOutput<S>,
                CoreError,
            >::Err(CoreError::TaskCancelled) && final(source).spec_replies() == old(source).spec_replies()),
    {
        let abandoned = match &source.replies[self.ticket] {
            ReplyState::Abandoned => true,
            _ => false,
        };
        if abandoned {
            Err(CoreError::TaskCancelled)
        } else {
            let slot = replace_slot(&mut source.replies, self.ticket, ReplyState::Taken);
            match slot {
                ReplyState::Answered(value) => Ok(value),
                _ => vstd::pervasive::unreached(),
            }
        }
    }
}

/// Swap one reply slot for a new state, yielding the old state.
fn replace_slot<T>(replies: &mut Vec<ReplyState<T>>, i: usize, new: ReplyState<T>) -> (r:
    ReplyState<T>)
    requires
        i < old(replies).len(),
    ensures
        r == old(replies)@[i as int],
        final(replies)@ == old(replies)@.update(i as int, new),
{
    let r = replies.remove(i);
    replies.insert(i, new);
    proof {
        assert(replies@ =~= old(replies)@.update(i as int, new));
    }
    r
}

#[verifier::external_type_specification]
#[verifier::external_body]
pub struct ExInstant(std::time::Instant);

/// Relies on `std::time::Instant::now`: an opaque reading of a monotonic
/// clock.
#[verifier::external_body]
fn instant_now() -> std::time::Instant {
    std::time::Instant::now()
}

/// Relies on `std::time::Instant::elapsed`: the time since the reading was
/// taken. What it measures depends on the clock, so nothing is promised of
/// it.
#[verifier::external_body]
fn instant_elapsed(start: &std::time::Instant) -> core::time::Duration {
    start.elapsed()
}

/// Relies on `core::time::Duration::as_nanos`: the duration as whole
/// nanoseconds. The duration is opaque here, so nothing is promised of the
/// count.
#[verifier::external_body]
fn duration_as_nanos(d: &core::time::Duration) -> u128 {
    d.as_nanos()
}

/// The time since `start`, in whole nanoseconds, stopping at the largest
/// representable count.
fn elapsed_nanos(start: &std::time::Instant) -> u64 {
    let nanos = duration_as_nanos(&instant_elapsed(start));
    if nanos > u64::MAX as u128 {
        u64::MAX
    } else {
        nanos as u64
    }
}

/// A subsystem: an owner of private state, addressed only through its
/// mailbox, whose tasks arrive wrapped in its message type.
pub trait Subsystem: Sized {
    /// The message type the subsystem's mailbox carries.
    type Message: SubsystemMessage<Self>;

    /// The subsystem's name, as specification-level characters.
    spec fn spec_name() -> Seq<char>;

    /// The subsystem's stable registry key, as a specification-level
    /// value.
    spec fn spec_key() -> u64;

    /// The subsystem's name.
    fn name() -> (r: &'static str)
        ensures
            r@ == Self::spec_name(),
    ;

    /// The stable key this subsystem type registers under; it stands in
    /// for the type's identity in the `Channels` registry.
    fn key() -> (r: u64)
        ensures
            r == Self::spec_key(),
    ;
}

/// The type-erased face of a `SubsystemRef`, carrying what the registry
/// needs without naming the subsystem type.
pub trait ErasedSubsystemRef {
    /// The registry key of the subsystem this capability addresses, as a
    /// specification-level value.
    spec fn spec_erased_key(&self) -> u64;

    /// The registry key of the subsystem this capability addresses.
    fn erased_key(&self) -> (r: u64)
        ensures
            r == self.spec_erased_key(),
    ;
}

impl<S: Subsystem> ErasedSubsystemRef for SubsystemRef<S> {
    open spec fn spec_erased_key(&self) -> u64 {
        S::spec_key()
    }

    fn erased_key(&self) -> (r: u64)
        ensures
            r == self.spec_erased_key(),
    {
        S::key()
    }
}

impl<S: Subsystem> SubsystemRef<S> {
    /// The pending task messages, in send order.
    pub closed spec fn spec_queue(self) -> Seq<TaskMessage<S>> {
        self.queue@
    }

    /// Every reply slot ever paired with a message sent through this
    /// mailbox.
    pub closed spec fn spec_replies(self) -> Seq<ReplyState<MessageOutput<S>>> {
        self.replies@
    }

    /// Whether the mailbox has been closed: a closed mailbox accepts no
    /// new messages, so a send only mints an already-abandoned reply slot.
    pub closed spec fn spec_closed(self) -> bool {
        self.closed
    }

    /// The mailbox invariant: every queued message points at a pending
    /// reply slot, and no two queued messages share one.
    pub open spec fn wf(self) -> bool {
        &&& forall|i: int|
            0 <= i < self.spec_queue().len() ==> (#[trigger] self.spec_queue()[i]).ticket
                < self.spec_replies().len() && self.spec_replies()[self.spec_queue()[i].ticket as int] is Pending
        &&& forall|i: int, j: int|
            0 <= i < j < self.spec_queue().len() ==> (#[trigger] self.spec_queue()[i]).ticket != (
            #[trigger] self.spec_queue()[j]).ticket
    }

    /// A fresh mailbox with nothing queued and no reply slots.
    pub fn new() -> (r: Self)
        ensures
            r.wf(),
            r.spec_queue().len() == 0,
            r.spec_replies().len() == 0,
            !r.spec_closed(),
    {
        SubsystemRef { queue: Vec::new(), replies: Vec::new(), closed: false }
    }

    /// How many task messages are waiting in the mailbox.
    pub fn queue_len(&self) -> (r: usize)
        ensures
            r == self.spec_queue().len(),
    {
        self.queue.len()
    }

    /// How many reply slots have ever been minted by this mailbox.
    pub fn reply_count(&self) -> (r: usize)
        ensures
            r == self.spec_replies().len(),
    {
        self.replies.len()
    }

    /// Enqueue a task message demanding shared access. The message goes to
    /// the back of the queue, paired with a fresh pending reply slot that
    /// the returned handle reads. A closed mailbox takes no message: the
    /// fresh slot is abandoned at once, so the handle resolves to a
    /// cancellation error instead of hanging.
    pub fn send(&mut self, message: S::Message) -> (h: TaskHandle<S>)
        requires
            !message.spec_mutating(),
            old(self).wf(),
            old(self).spec_replies().len() < usize::MAX,
        ensures
            final(self).wf(),
            final(self).spec_closed() == old(self).spec_closed(),
            h.spec_ticket() == old(self).spec_replies().len(),
            !old(self).spec_closed() ==> final(self).spec_queue() == old(self).spec_queue().push(
                TaskMessage { message, ticket: old(self).spec_replies().len() as usize },
            ) && final(self).spec_replies() == old(self).spec_replies().push(ReplyState::Pending),
            old(self).spec_closed() ==> final(self).spec_queue() == old(self).spec_queue()
                && final(self).spec_replies() == old(self).spec_replies().push(
                ReplyState::Abandoned,
            ),
    {
        self.enqueue(message)
    }

    /// Enqueue a task message demanding exclusive access; otherwise as
    /// `send`.
    pub fn send_mut(&mut self, message: S::Message) -> (h: TaskHandle<S>)
        requires
            message.spec_mutating(),
            old(self).wf(),
            old(self).spec_replies().len() < usize::MAX,
        ensures
            final(self).wf(),
            final(self).spec_closed() == old(self).spec_closed(),
            h.spec_ticket() == old(self).spec_replies().len(),
            !old(self).spec_closed() ==> final(self).spec_queue() == old(self).spec_queue().push(
                TaskMessage { message, ticket: old(self).spec_replies().len() as usize },
            ) && final(self).spec_replies() == old(self).spec_replies().push(ReplyState::Pending),
            old(self).spec_closed() ==> final(self).spec_queue() == old(self).spec_queue()
                && final(self).spec_replies() == old(self).spec_replies().push(
                ReplyState::Abandoned,
            ),
    {
        self.enqueue(message)
    }

    /// Enqueue a message and mint its reply slot and handle.
    fn enqueue(&mut self, message: S::Message) -> (h: TaskHandle<S>)
        requires
            old(self).wf(),
            old(self).spec_replies().len() < usize::MAX,
        ensures
            final(self).wf(),
            final(self).spec_closed() == old(self).spec_closed(),
            h.spec_ticket() == old(self).spec_replies().len(),
            !old(self).spec_closed() ==> final(self).spec_queue() == old(self).spec_queue().push(
                TaskMessage { message, ticket: old(self).spec_replies().len() as usize },
            ) && final(self).spec_replies() == old(self).spec_replies().push(ReplyState::Pending),
            old(self).spec_closed() ==> final(self).spec_queue() == old(self).spec_queue()
                && final(self).spec_replies() == old(self).spec_replies().push(
                ReplyState::Abandoned,
            ),
    {
        let ticket = self.replies.len();
        if self.closed {
            self.replies.push(ReplyState::Abandoned);
        } else {
            self.replies.push(ReplyState::Pending);
            self.queue.push(TaskMessage { message, ticket });
        }
        TaskHandle { ticket, _subsystem: core::marker::PhantomData }
    }

    /// Enqueue a batch of task messages demanding shared access, in order,
    /// yielding one batch handle over all their reply slots.
    pub fn send_batch(&mut self, messages: Vec<S::Message>) -> (b: BatchHandle<S>)
        requires
            forall|i: int|
                0 <= i < messages@.len() ==> !(#[trigger] messages@[i]).spec_mutating(),
            old(self).wf(),
            old(self).spec_replies().len() + messages@.len() <= usize::MAX,
        ensures
            final(self).wf(),
            final(self).spec_closed() == old(self).spec_closed(),
            b.spec_handles().len() == messages@.len(),
            final(self).spec_replies().len() == old(self).spec_replies().len() + messages@.len(),
            forall|i: int|
                0 <= i < old(self).spec_queue().len() ==> #[trigger] final(self).spec_queue()[i]
                    == old(self).spec_queue()[i],
            forall|t: int|
                0 <= t < old(self).spec_replies().len() ==> #[trigger] final(self).spec_replies()[t]
                    == old(self).spec_replies()[t],
            forall|i: int|
                0 <= i < messages@.len() ==> (#[trigger] b.spec_handles()[i]).spec_ticket() == old(self).spec_replies().len() + i,
            !old(self).spec_closed() ==> {
                &&& final(self).spec_queue().len() == old(self).spec_queue().len()
                    + messages@.len()
                &&& forall|i: int|
                    0 <= i < messages@.len() ==> #[trigger] final(self).spec_queue()[old(self).spec_queue().len() + i] == (TaskMessage::<S> {
                        message: messages@[i],
                        ticket: (old(self).spec_replies().len() + i) as usize,
                    }) && final(self).spec_replies()[old(self).spec_replies().len() + i]
                        is Pending
            },
            old(self).spec_closed() ==> final(self).spec_queue() == old(self).spec_queue() && (
            forall|i: int|
                0 <= i < messages@.len() ==> #[trigger] final(self).spec_replies()[old(self).spec_replies().len() + i] is Abandoned),
    {
        self.enqueue_batch(messages)
    }

    /// Enqueue a batch of task messages demanding exclusive access;
    /// otherwise as `send_batch`.
    pub fn send_batch_mut(&mut self, messages: Vec<S::Message>) -> (b: BatchHandle<S>)
        requires
            forall|i: int| 0 <= i < messages@.len() ==> (#[trigger] messages@[i]).spec_mutating(),
            old(self).wf(),
            old(self).spec_replies().len() + messages@.len() <= usize::MAX,
        ensures
            final(self).wf(),
            final(self).spec_closed() == old(self).spec_closed(),
            b.spec_handles().len() == messages@.len(),
            final(self).spec_replies().len() == old(self).spec_replies().len() + messages@.len(),
            forall|i: int|
                0 <= i < old(self).spec_queue().len() ==> #[trigger] final(self).spec_queue()[i]
                    == old(self).spec_queue()[i],
            forall|t: int|
                0 <= t < old(self).spec_replies().len() ==> #[trigger] final(self).spec_replies()[t]
                    == old(self).spec_replies()[t],
            forall|i: int|
                0 <= i < messages@.len() ==> (#[trigger] b.spec_handles()[i]).spec_ticket() == old(self).spec_replies().len() + i,
            !old(self).spec_closed() ==> {
                &&& final(self).spec_queue().len() == old(self).spec_queue().len()
                    + messages@.len()
                &&& forall|i: int|
                    0 <= i < messages@.len() ==> #[trigger] final(self).spec_queue()[old(self).spec_queue().len() + i] == (TaskMessage::<S> {
                        message: messages@[i],
                        ticket: (old(self).spec_replies().len() + i) as usize,
                    }) && final(self).spec_replies()[old(self).spec_replies().len() + i]
                        is Pending
            },
            old(self).spec_closed() ==> final(self).spec_queue() == old(self).spec_queue() && (
            forall|i: int|
                0 <= i < messages@.len() ==> #[trigger] final(self).spec_replies()[old(self).spec_replies().len() + i] is Abandoned),
    {
        self.enqueue_batch(messages)
    }

    /// Enqueue a batch of messages, minting one reply slot and handle per
    /// message.
    fn enqueue_batch(&mut self, messages: Vec<S::Message>) -> (b: BatchHandle<S>)
        requires
            old(self).wf(),
            old(self).spec_replies().len() + messages@.len() <= usize::MAX,
        ensures
            final(self).wf(),
            final(self).spec_closed() == old(self).spec_closed(),
            b.spec_handles().len() == messages@.len(),
            final(self).spec_replies().len() == old(self).spec_replies().len() + messages@.len(),
            forall|i: int|
                0 <= i < old(self).spec_queue().len() ==> #[trigger] final(self).spec_queue()[i]
                    == old(self).spec_queue()[i],
            forall|t: int|
                0 <= t < old(self).spec_replies().len() ==> #[trigger] final(self).spec_replies()[t]
                    == old(self).spec_replies()[t],
            forall|i: int|
                0 <= i < messages@.len() ==> (#[trigger] b.spec_handles()[i]).spec_ticket() == old(self).spec_replies().len() + i,
            !old(self).spec_closed() ==> {
                &&& final(self).spec_queue().len() == old(self).spec_queue().len()
                    + messages@.len()
                &&& forall|i: int|
                    0 <= i < messages@.len() ==> #[trigger] final(self).spec_queue()[old(self).spec_queue().len() + i] == (TaskMessage::<S> {
                        message: messages@[i],
                        ticket: (old(self).spec_replies().len() + i) as usize,
                    }) && final(self).spec_replies()[old(self).spec_replies().len() + i]
                        is Pending
            },
            old(self).spec_closed() ==> final(self).spec_queue() == old(self).spec_queue() && (
            forall|i: int|
                0 <= i < messages@.len() ==> #[trigger] final(self).spec_replies()[old(self).spec_replies().len() + i] is Abandoned),
    {
        let ghost m0 = messages@;
        let ghost q0 = old(self).spec_queue();
        let ghost rep0 = old(self).spec_replies();
        let ghost closed0 = old(self).spec_closed();
        let mut rest = messages;
        let mut handles: Vec<TaskHandle<S>> = Vec::new();
        while rest.len() > 0
            invariant
                self.wf(),
                self.spec_closed() == closed0,
                rest@.len() <= m0.len(),
                rest@ =~= m0.skip(m0.len() - rest@.len()),
                handles@.len() == m0.len() - rest@.len(),
                rep0.len() + m0.len() <= usize::MAX,
                self.spec_replies().len() == rep0.len() + handles@.len(),
                !closed0 ==> self.spec_queue().len() == q0.len() + handles@.len(),
                closed0 ==> self.spec_queue() == q0,
                forall|i: int|
                    0 <= i < q0.len() ==> #[trigger] self.spec_queue()[i] == q0[i],
                forall|t: int|
                    0 <= t < rep0.len() ==> #[trigger] self.spec_replies()[t] == rep0[t],
                forall|i: int|
                    0 <= i < handles@.len() ==> (#[trigger] handles@[i]).spec_ticket()
                        == rep0.len() + i,
                !closed0 ==> forall|i: int|
                    0 <= i < handles@.len() ==> #[trigger] self.spec_queue()[q0.len() + i] == (
                    TaskMessage::<S> {
                        message: m0[i],
                        ticket: (rep0.len() + i) as usize,
                    }) && self.spec_replies()[rep0.len() + i] is Pending,
                closed0 ==> forall|i: int|
                    0 <= i < handles@.len() ==> #[trigger] self.spec_replies()[rep0.len() + i]
                        is Abandoned,
            decreases rest.len(),
        {
            let ghost k: int = m0.len() - rest@.len();
            let ghost rpre = rest@;
            let m = rest.remove(0);
            proof {
                assert(rpre == m0.skip(k));
                assert(0 <= k && k < m0.len());
                vstd::seq_lib::lemma_seq_skip_index(m0, k, 0);
                assert(m == m0[k]);
                vstd::seq_lib::lemma_seq_skip_of_skip(m0, k, 1);
                assert(rest@ =~= m0.skip(k + 1));
            }
            let ghost hpre = handles@;
            let ghost qpre2 = self.spec_queue();
            let ghost reppre = self.spec_replies();
            let h = self.enqueue(m);
            handles.push(h);
            proof {
                assert(handles@ == hpre.push(h));
                if closed0 {
                    assert forall|i: int|
                        0 <= i < handles@.len() implies #[trigger] self.spec_replies()[rep0.len()
                        + i] is Abandoned by {
                        if i < hpre.len() {
                            assert(self.spec_replies()[rep0.len() + i] == reppre[rep0.len() + i]);
                        } else {
                            assert(self.spec_replies()[rep0.len() + i]
                                == self.spec_replies().last());
                        }
                    }
                } else {
                    assert forall|i: int|
                        0 <= i < handles@.len() implies #[trigger] self.spec_queue()[q0.len() + i]
                        == (TaskMessage::<S> {
                        message: m0[i],
                        ticket: (rep0.len() + i) as usize,
                    }) && self.spec_replies()[rep0.len() + i] is Pending by {
                        if i < hpre.len() {
                            assert(self.spec_queue()[q0.len() + i] == qpre2[q0.len() + i]);
                            assert(self.spec_replies()[rep0.len() + i] == reppre[rep0.len() + i]);
                        } else {
                            assert(self.spec_queue()[q0.len() + i] == self.spec_queue().last());
                            assert(self.spec_replies()[rep0.len() + i]
                                == self.spec_replies().last());
                        }
                    }
                }
                assert forall|i: int|
                    0 <= i < handles@.len() implies (#[trigger] handles@[i]).spec_ticket()
                    == rep0.len() + i by {
                    if i < hpre.len() {
                        assert(handles@[i] == hpre[i]);
                    } else {
                        assert(handles@[i] == h);
                    }
                }
            }
        }
        BatchHandle::new(handles)
    }

    /// Close the mailbox: every still-queued message is dropped unanswered
    /// and its reply slot abandoned, so each corresponding handle resolves
    /// to a cancellation error rather than hanging. The mailbox stays
    /// closed: later sends abandon their fresh slots the same way.
    pub fn close(&mut self)
        requires
            old(self).wf(),
        ensures
            final(self).wf(),
            final(self).spec_closed(),
            final(self).spec_queue().len() == 0,
            final(self).spec_replies().len() == old(self).spec_replies().len(),
            forall|i: int|
                0 <= i < old(self).spec_queue().len() ==> final(self).spec_replies()[(#[trigger] old(self).spec_queue()[i]).ticket as int] is Abandoned,
            forall|t: int|
                0 <= t < old(self).spec_replies().len() && (forall|i: int|
                    0 <= i < old(self).spec_queue().len() ==> (#[trigger] old(self).spec_queue()[i]).ticket
                        != t) ==> final(self).spec_replies()[t] == old(self).spec_replies()[t],
    {
        let ghost q0 = old(self).spec_queue();
        let ghost r0 = old(self).spec_replies();
        self.closed = true;
        while self.queue.len() > 0
            invariant
                self.wf(),
                self.spec_closed(),
                self.spec_replies().len() == r0.len(),
                self.spec_queue().len() <= q0.len(),
                self.spec_queue() =~= q0.skip(q0.len() - self.spec_queue().len()),
                forall|i: int, j: int|
                    0 <= i < j < q0.len() ==> (#[trigger] q0[i]).ticket != (#[trigger] q0[j]).ticket,
                forall|i: int| 0 <= i < q0.len() ==> (#[trigger] q0[i]).ticket < r0.len(),
                forall|i: int|
                    0 <= i < q0.len() - self.spec_queue().len() ==> self.spec_replies()[(
                    #[trigger] q0[i]).ticket as int] is Abandoned,
                forall|t: int|
                    0 <= t < r0.len() && (forall|i: int|
                        0 <= i < q0.len() - self.spec_queue().len() ==> (#[trigger] q0[i]).ticket
                            != t) ==> self.spec_replies()[t] == r0[t],
            decreases self.queue.len(),
        {
            let ghost k: int = q0.len() - self.spec_queue().len();
            let ghost qpre = self.spec_queue();
            let m = self.queue.remove(0);
            proof {
                assert(qpre == q0.skip(k));
                assert(0 <= k && k < q0.len());
                vstd::seq_lib::lemma_seq_skip_index(q0, k, 0);
                assert(m == qpre[0]);
                assert(m == q0[k]);
                assert(self.spec_queue() =~= qpre.skip(1));
                vstd::seq_lib::lemma_seq_skip_of_skip(q0, k, 1);
                assert(self.spec_queue() =~= q0.skip(k + 1));
            }
            self.replies.set(m.ticket, ReplyState::Abandoned);
        }
        proof {
            assert(self.spec_queue().len() == 0);
        }
    }

    /// Dequeue the oldest pending message.
    fn pop_front(&mut self) -> (m: TaskMessage<S>)
        requires
            old(self).spec_queue().len() > 0,
        ensures
            m == old(self).spec_queue()[0],
            final(self).spec_queue() == old(self).spec_queue().skip(1),
            final(self).spec_replies() == old(self).spec_replies(),
            final(self).spec_closed() == old(self).spec_closed(),
    {
        let m = self.queue.remove(0);
        proof {
            assert(self.spec_queue() =~= old(self).spec_queue().skip(1));
        }
        m
    }

    /// Answer one reply slot with the task's output.
    fn answer(&mut self, ticket: usize, value: MessageOutput<S>)
        requires
            ticket < old(self).spec_replies().len(),
        ensures
            final(self).spec_queue() == old(self).spec_queue(),
            final(self).spec_replies() == old(self).spec_replies().update(
                ticket as int,
                ReplyState::Answered(value),
            ),
            final(self).spec_closed() == old(self).spec_closed(),
    {
        self.replies.set(ticket, ReplyState::Answered(value));
    }
}

/// The execution lane a task is scheduled on.
#[derive(Clone, Copy, Debug, PartialEq, Eq, Structural)]
pub enum Lane {
    /// The general concurrent pool, for ordinary tasks.
    Concurrent,
    /// The blocking-capable lane, for `io`-flagged tasks, so long
    /// synchronous work cannot starve the shared pool; it re-enters the
    /// identical execution path.
    Blocking,
}

/// The lane the loop picks for a task: the blocking-capable lane exactly
/// when the task is `io`-flagged.
pub open spec fn spec_lane(io: bool) -> Lane {
    if io {
        Lane::Blocking
    } else {
        Lane::Concurrent
    }
}

/// What the dispatch loop did with one task message: which reply slot it
/// answered, the correlation id it minted, the declaration it read, the
/// lane it picked, and the measured duration in nanoseconds.
pub struct DispatchRecord {
    /// The reply slot the task message was answered through.
    pub ticket: usize,
    /// The correlation id joining the task's instrumentation events.
    pub id: String,
    /// The declaration the wrapped task presented.
    pub meta: TaskMeta,
    /// The execution lane picked from the `io` flag.
    pub lane: Lane,
    /// How long the task ran, in nanoseconds.
    pub duration: u64,
}

/// Execute one task message against the subsystem state: mint a
/// correlation id, report the start to the observability subsystem, run
/// the task under the access its mode demands, measure the run, and report
/// the end. Instrumentation is reported only when `instrumented` holds:
/// a logged, non-benchmarked task yields a `StartTask`/`EndTask` pair
/// under its id, a benchmarked task a `StartBenchmark`/`EndBenchmark`
/// pair under its name, and any other task nothing.
pub fn subsystem_run_task<S: Subsystem>(
    lock: &mut ArcLock<S>,
    message: S::Message,
    ticket: usize,
    tasks: &mut SubsystemRef<TasksSubsystem>,
    instrumented: bool,
) -> (res: (MessageOutput<S>, DispatchRecord))
    requires
        old(lock).can_lock(),
        old(tasks).wf(),
        instrumented ==> old(tasks).spec_replies().len() + 2 <= usize::MAX,
    ensures
        final(lock).can_lock(),
        final(tasks).wf(),
        final(tasks).spec_closed() == old(tasks).spec_closed(),
        final(tasks).spec_replies().len() <= old(tasks).spec_replies().len() + 2,
        old(tasks).spec_closed() ==> final(tasks).spec_queue() == old(tasks).spec_queue(),
        res.1.ticket == ticket,
        res.1.meta.name@ == message.spec_name(),
        res.1.meta.is_mut == message.spec_mutating(),
        res.1.meta.log == message.spec_log(),
        res.1.meta.benchmark == message.spec_benchmark(),
        res.1.meta.io == message.spec_io(),
        correlation_id_of(res.1.id@, message.spec_name()),
        res.1.lane == spec_lane(message.spec_io()),
        message.spec_answers(old(lock).value(), res.0),
        message.spec_mutating() ==> message.spec_transforms(old(lock).value(), final(lock).value()),
        !message.spec_mutating() ==> final(lock).value() == old(lock).value(),
        (!instrumented || (!res.1.meta.log && !res.1.meta.benchmark)) ==> final(tasks).spec_queue() == old(tasks).spec_queue() && final(tasks).spec_replies() == old(tasks).spec_replies(),
        (instrumented && !old(tasks).spec_closed() && res.1.meta.log && !res.1.meta.benchmark)
            ==> final(tasks).spec_queue()
            == old(tasks).spec_queue().push(
            TaskMessage {
                message: TasksMessage::StartTask(
                    StartTask { id: res.1.id, name: res.1.meta.name, depth: 0 },
                ),
                ticket: old(tasks).spec_replies().len() as usize,
            },
        ).push(
            TaskMessage {
                message: TasksMessage::EndTask(EndTask { id: res.1.id, end: res.1.duration }),
                ticket: (old(tasks).spec_replies().len() + 1) as usize,
            },
        ) && final(tasks).spec_replies() == old(tasks).spec_replies().push(
            ReplyState::Pending,
        ).push(ReplyState::Pending),
        (instrumented && !old(tasks).spec_closed() && res.1.meta.benchmark) ==> final(tasks).spec_queue() == old(tasks).spec_queue().push(
            TaskMessage {
                message: TasksMessage::StartBenchmark(StartBenchmark { name: res.1.meta.name }),
                ticket: old(tasks).spec_replies().len() as usize,
            },
        ).push(
            TaskMessage {
                message: TasksMessage::EndBenchmark(
                    EndBenchmark { name: res.1.meta.name, end: res.1.duration },
                ),
                ticket: (old(tasks).spec_replies().len() + 1) as usize,
            },
        ) && final(tasks).spec_replies() == old(tasks).spec_replies().push(
            ReplyState::Pending,
        ).push(ReplyState::Pending),
{
    let meta = message.task();
    let id = make_correlation_id(meta.name);
    if instrumented && meta.log && !meta.benchmark {
        let _ = tasks.send_mut(
            TasksMessage::StartTask(StartTask { id: id.clone(), name: meta.name, depth: 0 }),
        );
    }
    if instrumented && meta.benchmark {
        let _ = tasks.send_mut(TasksMessage::StartBenchmark(StartBenchmark { name: meta.name }));
    }
    let start = instant_now();
    let out = if meta.is_mut {
        let pass = lock.lock();
        let out = message.execute_mut(lock.borrow_mut());
        lock.release_write(pass);
        out
    } else {
        let pass = lock.read();
        let out = message.execute(lock.borrow());
        lock.release_read(pass);
        out
    };
    let duration = elapsed_nanos(&start);
    if instrumented && meta.log && !meta.benchmark {
        let _ = tasks.send_mut(
            TasksMessage::EndTask(EndTask { id: id.clone(), end: duration }),
        );
    }
    if instrumented && meta.benchmark {
        let _ = tasks.send_mut(
            TasksMessage::EndBenchmark(EndBenchmark { name: meta.name, end: duration }),
        );
    }
    let lane = if meta.io {
        Lane::Blocking
    } else {
        Lane::Concurrent
    };
    (out, DispatchRecord { ticket, id, meta, lane, duration })
}

/// Dispatch one dequeued task message: pick its lane, run it through the
/// execution path, and answer its reply slot with the outcome.
pub fn launch_task<S: Subsystem>(
    lock: &mut ArcLock<S>,
    r: &mut SubsystemRef<S>,
    msg: TaskMessage<S>,
    tasks: &mut SubsystemRef<TasksSubsystem>,
    instrumented: bool,
) -> (rec: DispatchRecord)
    requires
        old(lock).can_lock(),
        msg.ticket < old(r).spec_replies().len(),
        old(tasks).wf(),
        instrumented ==> old(tasks).spec_replies().len() + 2 <= usize::MAX,
    ensures
        final(lock).can_lock(),
        final(tasks).wf(),
        final(tasks).spec_closed() == old(tasks).spec_closed(),
        final(tasks).spec_replies().len() <= old(tasks).spec_replies().len() + 2,
        old(tasks).spec_closed() ==> final(tasks).spec_queue() == old(tasks).spec_queue(),
        final(r).spec_queue() == old(r).spec_queue(),
        final(r).spec_closed() == old(r).spec_closed(),
        final(r).spec_replies().len() == old(r).spec_replies().len(),
        final(r).spec_replies()[msg.ticket as int] is Answered,
        forall|t: int|
            0 <= t < old(r).spec_replies().len() && t != msg.ticket ==> final(r).spec_replies()[t]
                == old(r).spec_replies()[t],
        rec.ticket == msg.ticket,
        rec.meta.name@ == msg.message.spec_name(),
        rec.meta.is_mut == msg.message.spec_mutating(),
        rec.meta.log == msg.message.spec_log(),
        rec.meta.benchmark == msg.message.spec_benchmark(),
        rec.meta.io == msg.message.spec_io(),
        correlation_id_of(rec.id@, msg.message.spec_name()),
        rec.lane == spec_lane(msg.message.spec_io()),
        msg.message.spec_mutating() ==> msg.message.spec_transforms(
            old(lock).value(),
            final(lock).value(),
        ),
        !msg.message.spec_mutating() ==> final(lock).value() == old(lock).value(),
        exists|v: MessageOutput<S>|
            final(r).spec_replies() == old(r).spec_replies().update(
                msg.ticket as int,
                ReplyState::Answered(v),
            ) && msg.message.spec_answers(old(lock).value(), v),
        (!instrumented || (!rec.meta.log && !rec.meta.benchmark)) ==> final(tasks).spec_queue()
            == old(tasks).spec_queue() && final(tasks).spec_replies() == old(tasks).spec_replies(),
        (instrumented && !old(tasks).spec_closed() && rec.meta.log && !rec.meta.benchmark)
            ==> final(tasks).spec_queue() == old(tasks).spec_queue().push(
            TaskMessage {
                message: TasksMessage::StartTask(
                    StartTask { id: rec.id, name: rec.meta.name, depth: 0 },
                ),
                ticket: old(tasks).spec_replies().len() as usize,
            },
        ).push(
            TaskMessage {
                message: TasksMessage::EndTask(EndTask { id: rec.id, end: rec.duration }),
                ticket: (old(tasks).spec_replies().len() + 1) as usize,
            },
        ) && final(tasks).spec_replies() == old(tasks).spec_replies().push(
            ReplyState::Pending,
        ).push(ReplyState::Pending),
        (instrumented && !old(tasks).spec_closed() && rec.meta.benchmark) ==> final(tasks).spec_queue() == old(tasks).spec_queue().push(
            TaskMessage {
                message: TasksMessage::StartBenchmark(StartBenchmark { name: rec.meta.name }),
                ticket: old(tasks).spec_replies().len() as usize,
            },
        ).push(
            TaskMessage {
                message: TasksMessage::EndBenchmark(
                    EndBenchmark { name: rec.meta.name, end: rec.duration },
                ),
                ticket: (old(tasks).spec_replies().len() + 1) as usize,
            },
        ) && final(tasks).spec_replies() == old(tasks).spec_replies().push(
            ReplyState::Pending,
        ).push(ReplyState::Pending),
{
    let TaskMessage { message, ticket } = msg;
    let (out, rec) = subsystem_run_task(lock, message, ticket, tasks, instrumented);
    r.answer(ticket, out);
    rec
}

/// The instrumentation a dispatch record causes, given the number of reply
/// slots the observability mailbox held when the record's task began: a
/// logged, non-benchmarked task contributes its `StartTask`/`EndTask` pair,
/// a benchmarked task its `StartBenchmark`/`EndBenchmark` pair, and any
/// other task nothing.
pub open spec fn spec_instr_events(rec: DispatchRecord, base: int) -> Seq<
    TaskMessage<TasksSubsystem>,
> {
    if rec.meta.log && !rec.meta.benchmark {
        seq![
            TaskMessage {
                message: TasksMessage::StartTask(
                    StartTask { id: rec.id, name: rec.meta.name, depth: 0 },
                ),
                ticket: base as usize,
            },
            TaskMessage {
                message: TasksMessage::EndTask(EndTask { id: rec.id, end: rec.duration }),
                ticket: (base + 1) as usize,
            },
        ]
    } else if rec.meta.benchmark {
        seq![
            TaskMessage {
                message: TasksMessage::StartBenchmark(StartBenchmark { name: rec.meta.name }),
                ticket: base as usize,
            },
            TaskMessage {
                message: TasksMessage::EndBenchmark(
                    EndBenchmark { name: rec.meta.name, end: rec.duration },
                ),
                ticket: (base + 1) as usize,
            },
        ]
    } else {
        Seq::empty()
    }
}

/// The whole instrumentation stream a sequence of dispatch records causes,
/// in dispatch order, with reply-slot tickets counted from `base`. Within
/// the stream, each record's start event stands strictly before its end
/// event, and records never interleave.
pub open spec fn spec_instr_stream(recs: Seq<DispatchRecord>, base: int) -> Seq<
    TaskMessage<TasksSubsystem>,
>
    decreases recs.len(),
{
    if recs.len() == 0 {
        Seq::empty()
    } else {
        let head = spec_instr_events(recs[0], base);
        head + spec_instr_stream(recs.skip(1), base + head.len())
    }
}

/// Appending one record extends the stream by exactly that record's
/// events, offset past everything already contributed.
proof fn lemma_instr_stream_push(recs: Seq<DispatchRecord>, rec: DispatchRecord, base: int)
    ensures
        spec_instr_stream(recs.push(rec), base) =~= spec_instr_stream(recs, base)
            + spec_instr_events(rec, base + spec_instr_stream(recs, base).len()),
    decreases recs.len(),
{
    if recs.len() == 0 {
        assert(recs.push(rec)[0] == rec);
        assert(recs.push(rec).skip(1) =~= Seq::<DispatchRecord>::empty());
        assert(spec_instr_stream(recs.push(rec), base) =~= spec_instr_events(rec, base)
            + spec_instr_stream(Seq::<DispatchRecord>::empty(), base + spec_instr_events(
            rec,
            base,
        ).len()));
        assert(spec_instr_stream(recs, base) =~= Seq::<TaskMessage<TasksSubsystem>>::empty());
    } else {
        let h = spec_instr_events(recs[0], base);
        assert(recs.push(rec)[0] == recs[0]);
        assert(recs.push(rec).skip(1) =~= recs.skip(1).push(rec));
        assert(spec_instr_stream(recs.push(rec), base) =~= h + spec_instr_stream(
            recs.skip(1).push(rec),
            base + h.len(),
        ));
        lemma_instr_stream_push(recs.skip(1), rec, base + h.len());
        assert(spec_instr_stream(recs, base) =~= h + spec_instr_stream(
            recs.skip(1),
            base + h.len(),
        ));
    }
}

/// A stream of events is at most two events per record.
proof fn lemma_instr_stream_len(recs: Seq<DispatchRecord>, base: int)
    ensures
        spec_instr_stream(recs, base).len() <= 2 * recs.len(),
    decreases recs.len(),
{
    if recs.len() > 0 {
        lemma_instr_stream_len(recs.skip(1), base + spec_instr_events(recs[0], base).len());
    }
}

/// Whether `sts` is a run of the subsystem state through the queued
/// messages, with each reply slot answered accordingly: the run starts at
/// `s0`; a message demanding exclusive access steps the state by its
/// declared transformation, while any other message leaves it unchanged;
/// and each message's reply slot holds an answer the message declares for
/// the state it ran against.
pub open spec fn spec_dispatch_run<S: Subsystem>(
    s0: S,
    msgs: Seq<TaskMessage<S>>,
    replies: Seq<ReplyState<MessageOutput<S>>>,
    sts: Seq<S>,
) -> bool {
    &&& sts.len() == msgs.len() + 1
    &&& sts[0] == s0
    &&& forall|i: int|
        0 <= i < msgs.len() ==> {
            let m = #[trigger] msgs[i];
            &&& (m.message.spec_mutating() ==> m.message.spec_transforms(sts[i], sts[i + 1]))
            &&& (!m.message.spec_mutating() ==> sts[i + 1] == sts[i])
            &&& 0 <= m.ticket < replies.len()
            &&& replies[m.ticket as int] matches ReplyState::Answered(v)
                && m.message.spec_answers(sts[i], v)
        }
}

/// Whether one dispatch record reports the given queued message correctly:
/// the right reply slot, the wrapped task's name and access mode, a
/// correlation id minted for that name, and the lane its `io` flag picks.
pub open spec fn record_matches<S: Subsystem>(rec: DispatchRecord, m: TaskMessage<S>) -> bool {
    &&& rec.ticket == m.ticket
    &&& rec.meta.name@ == m.message.spec_name()
    &&& rec.meta.is_mut == m.message.spec_mutating()
    &&& rec.meta.log == m.message.spec_log()
    &&& rec.meta.benchmark == m.message.spec_benchmark()
    &&& rec.meta.io == m.message.spec_io()
    &&& correlation_id_of(rec.id@, m.message.spec_name())
    &&& rec.lane == spec_lane(m.message.spec_io())
}

/// Own a subsystem's dispatch loop: drain the mailbox, dispatching every
/// queued task message strictly in send order and answering each one's
/// reply slot. The records yielded beside the final state witness, message
/// by message, that the receive order equals the send order; the
/// observability mailbox ends up extended by exactly the instrumentation
/// stream those records describe.
pub fn start<S: Subsystem>(
    subsystem: S,
    r: &mut SubsystemRef<S>,
    tasks: &mut SubsystemRef<TasksSubsystem>,
) -> (res: (S, Vec<DispatchRecord>))
    requires
        old(r).wf(),
        old(tasks).wf(),
        old(tasks).spec_replies().len() + 2 * old(r).spec_queue().len() <= usize::MAX,
    ensures
        final(r).wf(),
        final(tasks).wf(),
        final(r).spec_queue().len() == 0,
        final(r).spec_replies().len() == old(r).spec_replies().len(),
        res.1@.len() == old(r).spec_queue().len(),
        forall|i: int|
            0 <= i < res.1@.len() ==> record_matches(#[trigger] res.1@[i], old(r).spec_queue()[i])
                && final(r).spec_replies()[old(r).spec_queue()[i].ticket as int] is Answered,
        forall|t: int|
            0 <= t < old(r).spec_replies().len() && (forall|i: int|
                0 <= i < old(r).spec_queue().len() ==> (#[trigger] old(r).spec_queue()[i]).ticket
                    != t) ==> final(r).spec_replies()[t] == old(r).spec_replies()[t],
        final(tasks).spec_closed() == old(tasks).spec_closed(),
        !old(tasks).spec_closed() ==> final(tasks).spec_queue() == old(tasks).spec_queue()
            + spec_instr_stream(res.1@, old(tasks).spec_replies().len() as int),
        old(tasks).spec_closed() ==> final(tasks).spec_queue() == old(tasks).spec_queue(),
        exists|sts: Seq<S>|
            spec_dispatch_run(subsystem, old(r).spec_queue(), final(r).spec_replies(), sts)
                && res.0 == sts[old(r).spec_queue().len() as int],
{
    let res = run_loop(subsystem, r, tasks, true);
    proof {
        assert forall|i: int| 0 <= i < res.1@.len() implies record_matches(
            #[trigger] res.1@[i],
            old(r).spec_queue()[i],
        ) && r.spec_replies()[old(r).spec_queue()[i].ticket as int] is Answered by {
            assert(record_matches(res.1@[i], old(r).spec_queue()[i]));
        }
    }
    res
}

/// Own a subsystem's dispatch loop without instrumentation: as `start`,
/// but nothing is reported anywhere. The observability subsystem itself is
/// driven this way, so that it does not log its own activity endlessly.
pub fn start_quiet<S: Subsystem>(subsystem: S, r: &mut SubsystemRef<S>) -> (res: (
    S,
    Vec<DispatchRecord>,
))
    requires
        old(r).wf(),
    ensures
        final(r).wf(),
        final(r).spec_queue().len() == 0,
        final(r).spec_replies().len() == old(r).spec_replies().len(),
        res.1@.len() == old(r).spec_queue().len(),
        forall|i: int|
            0 <= i < res.1@.len() ==> record_matches(#[trigger] res.1@[i], old(r).spec_queue()[i])
                && final(r).spec_replies()[old(r).spec_queue()[i].ticket as int] is Answered,
        forall|t: int|
            0 <= t < old(r).spec_replies().len() && (forall|i: int|
                0 <= i < old(r).spec_queue().len() ==> (#[trigger] old(r).spec_queue()[i]).ticket
                    != t) ==> final(r).spec_replies()[t] == old(r).spec_replies()[t],
        exists|sts: Seq<S>|
            spec_dispatch_run(subsystem, old(r).spec_queue(), final(r).spec_replies(), sts)
                && res.0 == sts[old(r).spec_queue().len() as int],
{
    let mut sink = SubsystemRef::<TasksSubsystem>::new();
    let res = run_loop(subsystem, r, &mut sink, false);
    proof {
        assert forall|i: int| 0 <= i < res.1@.len() implies record_matches(
            #[trigger] res.1@[i],
            old(r).spec_queue()[i],
        ) && r.spec_replies()[old(r).spec_queue()[i].ticket as int] is Answered by {
            assert(record_matches(res.1@[i], old(r).spec_queue()[i]));
        }
    }
    res
}

/// The dispatch loop over an explicit instrumentation switch.
fn run_loop<S: Subsystem>(
    state: S,
    r: &mut SubsystemRef<S>,
    tasks: &mut SubsystemRef<TasksSubsystem>,
    instrumented: bool,
) -> (res: (S, Vec<DispatchRecord>))
    requires
        old(r).wf(),
        old(tasks).wf(),
        instrumented ==> old(tasks).spec_replies().len() + 2 * old(r).spec_queue().len()
            <= usize::MAX,
    ensures
        final(r).wf(),
        final(tasks).wf(),
        final(r).spec_queue().len() == 0,
        final(r).spec_replies().len() == old(r).spec_replies().len(),
        res.1@.len() == old(r).spec_queue().len(),
        forall|i: int|
            0 <= i < res.1@.len() ==> record_matches(#[trigger] res.1@[i], old(r).spec_queue()[i])
                && final(r).spec_replies()[old(r).spec_queue()[i].ticket as int] is Answered,
        forall|t: int|
            0 <= t < old(r).spec_replies().len() && (forall|i: int|
                0 <= i < old(r).spec_queue().len() ==> (#[trigger] old(r).spec_queue()[i]).ticket
                    != t) ==> final(r).spec_replies()[t] == old(r).spec_replies()[t],
        final(tasks).spec_closed() == old(tasks).spec_closed(),
        final(r).spec_closed() == old(r).spec_closed(),
        !instrumented ==> final(tasks).spec_queue() == old(tasks).spec_queue() && final(tasks).spec_replies() == old(tasks).spec_replies(),
        (instrumented && !old(tasks).spec_closed()) ==> final(tasks).spec_queue() == old(tasks).spec_queue() + spec_instr_stream(res.1@, old(tasks).spec_replies().len() as int)
            && final(tasks).spec_replies().len() == old(tasks).spec_replies().len()
            + spec_instr_stream(res.1@, old(tasks).spec_replies().len() as int).len(),
        old(tasks).spec_closed() ==> final(tasks).spec_queue() == old(tasks).spec_queue(),
        exists|sts: Seq<S>|
            spec_dispatch_run(state, old(r).spec_queue(), final(r).spec_replies(), sts) && res.0
                == sts[old(r).spec_queue().len() as int],
{
    let ghost s0 = state;
    let ghost q0 = old(r).spec_queue();
    let ghost rep0 = old(r).spec_replies();
    let ghost tq0 = old(tasks).spec_queue();
    let ghost trep0 = old(tasks).spec_replies();
    let ghost tclosed0 = old(tasks).spec_closed();
    let ghost rclosed0 = old(r).spec_closed();
    let mut lock = ArcLock::new(state);
    let mut records: Vec<DispatchRecord> = Vec::new();
    let ghost mut sts: Seq<S> = seq![s0];
    while r.queue.len() > 0
        invariant
            lock.can_lock(),
            r.wf(),
            tasks.wf(),
            r.spec_replies().len() == rep0.len(),
            r.spec_queue().len() <= q0.len(),
            r.spec_queue() =~= q0.skip(q0.len() - r.spec_queue().len()),
            records@.len() == q0.len() - r.spec_queue().len(),
            forall|i: int, j: int|
                0 <= i < j < q0.len() ==> (#[trigger] q0[i]).ticket != (#[trigger] q0[j]).ticket,
            forall|i: int| 0 <= i < q0.len() ==> (#[trigger] q0[i]).ticket < rep0.len(),
            tasks.spec_closed() == tclosed0,
            r.spec_closed() == rclosed0,
            (instrumented && !tclosed0) ==> tasks.spec_queue() =~= tq0 + spec_instr_stream(
                records@,
                trep0.len() as int,
            ) && tasks.spec_replies().len() == trep0.len() + spec_instr_stream(
                records@,
                trep0.len() as int,
            ).len(),
            tclosed0 ==> tasks.spec_queue() == tq0,
            tasks.spec_replies().len() <= trep0.len() + 2 * records@.len(),
            spec_instr_stream(records@, trep0.len() as int).len() <= 2 * records@.len(),
            instrumented ==> trep0.len() + 2 * q0.len() <= usize::MAX,
            forall|i: int|
                0 <= i < records@.len() ==> record_matches(#[trigger] records@[i], q0[i])
                    && r.spec_replies()[q0[i].ticket as int] is Answered,
            sts.len() == records@.len() + 1,
            sts[0] == s0,
            lock.value() == sts.last(),
            forall|i: int|
                0 <= i < records@.len() ==> {
                    let m = #[trigger] q0[i];
                    &&& (m.message.spec_mutating() ==> m.message.spec_transforms(
                        sts[i],
                        sts[i + 1],
                    ))
                    &&& (!m.message.spec_mutating() ==> sts[i + 1] == sts[i])
                    &&& r.spec_replies()[m.ticket as int] matches ReplyState::Answered(v)
                        && m.message.spec_answers(sts[i], v)
                },
            forall|t: int|
                0 <= t < rep0.len() && (forall|i: int|
                    0 <= i < q0.len() - r.spec_queue().len() ==> (#[trigger] q0[i]).ticket != t)
                    ==> r.spec_replies()[t] == rep0[t],
            !instrumented ==> tasks.spec_queue() == tq0 && tasks.spec_replies() == trep0,
        decreases r.queue.len(),
    {
        let ghost k: int = q0.len() - r.spec_queue().len();
        let ghost qpre = r.spec_queue();
        let m = r.pop_front();
        proof {
            assert(qpre == q0.skip(k));
            assert(0 <= k && k < q0.len());
            vstd::seq_lib::lemma_seq_skip_index(q0, k, 0);
            assert(m == q0[k]);
            vstd::seq_lib::lemma_seq_skip_of_skip(q0, k, 1);
            assert(r.spec_queue() =~= q0.skip(k + 1));
        }
        let ghost tq_pre = tasks.spec_queue();
        let ghost trep_pre = tasks.spec_replies();
        let ghost recs_pre = records@;
        let ghost pre_state = lock.value();
        let ghost sts_pre = sts;
        let rec = launch_task(&mut lock, r, m, tasks, instrumented);
        let ghost grec = rec;
        records.push(rec);
        proof {
            sts = sts.push(lock.value());
            assert(sts[k + 1] == lock.value());
            assert(sts.last() == lock.value());
            assert forall|i: int| 0 <= i < records@.len() implies {
                let mm = #[trigger] q0[i];
                &&& (mm.message.spec_mutating() ==> mm.message.spec_transforms(
                    sts[i],
                    sts[i + 1],
                ))
                &&& (!mm.message.spec_mutating() ==> sts[i + 1] == sts[i])
                &&& r.spec_replies()[mm.ticket as int] matches ReplyState::Answered(v)
                    && mm.message.spec_answers(sts[i], v)
            } by {
                assert(sts[i] == sts_pre[i]);
                if i < records@.len() - 1 {
                    assert(sts[i + 1] == sts_pre[i + 1]);
                    assert(q0[i].ticket != q0[k].ticket);
                } else {
                    assert(i == k);
                    assert(sts_pre[k] == pre_state);
                }
            }
            lemma_instr_stream_push(recs_pre, grec, trep0.len() as int);
            lemma_instr_stream_len(recs_pre, trep0.len() as int);
            lemma_instr_stream_len(records@, trep0.len() as int);
            if instrumented && !tclosed0 {
                let base = trep0.len() as int + spec_instr_stream(
                    recs_pre,
                    trep0.len() as int,
                ).len() as int;
                assert(trep_pre.len() as int == base);
                if grec.meta.log && !grec.meta.benchmark {
                    assert(spec_instr_events(grec, base) =~= seq![
                        TaskMessage::<TasksSubsystem> {
                            message: TasksMessage::StartTask(
                                StartTask { id: grec.id, name: grec.meta.name, depth: 0 },
                            ),
                            ticket: base as usize,
                        },
                        TaskMessage::<TasksSubsystem> {
                            message: TasksMessage::EndTask(
                                EndTask { id: grec.id, end: grec.duration },
                            ),
                            ticket: (base + 1) as usize,
                        },
                    ]);
                    assert(tasks.spec_queue() =~= tq_pre + spec_instr_events(grec, base));
                } else if grec.meta.benchmark {
                    assert(tasks.spec_queue() =~= tq_pre + spec_instr_events(grec, base));
                } else {
                    assert(tasks.spec_queue() =~= tq_pre + spec_instr_events(grec, base));
                }
                assert(tasks.spec_queue() =~= tq0 + spec_instr_stream(
                    records@,
                    trep0.len() as int,
                ));
            }
        }
    }
    let final_state = lock.into_inner();
    proof {
        assert(spec_dispatch_run(s0, q0, r.spec_replies(), sts));
        assert(final_state == sts[q0.len() as int]);
    }
    (final_state, records)
}

/// An envelope wrapping one task type that reads the subsystem state; a
/// subsystem dispatching a single such task type can use it as its message
/// type directly.
pub struct ImmutableTaskMessage<T: ImmutableTask> {
    task: T,
}

impl<T: ImmutableTask> ImmutableTaskMessage<T> {
    /// The wrapped task.
    pub closed spec fn spec_task(self) -> T {
        self.task
    }

    /// Wrap a task for the mailbox.
    pub fn from(task: T) -> (m: Self)
        ensures
            m.spec_task() == task,
    {
        ImmutableTaskMessage { task }
    }
}

impl<T: ImmutableTask> SubsystemMessage<T::Subsystem> for ImmutableTaskMessage<T> {
    type Output = T::Output;

    open spec fn spec_name(&self) -> Seq<char> {
        T::spec_name()
    }

    open spec fn spec_mutating(&self) -> bool {
        false
    }

    open spec fn spec_answers(&self, state: T::Subsystem, out: T::Output) -> bool {
        self.spec_task().spec_answers(state, out)
    }

    open spec fn spec_transforms(&self, pre: T::Subsystem, post: T::Subsystem) -> bool {
        post == pre
    }

    open spec fn spec_log(&self) -> bool {
        T::spec_log()
    }

    open spec fn spec_benchmark(&self) -> bool {
        T::spec_benchmark()
    }

    open spec fn spec_io(&self) -> bool {
        T::spec_io()
    }

    fn task(&self) -> (m: TaskMeta) {
        TaskMeta {
            name: <T as Task>::name(),
            is_mut: false,
            log: <T as Task>::log(),
            benchmark: <T as Task>::benchmark(),
            io: <T as Task>::io(),
        }
    }

    fn execute(self, state: &T::Subsystem) -> Self::Output {
        self.task.execute(state)
    }

    fn execute_mut(self, state: &mut T::Subsystem) -> Self::Output {
        self.task.execute(&*state)
    }
}

/// An envelope wrapping one task type that mutates the subsystem state; a
/// subsystem dispatching a single such task type can use it as its message
/// type directly.
pub struct MutableTaskMessage<T: MutableTask> {
    task: T,
}

impl<T: MutableTask> MutableTaskMessage<T> {
    /// The wrapped task.
    pub closed spec fn spec_task(self) -> T {
        self.task
    }

    /// Wrap a task for the mailbox.
    pub fn from(task: T) -> (m: Self)
        ensures
            m.spec_task() == task,
    {
        MutableTaskMessage { task }
    }
}

impl<T: MutableTask> SubsystemMessage<T::Subsystem> for MutableTaskMessage<T> {
    type Output = T::Output;

    open spec fn spec_name(&self) -> Seq<char> {
        T::spec_name()
    }

    open spec fn spec_mutating(&self) -> bool {
        true
    }

    open spec fn spec_answers(&self, pre: T::Subsystem, out: T::Output) -> bool {
        self.spec_task().spec_answers(pre, out)
    }

    open spec fn spec_transforms(&self, pre: T::Subsystem, post: T::Subsystem) -> bool {
        self.spec_task().spec_transforms(pre, post)
    }

    open spec fn spec_log(&self) -> bool {
        T::spec_log()
    }

    open spec fn spec_benchmark(&self) -> bool {
        T::spec_benchmark()
    }

    open spec fn spec_io(&self) -> bool {
        T::spec_io()
    }

    fn task(&self) -> (m: TaskMeta) {
        TaskMeta {
            name: <T as Task>::name(),
            is_mut: true,
            log: <T as Task>::log(),
            benchmark: <T as Task>::benchmark(),
            io: <T as Task>::io(),
        }
    }

    fn execute(self, state: &T::Subsystem) -> Self::Output {
        vstd::pervasive::unreached()
    }

    fn execute_mut(self, state: &mut T::Subsystem) -> Self::Output {
        self.task.execute(state)
    }
}

/// The pending results of a batch of sent tasks, resolved together once
/// every task in the batch has been answered or abandoned. One task's
/// failure never blocks or cancels the others.
pub struct BatchHandle<S: Subsystem> {
    handles: Vec<TaskHandle<S>>,
}

impl<S: Subsystem> BatchHandle<S> {
    /// The handles the batch multiplexes, in send order.
    pub closed spec fn spec_handles(self) -> Seq<TaskHandle<S>> {
        self.handles@
    }

    /// Bundle already-obtained handles into one batch.
    pub fn new(handles: Vec<TaskHandle<S>>) -> (b: Self)
        ensures
            b.spec_handles() == handles@,
    {
        BatchHandle { handles }
    }

    /// Whether every handle in the batch reads a distinct reply slot of
    /// `source` that has been answered or abandoned.
    pub open spec fn all_ready(self, source: SubsystemRef<S>) -> bool {
        &&& forall|i: int|
            0 <= i < self.spec_handles().len() ==> 0 <= (
            #[trigger] self.spec_handles()[i]).spec_ticket() < source.spec_replies().len() && (
            source.spec_replies()[self.spec_handles()[i].spec_ticket()] is Answered
                || source.spec_replies()[self.spec_handles()[i].spec_ticket()] is Abandoned)
        &&& forall|i: int, j: int|
            0 <= i < j < self.spec_handles().len() ==> (
            #[trigger] self.spec_handles()[i]).spec_ticket() != (
            #[trigger] self.spec_handles()[j]).spec_ticket()
    }

    /// Resolve the whole batch: exactly one outcome per sent task, in the
    /// order the tasks completed, each the task's answer or a
    /// `TaskCancelled` error for an abandoned slot. In this core the loop
    /// answers tasks in send order, so completion order and send order
    /// agree.
    pub fn resolve_all(self, source: &mut SubsystemRef<S>) -> (out: Vec<
        Result<MessageOutput<S>, CoreError>,
    >)
        requires
            self.all_ready(*old(source)),
        ensures
            final(source).spec_queue() == old(source).spec_queue(),
            final(source).spec_replies().len() == old(source).spec_replies().len(),
            out@.len() == self.spec_handles().len(),
            forall|i: int|
                0 <= i < out@.len() ==> ((old(source).spec_replies()[self.spec_handles()[i].spec_ticket()]
                    matches ReplyState::Answered(v) ==> #[trigger] out@[i]
                    == Result::<MessageOutput<S>, CoreError>::Ok(v)) && (old(source).spec_replies()[self.spec_handles()[i].spec_ticket()] is Abandoned
                    ==> out@[i] == Result::<MessageOutput<S>, CoreError>::Err(
                    CoreError::TaskCancelled,
                ))),
    {
        let ghost h0 = self.spec_handles();
        let ghost rep0 = old(source).spec_replies();
        let mut handles = self.handles;
        let mut out: Vec<Result<MessageOutput<S>, CoreError>> = Vec::new();
        while handles.len() > 0
            invariant
                source.spec_queue() == old(source).spec_queue(),
                source.spec_replies().len() == rep0.len(),
                handles@.len() <= h0.len(),
                handles@ =~= h0.skip(h0.len() - handles@.len()),
                out@.len() == h0.len() - handles@.len(),
                forall|i: int|
                    0 <= i < h0.len() ==> 0 <= (#[trigger] h0[i]).spec_ticket() < rep0.len() && (
                    rep0[h0[i].spec_ticket()] is Answered
                        || rep0[h0[i].spec_ticket()] is Abandoned),
                forall|i: int, j: int|
                    0 <= i < j < h0.len() ==> (#[trigger] h0[i]).spec_ticket() != (
                    #[trigger] h0[j]).spec_ticket(),
                forall|t: int|
                    0 <= t < rep0.len() && (forall|i: int|
                        0 <= i < h0.len() - handles@.len() ==> (#[trigger] h0[i]).spec_ticket()
                            != t) ==> source.spec_replies()[t] == rep0[t],
                forall|i: int|
                    0 <= i < out@.len() ==> ((rep0[h0[i].spec_ticket()]
                        matches ReplyState::Answered(v) ==> #[trigger] out@[i] == Result::<
                        MessageOutput<S>,
                        CoreError,
                    >::Ok(v)) && (rep0[h0[i].spec_ticket()] is Abandoned ==> out@[i] == Result::<
                        MessageOutput<S>,
                        CoreError,
                    >::Err(CoreError::TaskCancelled))),
            decreases handles.len(),
        {
            let ghost k: int = h0.len() - handles@.len();
            let ghost hpre = handles@;
            let h = handles.remove(0);
            proof {
                assert(hpre == h0.skip(k));
                assert(0 <= k && k < h0.len());
                vstd::seq_lib::lemma_seq_skip_index(h0, k, 0);
                assert(h == h0[k]);
                vstd::seq_lib::lemma_seq_skip_of_skip(h0, k, 1);
                assert(handles@ =~= h0.skip(k + 1));
            }
            let r = h.resolve(source);
            out.push(r);
        }
        out
    }
}

} // verus!
