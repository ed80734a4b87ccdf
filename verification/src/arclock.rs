//! A container arbitrating shared and exclusive access to one value.
//!
//! `ArcLock` is the foundation every subsystem's state is wrapped in. Any
//! number of shared passes may be held at once; an exclusive pass excludes
//! both readers and other writers. `read` and `lock` demand that acquisition
//! can succeed at once (in this synchronous core an acquisition that would
//! have to wait cannot be suspended, so its precondition rules the case out);
//! `read_sync` and `lock_sync` are the total variants that report
//! `LockContention` instead.

use vstd::prelude::*;

use crate::errors::CoreError;

verus! {

/// A pass witnessing shared (read) access; give it back with `release_read`.
pub struct ReadPass {
    held: (),
}

/// A pass witnessing exclusive (write) access; give it back with
/// `release_write`.
pub struct WritePass {
    held: (),
}

/// A value together with the bookkeeping of who may access it: a count of
/// outstanding shared passes and a flag for the one outstanding exclusive
/// pass.
pub struct ArcLock<T> {
    value: T,
    readers: usize,
    writer: bool,
}

impl<T> ArcLock<T> {
    /// The value the lock currently guards.
    pub closed spec fn value(self) -> T {
        self.value
    }

    /// How many shared passes are outstanding.
    pub closed spec fn reader_count(self) -> nat {
        self.readers as nat
    }

    /// Whether an exclusive pass is outstanding.
    pub closed spec fn writer_held(self) -> bool {
        self.writer
    }

    /// The arbitration invariant: an exclusive pass never coexists with a
    /// shared pass.
    pub open spec fn wf(self) -> bool {
        self.writer_held() ==> self.reader_count() == 0
    }

    /// Shared access can be granted: no writer holds the lock.
    pub open spec fn can_read(self) -> bool {
        !self.writer_held()
    }

    /// Exclusive access can be granted: no reader and no writer holds the
    /// lock.
    pub open spec fn can_lock(self) -> bool {
        !self.writer_held() && self.reader_count() == 0
    }

    /// Wrap a value; the lock starts with no passes outstanding.
    pub fn new(value: T) -> (r: Self)
        ensures
            r.value() == value,
            r.reader_count() == 0,
            !r.writer_held(),
    {
        ArcLock { value, readers: 0, writer: false }
    }

    /// Acquire a shared pass. Waits only while a writer holds the lock, so
    /// here the writer-free case is demanded up front.
    pub fn read(&mut self) -> (r: ReadPass)
        requires
            old(self).can_read(),
            old(self).reader_count() < usize::MAX,
        ensures
            final(self).value() == old(self).value(),
            final(self).reader_count() == old(self).reader_count() + 1,
            !final(self).writer_held(),
    {
        self.readers = self.readers + 1;
        ReadPass { held: () }
    }

    /// Attempt a shared pass without waiting: succeeds exactly when no
    /// writer holds the lock, and otherwise reports `LockContention`.
    pub fn read_sync(&mut self) -> (r: Result<ReadPass, CoreError>)
        requires
            old(self).reader_count() < usize::MAX,
        ensures
            final(self).value() == old(self).value(),
            final(self).writer_held() == old(self).writer_held(),
            r is Ok <==> old(self).can_read(),
            r is Ok ==> final(self).reader_count() == old(self).reader_count() + 1,
            r is Err ==> r == Result::<ReadPass, CoreError>::Err(CoreError::LockContention)
                && final(self).reader_count() == old(self).reader_count(),
    {
        if self.writer {
            Err(CoreError::LockContention)
        } else {
            self.readers = self.readers + 1;
            Ok(ReadPass { held: () })
        }
    }

    /// Acquire the exclusive pass. Waits until no readers or writers
    /// remain, so here the free case is demanded up front.
    pub fn lock(&mut self) -> (r: WritePass)
        requires
            old(self).can_lock(),
        ensures
            final(self).value() == old(self).value(),
            final(self).reader_count() == 0,
            final(self).writer_held(),
    {
        self.writer = true;
        WritePass { held: () }
    }

    /// Attempt the exclusive pass without waiting: succeeds exactly when
    /// the lock is free, and otherwise reports `LockContention`.
    pub fn lock_sync(&mut self) -> (r: Result<WritePass, CoreError>)
        ensures
            final(self).value() == old(self).value(),
            final(self).reader_count() == old(self).reader_count(),
            r is Ok <==> old(self).can_lock(),
            r is Ok ==> final(self).writer_held(),
            r is Err ==> r == Result::<WritePass, CoreError>::Err(CoreError::LockContention)
                && final(self).writer_held() == old(self).writer_held(),
    {
        if self.writer || self.readers > 0 {
            Err(CoreError::LockContention)
        } else {
            self.writer = true;
            Ok(WritePass { held: () })
        }
    }

    /// Read the guarded value; demands that some pass is held.
    pub fn borrow(&self) -> (r: &T)
        requires
            self.reader_count() > 0 || self.writer_held(),
        ensures
            *r == self.value(),
    {
        &self.value
    }

    /// Mutate the guarded value; demands the exclusive pass.
    pub fn borrow_mut(&mut self) -> (r: &mut T)
        requires
            old(self).writer_held(),
        ensures
            *r == old(self).value(),
            final(self).value() == *final(r),
            final(self).reader_count() == old(self).reader_count(),
            final(self).writer_held(),
    {
        &mut self.value
    }

    /// Return a shared pass.
    pub fn release_read(&mut self, pass: ReadPass)
        requires
            old(self).reader_count() > 0,
        ensures
            final(self).value() == old(self).value(),
            final(self).reader_count() == old(self).reader_count() - 1,
            final(self).writer_held() == old(self).writer_held(),
    {
        let ReadPass { held: () } = pass;
        self.readers = self.readers - 1;
    }

    /// Return the exclusive pass.
    pub fn release_write(&mut self, pass: WritePass)
        requires
            old(self).writer_held(),
        ensures
            final(self).value() == old(self).value(),
            final(self).reader_count() == old(self).reader_count(),
            !final(self).writer_held(),
    {
        let WritePass { held: () } = pass;
        self.writer = false;
    }

    /// Replace the guarded value. Like `lock`, waits until the lock is
    /// free, so the free case is demanded up front.
    pub fn write(&mut self, value: T)
        requires
            old(self).can_lock(),
        ensures
            final(self).value() == value,
            final(self).reader_count() == 0,
            !final(self).writer_held(),
    {
        self.value = value;
    }

    /// Take the lock apart, yielding the guarded value.
    pub fn into_inner(self) -> (r: T)
        ensures
            r == self.value(),
    {
        self.value
    }
}

/// One acquisition or release event on a lock.
pub enum LockOp {
    AcquireRead,
    AcquireWrite,
    ReleaseRead,
    ReleaseWrite,
}

/// The bookkeeping a lock carries: outstanding shared passes and whether
/// the exclusive pass is out.
pub struct LockState {
    pub readers: nat,
    pub writer: bool,
}

/// The state of a fresh lock.
pub open spec fn lock_init() -> LockState {
    LockState { readers: 0, writer: false }
}

/// Whether an event may fire in a state: acquisitions wait for the access
/// they exclude, releases need a matching outstanding pass.
pub open spec fn lock_op_enabled(s: LockState, op: LockOp) -> bool {
    match op {
        LockOp::AcquireRead => !s.writer,
        LockOp::AcquireWrite => !s.writer && s.readers == 0,
        LockOp::ReleaseRead => s.readers > 0,
        LockOp::ReleaseWrite => s.writer,
    }
}

/// The state after an event fires.
pub open spec fn lock_op_step(s: LockState, op: LockOp) -> LockState {
    match op {
        LockOp::AcquireRead => LockState { readers: s.readers + 1, ..s },
        LockOp::AcquireWrite => LockState { writer: true, ..s },
        LockOp::ReleaseRead => LockState { readers: (s.readers - 1) as nat, ..s },
        LockOp::ReleaseWrite => LockState { writer: false, ..s },
    }
}

/// The state a history of events leads to; an event that is not enabled
/// waits, leaving the state as it is.
pub open spec fn lock_apply(s: LockState, ops: Seq<LockOp>) -> LockState
    decreases ops.len(),
{
    if ops.len() == 0 {
        s
    } else {
        let s1 = if lock_op_enabled(s, ops[0]) {
            lock_op_step(s, ops[0])
        } else {
            s
        };
        lock_apply(s1, ops.skip(1))
    }
}

/// Exclusive access excludes everything else: whenever the exclusive pass
/// is out, no shared pass is.
pub open spec fn lock_exclusive(s: LockState) -> bool {
    s.writer ==> s.readers == 0
}

/// In every state a fresh lock can reach through any history of
/// acquisitions and releases, at most one task holds exclusive access at
/// an instant, and no shared access coexists with it: tasks demanding
/// exclusive access run alone, while tasks demanding shared access may
/// overlap freely with one another.
pub proof fn lemma_lock_arbitration(ops: Seq<LockOp>)
    ensures
        lock_exclusive(lock_apply(lock_init(), ops)),
{
    lemma_lock_arbitration_from(lock_init(), ops);
}

/// The arbitration invariant is preserved by every history.
pub proof fn lemma_lock_arbitration_from(s: LockState, ops: Seq<LockOp>)
    requires
        lock_exclusive(s),
    ensures
        lock_exclusive(lock_apply(s, ops)),
    decreases ops.len(),
{
    if ops.len() > 0 {
        let s1 = if lock_op_enabled(s, ops[0]) {
            lock_op_step(s, ops[0])
        } else {
            s
        };
        lemma_lock_arbitration_from(s1, ops.skip(1));
    }
}

} // verus!
