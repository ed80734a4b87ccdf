//! The error taxonomy of the dispatch core.

use vstd::prelude::*;

verus! {

/// The errors the core can surface to a caller.
///
/// - `LockContention`: a non-suspending lock attempt would have to wait.
/// - `TaskCancelled`: a reply slot was abandoned before it was answered.
/// - `RegistrationMissing`: a registry lookup for a key that was never
///   registered.
/// - `DuplicateRegistration`: a second registration under a key whose entry
///   is already present; registry entries are immutable once inserted, so
///   the attempt is rejected rather than overwriting.
/// - `TaskExecutionError`: an error produced by a task's own body,
///   propagated unchanged through the task's output.
/// - `InstrumentationSendError`: a failure to notify the observability
///   subsystem; never affects the original task's result.
#[derive(Clone, Copy, Debug, PartialEq, Eq, Structural)]
pub enum CoreError {
    LockContention,
    TaskCancelled,
    RegistrationMissing,
    DuplicateRegistration,
    TaskExecutionError,
    InstrumentationSendError,
}

impl CoreError {
    /// A short description of the error, for presentation layers.
    pub fn describe(&self) -> (r: &'static str)
        ensures
            r@ == self.spec_describe(),
    {
        proof {
            reveal_strlit("the lock is held and the attempt may not suspend");
            reveal_strlit("the reply slot was abandoned before it was answered");
            reveal_strlit("no subsystem was registered under this key");
            reveal_strlit("a subsystem was already registered under this key");
            reveal_strlit("the task's own body failed");
            reveal_strlit("the observability subsystem could not be notified");
        }
        match self {
            CoreError::LockContention => "the lock is held and the attempt may not suspend",
            CoreError::TaskCancelled => "the reply slot was abandoned before it was answered",
            CoreError::RegistrationMissing => "no subsystem was registered under this key",
            CoreError::DuplicateRegistration => "a subsystem was already registered under this key",
            CoreError::TaskExecutionError => "the task's own body failed",
            CoreError::InstrumentationSendError => "the observability subsystem could not be notified",
        }
    }

    /// What `describe` returns, as a sequence of characters.
    pub closed spec fn spec_describe(self) -> Seq<char> {
        match self {
            CoreError::LockContention => "the lock is held and the attempt may not suspend"@,
            CoreError::TaskCancelled => "the reply slot was abandoned before it was answered"@,
            CoreError::RegistrationMissing => "no subsystem was registered under this key"@,
            CoreError::DuplicateRegistration => "a subsystem was already registered under this key"@,
            CoreError::TaskExecutionError => "the task's own body failed"@,
            CoreError::InstrumentationSendError => "the observability subsystem could not be notified"@,
        }
    }
}

} // verus!
