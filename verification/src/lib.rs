//! An actor-style subsystem and task dispatch core.
//!
//! Independent subsystems own private state and execute tasks delivered
//! through per-subsystem mailboxes. A task declares an access mode (shared
//! or exclusive), logging, benchmarking and IO flags; the dispatch loop
//! dequeues tasks in send order, arbitrates access to the subsystem state,
//! emits instrumentation to a built-in observability subsystem and answers
//! each task through a one-shot reply slot read by a `TaskHandle`.

use vstd::prelude::*;

pub mod arclock;
pub mod channels;
pub mod counter;
pub mod duration;
pub mod errors;
pub mod subsystem;
pub mod task;
pub mod tasks;

verus! {

} // verus!
