//! Runtime-level decisions: how the engine's answer to "run a pending job"
//! is read, when the job loop stops, and what the interrupt hook answers.

pub mod async_executor;

use vstd::prelude::*;

verus! {

/// The engine's answer to a request to run one pending job.
#[derive(PartialEq, Eq, Debug, Clone, Copy)]
pub enum PendingJob {
    /// No job was queued.
    NoJob,
    /// One job ran.
    Executed,
    /// The job threw an exception.
    Exception,
}

/// How a status code of the engine reads: 0 no job, 1 one job ran, anything
/// else an exception.
pub open spec fn pending_job_of(code: i32) -> PendingJob {
    if code == 0 {
        PendingJob::NoJob
    } else if code == 1 {
        PendingJob::Executed
    } else {
        PendingJob::Exception
    }
}

/// Read the engine's status code for running a pending job.
pub fn pending_job_outcome(code: i32) -> (r: PendingJob)
    ensures
        r == pending_job_of(code),
{
    if code == 0 {
        PendingJob::NoJob
    } else if code == 1 {
        PendingJob::Executed
    } else {
        PendingJob::Exception
    }
}

/// Whether the loop that runs pending jobs goes on after this outcome: it
/// stops only when no job is left; an exception is reported and the loop
/// continues.
pub fn continue_pending_jobs(outcome: PendingJob) -> (r: bool)
    ensures
        r == (outcome != PendingJob::NoJob),
{
    match outcome {
        PendingJob::NoJob => false,
        _ => true,
    }
}

/// What the interrupt hook answers the engine, given how the user's handler
/// ended: with its answer, or with a panic. A panic is kept in `panic_slot`,
/// to be resumed once control is back in Rust, and the interpreter is
/// interrupted.
pub fn interrupt_answer<P>(outcome: Result<bool, P>, panic_slot: &mut Option<P>) -> (interrupt: bool)
    ensures
        match outcome {
            Ok(b) => interrupt == b && *final(panic_slot) == *old(panic_slot),
            Err(p) => interrupt && *final(panic_slot) == Some(p),
        },
{
    match outcome {
        Ok(b) => b,
        Err(p) => {
            *panic_slot = Some(p);
            true
        },
    }
}

} // verus!
