//! The boundary protocol between host and guest: the names of the guest
//! functions that the host calls, and how the host reads their replies.

use vstd::prelude::*;

use crate::error::SandboxError;

verus! {

/// Guest function that brings the interpreter up; no argument, `bool` reply.
pub const INIT_PYTHON: &'static str = "init_python";

/// Guest function that runs one script; the source text as its argument,
/// `bool` reply.
pub const EXEC_PYTHON: &'static str = "exec_python";

/// How the host reads the reply to the initialize call: `None` stands for a
/// call that failed or trapped.
pub open spec fn init_outcome_of(reply: Option<bool>) -> Result<(), SandboxError> {
    match reply {
        Some(true) => Ok(()),
        Some(false) => Err(SandboxError::InitializationFailure),
        None => Err(SandboxError::CallDispatch),
    }
}

/// How the host reads the reply to the execute call: the guest's `bool` is
/// passed on as it came, since it only says whether a live interpreter took
/// the script.
pub open spec fn script_outcome_of(reply: Option<bool>) -> Result<bool, SandboxError> {
    match reply {
        Some(b) => Ok(b),
        None => Err(SandboxError::CallDispatch),
    }
}

/// Decides the result of the initialize call from its reply.
pub fn init_outcome(reply: Option<bool>) -> (r: Result<(), SandboxError>)
    ensures
        r == init_outcome_of(reply),
{
    match reply {
        Some(true) => Ok(()),
        Some(false) => Err(SandboxError::InitializationFailure),
        None => Err(SandboxError::CallDispatch),
    }
}

/// Decides the result of the execute call from its reply.
pub fn script_outcome(reply: Option<bool>) -> (r: Result<bool, SandboxError>)
    ensures
        r == script_outcome_of(reply),
{
    match reply {
        Some(b) => Ok(b),
        None => Err(SandboxError::CallDispatch),
    }
}

/// How loading the interpreter ends: a failed call is `CallDispatch`; a
/// call that answered but left the context faulted is `PoisonedSandbox`,
/// whatever the answer; otherwise the answer decides.
pub open spec fn loaded_outcome_of(reply: Option<bool>, faulted: bool) -> Result<(), SandboxError> {
    if reply is Some && faulted {
        Err(SandboxError::PoisonedSandbox)
    } else {
        init_outcome_of(reply)
    }
}

/// How restoring the boot checkpoint ends: a failed restore is
/// `SnapshotRestore`; a context still faulted afterwards is poisoned.
pub open spec fn restore_outcome_of(restored: bool, faulted: bool) -> Result<(), SandboxError> {
    if !restored {
        Err(SandboxError::SnapshotRestore)
    } else if faulted {
        Err(SandboxError::PoisonedSandbox)
    } else {
        Ok(())
    }
}

/// Decides the result of loading the interpreter from the reply to the
/// initialize call and whether the context faulted during it.
pub fn loaded_outcome(reply: Option<bool>, faulted: bool) -> (r: Result<(), SandboxError>)
    ensures
        r == loaded_outcome_of(reply, faulted),
{
    if reply.is_some() && faulted {
        Err(SandboxError::PoisonedSandbox)
    } else {
        init_outcome(reply)
    }
}

/// Decides one execute call: the new fault flag, which never clears, and
/// the result handed to the caller.
pub fn script_step(poisoned: bool, faulted: bool, reply: Option<bool>) -> (r: (bool, Result<bool, SandboxError>))
    ensures
        r.0 == (poisoned || faulted),
        r.1 == script_outcome_of(reply),
{
    (poisoned || faulted, script_outcome(reply))
}

/// Decides the result of restoring the boot checkpoint.
pub fn restore_outcome(restored: bool, faulted: bool) -> (r: Result<(), SandboxError>)
    ensures
        r == restore_outcome_of(restored, faulted),
{
    if !restored {
        Err(SandboxError::SnapshotRestore)
    } else if faulted {
        Err(SandboxError::PoisonedSandbox)
    } else {
        Ok(())
    }
}

} // verus!
