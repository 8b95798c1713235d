use vstd::prelude::*;

verus! {

/// The kinds of failure that the sandbox lifecycle reports.
///
/// Every lifecycle operation returns one of these instead of recovering
/// silently.
#[derive(Clone, Copy, Debug, PartialEq, Eq, Structural)]
pub enum SandboxError {
    /// The host print callback could not be attached to the new context.
    Configuration,
    /// The host offers no hypervisor, so no isolated context can exist.
    IsolationUnavailable,
    /// The isolated context could not be created, booted, or checkpointed.
    Boot,
    /// The guest-side interpreter singleton is already live.
    AlreadyInitialized,
    /// The guest answered the initialize call with `false`.
    InitializationFailure,
    /// The boundary call itself failed or trapped.
    CallDispatch,
    /// The context faulted earlier; no further boundary call is attempted.
    PoisonedSandbox,
    /// Restoring the boot checkpoint into the context failed.
    SnapshotRestore,
}

} // verus!
