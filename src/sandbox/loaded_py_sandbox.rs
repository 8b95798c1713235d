use vstd::prelude::*;

use hyperlight_host::sandbox::snapshot::Snapshot;
use hyperlight_host::MultiUseSandbox;

use crate::error::SandboxError;
use crate::host::{call_with_text, context_poisoned};
use crate::protocol::{script_step, EXEC_PYTHON};
use crate::sandbox::py_sandbox::PySandbox;

verus! {

/// A booted context whose guest interpreter is live, still paired with the
/// checkpoint captured at boot.
pub struct LoadedPySandbox {
    inner: MultiUseSandbox,
    snapshot: Snapshot,
    poisoned: bool,
}

impl LoadedPySandbox {
    /// The clean checkpoint captured at boot, before the interpreter existed.
    pub closed spec fn boot_snapshot(&self) -> Snapshot {
        self.snapshot
    }

    /// Whether the context has faulted; once set it stays set.
    pub closed spec fn is_poisoned(&self) -> bool {
        self.poisoned
    }

    pub(crate) fn new(inner: MultiUseSandbox, snapshot: Snapshot) -> (r: LoadedPySandbox)
        ensures
            r.boot_snapshot() == snapshot,
            !r.is_poisoned(),
    {
        LoadedPySandbox { inner, snapshot, poisoned: false }
    }

    /// Whether the context has faulted.
    pub fn poisoned(&self) -> (r: bool)
        ensures
            r == self.is_poisoned(),
    {
        self.poisoned
    }

    /// Runs `code` with the execute call.
    ///
    /// `Ok(b)` passes the guest's reply on: `true` says that a live
    /// interpreter took the script, not that the script succeeded; script
    /// errors show only in the printed output. A poisoned context fails with
    /// `PoisonedSandbox` and is left exactly as it was, with no call made. A
    /// failed or trapped call is `CallDispatch`, and a fault that the call
    /// causes marks the context poisoned for good; [`script_step`] decides
    /// both from the reply and the context's state after the call.
    pub fn run_script(&mut self, code: String) -> (r: Result<bool, SandboxError>)
        ensures
            old(self).is_poisoned() ==> r is Err && r->Err_0 == SandboxError::PoisonedSandbox
                && *final(self) == *old(self),
            old(self).is_poisoned() ==> final(self).is_poisoned(),
            final(self).boot_snapshot() == old(self).boot_snapshot(),
            !old(self).is_poisoned() ==> r is Ok || r->Err_0 == SandboxError::CallDispatch,
    {
        if self.poisoned {
            return Err(SandboxError::PoisonedSandbox);
        }
        let reply = call_with_text(&mut self.inner, EXEC_PYTHON, code).ok();
        let faulted = context_poisoned(&self.inner);
        let (poisoned, result) = script_step(self.poisoned, faulted, reply);
        self.poisoned = poisoned;
        result
    }

    /// Restores the boot checkpoint and hands the context back as a
    /// not-loaded sandbox, with the interpreter and every effect of the
    /// scripts run since boot gone.
    ///
    /// A poisoned context fails with `PoisonedSandbox` and is not restored.
    /// Otherwise the restore runs and `restore_outcome` decides the result:
    /// `SnapshotRestore` when the restore fails, `PoisonedSandbox` when the
    /// context is still poisoned afterwards.
    pub fn unload(self) -> (r: Result<PySandbox, SandboxError>)
        ensures
            self.is_poisoned() ==> r is Err && r->Err_0 == SandboxError::PoisonedSandbox,
            match r {
                Ok(s) => s.boot_snapshot() == self.boot_snapshot() && !s.is_poisoned(),
                Err(e) => e == SandboxError::PoisonedSandbox || e == SandboxError::SnapshotRestore,
            },
    {
        if self.poisoned {
            return Err(SandboxError::PoisonedSandbox);
        }
        PySandbox::from_loaded(self.inner, self.snapshot)
    }
}

} // verus!
