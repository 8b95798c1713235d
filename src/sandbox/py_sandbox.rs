use vstd::prelude::*;

use hyperlight_host::sandbox::snapshot::Snapshot;
use hyperlight_host::{HyperlightError, MultiUseSandbox};

use crate::error::SandboxError;
use crate::host::{call_without_argument, capture, context_poisoned, restore};
use crate::protocol::{loaded_outcome, restore_outcome, INIT_PYTHON};
use crate::sandbox::loaded_py_sandbox::LoadedPySandbox;

verus! {

/// A booted context paired with the checkpoint captured right after boot,
/// before any interpreter was brought up.
pub struct PySandbox {
    inner: MultiUseSandbox,
    snapshot: Snapshot,
    poisoned: bool,
}

impl PySandbox {
    /// The clean checkpoint captured at boot.
    pub closed spec fn boot_snapshot(&self) -> Snapshot {
        self.snapshot
    }

    /// Whether the context has faulted; once set it stays set.
    pub closed spec fn is_poisoned(&self) -> bool {
        self.poisoned
    }

    /// Captures the clean checkpoint of a freshly booted context.
    pub(crate) fn new(inner: MultiUseSandbox) -> (r: Result<PySandbox, SandboxError>)
        ensures
            match r {
                Ok(s) => !s.is_poisoned(),
                Err(e) => e == SandboxError::Boot,
            },
    {
        let mut inner = inner;
        match capture(&mut inner) {
            Ok(snapshot) => Ok(PySandbox { inner, snapshot, poisoned: false }),
            Err(_) => Err(SandboxError::Boot),
        }
    }

    /// Puts a context back to `snapshot`, discarding the interpreter and
    /// every effect of the scripts it ran. The outcome is decided by
    /// [`restore_outcome`] from whether the restore succeeded (it fails for a
    /// snapshot taken from another context) and whether the context is still
    /// poisoned afterwards.
    pub(crate) fn from_loaded(inner: MultiUseSandbox, snapshot: Snapshot) -> (r: Result<PySandbox, SandboxError>)
        ensures
            match r {
                Ok(s) => s.boot_snapshot() == snapshot && !s.is_poisoned(),
                Err(e) => e == SandboxError::SnapshotRestore || e == SandboxError::PoisonedSandbox,
            },
    {
        let mut inner = inner;
        let restored = restore(&mut inner, &snapshot).is_ok();
        let faulted = context_poisoned(&inner);
        match restore_outcome(restored, faulted) {
            Ok(()) => Ok(PySandbox { inner, snapshot, poisoned: false }),
            Err(e) => Err(e),
        }
    }

    /// Brings the guest interpreter up with the initialize call and hands
    /// the context on, with the same boot checkpoint, as a loaded sandbox.
    ///
    /// A poisoned context fails with `PoisonedSandbox` before any call.
    /// Otherwise [`loaded_outcome`] decides from the reply and from whether
    /// the call left the context faulted. On `InitializationFailure` (the
    /// guest answered `false`) the sandbox comes back unchanged in the
    /// failure, with its boot checkpoint, for a retry. A failed or trapped
    /// call keeps the runtime's error as the cause.
    pub fn get_loaded_sandbox(self) -> (r: Result<LoadedPySandbox, LoadFailure>)
        ensures
            self.is_poisoned() ==> r is Err && r->Err_0.error == SandboxError::PoisonedSandbox
                && r->Err_0.sandbox is None,
            match r {
                Ok(l) => l.boot_snapshot() == self.boot_snapshot() && !l.is_poisoned(),
                Err(f) => f.error == SandboxError::PoisonedSandbox || f.error == SandboxError::InitializationFailure
                    || f.error == SandboxError::CallDispatch,
            },
            r matches Err(f) ==> (f.sandbox is Some <==> f.error == SandboxError::InitializationFailure),
            r matches Err(f) ==> (f.sandbox matches Some(s) ==> s.boot_snapshot() == self.boot_snapshot() && !s.is_poisoned()),
            r matches Err(f) ==> (f.cause is Some <==> f.error == SandboxError::CallDispatch),
    {
        if self.poisoned {
            return Err(LoadFailure { error: SandboxError::PoisonedSandbox, sandbox: None, cause: None });
        }
        let mut inner = self.inner;
        let (reply, cause) = match call_without_argument(&mut inner, INIT_PYTHON) {
            Ok(b) => (Some(b), None),
            Err(e) => (None, Some(e)),
        };
        let faulted = context_poisoned(&inner);
        match loaded_outcome(reply, faulted) {
            Ok(()) => Ok(LoadedPySandbox::new(inner, self.snapshot)),
            Err(SandboxError::InitializationFailure) => Err(LoadFailure {
                error: SandboxError::InitializationFailure,
                sandbox: Some(PySandbox { inner, snapshot: self.snapshot, poisoned: false }),
                cause: None,
            }),
            Err(e) => Err(LoadFailure { error: e, sandbox: None, cause }),
        }
    }

    /// Whether the context has faulted.
    pub fn poisoned(&self) -> (r: bool)
        ensures
            r == self.is_poisoned(),
    {
        self.poisoned
    }
}

/// Why loading the interpreter failed.
pub struct LoadFailure {
    /// The kind of failure.
    pub error: SandboxError,
    /// The sandbox, handed back for a retry when the guest answered `false`.
    pub sandbox: Option<PySandbox>,
    /// The isolation runtime's error, when the initialize call itself failed.
    pub cause: Option<HyperlightError>,
}

} // verus!
