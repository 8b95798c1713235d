use vstd::prelude::*;

use hyperlight_host::{HyperlightError, UninitializedSandbox};

use crate::error::SandboxError;
use crate::host::hypervisor_present;
use crate::sandbox::proto_py_sandbox::ProtoPySandbox;

verus! {

/// Default guest stack size in bytes (128 KiB).
pub const DEFAULT_STACK_SIZE: u64 = 131072;

/// Default guest heap size in bytes (512 KiB).
pub const DEFAULT_HEAP_SIZE: u64 = 524288;

/// Resource sizes and options of a sandbox, fixed once a context is built
/// from them.
///
/// The whole configuration is handed to the step that lays the context out.
/// The stack and heap sizes go to the isolation runtime. The debug port is
/// recorded only: the isolation runtime takes one solely when it is built
/// with its guest-debugging feature, which this crate does not enable, so
/// no code here hands it on.
#[derive(Clone, Copy, Debug, PartialEq, Eq, Structural)]
pub struct Configuration {
    pub stack_size: u64,
    pub heap_size: u64,
    pub debug_port: Option<u16>,
}

impl Configuration {
    /// The default configuration: 128 KiB of stack, 512 KiB of heap, no
    /// debug port.
    pub open spec fn default_spec() -> Configuration {
        Configuration { stack_size: DEFAULT_STACK_SIZE, heap_size: DEFAULT_HEAP_SIZE, debug_port: None }
    }
}

/// Staged configuration of a sandbox, consumed once by [`SandboxBuilder::build`].
pub struct SandboxBuilder {
    cfg: Configuration,
    guest_image: Vec<u8>,
}

impl SandboxBuilder {
    /// The configuration staged so far.
    pub closed spec fn config(&self) -> Configuration {
        self.cfg
    }

    /// The guest image that the context will run.
    pub closed spec fn image(&self) -> Seq<u8> {
        self.guest_image@
    }

    /// A builder with the default configuration and an empty guest image.
    pub fn new() -> (r: SandboxBuilder)
        ensures
            r.config() == Configuration::default_spec(),
            r.image() == Seq::<u8>::empty(),
    {
        SandboxBuilder {
            cfg: Configuration { stack_size: DEFAULT_STACK_SIZE, heap_size: DEFAULT_HEAP_SIZE, debug_port: None },
            guest_image: Vec::new(),
        }
    }

    /// Sets the stack size in bytes; no bound is checked here.
    pub fn with_stack_size(self, size: u64) -> (r: SandboxBuilder)
        ensures
            r.config() == (Configuration { stack_size: size, ..self.config() }),
            r.image() == self.image(),
    {
        let mut b = self;
        b.cfg.stack_size = size;
        b
    }

    /// Sets the heap size in bytes; no bound is checked here.
    pub fn with_heap_size(self, size: u64) -> (r: SandboxBuilder)
        ensures
            r.config() == (Configuration { heap_size: size, ..self.config() }),
            r.image() == self.image(),
    {
        let mut b = self;
        b.cfg.heap_size = size;
        b
    }

    /// Sets the port of the guest debugger.
    pub fn with_debug_enabled(self, port: u16) -> (r: SandboxBuilder)
        ensures
            r.config() == (Configuration { debug_port: Some(port), ..self.config() }),
            r.image() == self.image(),
    {
        let mut b = self;
        b.cfg.debug_port = Some(port);
        b
    }

    /// Sets the guest image: the precompiled binary that holds the
    /// interpreter and answers the boundary calls.
    pub fn with_guest_image(self, image: Vec<u8>) -> (r: SandboxBuilder)
        ensures
            r.config() == self.config(),
            r.image() == image@,
    {
        SandboxBuilder { cfg: self.cfg, guest_image: image }
    }

    /// The configuration staged so far.
    pub fn configuration(&self) -> (r: Configuration)
        ensures
            r == self.config(),
    {
        self.cfg
    }

    /// Builds the not-yet-started context, given whether the host offers the
    /// isolation capability.
    ///
    /// Without it the result is `IsolationUnavailable`, `lay_out` is not
    /// called and no context exists. With it, `lay_out` receives the guest
    /// image and the configuration and lays the context out; the result is
    /// `Ok` exactly when it succeeds, and its failure is a `Boot` error.
    /// Sizes are not checked here: the runtime's failure is the only feedback
    /// on them. The guest image is never parsed here: which
    /// images are admitted is up to `lay_out` and the isolation runtime
    /// behind it.
    pub fn build_on<L>(self, isolation_available: bool, lay_out: L) -> (r: Result<ProtoPySandbox, SandboxError>) where
        L: FnOnce(Vec<u8>, Configuration) -> Result<UninitializedSandbox, HyperlightError>,
        requires
            forall|i: Vec<u8>, c: Configuration| lay_out.requires((i, c)),
        ensures
            !isolation_available ==> r is Err && r->Err_0 == SandboxError::IsolationUnavailable,
            isolation_available ==> exists|v: Vec<u8>, o: Result<UninitializedSandbox, HyperlightError>|
                v@ == self.image() && lay_out.ensures((v, self.config()), o) && (r is Ok <==> o is Ok),
            isolation_available ==> match r {
                Ok(p) => p.config() == self.config() && p.image() == self.image(),
                Err(e) => e == SandboxError::Boot,
            },
    {
        if !isolation_available {
            return Err(SandboxError::IsolationUnavailable);
        }
        ProtoPySandbox::new(self.guest_image, self.cfg, lay_out)
    }

    /// Builds the not-yet-started context after asking the host whether it
    /// offers a hypervisor: `IsolationUnavailable` when it does not,
    /// otherwise as [`SandboxBuilder::build_on`] with isolation available.
    pub fn build<L>(self, lay_out: L) -> (r: Result<ProtoPySandbox, SandboxError>) where
        L: FnOnce(Vec<u8>, Configuration) -> Result<UninitializedSandbox, HyperlightError>,
        requires
            forall|i: Vec<u8>, c: Configuration| lay_out.requires((i, c)),
        ensures
            (r is Err && r->Err_0 == SandboxError::IsolationUnavailable) || exists|
                v: Vec<u8>,
                o: Result<UninitializedSandbox, HyperlightError>,
            | v@ == self.image() && lay_out.ensures((v, self.config()), o) && (r is Ok <==> o is Ok),
            match r {
                Ok(p) => p.config() == self.config() && p.image() == self.image(),
                Err(e) => e == SandboxError::IsolationUnavailable || e == SandboxError::Boot,
            },
    {
        let available = hypervisor_present();
        self.build_on(available, lay_out)
    }
}

} // verus!
