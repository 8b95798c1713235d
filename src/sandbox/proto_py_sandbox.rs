use vstd::prelude::*;

use hyperlight_host::{HyperlightError, UninitializedSandbox};

use crate::error::SandboxError;
use crate::host::{evolve, register_print};
use crate::sandbox::py_sandbox::PySandbox;
use crate::sandbox::sandbox_builder::Configuration;

verus! {

/// An isolated context that has been laid out but has not started running
/// the guest image.
pub struct ProtoPySandbox {
    inner: UninitializedSandbox,
    cfg: Configuration,
    image: Vec<u8>,
}

impl ProtoPySandbox {
    /// The configuration the context was built from.
    pub closed spec fn config(&self) -> Configuration {
        self.cfg
    }

    /// The guest image that was handed to the layout step.
    pub closed spec fn image(&self) -> Seq<u8> {
        self.image@
    }

    /// Lays out a context for `image` under `cfg` with `lay_out`, the step
    /// that hands both to the isolation runtime. `lay_out` receives exactly
    /// this image and configuration; the result is `Ok` exactly when it
    /// succeeds, and its failure is a `Boot` error. Sizes are not checked
    /// here: the runtime's failure is the only feedback on them.
    pub(crate) fn new<L>(image: Vec<u8>, cfg: Configuration, lay_out: L) -> (r: Result<ProtoPySandbox, SandboxError>) where
        L: FnOnce(Vec<u8>, Configuration) -> Result<UninitializedSandbox, HyperlightError>,
        requires
            forall|i: Vec<u8>, c: Configuration| lay_out.requires((i, c)),
        ensures
            exists|v: Vec<u8>, o: Result<UninitializedSandbox, HyperlightError>|
                v@ == image@ && lay_out.ensures((v, cfg), o) && (r is Ok <==> o is Ok),
            match r {
                Ok(p) => p.config() == cfg && p.image() == image@,
                Err(e) => e == SandboxError::Boot,
            },
    {
        let copy = image.clone();
        proof {
            broadcast use vstd::std_specs::vec::vec_clone_deep_view_proof;
            assert(copy@ =~= image@);
        }
        let ghost handed = copy;
        let out = lay_out(copy, cfg);
        assert(lay_out.ensures((handed, cfg), out));
        match out {
            Ok(inner) => Ok(ProtoPySandbox { inner, cfg, image }),
            Err(_) => Err(SandboxError::Boot),
        }
    }

    /// The configuration the context was built from.
    pub fn configuration(&self) -> (r: Configuration)
        ensures
            r == self.config(),
    {
        self.cfg
    }

    /// Routes the guest's printed output to `print_fn` from now on. A
    /// failure to attach it is a `Configuration` error.
    pub fn with_host_print_fn<F>(self, print_fn: F) -> (r: Result<ProtoPySandbox, SandboxError>) where
        F: FnMut(String) -> i32 + Send + 'static,
        ensures
            match r {
                Ok(p) => p.config() == self.config() && p.image() == self.image(),
                Err(e) => e == SandboxError::Configuration,
            },
    {
        let mut p = self;
        match register_print(&mut p.inner, print_fn) {
            Ok(()) => Ok(p),
            Err(_) => Err(SandboxError::Configuration),
        }
    }

    /// Boots the guest image up to its readiness point and captures the
    /// clean checkpoint. The context is consumed whatever the outcome; a
    /// failure is a `Boot` error.
    pub fn load_runtime(self) -> (r: Result<PySandbox, SandboxError>)
        ensures
            match r {
                Ok(s) => !s.is_poisoned(),
                Err(e) => e == SandboxError::Boot,
            },
    {
        match evolve(self.inner) {
            Ok(running) => PySandbox::new(running),
            Err(_) => Err(SandboxError::Boot),
        }
    }
}

} // verus!
