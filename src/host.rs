//! The isolation runtime as the library sees it: the `hyperlight_host` types
//! that the lifecycle carries, and one trusted wrapper per call into it.
//!
//! None of these calls promises an outcome: whether a context boots, whether
//! a call traps, and what the guest answers depend on the machine and on the
//! guest image. The lifecycle therefore takes every reply as it comes and
//! decides on it in verified code.

use hyperlight_host::sandbox::snapshot::Snapshot;
use hyperlight_host::{HyperlightError, MultiUseSandbox, UninitializedSandbox};
use vstd::prelude::*;

verus! {

#[verifier::external_type_specification]
#[verifier::external_body]
pub struct ExUninitializedSandbox(UninitializedSandbox);

#[verifier::external_type_specification]
#[verifier::external_body]
pub struct ExMultiUseSandbox(MultiUseSandbox);

#[verifier::external_type_specification]
#[verifier::external_body]
pub struct ExSnapshot(Snapshot);

#[verifier::external_type_specification]
#[verifier::external_body]
pub struct ExHyperlightError(HyperlightError);

/// Relies on hyperlight_host::is_hypervisor_present: whether the host offers
/// a hypervisor that can run an isolated context.
#[verifier::external_body]
pub(crate) fn hypervisor_present() -> bool {
    hyperlight_host::is_hypervisor_present()
}

/// Relies on hyperlight_host::UninitializedSandbox::register_print: routes
/// the guest's print calls to `print_fn`.
#[verifier::external_body]
pub(crate) fn register_print<F>(ctx: &mut UninitializedSandbox, print_fn: F) -> Result<(), HyperlightError> where
    F: FnMut(String) -> i32 + Send + 'static,
{
    ctx.register_print(print_fn)
}

/// Relies on hyperlight_host::UninitializedSandbox::evolve: boots the guest
/// image up to its readiness point.
#[verifier::external_body]
pub(crate) fn evolve(ctx: UninitializedSandbox) -> Result<MultiUseSandbox, HyperlightError> {
    ctx.evolve()
}

/// Relies on hyperlight_host::MultiUseSandbox::snapshot: captures the
/// context's memory state, tied to this context.
#[verifier::external_body]
pub(crate) fn capture(ctx: &mut MultiUseSandbox) -> Result<Snapshot, HyperlightError> {
    ctx.snapshot()
}

/// Relies on hyperlight_host::MultiUseSandbox::restore: puts the context back
/// into the state that `snapshot` captured, or fails when the snapshot was
/// taken from another context.
#[verifier::external_body]
pub(crate) fn restore(ctx: &mut MultiUseSandbox, snapshot: &Snapshot) -> Result<(), HyperlightError> {
    ctx.restore(snapshot)
}

/// Relies on hyperlight_host::MultiUseSandbox::call, for a guest function that takes
/// no argument and answers with a `bool`.
#[verifier::external_body]
pub(crate) fn call_without_argument(ctx: &mut MultiUseSandbox, name: &str) -> Result<bool, HyperlightError> {
    ctx.call::<bool>(name, ())
}

/// Relies on hyperlight_host::MultiUseSandbox::call, for a guest function that takes
/// one string and answers with a `bool`.
#[verifier::external_body]
pub(crate) fn call_with_text(ctx: &mut MultiUseSandbox, name: &str, text: String) -> Result<bool, HyperlightError> {
    ctx.call::<bool>(name, text)
}

/// Relies on hyperlight_host::MultiUseSandbox::poisoned: whether a guest
/// call was interrupted and left the context in an inconsistent state.
#[verifier::external_body]
pub(crate) fn context_poisoned(ctx: &MultiUseSandbox) -> bool {
    ctx.poisoned()
}

} // verus!
