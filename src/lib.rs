//! Runs untrusted scripts in a hypervisor-isolated sandbox, reusing one
//! booted context for many independent runs.
//!
//! The host side is a lifecycle of consuming transitions:
//! [`sandbox::SandboxBuilder`] builds a [`sandbox::ProtoPySandbox`], which
//! boots into a [`sandbox::PySandbox`] holding the clean boot checkpoint,
//! which loads the interpreter into a [`sandbox::LoadedPySandbox`], which
//! unloads back to a `PySandbox` by restoring that checkpoint.
//!
//! The guest side ([`guest`], [`relay`]) keeps the interpreter a singleton,
//! answers the boundary calls, and prepares the printed text that is relayed
//! to the host.

pub mod error;
pub mod guest;
pub mod host;
pub mod protocol;
pub mod relay;
pub mod sandbox;
