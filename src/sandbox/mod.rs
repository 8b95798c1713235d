mod loaded_py_sandbox;
mod proto_py_sandbox;
mod py_sandbox;
mod sandbox_builder;

pub use loaded_py_sandbox::LoadedPySandbox;
pub use proto_py_sandbox::ProtoPySandbox;
pub use py_sandbox::PySandbox;
pub use sandbox_builder::{Configuration, SandboxBuilder, DEFAULT_HEAP_SIZE, DEFAULT_STACK_SIZE};
