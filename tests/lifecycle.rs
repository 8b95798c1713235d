use hyperlight_host::sandbox::SandboxConfiguration;
use hyperlight_host::{GuestBinary, HyperlightError, UninitializedSandbox};
use hyperlight_python::error::SandboxError;
use hyperlight_python::protocol::{
    init_outcome, loaded_outcome, restore_outcome, script_outcome, script_step, EXEC_PYTHON, INIT_PYTHON,
};
use hyperlight_python::sandbox::{Configuration, SandboxBuilder, DEFAULT_HEAP_SIZE, DEFAULT_STACK_SIZE};

fn lay_out_with_runtime(image: Vec<u8>, cfg: Configuration) -> Result<UninitializedSandbox, HyperlightError> {
    let mut c = SandboxConfiguration::default();
    c.set_stack_size(cfg.stack_size);
    c.set_heap_size(cfg.heap_size);
    UninitializedSandbox::new(GuestBinary::Buffer(&image), Some(c))
}

fn never_lay_out(_image: Vec<u8>, _cfg: Configuration) -> Result<UninitializedSandbox, HyperlightError> {
    panic!("the layout step must not run")
}

#[test]
fn builder_defaults() {
    let b = SandboxBuilder::new();
    assert_eq!(DEFAULT_STACK_SIZE, 131072);
    assert_eq!(DEFAULT_HEAP_SIZE, 524288);
    assert_eq!(
        b.configuration(),
        Configuration { stack_size: 131072, heap_size: 524288, debug_port: None }
    );
}

#[test]
fn builder_setters_change_one_field_each() {
    let b = SandboxBuilder::new().with_stack_size(256 * 1024);
    assert_eq!(b.configuration().stack_size, 262144);
    assert_eq!(b.configuration().heap_size, 524288);
    let b = b.with_heap_size(1024 * 1024);
    assert_eq!(b.configuration().heap_size, 1048576);
    assert_eq!(b.configuration().stack_size, 262144);
    let b = b.with_debug_enabled(9000);
    assert_eq!(
        b.configuration(),
        Configuration { stack_size: 262144, heap_size: 1048576, debug_port: Some(9000) }
    );
    let b = b.with_guest_image(vec![1, 2, 3]);
    assert_eq!(b.configuration().debug_port, Some(9000));
}

#[test]
fn build_without_isolation_is_unavailable() {
    let r = SandboxBuilder::new().build_on(false, never_lay_out);
    assert!(matches!(r, Err(SandboxError::IsolationUnavailable)));
    let r = SandboxBuilder::new()
        .with_guest_image(vec![0x7f, b'E', b'L', b'F'])
        .build_on(false, never_lay_out);
    assert!(matches!(r, Err(SandboxError::IsolationUnavailable)));
}

#[test]
fn sizes_are_left_to_the_layout_step() {
    let r = SandboxBuilder::new()
        .with_heap_size(u64::MAX)
        .with_stack_size(0)
        .build_on(true, |_image: Vec<u8>, cfg: Configuration| {
            assert_eq!(cfg.heap_size, u64::MAX);
            assert_eq!(cfg.stack_size, 0);
            Err(HyperlightError::Error(String::from("too large")))
        });
    assert!(matches!(r, Err(SandboxError::Boot)));
}

#[test]
fn layout_step_receives_the_image_and_configuration() {
    let r = SandboxBuilder::new()
        .with_heap_size(4096)
        .with_guest_image(vec![9, 8, 7])
        .build_on(true, |image: Vec<u8>, cfg: Configuration| {
            assert_eq!(image, vec![9, 8, 7]);
            assert_eq!(cfg, Configuration { stack_size: 131072, heap_size: 4096, debug_port: None });
            Err(HyperlightError::Error(String::from("refused")))
        });
    assert!(matches!(r, Err(SandboxError::Boot)));
}

#[test]
fn build_with_malformed_image_is_a_boot_error() {
    let r = SandboxBuilder::new()
        .with_guest_image(vec![1, 2, 3, 4])
        .build_on(true, lay_out_with_runtime);
    assert!(matches!(r, Err(SandboxError::Boot)));
}

#[test]
fn build_reports_one_of_its_two_errors_for_an_empty_image() {
    let r = SandboxBuilder::new().build(lay_out_with_runtime);
    assert!(matches!(
        r,
        Err(SandboxError::IsolationUnavailable) | Err(SandboxError::Boot)
    ));
}

#[test]
fn loading_outcome_reports_faults_over_success() {
    assert_eq!(loaded_outcome(Some(true), false), Ok(()));
    assert_eq!(loaded_outcome(Some(true), true), Err(SandboxError::PoisonedSandbox));
    assert_eq!(loaded_outcome(Some(false), false), Err(SandboxError::InitializationFailure));
    assert_eq!(loaded_outcome(Some(false), true), Err(SandboxError::PoisonedSandbox));
    assert_eq!(loaded_outcome(None, true), Err(SandboxError::CallDispatch));
}

#[test]
fn script_step_keeps_the_fault_flag_sticky() {
    assert_eq!(script_step(false, false, Some(true)), (false, Ok(true)));
    assert_eq!(script_step(false, true, None), (true, Err(SandboxError::CallDispatch)));
    assert_eq!(script_step(true, false, Some(false)), (true, Ok(false)));
}

#[test]
fn restore_outcome_names_each_failure() {
    assert_eq!(restore_outcome(true, false), Ok(()));
    assert_eq!(restore_outcome(false, false), Err(SandboxError::SnapshotRestore));
    assert_eq!(restore_outcome(false, true), Err(SandboxError::SnapshotRestore));
    assert_eq!(restore_outcome(true, true), Err(SandboxError::PoisonedSandbox));
}

#[test]
fn init_reply_decides_the_outcome() {
    assert_eq!(init_outcome(Some(true)), Ok(()));
    assert_eq!(init_outcome(Some(false)), Err(SandboxError::InitializationFailure));
    assert_eq!(init_outcome(None), Err(SandboxError::CallDispatch));
}

#[test]
fn script_reply_is_passed_on() {
    assert_eq!(script_outcome(Some(true)), Ok(true));
    assert_eq!(script_outcome(Some(false)), Ok(false));
    assert_eq!(script_outcome(None), Err(SandboxError::CallDispatch));
}

#[test]
fn boundary_function_names() {
    assert_eq!(INIT_PYTHON, "init_python");
    assert_eq!(EXEC_PYTHON, "exec_python");
}
