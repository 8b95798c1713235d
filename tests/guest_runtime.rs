use hyperlight_common::flatbuffer_wrappers::function_call::{FunctionCall, FunctionCallType};
use hyperlight_common::flatbuffer_wrappers::function_types::ReturnType;
use hyperlight_common::flatbuffer_wrappers::util::get_flatbuffer_result;
use hyperlight_python::guest::guest_dispatch_function;
use hyperlight_python::guest::{GuestRuntime, InterpreterState, MicroPython};

#[test]
fn init_hands_out_a_handle_owning_live_bookkeeping() {
    let state = InterpreterState::new(1024);
    assert!(!state.is_initialized());
    assert_eq!(state.heap_len(), None);
    let handle = MicroPython::init(state).ok().unwrap();
    assert!(handle.state().is_initialized());
    assert_eq!(handle.state().heap_len(), Some(1024));
}

#[test]
fn heap_is_prepared_once_and_kept_across_cycles() {
    let state = InterpreterState::new(4096);
    let handle = MicroPython::init(state).ok().unwrap();
    let state = handle.deinit();
    assert!(!state.is_initialized());
    assert_eq!(state.heap_len(), Some(4096));
    let again = MicroPython::init(state).ok().unwrap();
    assert!(again.state().is_initialized());
    assert_eq!(again.state().heap_len(), Some(4096));
}

#[test]
fn init_after_deinit_succeeds() {
    let handle = MicroPython::init(InterpreterState::new(16)).ok().unwrap();
    let state = handle.deinit();
    assert!(MicroPython::init(state).is_ok());
}

#[test]
fn exec_appends_a_nul_terminator() {
    let rt = MicroPython::init(InterpreterState::new(16)).ok().unwrap();
    assert_eq!(rt.exec("x = 1"), vec![b'x', b' ', b'=', b' ', b'1', 0]);
    assert_eq!(rt.exec(""), vec![0]);
    assert_eq!(rt.exec("é"), vec![0xc3, 0xa9, 0]);
}

#[test]
fn exec_python_without_interpreter_is_not_dispatched() {
    let rt = GuestRuntime::new(64);
    assert!(!rt.is_live());
    assert_eq!(rt.heap_len(), None);
    assert!(rt.exec_python("print(1)").is_none());
}

#[test]
fn init_python_brings_the_interpreter_up_once() {
    let mut rt = GuestRuntime::new(64);
    assert!(rt.init_python());
    assert!(rt.is_live());
    assert_eq!(rt.heap_len(), Some(64));
    assert!(rt.init_python());
    assert!(rt.is_live());
    assert_eq!(rt.heap_len(), Some(64));
}

#[test]
fn invalid_syntax_is_still_dispatched_while_live() {
    let mut rt = GuestRuntime::new(64);
    assert!(rt.init_python());
    let out = rt.exec_python("def (:");
    assert!(out.is_some());
    assert_eq!(out.unwrap(), b"def (:\0".to_vec());
}

#[test]
fn unregistered_call_gets_an_encoded_zero() {
    let call = FunctionCall::new(
        String::from("missing"),
        None,
        FunctionCallType::Guest,
        ReturnType::Int,
    );
    let reply = guest_dispatch_function(call);
    assert!(!reply.is_empty());
    assert_eq!(reply, get_flatbuffer_result(0i32));
    assert_ne!(reply, get_flatbuffer_result(1i32));
}
