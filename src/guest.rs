use hyperlight_common::flatbuffer_wrappers::function_call::FunctionCall;
use hyperlight_common::flatbuffer_wrappers::util::get_flatbuffer_result;
use vstd::prelude::*;
use vstd::string::StringSliceAdditionalSpecFns;

use crate::error::SandboxError;

verus! {

/// Abstract state of the guest-resident interpreter bookkeeping.
pub struct InterpreterModel {
    /// The singleton flag: an interpreter instance is live.
    pub live: bool,
    /// Length of the heap buffer, once it has been prepared.
    pub heap: Option<nat>,
    /// The heap size that a first initialization prepares.
    pub heap_size: nat,
}

/// The state a successful initialization leaves behind: the flag is set and
/// the heap buffer exists, keeping an earlier buffer if there is one.
pub open spec fn init_state(m: InterpreterModel) -> InterpreterModel {
    if m.live {
        m
    } else {
        InterpreterModel {
            live: true,
            heap: match m.heap {
                Some(n) => Some(n),
                None => Some(m.heap_size),
            },
            heap_size: m.heap_size,
        }
    }
}

/// What an initialization attempt reports.
pub open spec fn init_result(m: InterpreterModel) -> Result<(), SandboxError> {
    if m.live {
        Err(SandboxError::AlreadyInitialized)
    } else {
        Ok(())
    }
}

/// The state after the live instance is torn down: the flag is cleared and
/// the heap buffer is retained for the next cycle.
pub open spec fn deinit_state(m: InterpreterModel) -> InterpreterModel {
    InterpreterModel { live: false, heap: m.heap, heap_size: m.heap_size }
}

/// The bytes that the interpreter's string-execution entry point receives:
/// the source text in UTF-8 followed by a NUL terminator.
pub open spec fn terminated_source(code: &str) -> Seq<u8> {
    code.spec_bytes().push(0u8)
}

/// The guest's interpreter bookkeeping: the singleton flag and the heap
/// buffer handed to the interpreter's garbage collector.
///
/// The buffer is prepared once, on the first successful initialization, and
/// is kept across teardown so that later cycles reuse it: at most one buffer
/// exists for the lifetime of the guest.
pub struct InterpreterState {
    initialized: bool,
    heap: Option<Vec<u8>>,
    heap_size: usize,
}

impl View for InterpreterState {
    type V = InterpreterModel;

    closed spec fn view(&self) -> InterpreterModel {
        InterpreterModel {
            live: self.initialized,
            heap: match self.heap {
                Some(h) => Some(h@.len()),
                None => None,
            },
            heap_size: self.heap_size as nat,
        }
    }
}

impl InterpreterState {
    /// Fresh bookkeeping: no live instance and no heap buffer yet.
    pub fn new(heap_size: usize) -> (r: InterpreterState)
        ensures
            r@ == (InterpreterModel { live: false, heap: None, heap_size: heap_size as nat }),
    {
        InterpreterState { initialized: false, heap: None, heap_size }
    }

    /// Whether an interpreter instance is live.
    pub fn is_initialized(&self) -> (r: bool)
        ensures
            r == self@.live,
    {
        self.initialized
    }

    /// Length of the prepared heap buffer, if any.
    pub fn heap_len(&self) -> (r: Option<usize>)
        ensures
            match r {
                Some(n) => self@.heap == Some(n as nat),
                None => self@.heap is None,
            },
    {
        match &self.heap {
            Some(h) => Some(h.len()),
            None => None,
        }
    }
}

/// Handle to the live interpreter instance.
///
/// Only a successful [`MicroPython::init`] produces one, and it owns the
/// bookkeeping it was brought up against: no other handle can reach that
/// bookkeeping, and [`MicroPython::deinit`] hands it back with the flag
/// cleared. Dropping a handle without `deinit` drops its bookkeeping too.
pub struct MicroPython {
    state: InterpreterState,
}

impl MicroPython {
    /// The bookkeeping this handle owns.
    pub closed spec fn bookkeeping(&self) -> InterpreterModel {
        self.state@
    }

    /// Brings up the interpreter against `state`.
    ///
    /// Fails with `AlreadyInitialized` while the flag is set, handing `state`
    /// back unchanged. Otherwise it prepares the heap buffer if this is the
    /// first cycle, sets the singleton flag, and returns the handle, which
    /// takes the bookkeeping with it.
    pub fn init(state: InterpreterState) -> (r: Result<MicroPython, (SandboxError, InterpreterState)>)
        ensures
            r is Ok <==> init_result(state@) is Ok,
            match r {
                Ok(h) => h.bookkeeping() == init_state(state@),
                Err((e, s)) => e == SandboxError::AlreadyInitialized && s@ == state@,
            },
    {
        let mut state = state;
        if state.initialized {
            return Err((SandboxError::AlreadyInitialized, state));
        }
        if state.heap.is_none() {
            let buf: Vec<u8> = vec![0u8; state.heap_size];
            state.heap = Some(buf);
        }
        state.initialized = true;
        Ok(MicroPython { state })
    }

    /// The bookkeeping this handle owns.
    pub fn state(&self) -> (r: &InterpreterState)
        ensures
            r@ == self.bookkeeping(),
    {
        &self.state
    }

    /// The NUL-terminated buffer that the interpreter's string-execution
    /// entry point runs for `code`.
    pub fn exec(&self, code: &str) -> (r: Vec<u8>)
        ensures
            r@ == terminated_source(code),
    {
        let bytes = code.as_bytes();
        let mut buf: Vec<u8> = Vec::new();
        let mut i: usize = 0;
        while i < bytes.len()
            invariant
                bytes@ == code.spec_bytes(),
                i <= bytes@.len(),
                buf@ == bytes@.subrange(0, i as int),
            decreases bytes@.len() - i,
        {
            buf.push(bytes[i]);
            i = i + 1;
        }
        assert(buf@ == code.spec_bytes());
        buf.push(0u8);
        buf
    }

    /// Tears the instance down and hands its bookkeeping back, with the
    /// singleton flag cleared and the heap buffer kept for the next cycle.
    pub fn deinit(self) -> (r: InterpreterState)
        ensures
            r@ == deinit_state(self.bookkeeping()),
    {
        let mut state = self.state;
        state.initialized = false;
        state
    }
}

/// Abstract state of the guest runtime: the interpreter bookkeeping and
/// whether the runtime slot holds a live handle.
pub struct GuestModel {
    pub runtime: bool,
    pub interpreter: InterpreterModel,
}

/// The guest side of the boundary protocol: the runtime slot that the
/// initialize and execute calls act on. The bookkeeping sits in the slot's
/// handle while an interpreter is live and beside it otherwise.
pub struct GuestRuntime {
    runtime: Option<MicroPython>,
    idle: Option<InterpreterState>,
}

impl View for GuestRuntime {
    type V = GuestModel;

    closed spec fn view(&self) -> GuestModel {
        GuestModel {
            runtime: self.runtime is Some,
            interpreter: match self.runtime {
                Some(h) => h.bookkeeping(),
                None => match self.idle {
                    Some(st) => st@,
                    None => InterpreterModel { live: true, heap: None, heap_size: 0 },
                },
            },
        }
    }
}

impl GuestRuntime {
    /// Exactly one place holds the bookkeeping, and its flag says whether
    /// the slot holds a live handle.
    pub closed spec fn wf(&self) -> bool {
        match self.runtime {
            Some(h) => self.idle is None && h.bookkeeping().live,
            None => match self.idle {
                Some(st) => !st@.live,
                None => false,
            },
        }
    }

    /// The runtime as the guest image starts: empty slot, no heap buffer.
    pub fn new(heap_size: usize) -> (r: GuestRuntime)
        ensures
            r.wf(),
            r@ == (GuestModel {
                runtime: false,
                interpreter: InterpreterModel { live: false, heap: None, heap_size: heap_size as nat },
            }),
    {
        GuestRuntime { runtime: None, idle: Some(InterpreterState::new(heap_size)) }
    }

    /// Whether an interpreter instance is live in the slot.
    pub fn is_live(&self) -> (r: bool)
        ensures
            r == self@.runtime,
    {
        self.runtime.is_some()
    }

    /// Length of the prepared heap buffer, if any.
    pub fn heap_len(&self) -> (r: Option<usize>)
        ensures
            match r {
                Some(n) => self@.interpreter.heap == Some(n as nat),
                None => self@.interpreter.heap is None,
            },
    {
        match &self.runtime {
            Some(h) => h.state().heap_len(),
            None => match &self.idle {
                Some(st) => st.heap_len(),
                None => None,
            },
        }
    }

    /// Handles the initialize call. With a live handle it reports success
    /// without bringing anything up again; otherwise it tries to bring the
    /// interpreter up and stores the handle. The reply is `true` exactly when
    /// a live interpreter is in the slot afterwards, so it is `false` only
    /// when the singleton guard refuses a new instance.
    pub fn init_python(&mut self) -> (r: bool)
        ensures
            r == (old(self)@.runtime || !old(self)@.interpreter.live),
            r == final(self)@.runtime,
            old(self)@.runtime ==> final(self)@ == old(self)@,
            !old(self)@.runtime ==> final(self)@.interpreter == init_state(old(self)@.interpreter),
            old(self).wf() ==> final(self).wf() && r,
    {
        if self.runtime.is_some() {
            return true;
        }
        match self.idle.take() {
            Some(st) => match MicroPython::init(st) {
                Ok(h) => {
                    self.runtime = Some(h);
                    true
                },
                Err((_, st)) => {
                    self.idle = Some(st);
                    false
                },
            },
            None => false,
        }
    }

    /// Handles the execute call. With a live interpreter it returns the
    /// NUL-terminated buffer to run; with none it returns `None`. The boundary
    /// reply is whether a buffer came back: it says that the script reached a
    /// live interpreter, never whether the script itself succeeded, so it does
    /// not depend on `code` at all.
    pub fn exec_python(&self, code: &str) -> (r: Option<Vec<u8>>)
        ensures
            r is Some <==> self@.runtime,
            r matches Some(buf) ==> buf@ == terminated_source(code),
    {
        match &self.runtime {
            Some(rt) => Some(rt.exec(code)),
            None => None,
        }
    }
}

#[verifier::external_type_specification]
#[verifier::external_body]
pub struct ExFunctionCall(FunctionCall);

/// The flatbuffer encoding of an `i32` call result.
pub uninterp spec fn encoded_i32_result(v: i32) -> Seq<u8>;

/// Relies on hyperlight_common's get_flatbuffer_result: the size-prefixed
/// flatbuffer encoding of an `i32` call result, which depends on the value
/// alone.
#[verifier::external_body]
fn encode_i32_result(v: i32) -> (r: Vec<u8>)
    ensures
        r@ == encoded_i32_result(v),
{
    get_flatbuffer_result(v)
}

/// Answers a call for a guest function that is not registered: the encoded
/// integer result 0, whatever was asked.
pub fn guest_dispatch_function(_function_call: FunctionCall) -> (r: Vec<u8>)
    ensures
        r@ == encoded_i32_result(0),
{
    encode_i32_result(0)
}

/// The interpreter singleton: once an initialization has succeeded, a second
/// one against the same bookkeeping fails with `AlreadyInitialized` and leaves
/// the state as it was.
pub proof fn lemma_second_init_rejected(m: InterpreterModel)
    requires
        init_result(m) is Ok,
    ensures
        init_result(init_state(m)) == Err::<(), SandboxError>(SandboxError::AlreadyInitialized),
        init_state(init_state(m)) == init_state(m),
{
}

/// Heap retention: a teardown followed by a new initialization reuses the
/// buffer of the first cycle, so no more than one buffer is ever prepared.
pub proof fn lemma_heap_retained(m: InterpreterModel)
    requires
        init_result(m) is Ok,
    ensures
        init_result(deinit_state(init_state(m))) is Ok,
        init_state(deinit_state(init_state(m))) == init_state(m),
{
}

} // verus!
