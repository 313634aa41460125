//! One instance of a module, as far as the host looks into it: its exported
//! functions, globals, function table and memory, and the state of the call
//! that is being made on it.

use crate::error::{Backtrace, Error, MessageWithBacktrace, WasmError};
use crate::host::HostState;
use crate::imports::{FuncSignature, ImportBinding};
use crate::memory::LinearMemory;
use crate::text;
use crate::value::{val_type_eq, Val, WasmValue};
use sp_wasm_interface::Value;
use vstd::prelude::*;
use vstd::string::StringExecFns;
use wasmedge_types::ValType;

verus! {

/// The way in which the function to call is named.
#[derive(Debug)]
pub enum InvokeMethod {
    /// The exported function of this name.
    Export(String),
    /// The function in this slot of the function table.
    Table(u32),
    /// The function in the slot `dispatcher_ref` of the function table, which
    /// gets `func` as its first argument and calls the function that `func`
    /// stands for.
    TableWithWrapper { dispatcher_ref: u32, func: u32 },
}

/// A function that the instance exports.
#[derive(Debug)]
pub struct ExportedFunc {
    pub name: String,
    /// The signature, or the engine's message where it cannot tell.
    pub ty: Result<FuncSignature, String>,
}

/// A function that a slot of the function table refers to.
#[derive(Debug)]
pub struct FuncRef {
    /// The signature, or the engine's message where it cannot tell.
    pub ty: Result<FuncSignature, String>,
}

/// A global that the instance exports.
#[derive(Debug)]
pub struct Global {
    pub name: String,
    pub value: Val,
}

/// What the engine made of a module, but for the memory.
#[derive(Debug)]
pub struct Instance {
    pub funcs: Vec<ExportedFunc>,
    pub globals: Vec<Global>,
    /// The export `__indirect_function_table`, where there is one; a slot
    /// holds nothing where its reference is null.
    pub table: Option<Vec<Option<FuncRef>>>,
}

/// The function that the engine has to run.
#[derive(Debug)]
pub enum CallTarget {
    Export(String),
    Table(u32),
}

/// A call that the engine has to make.
#[derive(Debug)]
pub struct GuestCall {
    pub target: CallTarget,
    pub args: Vec<WasmValue>,
}

/// An instance with the state of the call that is being made on it.
pub struct InstanceWrapper {
    pub instance: Option<Instance>,
    pub memory: Option<LinearMemory>,
    pub host_state: Option<HostState>,
    pub import: Option<Vec<ImportBinding>>,
}

/// The name under which an instance exports its heap base.
pub open spec fn heap_base_name() -> Seq<char> {
    "__heap_base"@
}

/// The text that separates the message of a trap from its backtrace.
pub open spec fn backtrace_mark() -> Seq<char> {
    "\nwasm backtrace:"@
}

/// The text of the error for an entry point of the wrong signature.
pub open spec fn invalid_signature() -> Seq<char> {
    "Invalid signature for direct entry point"@
}

/// Whether `signature` is that of an entry point with `n` parameters: `n`
/// 32-bit integers in, one 64-bit integer out.
pub open spec fn is_entry_point(signature: &FuncSignature, n: nat) -> bool {
    &&& signature.params@ == Seq::new(n, |i: int| ValType::I32)
    &&& signature.results@ == seq![ValType::I64]
}

/// Whether the function of type `ty` can be called as an entry point with `n`
/// parameters.
pub open spec fn callable(ty: &Result<FuncSignature, String>, n: nat) -> bool {
    ty matches Ok(signature) && is_entry_point(signature, n)
}

/// Whether `e` is the error for a function of type `ty` that cannot be called
/// as an entry point with `n` parameters.
pub open spec fn is_signature_error(e: &Error, ty: &Result<FuncSignature, String>, n: nat) -> bool {
    match ty {
        Err(message) => e.is_construction("fail to get the function type: "@ + message@),
        Ok(signature) => !is_entry_point(signature, n) && e.is_other(invalid_signature()),
    }
}

/// Whether `e` is the error of a call that a trap with the text `trap` ended,
/// where host code had recorded the fatal message `recorded`, if any: a panic
/// with the recorded message where there is one, else a trap with the text of
/// the trap; either with the backtrace, which is the text after the first mark
/// of a backtrace, or all of the text where it has none.
pub open spec fn is_abort(e: &Error, trap: Seq<char>, recorded: Option<String>) -> bool {
    match recorded {
        Some(message) => e matches Error::AbortedDueToPanic(m) && m.message == message && (
        m.backtrace matches Some(b) && b.backtrace_string@ == text::after_first(
            trap,
            backtrace_mark(),
        )),
        None => e matches Error::AbortedDueToTrap(m) && m.message@ == trap && (
        m.backtrace matches Some(b) && b.backtrace_string@ == text::after_first(
            trap,
            backtrace_mark(),
        )),
    }
}

/// Whether `w` is the 32-bit integer argument that stands for `v`.
pub open spec fn is_i32_arg(w: WasmValue, v: u32) -> bool {
    w.wf() && w.spec_ty() == ValType::I32 && w.value() == Value::I32(v as i32)
}

/// Whether `k` is the position of the first of `funcs` called `name`.
pub open spec fn is_first_func(funcs: Seq<ExportedFunc>, name: Seq<char>, k: int) -> bool {
    &&& 0 <= k < funcs.len()
    &&& funcs[k].name@ == name
    &&& forall|j: int| 0 <= j < k ==> funcs[j].name@ != name
}

/// Whether one of `funcs` is called `name`.
pub open spec fn has_func(funcs: Seq<ExportedFunc>, name: Seq<char>) -> bool {
    exists|k: int| 0 <= k < funcs.len() && funcs[k].name@ == name
}

/// Whether `k` is the position of the first of `globals` called `name`.
pub open spec fn is_first_global(globals: Seq<Global>, name: Seq<char>, k: int) -> bool {
    &&& 0 <= k < globals.len()
    &&& globals[k].name@ == name
    &&& forall|j: int| 0 <= j < k ==> globals[j].name@ != name
}

/// Whether one of `globals` is called `name`.
pub open spec fn has_global(globals: Seq<Global>, name: Seq<char>) -> bool {
    exists|k: int| 0 <= k < globals.len() && globals[k].name@ == name
}

/// The value of the first of `globals` called `name`.
pub open spec fn global_value(globals: Seq<Global>, name: Seq<char>) -> Val
    recommends
        has_global(globals, name),
{
    globals[choose|k: int| is_first_global(globals, name, k)].value
}

/// There is only one first global of a name.
pub proof fn lemma_first_global_unique(globals: Seq<Global>, name: Seq<char>, a: int, b: int)
    requires
        is_first_global(globals, name, a),
        is_first_global(globals, name, b),
    ensures
        a == b,
{
    if a < b {
        assert(globals[a].name@ != name);
    } else if b < a {
        assert(globals[b].name@ != name);
    }
}

/// The position of the first of `globals` called `name`.
pub fn find_global(globals: &Vec<Global>, name: &str) -> (r: Option<usize>)
    ensures
        r.is_some() == has_global(globals@, name@),
        r matches Some(k) ==> is_first_global(globals@, name@, k as int) && globals@[k as int].value
            == global_value(globals@, name@),
{
    let wanted = name.to_owned();
    let mut k: usize = 0;
    while k < globals.len()
        invariant
            k <= globals@.len(),
            wanted@ == name@,
            forall|j: int| 0 <= j < k ==> globals@[j].name@ != name@,
        decreases globals@.len() - k,
    {
        if globals[k].name == wanted {
            proof {
                assert(is_first_global(globals@, name@, k as int));
                let c = choose|c: int| is_first_global(globals@, name@, c);
                lemma_first_global_unique(globals@, name@, k as int, c);
            }
            return Some(k);
        }
        k += 1;
    }
    None
}

fn find_func(funcs: &Vec<ExportedFunc>, name: &String) -> (r: Option<usize>)
    ensures
        r.is_some() == has_func(funcs@, name@),
        r matches Some(k) ==> is_first_func(funcs@, name@, k as int),
{
    let mut k: usize = 0;
    while k < funcs.len()
        invariant
            k <= funcs@.len(),
            forall|j: int| 0 <= j < k ==> funcs@[j].name@ != name@,
        decreases funcs@.len() - k,
    {
        if funcs[k].name == *name {
            return Some(k);
        }
        k += 1;
    }
    None
}

fn all_i32(kinds: &Vec<ValType>, n: usize) -> (r: bool)
    ensures
        r == (kinds@ == Seq::new(n as nat, |i: int| ValType::I32)),
{
    let ghost wanted = Seq::new(n as nat, |i: int| ValType::I32);
    if kinds.len() != n {
        return false;
    }
    let mut i: usize = 0;
    while i < n
        invariant
            i <= n,
            kinds@.len() == n,
            wanted == Seq::new(n as nat, |i: int| ValType::I32),
            forall|j: int| 0 <= j < i ==> kinds@[j] == ValType::I32,
        decreases n - i,
    {
        if !val_type_eq(kinds[i], ValType::I32) {
            assert(wanted[i as int] == ValType::I32);
            return false;
        }
        i += 1;
    }
    assert(kinds@ =~= wanted);
    true
}

/// Checks that the function of type `ty` can be called as an entry point with
/// `n` parameters.
pub fn check_signature(ty: &Result<FuncSignature, String>, n: usize) -> (r: Result<(), Error>)
    ensures
        r.is_ok() == callable(ty, n as nat),
        r matches Err(e) ==> is_signature_error(&e, ty, n as nat),
{
    match ty {
        Err(message) => {
            let mut text = "fail to get the function type: ".to_owned();
            text.append(message.as_str());
            Err(Error::RuntimeConstruction(WasmError::Other(text)))
        },
        Ok(signature) => {
            let params_ok = all_i32(&signature.params, n);
            let results_ok = signature.results.len() == 1 && val_type_eq(
                signature.results[0],
                ValType::I64,
            );
            proof {
                if results_ok {
                    assert(signature.results@ =~= seq![ValType::I64]);
                } else if signature.results@.len() == 1 {
                    assert(seq![ValType::I64][0] == ValType::I64);
                }
            }
            if params_ok && results_ok {
                Ok(())
            } else {
                Err(Error::Other("Invalid signature for direct entry point".to_owned()))
            }
        },
    }
}

fn entry_args(data_ptr: u32, data_len: u32) -> (r: Vec<WasmValue>)
    ensures
        has_args(r@, seq![data_ptr, data_len]),
{
    let mut args: Vec<WasmValue> = Vec::new();
    args.push(i32_arg(data_ptr));
    args.push(i32_arg(data_len));
    args
}

fn i32_arg(v: u32) -> (r: WasmValue)
    ensures
        is_i32_arg(r, v),
{
    WasmValue::from_i32(
        #[verifier::truncate]
        (v as i32),
    )
}

/// The function in the slot `index` of `table`, where the slot exists and
/// refers to one.
pub fn table_entry(table: &Option<Vec<Option<FuncRef>>>, index: u32) -> (r: Result<&FuncRef, Error>)
    ensures
        match table {
            None => r matches Err(Error::NoTable),
            Some(slots) => if index >= slots@.len() {
                r matches Err(Error::NoTableEntryWithIndex(i)) && i == index
            } else {
                match slots@[index as int] {
                    None => r matches Err(Error::FunctionRefIsNull(i)) && i == index,
                    Some(func_ref) => r matches Ok(f) && *f == func_ref,
                }
            },
        },
{
    match table {
        None => Err(Error::NoTable),
        Some(slots) => {
            if index as usize >= slots.len() {
                return Err(Error::NoTableEntryWithIndex(index));
            }
            match &slots[index as usize] {
                None => Err(Error::FunctionRefIsNull(index)),
                Some(func_ref) => Ok(func_ref),
            }
        },
    }
}

/// Whether `args` are the 32-bit integer arguments that stand for `values`.
pub open spec fn has_args(args: Seq<WasmValue>, values: Seq<u32>) -> bool {
    &&& args.len() == values.len()
    &&& forall|i: int| 0 <= i < args.len() ==> is_i32_arg(#[trigger] args[i], values[i])
}

/// Whether `r` is what the dispatch through the slot `index` of the function
/// table gives, for an entry point with `n` parameters that is to get
/// `values`: the call of that slot, or the error that tells why there is none.
pub open spec fn table_call_outcome(
    instance: &Instance,
    index: u32,
    n: nat,
    values: Seq<u32>,
    r: Result<GuestCall, Error>,
) -> bool {
    match instance.table {
        None => r matches Err(Error::NoTable),
        Some(slots) => if index >= slots@.len() {
            r matches Err(Error::NoTableEntryWithIndex(i)) && i == index
        } else {
            match slots@[index as int] {
                None => r matches Err(Error::FunctionRefIsNull(i)) && i == index,
                Some(func_ref) => if callable(&func_ref.ty, n) {
                    r matches Ok(call) && (call.target matches CallTarget::Table(i) && i == index)
                        && has_args(call.args@, values)
                } else {
                    r matches Err(e) && is_signature_error(&e, &func_ref.ty, n)
                },
            }
        },
    }
}

/// Whether `method` names a function of `instance` that can be called as an
/// entry point.
pub open spec fn dispatches(instance: &Instance, method: &InvokeMethod) -> bool {
    match method {
        InvokeMethod::Export(name) => has_func(instance.funcs@, name@) && forall|k: int| #[trigger]
            is_first_func(instance.funcs@, name@, k) ==> callable(&instance.funcs@[k].ty, 2),
        InvokeMethod::Table(func) => instance.table matches Some(slots) && *func < slots@.len() && (
        slots@[*func as int] matches Some(func_ref) && callable(&func_ref.ty, 2)),
        InvokeMethod::TableWithWrapper { dispatcher_ref, func } => instance.table matches Some(
            slots,
        ) && *dispatcher_ref < slots@.len() && (slots@[*dispatcher_ref as int] matches Some(
            func_ref,
        ) && callable(&func_ref.ty, 3)),
    }
}

/// Whether `r` is what `call` gives for `method`: the call that the engine
/// has to make, or the error that tells why there is none.
pub open spec fn call_outcome(
    instance: &Instance,
    method: &InvokeMethod,
    data_ptr: u32,
    data_len: u32,
    r: Result<GuestCall, Error>,
) -> bool {
    match method {
        InvokeMethod::Export(name) => {
            if !has_func(instance.funcs@, name@) {
                r matches Err(e) && e.is_construction("function is not found"@)
            } else {
                forall|k: int| #[trigger]
                    is_first_func(instance.funcs@, name@, k) ==> if callable(
                        &instance.funcs@[k].ty,
                        2,
                    ) {
                        r matches Ok(call) && (call.target matches CallTarget::Export(n) && n@
                            == name@) && has_args(call.args@, seq![data_ptr, data_len])
                    } else {
                        r matches Err(e) && is_signature_error(&e, &instance.funcs@[k].ty, 2)
                    }
            }
        },
        InvokeMethod::Table(func) => table_call_outcome(
            instance,
            *func,
            2,
            seq![data_ptr, data_len],
            r,
        ),
        InvokeMethod::TableWithWrapper { dispatcher_ref, func } => table_call_outcome(
            instance,
            *dispatcher_ref,
            3,
            seq![*func, data_ptr, data_len],
            r,
        ),
    }
}

impl InstanceWrapper {
    /// What the engine made of the module, once the wrapper is instantiated.
    pub open spec fn spec_instance(&self) -> Option<Instance> {
        self.instance
    }

    /// The memory of the instance, once the wrapper is instantiated.
    pub open spec fn spec_memory(&self) -> Option<LinearMemory> {
        self.memory
    }

    /// The state of the call that is being made, if one is.
    pub open spec fn spec_host_state(&self) -> Option<HostState> {
        self.host_state
    }

    /// The bindings of the imports, once they are registered.
    pub open spec fn spec_import(&self) -> Option<Vec<ImportBinding>> {
        self.import
    }

    /// The memory and the state of the call are well formed where they are
    /// there, and the memory is there where the instance is.
    pub open spec fn wf(&self) -> bool {
        &&& self.spec_memory() matches Some(m) ==> m.wf()
        &&& self.spec_host_state() matches Some(h) ==> h.wf()
        &&& self.spec_instance().is_some() ==> self.spec_memory().is_some()
    }

    /// A wrapper without an instance.
    pub fn new() -> (r: InstanceWrapper)
        ensures
            r.wf(),
            r.spec_instance().is_none(),
            r.spec_memory().is_none(),
            r.spec_host_state().is_none(),
            r.spec_import().is_none(),
    {
        InstanceWrapper { instance: None, memory: None, host_state: None, import: None }
    }

    /// Keeps the bindings of the imports for the instances to come.
    pub fn register_import(&mut self, import: Vec<ImportBinding>)
        ensures
            final(self).spec_import() == Some(import),
            final(self).spec_instance() == old(self).spec_instance(),
            final(self).spec_memory() == old(self).spec_memory(),
            final(self).spec_host_state() == old(self).spec_host_state(),
    {
        self.import = Some(import);
    }

    /// Takes over what the engine made of the module. Fails, changing nothing,
    /// where the module exports no memory called `memory`.
    pub fn instantiate(&mut self, instance: Instance, memory: Option<LinearMemory>) -> (r: Result<
        (),
        Error,
    >)
        requires
            old(self).wf(),
            memory matches Some(m) ==> m.wf(),
        ensures
            final(self).wf(),
            final(self).spec_host_state() == old(self).spec_host_state(),
            final(self).spec_import() == old(self).spec_import(),
            r.is_ok() == memory.is_some(),
            r.is_ok() ==> final(self).spec_instance() == Some(instance)
                && final(self).spec_memory() == memory,
            r matches Err(e) ==> e.is_construction("fail to get WASM memory named 'memory'"@)
                && final(self).spec_instance() == old(self).spec_instance()
                    && final(self).spec_memory() == old(self).spec_memory(),
    {
        match memory {
            None => Err(
                Error::RuntimeConstruction(
                    WasmError::Other("fail to get WASM memory named 'memory'".to_owned()),
                ),
            ),
            Some(memory) => {
                self.instance = Some(instance);
                self.memory = Some(memory);
                Ok(())
            },
        }
    }

    /// Says which function the engine has to run for `method`, and with which
    /// arguments: the pointer to the input and its length, after the function
    /// id where a wrapper dispatches. Fails where there is no such function or
    /// where it does not have the signature of an entry point.
    pub fn call(&self, method: &InvokeMethod, data_ptr: u32, data_len: u32) -> (r: Result<
        GuestCall,
        Error,
    >)
        requires
            self.spec_instance().is_some(),
        ensures
            r.is_ok() == dispatches(&self.spec_instance().unwrap(), method),
            call_outcome(&self.spec_instance().unwrap(), method, data_ptr, data_len, r),
    {
        let instance = match &self.instance {
            Some(instance) => instance,
            None => {
                proof {
                    assert(false);
                }
                return Err(Error::NoTable);
            },
        };
        match method {
            InvokeMethod::Export(name) => {
                match find_func(&instance.funcs, name) {
                    None => Err(
                        Error::RuntimeConstruction(
                            WasmError::Other("function is not found".to_owned()),
                        ),
                    ),
                    Some(k) => {
                        proof {
                            assert forall|c: int| #[trigger]
                                is_first_func(instance.funcs@, name@, c) implies c == k by {
                                if c < k {
                                    assert(instance.funcs@[c].name@ != name@);
                                } else if k < c {
                                    assert(instance.funcs@[k as int].name@ != name@);
                                }
                            }
                        }
                        match check_signature(&instance.funcs[k].ty, 2) {
                            Err(e) => Err(e),
                            Ok(()) => {
                                let args = entry_args(data_ptr, data_len);
                                Ok(GuestCall { target: CallTarget::Export(name.clone()), args })
                            },
                        }
                    },
                }
            },
            InvokeMethod::Table(func) => {
                match table_entry(&instance.table, *func) {
                    Err(e) => Err(e),
                    Ok(func_ref) => {
                        match check_signature(&func_ref.ty, 2) {
                            Err(e) => Err(e),
                            Ok(()) => {
                                let args = entry_args(data_ptr, data_len);
                                Ok(GuestCall { target: CallTarget::Table(*func), args })
                            },
                        }
                    },
                }
            },
            InvokeMethod::TableWithWrapper { dispatcher_ref, func } => {
                match table_entry(&instance.table, *dispatcher_ref) {
                    Err(e) => Err(e),
                    Ok(func_ref) => {
                        match check_signature(&func_ref.ty, 3) {
                            Err(e) => Err(e),
                            Ok(()) => {
                                let mut args: Vec<WasmValue> = Vec::new();
                                args.push(i32_arg(*func));
                                args.push(i32_arg(data_ptr));
                                args.push(i32_arg(data_len));
                                assert(has_args(args@, seq![*func, data_ptr, data_len]));
                                Ok(GuestCall { target: CallTarget::Table(*dispatcher_ref), args })
                            },
                        }
                    },
                }
            },
        }
    }

    /// Turns what the engine returned from a call into the packed result of
    /// the call, or into the error of the call. The engine returns the results
    /// of the function, or the text of the trap that ended it. After a trap the
    /// backtrace is the text after the first `wasm backtrace:` line mark, or
    /// the whole text where there is none. Where host code has recorded a
    /// fatal message during the call, the error is a panic with that message,
    /// and the message is taken out of the state; otherwise it is a trap with
    /// the text of the trap.
    pub fn call_result(&mut self, outcome: Result<Vec<WasmValue>, String>) -> (r: Result<
        u64,
        Error,
    >)
        requires
            old(self).spec_host_state().is_some(),
            outcome matches Ok(results) ==> results@.len() > 0,
        ensures
            final(self).spec_instance() == old(self).spec_instance(),
            final(self).spec_memory() == old(self).spec_memory(),
            final(self).spec_import() == old(self).spec_import(),
            final(self).spec_host_state().is_some(),
            final(self).spec_host_state().unwrap().store()
                == old(self).spec_host_state().unwrap().store(),
            final(self).spec_host_state().unwrap().allocator
                == old(self).spec_host_state().unwrap().allocator,
            match outcome {
                Ok(results) => r == Ok::<u64, Error>(results@[0].spec_bits())
                    && final(self).spec_host_state() == old(self).spec_host_state(),
                Err(trap) => {
                    &&& final(self).spec_host_state().unwrap().message().is_none()
                    &&& r matches Err(e) && is_abort(
                        &e,
                        trap@,
                        old(self).spec_host_state().unwrap().message(),
                    )
                },
            },
    {
        match outcome {
            Ok(results) => {
                let value: i64 = results[0].to_i64();
                let bits: u64 = value as u64;
                let ghost raw: u64 = results@[0].spec_bits();
                assert(bits == raw) by (bit_vector)
                    requires
                        bits == (raw as i64) as u64,
                ;
                Ok(bits)
            },
            Err(trap) => {
                let backtrace_string = text::text_after_first(trap.as_str(), "\nwasm backtrace:");
                let backtrace = Backtrace { backtrace_string };
                let recorded = match &mut self.host_state {
                    Some(host_state) => host_state.take_panic_message(),
                    None => None,
                };
                match recorded {
                    Some(error) => Err(
                        Error::AbortedDueToPanic(
                            MessageWithBacktrace { message: error, backtrace: Some(backtrace) },
                        ),
                    ),
                    None => Err(
                        Error::AbortedDueToTrap(
                            MessageWithBacktrace { message: trap, backtrace: Some(backtrace) },
                        ),
                    ),
                }
            },
        }
    }

    /// Reads the global `__heap_base`. It has to be a 32-bit integer.
    pub fn extract_heap_base(&self) -> (r: Result<u32, Error>)
        requires
            self.spec_instance().is_some(),
        ensures
            ({
                let globals = self.spec_instance().unwrap().globals@;
                if !has_global(globals, heap_base_name()) {
                    r matches Err(e) && e.is_construction(
                        "failed to get WASM global named '__heap_base'"@,
                    )
                } else {
                    match global_value(globals, heap_base_name()) {
                        Val::I32(v) => r == Ok::<u32, Error>(v as u32),
                        _ => r matches Err(e) && e.is_other(
                            "the type of WASM global named '__heap_base' is not i32"@,
                        ),
                    }
                }
            }),
    {
        let instance = match &self.instance {
            Some(instance) => instance,
            None => {
                proof {
                    assert(false);
                }
                return Ok(0);
            },
        };
        match find_global(&instance.globals, "__heap_base") {
            None => Err(
                Error::RuntimeConstruction(
                    WasmError::Other("failed to get WASM global named '__heap_base'".to_owned()),
                ),
            ),
            Some(k) => match instance.globals[k].value {
                Val::I32(v) => Ok(
                    #[verifier::truncate]
                    (v as u32),
                ),
                _ => Err(
                    Error::Other(
                        "the type of WASM global named '__heap_base' is not i32".to_owned(),
                    ),
                ),
            },
        }
    }

    /// The value of the global called `name`, where it is of a numeric kind.
    pub fn get_global_val(&self, name: &str) -> (r: Result<Option<Value>, Error>)
        requires
            self.spec_instance().is_some(),
        ensures
            ({
                let globals = self.spec_instance().unwrap().globals@;
                if !has_global(globals, name@) {
                    r matches Err(e) && e.is_other("failed to get WASM global"@)
                } else {
                    let val = global_value(globals, name@);
                    if val is I32 || val is I64 || val is F32 || val is F64 {
                        r == Ok::<_, Error>(Some(crate::value::value_of_val(val)))
                    } else {
                        r matches Err(e) && e.is_other("Unknown value type"@)
                    }
                }
            }),
    {
        let instance = match &self.instance {
            Some(instance) => instance,
            None => {
                proof {
                    assert(false);
                }
                return Ok(None);
            },
        };
        match find_global(&instance.globals, name) {
            None => Err(Error::Other("failed to get WASM global".to_owned())),
            Some(k) => match instance.globals[k].value {
                Val::I32(v) => Ok(Some(Value::I32(v))),
                Val::I64(v) => Ok(Some(Value::I64(v))),
                Val::F32(v) => Ok(Some(Value::F32(v))),
                Val::F64(v) => Ok(Some(Value::F64(v))),
                _ => Err(Error::Other("Unknown value type".to_owned())),
            },
        }
    }

    /// The state of the call that is being made, if one is.
    pub fn host_state(&self) -> (r: Option<&HostState>)
        ensures
            r.is_some() == self.spec_host_state().is_some(),
            r matches Some(state) ==> *state == self.spec_host_state().unwrap(),
    {
        self.host_state.as_ref()
    }

    /// The state of the call that is being made, to change it.
    pub fn host_state_mut(&mut self) -> (r: &mut HostState)
        requires
            old(self).spec_host_state().is_some(),
        ensures
            *r == old(self).spec_host_state().unwrap(),
            final(self).spec_host_state() == Some(*final(r)),
            final(self).spec_instance() == old(self).spec_instance(),
            final(self).spec_memory() == old(self).spec_memory(),
            final(self).spec_import() == old(self).spec_import(),
    {
        self.host_state.as_mut().unwrap()
    }

    /// Installs or removes the state of a call.
    pub fn set_host_state(&mut self, host_state: Option<HostState>)
        ensures
            final(self).spec_host_state() == host_state,
            final(self).spec_instance() == old(self).spec_instance(),
            final(self).spec_memory() == old(self).spec_memory(),
            final(self).spec_import() == old(self).spec_import(),
    {
        self.host_state = host_state;
    }

    /// Removes the state of the call and returns it.
    pub fn take_host_state(&mut self) -> (r: Option<HostState>)
        ensures
            r == old(self).spec_host_state(),
            final(self).spec_host_state().is_none(),
            final(self).spec_instance() == old(self).spec_instance(),
            final(self).spec_memory() == old(self).spec_memory(),
            final(self).spec_import() == old(self).spec_import(),
    {
        self.host_state.take()
    }

    /// Gives the pages of the memory back: afterwards every byte of it reads
    /// as zero, and its size is as before.
    pub fn decommit(&mut self)
        requires
            old(self).wf(),
            old(self).spec_memory().is_some(),
        ensures
            final(self).wf(),
            final(self).spec_instance() == old(self).spec_instance(),
            final(self).spec_host_state() == old(self).spec_host_state(),
            final(self).spec_import() == old(self).spec_import(),
            final(self).spec_memory() matches Some(m) && m@ == crate::memory::zeros(
                old(self).spec_memory().unwrap()@.len(),
            ) && m.spec_maximum() == old(self).spec_memory().unwrap().spec_maximum(),
    {
        match &mut self.memory {
            Some(memory) => {
                if memory.len() == 0 {
                    assert(memory@ =~= crate::memory::zeros(0));
                    return ;
                }
                memory.decommit();
            },
            None => {
                proof {
                    assert(false);
                }
            },
        }
    }
}

} // verus!
