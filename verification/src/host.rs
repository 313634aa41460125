//! The state that lives for one call, and what a host function can do to the
//! instance that called it.

use crate::error::Error;
use crate::instance_wrapper::{
    find_global, global_value, has_global, table_entry, Instance, InstanceWrapper,
};
use crate::memory::{HeapAllocator, LinearMemory, ALLOCATION_HEADER_SIZE};
use crate::sandbox::{
    read_environment, EnvironmentEntry, InstantiationError, SandboxInstance, Slot, Store,
    ERR_EXECUTION, ERR_MODULE, ERR_OK, ERR_OUT_OF_BOUNDS,
};
use crate::util;
use crate::value::{
    decode_values, decoded_values, encode_return_value, encoded_return_value, value_of_val, Val,
    WasmValue,
};
use sc_allocator::AllocationStats;
use sp_wasm_interface::Value;
use vstd::prelude::*;
use vstd::string::StringExecFns;
use wasmedge_types::ValType;

verus! {

/// The state of one call: the heap allocator, the registry of nested
/// sandboxes, and the message of a fatal error once host code has recorded one.
pub struct HostState {
    pub sandbox_store: Store,
    pub allocator: HeapAllocator,
    pub panic_message: Option<String>,
}

impl HostState {
    /// The registry of nested sandboxes.
    pub open spec fn store(&self) -> Store {
        self.sandbox_store
    }

    /// The message of the fatal error that host code has recorded, if any.
    pub open spec fn message(&self) -> Option<String> {
        self.panic_message
    }

    /// The registry is well formed.
    pub open spec fn wf(&self) -> bool {
        self.store().wf()
    }

    /// The state at the start of a call: the allocator of the call, an empty
    /// registry and no message.
    pub fn new(allocator: HeapAllocator) -> (r: HostState)
        ensures
            r.wf(),
            r.allocator == allocator,
            r.store().instances().len() == 0,
            r.store().memories().len() == 0,
            r.message().is_none(),
    {
        HostState {
            sandbox_store: Store::new(),
            allocator,
            panic_message: None,
        }
    }

    /// Takes the recorded message out of the state.
    pub fn take_panic_message(&mut self) -> (r: Option<String>)
        ensures
            r == old(self).message(),
            final(self).message().is_none(),
            final(self).store() == old(self).store(),
            final(self).allocator == old(self).allocator,
    {
        self.panic_message.take()
    }

    /// The counters that the allocator has kept during the call.
    pub fn allocation_stats(&self) -> (r: AllocationStats)
        ensures
            r == self.allocator.spec_stats(),
            crate::memory::counters_agree(r),
    {
        self.allocator.stats()
    }
}

/// What a host function can reach of the instance that called it: the memory,
/// the heap, the fatal message and the nested sandboxes.
pub struct HostContext {
    pub instance_wrapper: InstanceWrapper,
}

/// A call of an exported function of a nested instance that the engine has to
/// make.
#[derive(Debug)]
pub struct InvokeRequest {
    /// The arguments of the call.
    pub args: Vec<Value>,
    /// The nested instance to call.
    pub instance: SandboxInstance,
    /// The slot of the outer function table through which the nested instance
    /// reaches the host.
    pub dispatch_thunk: u32,
}

/// What is to happen after a guest has asked for a nested instance.
#[derive(Debug)]
pub enum NewInstanceStep {
    /// The engine has to instantiate the module in this environment; the
    /// nested instance reaches the host through this slot of the outer
    /// function table.
    Instantiate { dispatch_thunk: u32, environment: Vec<EnvironmentEntry> },
    /// The guest gets this status back; nothing is instantiated.
    Refused(u32),
}

/// The text of an error that is described by `message` only.
pub open spec fn other(message: Seq<char>) -> Seq<char> {
    "Other: "@ + message
}

/// The status that the guest gets for the outcome of an instantiation, where
/// `id` is the id that the new instance gets if there is one to give.
pub open spec fn instantiation_status(
    outcome: Result<(), InstantiationError>,
    id: Option<u32>,
) -> u32 {
    match outcome {
        Ok(()) => match id {
            Some(id) => id,
            None => ERR_MODULE,
        },
        Err(InstantiationError::StartTrapped) => ERR_EXECUTION,
        Err(_) => ERR_MODULE,
    }
}

fn other_text(e: Error) -> (r: String)
    requires
        e is Other,
    ensures
        r@ == other(e->Other_0@),
{
    let mut text = "Other: ".to_owned();
    match e {
        Error::Other(message) => {
            text.append(message.as_str());
        },
        _ => {
            proof {
                assert(false);
            }
        },
    }
    text
}

impl HostContext {
    /// The instance that made the call.
    pub open spec fn wrapper(&self) -> InstanceWrapper {
        self.instance_wrapper
    }

    /// The instance has its memory and the state of the call, both well
    /// formed.
    pub open spec fn wf(&self) -> bool {
        &&& self.wrapper().wf()
        &&& self.wrapper().spec_memory().is_some()
        &&& self.wrapper().spec_host_state().is_some()
    }

    /// The memory of the instance.
    pub open spec fn memory(&self) -> LinearMemory
        recommends
            self.wf(),
    {
        self.wrapper().spec_memory().unwrap()
    }

    /// The registry of nested sandboxes of the call.
    pub open spec fn store(&self) -> Store
        recommends
            self.wf(),
    {
        self.wrapper().spec_host_state().unwrap().store()
    }

    /// The fatal message that host code has recorded, if any.
    pub open spec fn message(&self) -> Option<String>
        recommends
            self.wf(),
    {
        self.wrapper().spec_host_state().unwrap().message()
    }

    /// The heap allocator of the call.
    pub open spec fn allocator(&self) -> HeapAllocator
        recommends
            self.wf(),
    {
        self.wrapper().spec_host_state().unwrap().allocator
    }

    /// Whether `other` differs from this context in its memory at most.
    pub open spec fn same_but_memory(&self, other: &HostContext) -> bool {
        &&& self.wrapper().spec_instance() == other.wrapper().spec_instance()
        &&& self.wrapper().spec_import() == other.wrapper().spec_import()
        &&& self.store() == other.store()
        &&& self.message() == other.message()
    }

    /// The context of a call on `instance_wrapper`.
    pub fn new(instance_wrapper: InstanceWrapper) -> (r: HostContext)
        ensures
            r.wrapper() == instance_wrapper,
    {
        HostContext { instance_wrapper }
    }

    /// Gives the instance back when the host function is done.
    pub fn into_inner(self) -> (r: InstanceWrapper)
        ensures
            r == self.wrapper(),
    {
        self.instance_wrapper
    }

    /// Copies `dest.len()` bytes of the memory, from `address` on, into `dest`.
    pub fn read_memory_into(&self, address: u32, dest: &mut [u8]) -> (r: Result<(), String>)
        requires
            self.wf(),
        ensures
            final(dest)@.len() == old(dest)@.len(),
            r.is_ok() == (address + old(dest)@.len() <= self.memory()@.len()),
            r.is_ok() ==> final(dest)@ == self.memory()@.subrange(
                address as int,
                address + old(dest)@.len(),
            ),
            r matches Err(e) ==> final(dest)@ == old(dest)@ && e@ == other(
                util::read_out_of_bounds(),
            ),
    {
        match &self.instance_wrapper.memory {
            Some(memory) => match memory.read_into(address, dest) {
                Ok(()) => Ok(()),
                Err(e) => Err(other_text(e)),
            },
            None => {
                proof {
                    assert(false);
                }
                Ok(())
            },
        }
    }

    /// Copies `data` into the memory from `address` on.
    pub fn write_memory(&mut self, address: u32, data: &[u8]) -> (r: Result<(), String>)
        requires
            old(self).wf(),
        ensures
            final(self).wf(),
            final(self).allocator() == old(self).allocator(),
            final(self).same_but_memory(old(self)),
            final(self).memory().spec_maximum() == old(self).memory().spec_maximum(),
            r.is_ok() == (address + data@.len() <= old(self).memory()@.len()),
            r.is_ok() ==> final(self).memory()@ == util::written(
                old(self).memory()@,
                address as int,
                data@,
            ),
            r matches Err(e) ==> final(self).memory()@ == old(self).memory()@ && e@ == other(
                util::write_out_of_bounds(),
            ),
    {
        match &mut self.instance_wrapper.memory {
            Some(memory) => match memory.write_from(address, data) {
                Ok(()) => Ok(()),
                Err(e) => Err(other_text(e)),
            },
            None => {
                proof {
                    assert(false);
                }
                Ok(())
            },
        }
    }

    /// Allocates `size` bytes on the heap of the instance and returns the
    /// pointer to them, where the allocator of the call gives one. The memory
    /// may grow for it; of the bytes that were there only the 8 in front of the
    /// pointer may change. On failure the bytes that were there stay as they
    /// are and the text of the allocator's error comes back.
    pub fn allocate_memory(&mut self, size: u32) -> (r: Result<u32, String>)
        requires
            old(self).wf(),
        ensures
            final(self).wf(),
            final(self).allocator().spec_heap_base() == old(self).allocator().spec_heap_base(),
            r.is_ok() == old(self).allocator().allocation(
                old(self).memory().state(),
                size,
            ).is_some(),
            r matches Ok(ptr) ==> old(self).allocator().allocation(
                old(self).memory().state(),
                size,
            ) == Some(ptr),
            r matches Err(text) ==> exists|error: crate::error::AllocatorError|
                text@ == #[trigger] error.text(),
            final(self).same_but_memory(old(self)),
            final(self).memory().spec_maximum() == old(self).memory().spec_maximum(),
            old(self).memory()@.len() <= final(self).memory()@.len(),
            r is Err ==> crate::memory::extends(old(self).memory()@, final(self).memory()@),
            r matches Ok(ptr) ==> {
                &&& ALLOCATION_HEADER_SIZE <= ptr
                &&& ptr + size <= final(self).memory()@.len()
                &&& forall|i: int|
                    0 <= i < old(self).memory()@.len() && !(ptr - ALLOCATION_HEADER_SIZE <= i
                        < ptr) ==> final(self).memory()@[i] == old(self).memory()@[i]
            },
    {
        match (&mut self.instance_wrapper.host_state, &mut self.instance_wrapper.memory) {
            (Some(host_state), Some(memory)) => {
                match host_state.allocator.allocate(memory, size) {
                    Ok(ptr) => Ok(ptr),
                    Err(e) => Err(e.to_string()),
                }
            },
            _ => {
                proof {
                    assert(false);
                }
                Ok(0)
            },
        }
    }

    /// Frees the allocation at `ptr`. Only the 8 bytes in front of `ptr`, the
    /// header of the allocation, may change. It succeeds only where the header
    /// lies within the memory and is that of an allocation, and then leaves the
    /// header of free room there. On failure the text of the allocator's error
    /// comes back: that the memory has shrunk, or an error that is described by
    /// its message.
    pub fn deallocate_memory(&mut self, ptr: u32) -> (r: Result<(), String>)
        requires
            old(self).wf(),
        ensures
            final(self).wf(),
            final(self).allocator().spec_heap_base() == old(self).allocator().spec_heap_base(),
            r.is_ok() == old(self).allocator().freeing(old(self).memory().state(), ptr),
            final(self).same_but_memory(old(self)),
            final(self).memory().spec_maximum() == old(self).memory().spec_maximum(),
            final(self).memory()@.len() == old(self).memory()@.len(),
            r is Ok ==> {
                &&& ALLOCATION_HEADER_SIZE <= ptr <= old(self).memory()@.len()
                &&& crate::memory::is_allocated(old(self).memory()@, ptr as int)
                &&& crate::memory::is_free(final(self).memory()@, ptr as int)
            },
            r matches Err(text) ==> exists|error: crate::error::AllocatorError|
                (error is MemoryShrinked || error is Other) && text@ == #[trigger] error.text(),
            forall|i: int|
                0 <= i < old(self).memory()@.len() && !(ptr - ALLOCATION_HEADER_SIZE <= i < ptr)
                    ==> final(self).memory()@[i] == old(self).memory()@[i],
    {
        match (&mut self.instance_wrapper.host_state, &mut self.instance_wrapper.memory) {
            (Some(host_state), Some(memory)) => {
                match host_state.allocator.deallocate(memory, ptr) {
                    Ok(()) => Ok(()),
                    Err(e) => Err(e.to_string()),
                }
            },
            _ => {
                proof {
                    assert(false);
                }
                Ok(())
            },
        }
    }

    /// Records the message of a fatal error of host code. The call that is
    /// being made then ends as a panic with this message.
    pub fn register_panic_error_message(&mut self, message: &str)
        requires
            old(self).wf(),
        ensures
            final(self).wf(),
            final(self).allocator() == old(self).allocator(),
            final(self).wrapper().spec_instance() == old(self).wrapper().spec_instance(),
            final(self).wrapper().spec_import() == old(self).wrapper().spec_import(),
            final(self).wrapper().spec_memory() == old(self).wrapper().spec_memory(),
            final(self).store() == old(self).store(),
            final(self).message() matches Some(m) && m@ == message@,
    {
        match &mut self.instance_wrapper.host_state {
            Some(host_state) => {
                host_state.panic_message = Some(message.to_owned());
            },
            None => {
                proof {
                    assert(false);
                }
            },
        }
    }

    /// Copies `buf_len` bytes of the sandboxed memory `memory_id`, from
    /// `offset` on, into the memory of the instance at `buf_ptr`. A range
    /// that does not lie within its memory gives the guest the status
    /// `ERR_OUT_OF_BOUNDS` and changes nothing; an id that stands for no live
    /// memory is an error of the host function.
    pub fn memory_get(&mut self, memory_id: u32, offset: u32, buf_ptr: u32, buf_len: u32) -> (r:
        Result<u32, String>)
        requires
            old(self).wf(),
        ensures
            final(self).wf(),
            final(self).allocator() == old(self).allocator(),
            final(self).same_but_memory(old(self)),
            final(self).memory().spec_maximum() == old(self).memory().spec_maximum(),
            match old(self).store().memory_slot(memory_id) {
                Slot::Unused => final(self).memory()@ == old(self).memory()@ && (r matches Err(e)
                    && e@ == other(crate::sandbox::no_such_memory())),
                Slot::TornDown => final(self).memory()@ == old(self).memory()@ && (r matches Err(
                    e,
                ) && e@ == other(crate::sandbox::memory_torn_down())),
                Slot::Live => {
                    let source = old(self).store().memories()[memory_id as int].unwrap()@;
                    if offset + buf_len <= source.len()
                        && buf_ptr + buf_len <= old(self).memory()@.len() {
                        r == Ok::<u32, String>(ERR_OK) && final(self).memory()@ == util::written(
                            old(self).memory()@,
                            buf_ptr as int,
                            source.subrange(offset as int, offset + buf_len),
                        )
                    } else {
                        r == Ok::<u32, String>(ERR_OUT_OF_BOUNDS)
                            && final(self).memory()@ == old(self).memory()@
                    }
                },
            },
    {
        match (&mut self.instance_wrapper.host_state, &mut self.instance_wrapper.memory) {
            (Some(host_state), Some(memory)) => {
                match host_state.sandbox_store.check_memory(memory_id) {
                    Err(e) => Err(other_text(e)),
                    Ok(()) => {
                        let buffer = match host_state.sandbox_store.memory_read(
                            memory_id,
                            offset,
                            buf_len as usize,
                        ) {
                            Err(_) => {
                                return Ok(ERR_OUT_OF_BOUNDS);
                            },
                            Ok(buffer) => buffer,
                        };
                        match memory.write_from(buf_ptr, buffer.as_slice()) {
                            Err(_) => Ok(ERR_OUT_OF_BOUNDS),
                            Ok(()) => Ok(ERR_OK),
                        }
                    },
                }
            },
            _ => {
                proof {
                    assert(false);
                }
                Ok(ERR_OK)
            },
        }
    }

    /// Copies `val_len` bytes of the memory of the instance, from `val_ptr` on,
    /// into the sandboxed memory `memory_id` at `offset`. A range that does not
    /// lie within its memory gives the guest the status `ERR_OUT_OF_BOUNDS` and
    /// changes nothing; an id that stands for no live memory is an error of the
    /// host function.
    pub fn memory_set(&mut self, memory_id: u32, offset: u32, val_ptr: u32, val_len: u32) -> (r:
        Result<u32, String>)
        requires
            old(self).wf(),
        ensures
            final(self).wf(),
            final(self).allocator() == old(self).allocator(),
            final(self).wrapper().spec_instance() == old(self).wrapper().spec_instance(),
            final(self).wrapper().spec_import() == old(self).wrapper().spec_import(),
            final(self).wrapper().spec_memory() == old(self).wrapper().spec_memory(),
            final(self).message() == old(self).message(),
            final(self).store().instances() == old(self).store().instances(),
            final(self).store().memories().len() == old(self).store().memories().len(),
            forall|i: int|
                0 <= i < old(self).store().memories().len()
                    && i != memory_id ==> final(self).store().memories()[i]
                    == old(self).store().memories()[i],
            match old(self).store().memory_slot(memory_id) {
                Slot::Unused => final(self).store() == old(self).store() && (r matches Err(e)
                    && e@ == other(crate::sandbox::no_such_memory())),
                Slot::TornDown => final(self).store() == old(self).store() && (r matches Err(e)
                    && e@ == other(crate::sandbox::memory_torn_down())),
                Slot::Live => {
                    let target = old(self).store().memories()[memory_id as int].unwrap();
                    let source = old(self).memory()@;
                    &&& final(self).store().memories()[memory_id as int] matches Some(after)
                        && after.spec_maximum() == target.spec_maximum() && if val_ptr + val_len
                        <= source.len() && offset + val_len <= target@.len() {
                        r == Ok::<u32, String>(ERR_OK) && after@ == util::written(
                            target@,
                            offset as int,
                            source.subrange(val_ptr as int, val_ptr + val_len),
                        )
                    } else {
                        r == Ok::<u32, String>(ERR_OUT_OF_BOUNDS) && after@ == target@
                    }
                },
            },
    {
        match (&mut self.instance_wrapper.host_state, &self.instance_wrapper.memory) {
            (Some(host_state), Some(memory)) => {
                match host_state.sandbox_store.check_memory(memory_id) {
                    Err(e) => Err(other_text(e)),
                    Ok(()) => {
                        let buffer = match memory.read(val_ptr, val_len as usize) {
                            Err(_) => {
                                return Ok(ERR_OUT_OF_BOUNDS);
                            },
                            Ok(buffer) => buffer,
                        };
                        match host_state.sandbox_store.memory_write(
                            memory_id,
                            offset,
                            buffer.as_slice(),
                        ) {
                            Err(_) => Ok(ERR_OUT_OF_BOUNDS),
                            Ok(()) => Ok(ERR_OK),
                        }
                    },
                }
            },
            _ => {
                proof {
                    assert(false);
                }
                Ok(ERR_OK)
            },
        }
    }

    /// Tears the sandboxed memory `memory_id` down.
    pub fn memory_teardown(&mut self, memory_id: u32) -> (r: Result<(), String>)
        requires
            old(self).wf(),
        ensures
            final(self).wf(),
            final(self).allocator() == old(self).allocator(),
            final(self).wrapper().spec_instance() == old(self).wrapper().spec_instance(),
            final(self).wrapper().spec_import() == old(self).wrapper().spec_import(),
            final(self).wrapper().spec_memory() == old(self).wrapper().spec_memory(),
            final(self).message() == old(self).message(),
            final(self).store().instances() == old(self).store().instances(),
            match old(self).store().memory_slot(memory_id) {
                Slot::Live => r.is_ok()
                    && final(self).store().memories()
                    == old(self).store().memories().update(memory_id as int, None),
                Slot::Unused => final(self).store().memories() == old(self).store().memories() && (
                r matches Err(e) && e@ == other(crate::sandbox::teardown_of_nothing())),
                Slot::TornDown => final(self).store().memories() == old(self).store().memories()
                    && (r matches Err(e) && e@ == other(crate::sandbox::double_teardown())),
            },
    {
        match &mut self.instance_wrapper.host_state {
            Some(host_state) => match host_state.sandbox_store.memory_teardown(memory_id) {
                Ok(()) => Ok(()),
                Err(e) => Err(other_text(e)),
            },
            None => {
                proof {
                    assert(false);
                }
                Ok(())
            },
        }
    }

    /// Creates a sandboxed memory of `initial` zeroed pages that may grow up
    /// to `maximum` pages, and returns its id.
    pub fn memory_new(&mut self, initial: u32, maximum: u32) -> (r: Result<u32, String>)
        requires
            old(self).wf(),
        ensures
            final(self).wf(),
            final(self).allocator() == old(self).allocator(),
            final(self).wrapper().spec_instance() == old(self).wrapper().spec_instance(),
            final(self).wrapper().spec_import() == old(self).wrapper().spec_import(),
            final(self).wrapper().spec_memory() == old(self).wrapper().spec_memory(),
            final(self).message() == old(self).message(),
            final(self).store().instances() == old(self).store().instances(),
            r.is_ok() == (old(self).store().memories().len() < u32::MAX && initial
                <= crate::memory::page_limit(crate::sandbox::declared_maximum(maximum))),
            r matches Ok(id) ==> {
                &&& id == old(self).store().memories().len()
                &&& final(self).store().memories().len() == id + 1
                &&& final(self).store().memories().subrange(0, id as int)
                    == old(self).store().memories()
                &&& final(self).store().memories()[id as int] matches Some(m) && m@
                    == crate::memory::zeros((initial * 65536) as nat) && m.spec_maximum()
                    == crate::sandbox::declared_maximum(maximum)
            },
            r matches Err(e) ==> final(self).store().memories() == old(self).store().memories()
                && e@ == other(crate::sandbox::memory_not_created()),
    {
        match &mut self.instance_wrapper.host_state {
            Some(host_state) => match host_state.sandbox_store.new_memory(initial, maximum) {
                Ok(id) => Ok(id),
                Err(e) => Err(other_text(e)),
            },
            None => {
                proof {
                    assert(false);
                }
                Ok(0)
            },
        }
    }

    /// Prepares the call of an exported function of the nested instance
    /// `instance_id`: reads the arguments from their serialised form and looks
    /// the instance up.
    pub fn invoke(&self, instance_id: u32, args: &[u8]) -> (r: Result<InvokeRequest, String>)
        requires
            self.wf(),
        ensures
            match decoded_values(args@) {
                None => r matches Err(e) && e@
                    == "Can't decode serialized arguments for the invocation"@,
                Some(values) => match self.store().instance_slot(instance_id) {
                    Slot::Unused => r matches Err(e) && e@ == other(
                        crate::sandbox::no_such_instance(),
                    ),
                    Slot::TornDown => r matches Err(e) && e@ == other(
                        crate::sandbox::instance_torn_down(),
                    ),
                    Slot::Live => r matches Ok(request) && request.args@ == values
                        && request.instance == self.store().instances()[instance_id as int].unwrap()
                        && request.dispatch_thunk == request.instance.dispatch_thunk,
                },
            },
    {
        let args = match decode_values(args) {
            None => {
                return Err("Can't decode serialized arguments for the invocation".to_owned());
            },
            Some(args) => args,
        };
        match &self.instance_wrapper.host_state {
            Some(host_state) => {
                let instance = match host_state.sandbox_store.instance(instance_id) {
                    Err(e) => {
                        return Err(other_text(e));
                    },
                    Ok(instance) => instance,
                };
                let dispatch_thunk = match host_state.sandbox_store.dispatch_thunk(instance_id) {
                    Err(e) => {
                        return Err(other_text(e));
                    },
                    Ok(dispatch_thunk) => dispatch_thunk,
                };
                Ok(InvokeRequest { args, instance, dispatch_thunk })
            },
            None => {
                proof {
                    assert(false);
                }
                Err(String::new())
            },
        }
    }

    /// Finishes the call of an exported function of a nested instance, given
    /// what the engine made of it: a value or none, or a failure. A failure
    /// gives the guest the status `ERR_EXECUTION`. A value is written in its
    /// serialised form to the buffer of `return_val_len` bytes at `return_val`;
    /// it is an error of the host function where the buffer is too small or
    /// does not lie within the memory.
    pub fn invoke_result(
        &mut self,
        result: Result<Option<Value>, String>,
        return_val: u32,
        return_val_len: u32,
    ) -> (r: Result<u32, String>)
        requires
            old(self).wf(),
        ensures
            final(self).wf(),
            final(self).allocator() == old(self).allocator(),
            final(self).same_but_memory(old(self)),
            final(self).memory().spec_maximum() == old(self).memory().spec_maximum(),
            match result {
                Err(_) => r == Ok::<u32, String>(ERR_EXECUTION)
                    && final(self).memory()@ == old(self).memory()@,
                Ok(None) => r == Ok::<u32, String>(ERR_OK)
                    && final(self).memory()@ == old(self).memory()@,
                Ok(Some(value)) => {
                    let bytes = encoded_return_value(value);
                    if bytes.len() > return_val_len {
                        final(self).memory()@ == old(self).memory()@ && (r matches Err(e) && e@
                            == "Return value buffer is too small"@)
                    } else if return_val + bytes.len() > old(self).memory()@.len() {
                        final(self).memory()@ == old(self).memory()@ && (r matches Err(e) && e@
                            == "can't write return value"@)
                    } else {
                        r == Ok::<u32, String>(ERR_OK) && final(self).memory()@ == util::written(
                            old(self).memory()@,
                            return_val as int,
                            bytes,
                        )
                    }
                },
            },
    {
        match result {
            Ok(None) => Ok(ERR_OK),
            Ok(Some(value)) => {
                let bytes = encode_return_value(value);
                if bytes.len() > return_val_len as usize {
                    return Err("Return value buffer is too small".to_owned());
                }
                match self.write_memory(return_val, bytes.as_slice()) {
                    Err(_) => Err("can't write return value".to_owned()),
                    Ok(()) => Ok(ERR_OK),
                }
            },
            Err(_) => Ok(ERR_EXECUTION),
        }
    }

    /// Tears the nested instance `instance_id` down.
    pub fn instance_teardown(&mut self, instance_id: u32) -> (r: Result<(), String>)
        requires
            old(self).wf(),
        ensures
            final(self).wf(),
            final(self).allocator() == old(self).allocator(),
            final(self).wrapper().spec_instance() == old(self).wrapper().spec_instance(),
            final(self).wrapper().spec_import() == old(self).wrapper().spec_import(),
            final(self).wrapper().spec_memory() == old(self).wrapper().spec_memory(),
            final(self).message() == old(self).message(),
            final(self).store().memories() == old(self).store().memories(),
            match old(self).store().instance_slot(instance_id) {
                Slot::Live => r.is_ok()
                    && final(self).store().instances()
                    == old(self).store().instances().update(instance_id as int, None),
                Slot::Unused => final(self).store().instances() == old(self).store().instances()
                    && (r matches Err(e) && e@ == other(crate::sandbox::teardown_of_nothing())),
                Slot::TornDown => final(self).store().instances() == old(self).store().instances()
                    && (r matches Err(e) && e@ == other(crate::sandbox::double_teardown())),
            },
    {
        match &mut self.instance_wrapper.host_state {
            Some(host_state) => match host_state.sandbox_store.instance_teardown(instance_id) {
                Ok(()) => Ok(()),
                Err(e) => Err(other_text(e)),
            },
            None => {
                proof {
                    assert(false);
                }
                Ok(())
            },
        }
    }

    /// Decides what follows when the guest asks for a nested instance that
    /// reaches the host through the slot `dispatch_thunk_id` of the function
    /// table, in the environment that `raw_env_def` describes in serialised
    /// form. It is an error of the host function where the slot holds no
    /// function. A description that cannot be read, or that names a memory that
    /// is not live, gives the guest the status `ERR_MODULE`. Otherwise the
    /// engine has to instantiate the module in that environment.
    pub fn instance_new(&self, dispatch_thunk_id: u32, raw_env_def: &[u8]) -> (r: Result<
        NewInstanceStep,
        String,
    >)
        requires
            self.wf(),
            self.wrapper().spec_instance().is_some(),
        ensures
            match self.wrapper().spec_instance().unwrap().table {
                None => r matches Err(e) && e@
                    == "Runtime doesn't have a table; sandbox is unavailable"@,
                Some(slots) => if dispatch_thunk_id >= slots@.len() {
                    r matches Err(e) && e@ == "dispatch_thunk_id is out of bounds"@
                } else if slots@[dispatch_thunk_id as int].is_none() {
                    r matches Err(e) && e@ == "dispatch_thunk_idx should point to actual func"@
                } else {
                    self.new_instance_step(
                        dispatch_thunk_id,
                        crate::sandbox::decoded_environment(raw_env_def@),
                        r,
                    )
                },
            },
    {
        match (&self.instance_wrapper.instance, &self.instance_wrapper.host_state) {
            (Some(instance), Some(host_state)) => {
                match table_entry(&instance.table, dispatch_thunk_id) {
                    Err(Error::NoTable) => {
                        return Err(
                            "Runtime doesn't have a table; sandbox is unavailable".to_owned(),
                        );
                    },
                    Err(Error::NoTableEntryWithIndex(_)) => {
                        return Err("dispatch_thunk_id is out of bounds".to_owned());
                    },
                    Err(_) => {
                        return Err("dispatch_thunk_idx should point to actual func".to_owned());
                    },
                    Ok(_) => {},
                }
                match read_environment(raw_env_def) {
                    None => Ok(NewInstanceStep::Refused(ERR_MODULE)),
                    Some(entries) => {
                        let checked = host_state.sandbox_store.check_environment(&entries);
                        proof {
                            let parts = crate::sandbox::decoded_environment(raw_env_def@).unwrap();
                            let store = self.store();
                            assert forall|i: int| 0 <= i < parts.len() implies (store.entry_usable(
                                #[trigger] entries@[i],
                            ) <==> (parts[i].2 == 2 ==> store.memory_slot(parts[i].3) is Live)) by {
                                assert(Some(entries@[i].entity) == crate::sandbox::entity_of(
                                    parts[i].2,
                                    parts[i].3,
                                ));
                            }
                            if checked.is_ok() {
                                assert forall|i: int|
                                    0 <= i < parts.len() && (#[trigger] parts[i]).2
                                        == 2 implies store.memory_slot(parts[i].3) is Live by {
                                    assert(store.entry_usable(entries@[i]));
                                }
                            }
                        }
                        match checked {
                            Err(_) => Ok(NewInstanceStep::Refused(ERR_MODULE)),
                            Ok(()) => Ok(
                                NewInstanceStep::Instantiate {
                                    dispatch_thunk: dispatch_thunk_id,
                                    environment: entries,
                                },
                            ),
                        }
                    },
                }
            },
            _ => {
                proof {
                    assert(false);
                }
                Err(String::new())
            },
        }
    }

    /// Whether `r` is the step that follows a request for a nested instance
    /// with a dispatch thunk that is a function, where the description of the
    /// environment decodes to `parts`, if it decodes at all.
    pub open spec fn new_instance_step(
        &self,
        dispatch_thunk_id: u32,
        parts: Option<Seq<(Seq<u8>, Seq<u8>, u8, u32)>>,
        r: Result<NewInstanceStep, String>,
    ) -> bool {
        match parts {
            None => r == Ok::<_, String>(NewInstanceStep::Refused(ERR_MODULE)),
            Some(parts) => if crate::sandbox::tags_known(parts) && forall|i: int|
                0 <= i < parts.len() && (#[trigger] parts[i]).2 == 2 ==> self.store().memory_slot(
                    parts[i].3,
                ) is Live {
                r matches Ok(NewInstanceStep::Instantiate { dispatch_thunk, environment })
                    && dispatch_thunk == dispatch_thunk_id && crate::sandbox::entries_of(
                    environment@,
                    parts,
                )
            } else {
                r == Ok::<_, String>(NewInstanceStep::Refused(ERR_MODULE))
            },
        }
    }

    /// Finishes the creation of a nested instance, given what the engine made
    /// of the module, and returns the status for the guest: the id under which
    /// the new instance is registered; `ERR_EXECUTION` where the start function
    /// trapped; `ERR_MODULE` after any other failure, and where no id is left.
    pub fn instance_new_result(
        &mut self,
        outcome: Result<(), InstantiationError>,
        dispatch_thunk: u32,
    ) -> (r: u32)
        requires
            old(self).wf(),
        ensures
            final(self).wf(),
            final(self).allocator() == old(self).allocator(),
            final(self).wrapper().spec_instance() == old(self).wrapper().spec_instance(),
            final(self).wrapper().spec_import() == old(self).wrapper().spec_import(),
            final(self).wrapper().spec_memory() == old(self).wrapper().spec_memory(),
            final(self).message() == old(self).message(),
            final(self).store().memories() == old(self).store().memories(),
            ({
                let before = old(self).store().instances();
                let id = if before.len() < u32::MAX {
                    Some(before.len() as u32)
                } else {
                    None
                };
                &&& r == instantiation_status(outcome, id)
                &&& final(self).store().instances() == if outcome.is_ok() && id.is_some() {
                    before.push(Some(SandboxInstance { dispatch_thunk }))
                } else {
                    before
                }
            }),
    {
        match outcome {
            Ok(()) => match &mut self.instance_wrapper.host_state {
                Some(host_state) => {
                    match host_state.sandbox_store.register_instance(
                        SandboxInstance { dispatch_thunk },
                    ) {
                        Some(id) => id,
                        None => ERR_MODULE,
                    }
                },
                None => {
                    proof {
                        assert(false);
                    }
                    ERR_MODULE
                },
            },
            Err(InstantiationError::StartTrapped) => ERR_EXECUTION,
            Err(_) => ERR_MODULE,
        }
    }

    /// The value of the global `name` of the nested instance `instance_idx`,
    /// which the engine describes by `nested`: nothing where it has no such
    /// global, or where the global is not of a numeric kind.
    pub fn get_global_val(&self, instance_idx: u32, nested: &Instance, name: &str) -> (r: Result<
        Option<Value>,
        String,
    >)
        requires
            self.wf(),
        ensures
            match self.store().instance_slot(instance_idx) {
                Slot::Unused => r matches Err(e) && e@ == other(
                    crate::sandbox::no_such_instance(),
                ),
                Slot::TornDown => r matches Err(e) && e@ == other(
                    crate::sandbox::instance_torn_down(),
                ),
                Slot::Live => if has_global(nested.globals@, name@) {
                    let val = global_value(nested.globals@, name@);
                    if val is I32 || val is I64 || val is F32 || val is F64 {
                        r == Ok::<_, String>(Some(value_of_val(val)))
                    } else {
                        r == Ok::<Option<Value>, String>(None)
                    }
                } else {
                    r == Ok::<Option<Value>, String>(None)
                },
            },
    {
        match &self.instance_wrapper.host_state {
            Some(host_state) => {
                match host_state.sandbox_store.instance(instance_idx) {
                    Err(e) => Err(other_text(e)),
                    Ok(_) => match find_global(&nested.globals, name) {
                        None => Ok(None),
                        Some(k) => match nested.globals[k].value {
                            Val::I32(v) => Ok(Some(Value::I32(v))),
                            Val::I64(v) => Ok(Some(Value::I64(v))),
                            Val::F32(v) => Ok(Some(Value::F32(v))),
                            Val::F64(v) => Ok(Some(Value::F64(v))),
                            _ => Ok(None),
                        },
                    },
                }
            },
            None => {
                proof {
                    assert(false);
                }
                Ok(None)
            },
        }
    }
}

/// The arguments with which the dispatch thunk is called when a nested
/// instance calls the host: where the serialised arguments lie, their length,
/// the state of the nested instance and the index of the function, each as a
/// 32-bit integer.
pub fn dispatch_thunk_args(
    invoke_args_ptr: u32,
    invoke_args_len: u32,
    state: u32,
    func_idx: usize,
) -> (r: Vec<WasmValue>)
    ensures
        r@.len() == 4,
        forall|i: int| 0 <= i < 4 ==> (#[trigger] r@[i]).wf() && r@[i].spec_ty() == ValType::I32,
        r@[0].value() == Value::I32(invoke_args_ptr as i32),
        r@[1].value() == Value::I32(invoke_args_len as i32),
        r@[2].value() == Value::I32(state as i32),
        r@[3].value() == Value::I32(func_idx as i32),
{
    let mut args: Vec<WasmValue> = Vec::new();
    args.push(
        WasmValue::from_i32(
            #[verifier::truncate]
            (invoke_args_ptr as i32),
        ),
    );
    args.push(
        WasmValue::from_i32(
            #[verifier::truncate]
            (invoke_args_len as i32),
        ),
    );
    args.push(WasmValue::from_i32(
        #[verifier::truncate]
        (state as i32),
    ));
    args.push(
        WasmValue::from_i32(
            #[verifier::truncate]
            (func_idx as i32),
        ),
    );
    args
}

/// What a call of the dispatch thunk gives the nested instance: the first
/// result of the thunk as a 64-bit integer, or the text of the trap as an
/// error.
pub fn dispatch_thunk_result(outcome: Result<Vec<WasmValue>, String>) -> (r: Result<i64, Error>)
    requires
        outcome matches Ok(results) ==> results@.len() > 0,
    ensures
        match outcome {
            Ok(results) => r == Ok::<i64, Error>(results@[0].spec_bits() as i64),
            Err(trap) => r matches Err(Error::Other(m)) && m == trap,
        },
{
    match outcome {
        Ok(results) => Ok(results[0].to_i64()),
        Err(trap) => Err(Error::Other(trap)),
    }
}

} // verus!
