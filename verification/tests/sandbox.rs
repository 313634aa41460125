use sc_executor_wasmedge::host::{
    dispatch_thunk_args, dispatch_thunk_result, NewInstanceStep,
};
use sc_executor_wasmedge::imports::FuncSignature;
use sc_executor_wasmedge::instance_wrapper::{FuncRef, Global, Instance};
use sc_executor_wasmedge::memory::{HeapAllocator, LinearMemory};
use sc_executor_wasmedge::sandbox::{
    environment_entries, read_environment, EnvironmentEntry, ExternEntity, InstantiationError,
    SandboxInstance, Store, ERR_EXECUTION, ERR_MODULE, ERR_OK, ERR_OUT_OF_BOUNDS, MEM_UNLIMITED,
};
use sc_executor_wasmedge::value::{Val, WasmValue};
use sc_executor_wasmedge::{Error, HostContext, HostState, InstanceWrapper};
use sp_wasm_interface::Value;
use wasmedge_types::ValType;

fn thunk() -> FuncRef {
    FuncRef {
        ty: Ok(FuncSignature { params: vec![ValType::I32; 4], results: vec![ValType::I64] }),
    }
}

fn outer(table: Option<Vec<Option<FuncRef>>>) -> HostContext {
    let mut wrapper = InstanceWrapper::new();
    wrapper
        .instantiate(
            Instance { funcs: vec![], globals: vec![], table },
            Some(LinearMemory::new(1, None).unwrap()),
        )
        .unwrap();
    wrapper.set_host_state(Some(HostState::new(HeapAllocator::new(1024).unwrap())));
    HostContext::new(wrapper)
}

fn context() -> HostContext {
    outer(Some(vec![None, Some(thunk())]))
}

fn is_other(e: &Error, text: &str) -> bool {
    matches!(e, Error::Other(m) if m == text)
}

#[test]
fn status_codes_are_small_negative_numbers() {
    assert_eq!(ERR_OK, 0);
    assert_eq!(ERR_MODULE, -1i32 as u32);
    assert_eq!(ERR_EXECUTION, -2i32 as u32);
    assert_eq!(ERR_OUT_OF_BOUNDS, -3i32 as u32);
    assert_eq!(MEM_UNLIMITED, u32::MAX);
}

#[test]
fn ids_count_up_from_zero() {
    let mut store = Store::new();
    assert_eq!(store.register_instance(SandboxInstance { dispatch_thunk: 5 }), Some(0));
    assert_eq!(store.register_instance(SandboxInstance { dispatch_thunk: 6 }), Some(1));
    assert_eq!(store.new_memory(1, 2).unwrap(), 0);
    assert_eq!(store.new_memory(0, MEM_UNLIMITED).unwrap(), 1);
    assert_eq!(store.instance(1).unwrap(), SandboxInstance { dispatch_thunk: 6 });
    assert_eq!(store.dispatch_thunk(0).unwrap(), 5);
}

#[test]
fn a_nested_instance_lives_until_it_is_torn_down() {
    let mut store = Store::new();
    // Nothing was created yet.
    assert!(is_other(&store.instance(0).unwrap_err(), "Trying to access a non-existent instance"));
    assert!(is_other(
        &store.instance_teardown(0).unwrap_err(),
        "Trying to teardown a non-existent instance or memory"
    ));
    let id = store.register_instance(SandboxInstance { dispatch_thunk: 1 }).unwrap();
    // It can be used any number of times.
    assert!(store.instance(id).is_ok());
    assert!(store.instance(id).is_ok());
    store.instance_teardown(id).unwrap();
    assert!(is_other(&store.instance(id).unwrap_err(), "Trying to access a torndown instance"));
    assert!(is_other(
        &store.dispatch_thunk(id).unwrap_err(),
        "Trying to access a torndown instance"
    ));
    assert!(is_other(
        &store.instance_teardown(id).unwrap_err(),
        "Double teardown of an instance or memory"
    ));
    // The id is not given out again.
    assert_eq!(store.register_instance(SandboxInstance { dispatch_thunk: 2 }), Some(1));
}

#[test]
fn a_sandboxed_memory_is_read_and_written_within_its_bounds() {
    let mut store = Store::new();
    let id = store.new_memory(1, 1).unwrap();
    store.check_memory(id).unwrap();
    store.memory_write(id, 65533, &[1, 2, 3]).unwrap();
    assert_eq!(store.memory_read(id, 65532, 4).unwrap(), vec![0, 1, 2, 3]);
    assert!(store.memory_write(id, 65534, &[1, 2, 3]).is_err());
    assert!(store.memory_read(id, 65534, 3).is_err());
    assert_eq!(store.memory_read(id, 65532, 4).unwrap(), vec![0, 1, 2, 3]);
    store.memory_teardown(id).unwrap();
    assert!(is_other(
        &store.check_memory(id).unwrap_err(),
        "Trying to access a torndown sandboxed memory"
    ));
    assert!(is_other(
        &store.check_memory(7).unwrap_err(),
        "Trying to access a non-existent sandboxed memory"
    ));
    assert!(is_other(
        &store.memory_teardown(id).unwrap_err(),
        "Double teardown of an instance or memory"
    ));
    assert!(is_other(
        &store.memory_teardown(7).unwrap_err(),
        "Trying to teardown a non-existent instance or memory"
    ));
}

#[test]
fn a_sandboxed_memory_cannot_start_beyond_its_maximum() {
    let mut store = Store::new();
    assert!(is_other(
        &store.new_memory(2, 1).unwrap_err(),
        "Sandboxed memory cannot be created with these limits"
    ));
    assert!(store.new_memory(65536, MEM_UNLIMITED).is_err());
    // No id was used up.
    assert_eq!(store.new_memory(1, 1).unwrap(), 0);
}

#[test]
fn the_context_reads_and_writes_the_memory_of_the_instance() {
    let mut ctx = context();
    ctx.write_memory(10, &[1, 2, 3]).unwrap();
    let mut dest = [0u8; 5];
    ctx.read_memory_into(9, &mut dest).unwrap();
    assert_eq!(dest, [0, 1, 2, 3, 0]);
    assert_eq!(
        ctx.write_memory(65535, &[1, 2]).unwrap_err(),
        "Other: memory write is out of bounds"
    );
    assert_eq!(
        ctx.read_memory_into(65535, &mut dest).unwrap_err(),
        "Other: memory read is out of bounds"
    );
    assert_eq!(dest, [0, 1, 2, 3, 0]);
}

#[test]
fn the_context_allocates_on_the_heap_of_the_call() {
    let mut ctx = context();
    let a = ctx.allocate_memory(16).unwrap();
    assert_eq!(a, 1024 + 8);
    let b = ctx.allocate_memory(1).unwrap();
    assert_eq!(b, 1024 + 8 + 16 + 8);
    ctx.write_memory(a, &[7; 16]).unwrap();
    ctx.deallocate_memory(a).unwrap();
    assert_eq!(ctx.allocate_memory(16).unwrap(), a);
    assert_eq!(
        ctx.allocate_memory(64 * 1024 * 1024).unwrap_err(),
        "Requested allocation size is too large"
    );
    // After a failure the allocator refuses everything.
    assert_eq!(
        ctx.allocate_memory(1).unwrap_err(),
        "Other: the allocator has been poisoned"
    );
    assert_eq!(
        ctx.deallocate_memory(b).unwrap_err(),
        "Other: the allocator has been poisoned"
    );
}

#[test]
fn memory_set_copies_from_the_instance_into_the_sandbox() {
    let mut ctx = context();
    let id = ctx.memory_new(1, MEM_UNLIMITED).unwrap();
    assert_eq!(id, 0);
    ctx.write_memory(100, &[1, 2, 3, 4]).unwrap();
    assert_eq!(ctx.memory_set(id, 10, 100, 4), Ok(ERR_OK));
    let state = ctx.instance_wrapper.host_state.as_ref().unwrap();
    assert_eq!(state.sandbox_store.memory_read(id, 9, 6).unwrap(), vec![0, 1, 2, 3, 4, 0]);
    // The source lies outside the memory of the instance.
    assert_eq!(ctx.memory_set(id, 10, 65534, 4), Ok(ERR_OUT_OF_BOUNDS));
    // The target lies outside the sandboxed memory.
    assert_eq!(ctx.memory_set(id, 65534, 100, 4), Ok(ERR_OUT_OF_BOUNDS));
    let state = ctx.instance_wrapper.host_state.as_ref().unwrap();
    assert_eq!(state.sandbox_store.memory_read(id, 65532, 4).unwrap(), vec![0; 4]);
    // An id without a memory is an error of the host function.
    assert_eq!(
        ctx.memory_set(3, 0, 0, 0).unwrap_err(),
        "Other: Trying to access a non-existent sandboxed memory"
    );
}

#[test]
fn memory_get_copies_from_the_sandbox_into_the_instance() {
    let mut ctx = context();
    let id = ctx.memory_new(1, 1).unwrap();
    ctx.write_memory(0, &[1, 2, 3, 4, 5, 6]).unwrap();
    assert_eq!(ctx.memory_set(id, 0, 0, 6), Ok(ERR_OK));
    // From offset 0 on, 4 bytes.
    assert_eq!(ctx.memory_get(id, 0, 200, 4), Ok(ERR_OK));
    let mut dest = [9u8; 6];
    ctx.read_memory_into(199, &mut dest).unwrap();
    assert_eq!(dest, [0, 1, 2, 3, 4, 0]);
    // From offset 2 on, 3 bytes.
    assert_eq!(ctx.memory_get(id, 2, 300, 3), Ok(ERR_OK));
    ctx.read_memory_into(299, &mut dest).unwrap();
    assert_eq!(dest, [0, 3, 4, 5, 0, 0]);
    // One byte from an offset: nothing behind the buffer is written.
    ctx.write_memory(500, &[9; 6]).unwrap();
    assert_eq!(ctx.memory_get(id, 4, 502, 1), Ok(ERR_OK));
    ctx.read_memory_into(500, &mut dest).unwrap();
    assert_eq!(dest, [9, 9, 5, 9, 9, 9]);
    // The last byte of the sandboxed memory.
    assert_eq!(ctx.memory_get(id, 65535, 400, 1), Ok(ERR_OK));
    // The range lies outside the sandboxed memory.
    assert_eq!(ctx.memory_get(id, 65535, 400, 2), Ok(ERR_OUT_OF_BOUNDS));
    assert_eq!(ctx.memory_get(id, 65536, 400, 1), Ok(ERR_OUT_OF_BOUNDS));
    // The range lies outside the memory of the instance.
    assert_eq!(ctx.memory_get(id, 0, 65535, 2), Ok(ERR_OUT_OF_BOUNDS));
    ctx.read_memory_into(65530, &mut dest).unwrap();
    assert_eq!(dest, [0; 6]);
    ctx.memory_teardown(id).unwrap();
    assert_eq!(
        ctx.memory_get(id, 0, 0, 0).unwrap_err(),
        "Other: Trying to access a torndown sandboxed memory"
    );
    assert_eq!(
        ctx.memory_teardown(id).unwrap_err(),
        "Other: Double teardown of an instance or memory"
    );
    assert_eq!(
        ctx.memory_new(3, 2).unwrap_err(),
        "Other: Sandboxed memory cannot be created with these limits"
    );
}

/// The serialised form of an environment: the number of entries, and for each
/// entry its two names, each behind its length, a tag and a number.
fn serialised(entries: &[(&[u8], &[u8], u8, u32)]) -> Vec<u8> {
    let mut bytes = vec![(entries.len() as u8) << 2];
    for (module_name, field_name, tag, number) in entries {
        bytes.push((module_name.len() as u8) << 2);
        bytes.extend_from_slice(module_name);
        bytes.push((field_name.len() as u8) << 2);
        bytes.extend_from_slice(field_name);
        bytes.push(*tag);
        bytes.extend_from_slice(&number.to_le_bytes());
    }
    bytes
}

fn is_refused(step: Result<NewInstanceStep, String>) -> bool {
    matches!(step, Ok(NewInstanceStep::Refused(ERR_MODULE)))
}

#[test]
fn a_nested_instance_is_created_through_a_dispatch_thunk() {
    let mut ctx = context();
    match ctx.instance_new(1, &serialised(&[])) {
        Ok(NewInstanceStep::Instantiate { dispatch_thunk, environment }) => {
            assert_eq!(dispatch_thunk, 1);
            assert!(environment.is_empty());
        },
        other => panic!("unexpected step: {:?}", other),
    }
    assert_eq!(ctx.instance_new_result(Ok(()), 1), 0);
    assert_eq!(ctx.instance_new_result(Ok(()), 1), 1);
    let state = ctx.instance_wrapper.host_state.as_ref().unwrap();
    assert_eq!(state.sandbox_store.instance(1).unwrap(), SandboxInstance { dispatch_thunk: 1 });
    ctx.instance_teardown(0).unwrap();
    assert_eq!(
        ctx.instance_teardown(0).unwrap_err(),
        "Other: Double teardown of an instance or memory"
    );
    assert_eq!(
        ctx.instance_teardown(5).unwrap_err(),
        "Other: Trying to teardown a non-existent instance or memory"
    );
}

#[test]
fn a_failed_instantiation_gives_a_status_and_no_instance() {
    let mut ctx = context();
    assert_eq!(ctx.instance_new_result(Err(InstantiationError::StartTrapped), 1), ERR_EXECUTION);
    for e in [
        InstantiationError::EnvironmentDefinitionCorrupted,
        InstantiationError::ModuleDecodingFailed,
        InstantiationError::Instantiation,
        InstantiationError::CpuFeature,
    ] {
        assert_eq!(ctx.instance_new_result(Err(e), 1), ERR_MODULE);
    }
    // No id was used up.
    assert_eq!(ctx.instance_new_result(Ok(()), 1), 0);
}

#[test]
fn the_dispatch_thunk_has_to_be_a_function_of_the_table() {
    let empty = serialised(&[]);
    assert_eq!(
        outer(None).instance_new(1, &empty).unwrap_err(),
        "Runtime doesn't have a table; sandbox is unavailable"
    );
    assert_eq!(
        context().instance_new(2, &empty).unwrap_err(),
        "dispatch_thunk_id is out of bounds"
    );
    assert_eq!(
        context().instance_new(0, &empty).unwrap_err(),
        "dispatch_thunk_idx should point to actual func"
    );
    // The table is looked at before the environment.
    assert_eq!(
        context().instance_new(0, &[]).unwrap_err(),
        "dispatch_thunk_idx should point to actual func"
    );
}

#[test]
fn the_description_of_the_environment_is_decoded() {
    let bytes = serialised(&[(b"env", b"assert", 1, 9), (b"env", b"memory", 2, 0x0102_0304)]);
    assert_eq!(
        bytes,
        vec![
            8, 12, b'e', b'n', b'v', 24, b'a', b's', b's', b'e', b'r', b't', 1, 9, 0, 0, 0, 12, b'e',
            b'n', b'v', 24, b'm', b'e', b'm', b'o', b'r', b'y', 2, 4, 3, 2, 1,
        ]
    );
    let entries = read_environment(&bytes).unwrap();
    assert_eq!(entries.len(), 2);
    assert_eq!(entries[0].module_name, b"env");
    assert_eq!(entries[0].field_name, b"assert");
    assert_eq!(entries[0].entity, ExternEntity::Function(9));
    assert_eq!(entries[1].field_name, b"memory");
    assert_eq!(entries[1].entity, ExternEntity::Memory(0x0102_0304));
    // What follows the description does not count.
    let mut longer = bytes.clone();
    longer.extend_from_slice(&[1, 2, 3]);
    assert_eq!(read_environment(&longer).unwrap().len(), 2);
    assert!(read_environment(&serialised(&[])).unwrap().is_empty());
}

#[test]
fn a_description_that_cannot_be_read_gives_no_environment() {
    // Nothing at all, an entry that is cut short, a tag that stands for
    // nothing.
    assert!(read_environment(&[]).is_none());
    let bytes = serialised(&[(b"env", b"memory", 2, 7)]);
    assert!(read_environment(&bytes[..bytes.len() - 1]).is_none());
    assert!(read_environment(&bytes[..3]).is_none());
    for tag in [0u8, 3, 255] {
        assert!(read_environment(&serialised(&[(b"env", b"x", 1, 0), (b"env", b"y", tag, 0)]))
            .is_none());
    }
}

#[test]
fn the_parts_of_an_entry_give_the_entry() {
    let parts = vec![
        (b"a".to_vec(), b"f".to_vec(), 1u8, 5u32),
        (b"b".to_vec(), b"m".to_vec(), 2u8, 6u32),
    ];
    let entries = environment_entries(&parts).unwrap();
    assert_eq!(entries[0].module_name, b"a");
    assert_eq!(entries[0].field_name, b"f");
    assert_eq!(entries[0].entity, ExternEntity::Function(5));
    assert_eq!(entries[1].module_name, b"b");
    assert_eq!(entries[1].entity, ExternEntity::Memory(6));
    assert!(environment_entries(&vec![(vec![], vec![], 3u8, 0u32)]).is_none());
    assert!(environment_entries(&vec![]).unwrap().is_empty());
}

fn entry(entity: ExternEntity) -> EnvironmentEntry {
    EnvironmentEntry { module_name: b"env".to_vec(), field_name: b"x".to_vec(), entity }
}

#[test]
fn the_environment_may_name_live_memories_only() {
    let mut ctx = context();
    let live = ctx.memory_new(1, 1).unwrap();
    let gone = ctx.memory_new(1, 1).unwrap();
    ctx.memory_teardown(gone).unwrap();
    // A description that cannot be read.
    assert!(is_refused(ctx.instance_new(1, &[])));
    assert!(is_refused(ctx.instance_new(1, &serialised(&[(b"env", b"x", 7, 0)]))));
    match ctx.instance_new(1, &serialised(&[(b"env", b"f", 1, 9), (b"env", b"m", 2, live)])) {
        Ok(NewInstanceStep::Instantiate { dispatch_thunk, environment }) => {
            assert_eq!(dispatch_thunk, 1);
            assert_eq!(environment.len(), 2);
            assert_eq!(environment[0].entity, ExternEntity::Function(9));
            assert_eq!(environment[1].entity, ExternEntity::Memory(live));
            assert_eq!(environment[1].field_name, b"m");
        },
        other => panic!("unexpected step: {:?}", other),
    }
    assert!(is_refused(ctx.instance_new(1, &serialised(&[(b"env", b"m", 2, gone)]))));
    assert!(is_refused(ctx.instance_new(1, &serialised(&[(b"env", b"m", 2, 17)]))));
    let state = ctx.instance_wrapper.host_state.as_ref().unwrap();
    assert_eq!(
        state.sandbox_store.check_environment(&vec![
            entry(ExternEntity::Memory(live)),
            entry(ExternEntity::Memory(17)),
            entry(ExternEntity::Memory(gone)),
        ]),
        Err(InstantiationError::ModuleDecodingFailed)
    );
    assert_eq!(
        state.sandbox_store.check_environment(&vec![
            entry(ExternEntity::Memory(gone)),
            entry(ExternEntity::Memory(17)),
        ]),
        Err(InstantiationError::EnvironmentDefinitionCorrupted)
    );
    assert_eq!(state.sandbox_store.check_environment(&vec![]), Ok(()));
}

#[test]
fn the_arguments_of_an_invocation_are_decoded() {
    let mut ctx = context();
    assert_eq!(ctx.instance_new_result(Ok(()), 1), 0);
    // Two values: a 32-bit 7 and a 64-bit -2.
    let args = [8, 0, 7, 0, 0, 0, 1, 0xfe, 0xff, 0xff, 0xff, 0xff, 0xff, 0xff, 0xff];
    let request = ctx.invoke(0, &args).unwrap();
    assert_eq!(request.args, vec![Value::I32(7), Value::I64(-2)]);
    assert_eq!(request.instance, SandboxInstance { dispatch_thunk: 1 });
    assert_eq!(request.dispatch_thunk, 1);
    // No values at all.
    assert!(ctx.invoke(0, &[0]).unwrap().args.is_empty());
    // Float values, as bit patterns.
    let args = [8, 2, 1, 0, 0, 0, 3, 2, 0, 0, 0, 0, 0, 0, 0];
    assert_eq!(ctx.invoke(0, &args).unwrap().args, vec![Value::F32(1), Value::F64(2)]);
}

#[test]
fn an_invocation_needs_arguments_that_decode_and_a_live_instance() {
    let mut ctx = context();
    assert_eq!(ctx.instance_new_result(Ok(()), 1), 0);
    for bad in [&[][..], &[4][..], &[4, 9, 0, 0, 0, 0][..], &[4, 0, 1, 2][..]] {
        assert_eq!(
            ctx.invoke(0, bad).unwrap_err(),
            "Can't decode serialized arguments for the invocation"
        );
    }
    // The arguments are looked at before the instance.
    assert_eq!(
        ctx.invoke(9, &[]).unwrap_err(),
        "Can't decode serialized arguments for the invocation"
    );
    assert_eq!(
        ctx.invoke(9, &[0]).unwrap_err(),
        "Other: Trying to access a non-existent instance"
    );
    ctx.instance_teardown(0).unwrap();
    assert_eq!(ctx.invoke(0, &[0]).unwrap_err(), "Other: Trying to access a torndown instance");
}

#[test]
fn the_value_of_an_invocation_is_written_to_the_buffer() {
    let mut ctx = context();
    assert_eq!(ctx.invoke_result(Ok(Some(Value::I32(42))), 100, 10), Ok(ERR_OK));
    let mut dest = [9u8; 8];
    ctx.read_memory_into(99, &mut dest).unwrap();
    assert_eq!(dest, [0, 1, 0, 42, 0, 0, 0, 0]);
    assert_eq!(ctx.invoke_result(Ok(Some(Value::I64(-2))), 200, 10), Ok(ERR_OK));
    let mut dest = [9u8; 11];
    ctx.read_memory_into(200, &mut dest).unwrap();
    assert_eq!(dest, [1, 1, 0xfe, 0xff, 0xff, 0xff, 0xff, 0xff, 0xff, 0xff, 0]);
    assert_eq!(ctx.invoke_result(Ok(Some(Value::F32(5))), 300, 6), Ok(ERR_OK));
    let mut dest = [9u8; 6];
    ctx.read_memory_into(300, &mut dest).unwrap();
    assert_eq!(dest, [1, 2, 5, 0, 0, 0]);
    assert_eq!(ctx.invoke_result(Ok(Some(Value::F64(6))), 400, 10), Ok(ERR_OK));
    let mut dest = [9u8; 10];
    ctx.read_memory_into(400, &mut dest).unwrap();
    assert_eq!(dest, [1, 3, 6, 0, 0, 0, 0, 0, 0, 0]);
}

#[test]
fn an_invocation_without_a_value_writes_nothing() {
    let mut ctx = context();
    assert_eq!(ctx.invoke_result(Ok(None), 100, 0), Ok(ERR_OK));
    assert_eq!(ctx.invoke_result(Err("trap".to_string()), 100, 10), Ok(ERR_EXECUTION));
    let mut dest = [9u8; 4];
    ctx.read_memory_into(100, &mut dest).unwrap();
    assert_eq!(dest, [0; 4]);
}

#[test]
fn a_buffer_that_is_too_small_is_an_error() {
    let mut ctx = context();
    // A 32-bit value takes 6 bytes.
    assert_eq!(
        ctx.invoke_result(Ok(Some(Value::I32(42))), 100, 5).unwrap_err(),
        "Return value buffer is too small"
    );
    assert_eq!(ctx.invoke_result(Ok(Some(Value::I32(42))), 100, 6), Ok(ERR_OK));
    // A buffer outside the memory.
    assert_eq!(
        ctx.invoke_result(Ok(Some(Value::I32(42))), 65531, 10).unwrap_err(),
        "can't write return value"
    );
    assert_eq!(ctx.invoke_result(Ok(Some(Value::I32(42))), 65530, 10), Ok(ERR_OK));
}

#[test]
fn the_dispatch_thunk_gets_four_integers() {
    let args = dispatch_thunk_args(0x8000_0000, 12, u32::MAX, 3);
    assert_eq!(args.len(), 4);
    assert!(args.iter().all(|a| a.ty() == ValType::I32));
    assert_eq!(
        args.iter().map(|a| a.to_i32()).collect::<Vec<_>>(),
        vec![i32::MIN, 12, -1, 3]
    );
}

#[test]
fn the_dispatch_thunk_returns_a_64_bit_integer() {
    assert_eq!(dispatch_thunk_result(Ok(vec![WasmValue::from_i64(-9)])).unwrap(), -9);
    assert_eq!(
        dispatch_thunk_result(Ok(vec![WasmValue::from_i64(1 << 40), WasmValue::from_i32(1)]))
            .unwrap(),
        1 << 40
    );
    let e = dispatch_thunk_result(Err("host function failed".to_string())).unwrap_err();
    assert!(is_other(&e, "host function failed"));
}

#[test]
fn the_globals_of_a_nested_instance_are_read_by_name() {
    let mut ctx = context();
    assert_eq!(ctx.instance_new_result(Ok(()), 1), 0);
    let nested = Instance {
        funcs: vec![],
        globals: vec![
            Global { name: "a".to_string(), value: Val::I32(5) },
            Global { name: "v".to_string(), value: Val::V128(5) },
        ],
        table: None,
    };
    assert_eq!(ctx.get_global_val(0, &nested, "a"), Ok(Some(Value::I32(5))));
    assert_eq!(ctx.get_global_val(0, &nested, "v"), Ok(None));
    assert_eq!(ctx.get_global_val(0, &nested, "b"), Ok(None));
    assert_eq!(
        ctx.get_global_val(1, &nested, "a").unwrap_err(),
        "Other: Trying to access a non-existent instance"
    );
}

#[test]
fn the_context_frees_what_it_has_allocated_only() {
    let mut ctx = context();
    let ptr = ctx.allocate_memory(32).unwrap();
    let mut header = [0u8; 8];
    ctx.read_memory_into(ptr - 8, &mut header).unwrap();
    assert_eq!(header, [2, 0, 0, 0, 1, 0, 0, 0]);
    ctx.deallocate_memory(ptr).unwrap();
    ctx.read_memory_into(ptr - 8, &mut header).unwrap();
    assert_eq!(header[4..], [0, 0, 0, 0]);
    assert_eq!(
        ctx.deallocate_memory(ptr).unwrap_err(),
        "Other: the allocation points to an empty header"
    );
}
