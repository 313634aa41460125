//! The runtime: its configuration, the snapshots that let one instance serve
//! many calls, and the two ways of making a call.

use crate::error::{AllocatorError, Error, WasmError};
use crate::host::HostState;
use crate::imports::{
    binding_views, imports_resolve, prepare_imports, resolution, resolves_to, HostFunction,
    ImportType,
};
use crate::instance_wrapper::{
    call_outcome, dispatches, global_value, has_global, heap_base_name, Global, GuestCall,
    Instance, InstanceWrapper,
    InvokeMethod,
};
use crate::memory::{
    committed_after, extends, page_limit, HeapAllocator, LinearMemory, MemoryState,
    ALLOCATION_HEADER_SIZE, MAX_HEAP_BASE,
};
use crate::util;
use crate::value::{
    into_wasmedge_val, unpack_ptr_and_len, unpacked_len, unpacked_ptr, val_of_value,
    value_of_val, Val, WasmValue,
};
use sc_allocator::AllocationStats;
use sp_wasm_interface::Value;
use std::sync::Arc;
use vstd::prelude::*;
use vstd::string::StringExecFns;
use wasmedge_types::CompilerOptimizationLevel;

verus! {

#[verifier::external_type_specification]
pub struct ExCompilerOptimizationLevel(CompilerOptimizationLevel);

/// How a runtime is set up.
pub struct Config {
    /// Whether an import for which the host has no function gets a stub that
    /// fails when it is called, rather than failing the instantiation.
    pub allow_missing_func_imports: bool,
    /// How the executor behaves.
    pub semantics: Semantics,
}

/// The limit of the deterministic count of stack depth.
#[derive(Clone)]
pub struct DeterministicStackLimit {
    /// The number of logical values that the guest may have on its stack. The
    /// guest traps where it would exceed it.
    pub logical_max: u32,
}

/// How the executor behaves.
#[derive(Clone)]
pub struct Semantics {
    /// Whether one instance serves every call, cleaned up before each, or
    /// each call gets an instance of its own.
    pub fast_instance_reuse: bool,
    /// Whether, and at which depth, the guest is made to count its stack
    /// depth, so that it overflows at the same point on every machine.
    pub deterministic_stack_limit: Option<DeterministicStackLimit>,
    /// The number of pages that a memory gets on top of what the module asks
    /// for.
    pub extra_heap_pages: u64,
    /// The number of bytes that a memory may have at most: at its creation,
    /// with the extra pages, and whenever it grows.
    pub max_memory_size: Option<usize>,
}

/// What the engine is told before it loads, compiles or runs anything.
#[derive(Debug)]
pub struct EngineConfig {
    pub aot_optimization_level: CompilerOptimizationLevel,
    pub max_memory_pages: Option<u32>,
    pub reference_types: bool,
    pub simd: bool,
    pub bulk_memory_operations: bool,
    pub multi_value: bool,
    pub threads: bool,
    pub memory64: bool,
}

/// One change that is made to a module before it is compiled.
#[derive(Clone, Copy, Debug, PartialEq, Eq)]
pub enum BlobPass {
    /// Make the guest count its stack depth and trap beyond `logical_max`.
    InjectStackDepthMetering { logical_max: u32 },
    /// Export every mutable global, so that it can be reset between calls.
    ExposeMutableGlobals,
    /// Turn an imported memory into an exported one.
    ConvertMemoryImportIntoExport,
    /// Add this many pages to the initial size of the memory.
    AddExtraHeapPages { extra_heap_pages: u32 },
}

impl Semantics {
    /// The number of whole pages that fit into `max_memory_size`, as the
    /// 32-bit number that the engine takes.
    pub open spec fn spec_max_memory_pages(&self) -> Option<u32> {
        match self.max_memory_size {
            Some(size) => Some((size / 65536) as u32),
            None => None,
        }
    }

    /// The changes that are made to a module before it is compiled, in their
    /// order.
    pub open spec fn passes(&self) -> Seq<BlobPass> {
        let metering = match self.deterministic_stack_limit {
            Some(limit) => seq![BlobPass::InjectStackDepthMetering { logical_max: limit.logical_max }],
            None => Seq::empty(),
        };
        let expose = if self.fast_instance_reuse {
            seq![BlobPass::ExposeMutableGlobals]
        } else {
            Seq::empty()
        };
        metering + expose + seq![
            BlobPass::ConvertMemoryImportIntoExport,
            BlobPass::AddExtraHeapPages { extra_heap_pages: self.extra_heap_pages as u32 },
        ]
    }
}

/// The configuration of the engine for `semantics`: the smallest code, no
/// extension of the instruction set, and the limit of memory in whole pages
/// where there is one.
pub fn common_config(semantics: &Semantics) -> (r: EngineConfig)
    ensures
        r.aot_optimization_level == CompilerOptimizationLevel::Os,
        r.max_memory_pages == semantics.spec_max_memory_pages(),
        !r.reference_types && !r.simd && !r.bulk_memory_operations && !r.multi_value && !r.threads
            && !r.memory64,
{
    let max_memory_pages: Option<u32> = match semantics.max_memory_size {
        Some(max_memory_size) => Some(
            #[verifier::truncate]
            ((max_memory_size / 64 / 1024) as u32),
        ),
        None => None,
    };
    assert(semantics.max_memory_size matches Some(size) ==> size / 64 / 1024 == size / 65536)
        by (nonlinear_arith);
    EngineConfig {
        aot_optimization_level: CompilerOptimizationLevel::Os,
        max_memory_pages,
        reference_types: false,
        simd: false,
        bulk_memory_operations: false,
        multi_value: false,
        threads: false,
        memory64: false,
    }
}

/// The changes that are made to a module before it is compiled, in their
/// order: the count of stack depth where it is asked for, then the export of
/// the mutable globals where one instance serves every call, then the memory
/// import turned into an export, then the extra heap pages. Fails where the
/// number of extra heap pages does not fit into 32 bits.
pub fn prepare_blob_for_compilation(semantics: &Semantics) -> (r: Result<Vec<BlobPass>, WasmError>)
    ensures
        r.is_ok() == (semantics.extra_heap_pages <= u32::MAX),
        r matches Ok(passes) ==> passes@ == semantics.passes(),
        r matches Err(e) ==> e.text()
            == "invalid `extra_heap_pages`: out of range integral type conversion attempted"@,
{
    let mut passes: Vec<BlobPass> = Vec::new();
    match &semantics.deterministic_stack_limit {
        Some(limit) => {
            passes.push(BlobPass::InjectStackDepthMetering { logical_max: limit.logical_max });
        },
        None => {},
    }
    if semantics.fast_instance_reuse {
        passes.push(BlobPass::ExposeMutableGlobals);
    }
    passes.push(BlobPass::ConvertMemoryImportIntoExport);
    if semantics.extra_heap_pages > u32::MAX as u64 {
        return Err(
            WasmError::Other(
                "invalid `extra_heap_pages`: out of range integral type conversion attempted".to_owned(),
            ),
        );
    }
    passes.push(
        BlobPass::AddExtraHeapPages { extra_heap_pages: semantics.extra_heap_pages as u32 },
    );
    assert(passes@ =~= semantics.passes());
    Ok(passes)
}

/// The limits of the memory of an instance: the initial size that the module
/// asks for with the extra heap pages on top, and its declared maximum raised
/// by as much, both cut down to what 32 bits hold.
pub open spec fn memory_limits(initial: u32, maximum: Option<u32>, extra: u32) -> (u32, Option<u32>) {
    (
        if initial + extra <= u32::MAX {
            (initial + extra) as u32
        } else {
            u32::MAX
        },
        match maximum {
            Some(m) => Some(
                if m + extra <= u32::MAX {
                    (m + extra) as u32
                } else {
                    u32::MAX
                },
            ),
            None => None,
        },
    )
}

/// The smaller of two limits, where `None` stands for no limit.
pub open spec fn tighter(a: Option<u32>, b: Option<u32>) -> Option<u32> {
    match (a, b) {
        (Some(x), Some(y)) => Some(if x <= y {
            x
        } else {
            y
        }),
        (Some(x), None) => Some(x),
        (None, y) => y,
    }
}

/// The memory with which an instance starts, for a module that asks for
/// `initial` pages and declares the maximum `maximum`. The memory gets the
/// extra heap pages on top and may grow up to the declared maximum, raised by
/// as much, but never beyond `max_memory_size`. There is no memory, and so no
/// instance, where its initial size would already exceed a limit, or where the
/// number of extra heap pages does not fit into 32 bits.
pub fn instance_memory(initial: u32, maximum: Option<u32>, semantics: &Semantics) -> (r: Option<
    LinearMemory,
>)
    ensures
        ({
            let limits = memory_limits(initial, maximum, semantics.extra_heap_pages as u32);
            let most = tighter(limits.1, semantics.spec_max_memory_pages());
            &&& r.is_some() == (semantics.extra_heap_pages <= u32::MAX && limits.0 <= page_limit(
                most,
            ))
            &&& r matches Some(m) ==> m.wf() && m.spec_pages() == limits.0 && m.spec_maximum()
                == most && m@ == crate::memory::zeros((limits.0 * 65536) as nat)
        }),
{
    if semantics.extra_heap_pages > u32::MAX as u64 {
        return None;
    }
    let extra: u32 = semantics.extra_heap_pages as u32;
    let first: u32 = initial.saturating_add(extra);
    let declared: Option<u32> = match maximum {
        Some(m) => Some(m.saturating_add(extra)),
        None => None,
    };
    let config = common_config(semantics);
    let most: Option<u32> = match (declared, config.max_memory_pages) {
        (Some(x), Some(y)) => Some(if x <= y {
            x
        } else {
            y
        }),
        (Some(x), None) => Some(x),
        (None, y) => y,
    };
    LinearMemory::new(first, most)
}

/// The static image of the memory of a module: ranges of bytes, each with the
/// offset at which it lies, in the order in which they are written.
#[derive(Debug)]
pub struct DataSegmentsSnapshot {
    pub data_segments: Vec<(u32, Vec<u8>)>,
}

/// `memory` after the first `n` of `segments` are written to it in order.
pub open spec fn applied(segments: Seq<(u32, Vec<u8>)>, memory: Seq<u8>, n: nat) -> Seq<u8>
    decreases n,
{
    if n == 0 {
        memory
    } else {
        let segment = segments[n - 1];
        util::written(applied(segments, memory, (n - 1) as nat), segment.0 as int, segment.1@)
    }
}

/// Whether each of the first `n` of `segments` lies within a memory of `len`
/// bytes.
pub open spec fn segments_fit(segments: Seq<(u32, Vec<u8>)>, len: nat, n: nat) -> bool {
    forall|i: int| 0 <= i < n ==> (#[trigger] segments[i]).0 + segments[i].1@.len() <= len
}

/// Whether one of the first `n` of `segments` covers the address `a`.
pub open spec fn covered(segments: Seq<(u32, Vec<u8>)>, a: int, n: nat) -> bool {
    exists|i: int| 0 <= i < n
        && (#[trigger] segments[i]).0 <= a < segments[i].0 + segments[i].1@.len()
}

/// Writing segments that fit keeps the size of the memory.
pub proof fn lemma_applied_len(segments: Seq<(u32, Vec<u8>)>, memory: Seq<u8>, n: nat)
    requires
        n <= segments.len(),
        segments_fit(segments, memory.len(), n),
    ensures
        applied(segments, memory, n).len() == memory.len(),
    decreases n,
{
    if n > 0 {
        lemma_applied_len(segments, memory, (n - 1) as nat);
        assert(segments[n - 1].0 + segments[n - 1].1@.len() <= memory.len());
    }
}

/// After the segments are written, every address that one of them covers holds
/// what the static image holds there, whatever the memory held before; every
/// other address holds what it held before.
pub proof fn lemma_restore_data_segments(
    segments: Seq<(u32, Vec<u8>)>,
    memory: Seq<u8>,
    other: Seq<u8>,
    n: nat,
    a: int,
)
    requires
        n <= segments.len(),
        memory.len() == other.len(),
        segments_fit(segments, memory.len(), n),
        0 <= a < memory.len(),
    ensures
        covered(segments, a, n) ==> applied(segments, memory, n)[a] == applied(
            segments,
            other,
            n,
        )[a],
        !covered(segments, a, n) ==> applied(segments, memory, n)[a] == memory[a],
    decreases n,
{
    if n > 0 {
        let before = (n - 1) as nat;
        let segment = segments[n - 1];
        lemma_restore_data_segments(segments, memory, other, before, a);
        lemma_applied_len(segments, memory, before);
        lemma_applied_len(segments, other, before);
        assert(segment.0 + segment.1@.len() <= memory.len());
        if segment.0 <= a < segment.0 + segment.1@.len() {
            assert(covered(segments, a, n));
        } else {
            if covered(segments, a, n) {
                let i = choose|i: int|
                    0 <= i < n && (#[trigger] segments[i]).0 <= a < segments[i].0
                        + segments[i].1@.len();
                assert(i < n - 1);
                assert(covered(segments, a, before));
            } else {
                if covered(segments, a, before) {
                    let i = choose|i: int|
                        0 <= i < before && (#[trigger] segments[i]).0 <= a < segments[i].0
                            + segments[i].1@.len();
                    assert(0 <= i < n && segments[i].0 <= a < segments[i].0 + segments[i].1@.len());
                }
            }
        }
    }
}

/// Where two memories of one size agree at every address that no segment
/// covers, they are equal once the segments are written. So an instance that
/// is used again, with its memory given back and the segments written anew,
/// starts a call with the memory of a new instance of the same size.
pub proof fn lemma_reused_memory_is_fresh(
    segments: Seq<(u32, Vec<u8>)>,
    memory: Seq<u8>,
    other: Seq<u8>,
)
    requires
        memory.len() == other.len(),
        segments_fit(segments, memory.len(), segments.len()),
        forall|a: int|
            0 <= a < memory.len() && !covered(segments, a, segments.len()) ==> memory[a]
                == other[a],
    ensures
        applied(segments, memory, segments.len()) == applied(segments, other, segments.len()),
{
    let n = segments.len();
    lemma_applied_len(segments, memory, n);
    lemma_applied_len(segments, other, n);
    assert forall|a: int| 0 <= a < memory.len() implies applied(segments, memory, n)[a] == applied(
        segments,
        other,
        n,
    )[a] by {
        lemma_restore_data_segments(segments, memory, other, n, a);
        lemma_restore_data_segments(segments, other, memory, n, a);
    }
    assert(applied(segments, memory, n) =~= applied(segments, other, n));
}

/// How many bytes take room in a memory of `len` bytes, of which `committed`
/// took room before, after the first `n` of `segments` are written to it.
pub open spec fn committed_applied(
    segments: Seq<(u32, Vec<u8>)>,
    committed: nat,
    len: nat,
    n: nat,
) -> nat
    decreases n,
{
    if n == 0 {
        committed
    } else {
        let segment = segments[n - 1];
        committed_after(
            committed_applied(segments, committed, len, (n - 1) as nat),
            (segment.0 + segment.1@.len()) as u64,
            len,
        )
    }
}

/// What a memory in the state `memory` is to the heap allocator after the
/// first `n` of `segments` are written to it.
pub open spec fn applied_state(
    segments: Seq<(u32, Vec<u8>)>,
    memory: MemoryState,
    n: nat,
) -> MemoryState {
    MemoryState {
        contents: applied(segments, memory.contents, n),
        committed: committed_applied(segments, memory.committed, memory.contents.len(), n),
        maximum: memory.maximum,
        reserved: memory.reserved,
    }
}

impl DataSegmentsSnapshot {
    /// Writes the segments into `memory`, in their order. Stops at the first
    /// segment that does not lie within the memory, and fails.
    pub fn apply(&self, memory: &mut LinearMemory) -> (r: Result<(), Error>)
        requires
            old(memory).wf(),
        ensures
            final(memory).wf(),
            final(memory).spec_maximum() == old(memory).spec_maximum(),
            final(memory)@.len() == old(memory)@.len(),
            r.is_ok() == segments_fit(
                self.data_segments@,
                old(memory)@.len(),
                self.data_segments@.len(),
            ),
            r.is_ok() ==> final(memory)@ == applied(
                self.data_segments@,
                old(memory)@,
                self.data_segments@.len(),
            ),
            r.is_ok() ==> final(memory).state() == applied_state(
                self.data_segments@,
                old(memory).state(),
                self.data_segments@.len(),
            ),
            r matches Err(e) ==> e.is_other(util::write_out_of_bounds()) && exists|n: nat|
                n < self.data_segments@.len() && segments_fit(
                    self.data_segments@,
                    old(memory)@.len(),
                    n,
                ) && (#[trigger] self.data_segments@[n as int]).0 + self.data_segments@[n as int].1@.len()
                    > old(memory)@.len() && final(memory)@ == applied(
                    self.data_segments@,
                    old(memory)@,
                    n,
                ),
    {
        let mut i: usize = 0;
        while i < self.data_segments.len()
            invariant
                i <= self.data_segments@.len(),
                memory.wf(),
                memory.spec_maximum() == old(memory).spec_maximum(),
                memory@.len() == old(memory)@.len(),
                segments_fit(self.data_segments@, old(memory)@.len(), i as nat),
                memory@ == applied(self.data_segments@, old(memory)@, i as nat),
                memory.spec_reserved() == old(memory).spec_reserved(),
                memory.spec_committed() == committed_applied(
                    self.data_segments@,
                    old(memory).spec_committed(),
                    old(memory)@.len(),
                    i as nat,
                ),
            decreases self.data_segments@.len() - i,
        {
            let segment = &self.data_segments[i];
            match memory.write_from(segment.0, segment.1.as_slice()) {
                Ok(()) => {},
                Err(e) => {
                    assert(self.data_segments@[i as int].0 + self.data_segments@[i as int].1@.len()
                        > old(memory)@.len());
                    return Err(e);
                },
            }
            i += 1;
        }
        Ok(())
    }
}

/// The names under which a module exports its mutable globals.
#[derive(Debug)]
pub struct ExposedMutableGlobalsSet {
    pub names: Vec<String>,
}

/// The values of the mutable globals of an instance at one moment: for each,
/// its position among the globals of the instance and its value.
#[derive(Debug)]
pub struct GlobalsSnapshot {
    pub entries: Vec<(usize, Value)>,
}

/// Whether `val` is of one of the four numeric kinds.
pub open spec fn is_numeric_val(val: Val) -> bool {
    val is I32 || val is I64 || val is F32 || val is F64
}

/// Whether each of `names` is the name of a global of a numeric kind among
/// `globals`.
pub open spec fn all_exposed(globals: Seq<Global>, names: Seq<String>) -> bool {
    forall|i: int|
        0 <= i < names.len() ==> crate::instance_wrapper::has_global(
            globals,
            (#[trigger] names[i])@,
        ) && is_numeric_val(crate::instance_wrapper::global_value(globals, names[i]@))
}

/// Whether each of the first `n` of `entries` names a position among
/// `globals`.
pub open spec fn entries_fit(entries: Seq<(usize, Value)>, len: nat, n: nat) -> bool {
    forall|i: int| 0 <= i < n ==> (#[trigger] entries[i]).0 < len
}

/// `globals` after the first `n` of `entries` are written back.
pub open spec fn restored(globals: Seq<Global>, entries: Seq<(usize, Value)>, n: nat) -> Seq<Global>
    decreases n,
{
    if n == 0 {
        globals
    } else {
        let before = restored(globals, entries, (n - 1) as nat);
        let entry = entries[n - 1];
        before.update(
            entry.0 as int,
            Global { name: before[entry.0 as int].name, value: val_of_value(entry.1) },
        )
    }
}

/// Whether each of the first `n` of `entries` holds the value that the global
/// at its position has in `globals`.
pub open spec fn taken_from(entries: Seq<(usize, Value)>, globals: Seq<Global>, n: nat) -> bool {
    forall|i: int|
        0 <= i < n ==> (#[trigger] entries[i]).0 < globals.len() && is_numeric_val(
            globals[entries[i].0 as int].value,
        ) && entries[i].1 == value_of_val(globals[entries[i].0 as int].value)
}

/// Writing a snapshot back keeps the number and the names of the globals.
pub proof fn lemma_restored_shape(globals: Seq<Global>, entries: Seq<(usize, Value)>, n: nat)
    requires
        n <= entries.len(),
        entries_fit(entries, globals.len(), n),
    ensures
        restored(globals, entries, n).len() == globals.len(),
        forall|k: int|
            0 <= k < globals.len() ==> (#[trigger] restored(globals, entries, n)[k]).name
                == globals[k].name,
    decreases n,
{
    if n > 0 {
        lemma_restored_shape(globals, entries, (n - 1) as nat);
        assert(entries[n - 1].0 < globals.len());
    }
}

/// After a snapshot that was taken from the globals `pristine` is written back
/// to globals `current` of the same number, every global that the snapshot
/// names has the value that it had in `pristine`, whatever it held in
/// `current`, and every other global is as it was in `current`.
pub proof fn lemma_restore_globals(
    pristine: Seq<Global>,
    current: Seq<Global>,
    entries: Seq<(usize, Value)>,
    n: nat,
    k: int,
)
    requires
        n <= entries.len(),
        pristine.len() == current.len(),
        taken_from(entries, pristine, n),
        0 <= k < current.len(),
    ensures
        (exists|i: int| 0 <= i < n && (#[trigger] entries[i]).0 == k) ==> restored(
            current,
            entries,
            n,
        )[k].value == pristine[k].value,
        !(exists|i: int| 0 <= i < n && (#[trigger] entries[i]).0 == k) ==> restored(
            current,
            entries,
            n,
        )[k] == current[k],
    decreases n,
{
    if n > 0 {
        let before = (n - 1) as nat;
        lemma_restore_globals(pristine, current, entries, before, k);
        assert(entries_fit(entries, current.len(), before)) by {
            assert forall|i: int| 0 <= i < before implies (#[trigger] entries[i]).0
                < current.len() by {}
        }
        lemma_restored_shape(current, entries, before);
        let entry = entries[n - 1];
        assert(entry.0 < pristine.len());
        if entry.0 == k {
            crate::value::lemma_val_round_trip(pristine[k].value);
        } else {
            if exists|i: int| 0 <= i < n && (#[trigger] entries[i]).0 == k {
                let i = choose|i: int| 0 <= i < n && (#[trigger] entries[i]).0 == k;
                assert(i < n - 1);
            } else {
                assert forall|i: int| 0 <= i < before implies (#[trigger] entries[i]).0 != k by {}
            }
        }
    }
}

/// An instance that is used again starts a call as a new instance does.
/// Let the snapshots be those of the module: the static image, written over a
/// zeroed memory, is the memory of a new instance, and the snapshot of the
/// globals was taken from the globals of a new instance. Let the used instance
/// have a memory of the same size that reads as zero wherever no segment
/// covers it, as it does after its memory was given back, and let only globals
/// that the snapshot names differ from those of a new instance. Then writing
/// the static image anew and writing the snapshot back gives the memory and
/// the globals of a new instance.
pub proof fn lemma_reused_call_starts_fresh(
    segments: Seq<(u32, Vec<u8>)>,
    entries: Seq<(usize, Value)>,
    new_memory: Seq<u8>,
    new_globals: Seq<Global>,
    used_memory: Seq<u8>,
    used_globals: Seq<Global>,
)
    requires
        segments_fit(segments, new_memory.len(), segments.len()),
        new_memory == applied(segments, crate::memory::zeros(new_memory.len()), segments.len()),
        taken_from(entries, new_globals, entries.len()),
        used_memory.len() == new_memory.len(),
        forall|a: int|
            0 <= a < used_memory.len() && !covered(segments, a, segments.len()) ==> used_memory[a]
                == 0u8,
        used_globals.len() == new_globals.len(),
        forall|k: int|
            0 <= k < used_globals.len() ==> (#[trigger] used_globals[k]).name
                == new_globals[k].name,
        forall|k: int|
            0 <= k < used_globals.len() && !(exists|i: int|
                0 <= i < entries.len() && (#[trigger] entries[i]).0 == k)
                ==> (#[trigger] used_globals[k]).value == new_globals[k].value,
    ensures
        applied(segments, used_memory, segments.len()) == new_memory,
        restored(used_globals, entries, entries.len()) == new_globals,
{
    lemma_reused_memory_is_fresh(segments, used_memory, crate::memory::zeros(new_memory.len()));
    let after = restored(used_globals, entries, entries.len());
    assert(entries_fit(entries, used_globals.len(), entries.len())) by {
        assert forall|i: int| 0 <= i < entries.len() implies (#[trigger] entries[i]).0
            < used_globals.len() by {}
    }
    lemma_restored_shape(used_globals, entries, entries.len());
    assert forall|k: int| 0 <= k < after.len() implies after[k] == new_globals[k] by {
        lemma_restore_globals(new_globals, used_globals, entries, entries.len(), k);
        assert(after[k].name == used_globals[k].name);
    }
    assert(after =~= new_globals);
}

impl GlobalsSnapshot {
    /// Takes the values of the globals that `mutable_globals` names from
    /// `instance_wrapper`. Each name has to be that of a global of a numeric
    /// kind.
    pub fn take(mutable_globals: &ExposedMutableGlobalsSet, instance_wrapper: &InstanceWrapper) -> (r:
        GlobalsSnapshot)
        requires
            instance_wrapper.spec_instance().is_some(),
            all_exposed(instance_wrapper.spec_instance().unwrap().globals@, mutable_globals.names@),
        ensures
            r.entries@.len() == mutable_globals.names@.len(),
            taken_from(
                r.entries@,
                instance_wrapper.spec_instance().unwrap().globals@,
                r.entries@.len(),
            ),
            forall|i: int|
                0 <= i < r.entries@.len() ==> crate::instance_wrapper::is_first_global(
                    instance_wrapper.spec_instance().unwrap().globals@,
                    mutable_globals.names@[i]@,
                    (#[trigger] r.entries@[i]).0 as int,
                ),
    {
        let mut entries: Vec<(usize, Value)> = Vec::new();
        match &instance_wrapper.instance {
            Some(instance) => {
                let mut i: usize = 0;
                while i < mutable_globals.names.len()
                    invariant
                        i <= mutable_globals.names@.len(),
                        entries@.len() == i,
                        all_exposed(instance.globals@, mutable_globals.names@),
                        taken_from(entries@, instance.globals@, i as nat),
                        forall|j: int|
                            0 <= j < i ==> crate::instance_wrapper::is_first_global(
                                instance.globals@,
                                mutable_globals.names@[j]@,
                                (#[trigger] entries@[j]).0 as int,
                            ),
                    decreases mutable_globals.names@.len() - i,
                {
                    assert(crate::instance_wrapper::has_global(
                        instance.globals@,
                        mutable_globals.names@[i as int]@,
                    ));
                    match crate::instance_wrapper::find_global(
                        &instance.globals,
                        mutable_globals.names[i].as_str(),
                    ) {
                        Some(k) => {
                            let value = crate::value::from_wasmedge_val(instance.globals[k].value);
                            entries.push((k, value));
                        },
                        None => {
                            proof {
                                assert(false);
                            }
                        },
                    }
                    i += 1;
                }
            },
            None => {
                proof {
                    assert(false);
                }
            },
        }
        GlobalsSnapshot { entries }
    }

    /// Writes the values of the snapshot back to the globals of
    /// `instance_wrapper`. The snapshot has to be one of this instance or of
    /// another instance of the same module.
    pub fn apply(&self, instance_wrapper: &mut InstanceWrapper)
        requires
            old(instance_wrapper).spec_instance().is_some(),
            entries_fit(
                self.entries@,
                old(instance_wrapper).spec_instance().unwrap().globals@.len(),
                self.entries@.len(),
            ),
        ensures
            final(instance_wrapper).spec_memory() == old(instance_wrapper).spec_memory(),
            final(instance_wrapper).spec_host_state() == old(instance_wrapper).spec_host_state(),
            final(instance_wrapper).spec_import() == old(instance_wrapper).spec_import(),
            final(instance_wrapper).spec_instance() matches Some(instance)
                && instance.funcs == old(instance_wrapper).spec_instance().unwrap().funcs
                && instance.table == old(instance_wrapper).spec_instance().unwrap().table
                && instance.globals@ == restored(
                old(instance_wrapper).spec_instance().unwrap().globals@,
                self.entries@,
                self.entries@.len(),
            ),
    {
        match &mut instance_wrapper.instance {
            Some(instance) => {
                let ghost first = instance.globals@;
                let mut i: usize = 0;
                while i < self.entries.len()
                    invariant
                        i <= self.entries@.len(),
                        entries_fit(self.entries@, first.len(), self.entries@.len()),
                        instance.funcs == old(instance_wrapper).spec_instance().unwrap().funcs,
                        instance.table == old(instance_wrapper).spec_instance().unwrap().table,
                        instance.globals@.len() == first.len(),
                        instance.globals@ == restored(first, self.entries@, i as nat),
                    decreases self.entries@.len() - i,
                {
                    let entry = self.entries[i];
                    assert(self.entries@[i as int].0 < first.len());
                    instance.globals[entry.0].value = into_wasmedge_val(entry.1);
                    assert(instance.globals@ =~= restored(first, self.entries@, (i + 1) as nat));
                    i += 1;
                }
            },
            None => {
                proof {
                    assert(false);
                }
            },
        }
    }
}

/// What the fast reuse of an instance needs of the module: the names of its
/// mutable globals and the static image of its memory.
#[derive(Debug)]
pub struct InstanceSnapshotData {
    pub mutable_globals: ExposedMutableGlobalsSet,
    pub data_segments_snapshot: Arc<DataSegmentsSnapshot>,
}

/// What the host has to know of a module before it is compiled.
#[derive(Debug)]
pub struct ModuleDescription {
    /// The imports that the module declares.
    pub imports: Vec<ImportType>,
    /// The static image of the memory.
    pub data_segments: DataSegmentsSnapshot,
    /// The names under which the mutable globals are exported.
    pub mutable_globals: ExposedMutableGlobalsSet,
}

/// A compiled module with what is needed to make instances of it.
pub struct WasmEdgeRuntime {
    pub snapshot_data: Option<InstanceSnapshotData>,
    pub host_functions: Vec<HostFunction>,
    pub imports: Vec<ImportType>,
    pub config: Config,
}

/// What the engine made of a module: the instance and its memory, where the
/// module exports one under the name `memory`.
pub struct InstantiatedModule {
    pub instance: Instance,
    pub memory: Option<LinearMemory>,
}

/// Makes an instance anew for each call.
pub struct InstanceCreator {
    pub instance_wrapper: InstanceWrapper,
}

/// The way in which an instance serves its calls.
pub enum Strategy {
    /// One instance serves every call. Before each call the static image of
    /// the memory is written anew and the mutable globals are reset; after
    /// each call the memory is given back.
    FastInstanceReuse {
        instance_wrapper: InstanceWrapper,
        globals_snapshot: GlobalsSnapshot,
        data_segments_snapshot: Arc<DataSegmentsSnapshot>,
        heap_base: u32,
    },
    /// Each call gets an instance of its own.
    RecreateInstance(InstanceCreator),
}

/// An instance of a runtime, on which calls are made.
pub struct WasmEdgeInstance {
    pub strategy: Strategy,
}

/// The runtime for a module that is compiled now. Where one instance is to
/// serve every call, the runtime keeps the static image of the memory and the
/// names of the mutable globals of the module.
pub fn create_runtime(
    module: ModuleDescription,
    host_functions: Vec<HostFunction>,
    config: Config,
) -> (r: WasmEdgeRuntime)
    ensures
        r.config == config,
        r.host_functions == host_functions,
        r.imports == module.imports,
        r.snapshot_data.is_some() == config.semantics.fast_instance_reuse,
        r.snapshot_data matches Some(data) ==> data.mutable_globals == module.mutable_globals
            && *data.data_segments_snapshot == module.data_segments,
{
    let snapshot_data = if config.semantics.fast_instance_reuse {
        Some(
            InstanceSnapshotData {
                mutable_globals: module.mutable_globals,
                data_segments_snapshot: Arc::new(module.data_segments),
            },
        )
    } else {
        None
    };
    WasmEdgeRuntime { snapshot_data, host_functions, imports: module.imports, config }
}

/// The runtime for a module that was compiled before. Nothing is known of
/// its static image, so each call gets an instance of its own.
pub fn create_runtime_from_artifact(
    imports: Vec<ImportType>,
    host_functions: Vec<HostFunction>,
    config: Config,
) -> (r: WasmEdgeRuntime)
    ensures
        r.config == config,
        r.host_functions == host_functions,
        r.imports == imports,
        r.snapshot_data.is_none(),
{
    WasmEdgeRuntime { snapshot_data: None, host_functions, imports, config }
}

/// The text of the error for imports that cannot be satisfied, around the
/// message of the resolution.
pub open spec fn import_failure(message: Seq<char>) -> Seq<char> {
    "fail to register imports: "@ + ("Other error happened while constructing the runtime: "@
        + message)
}

impl WasmEdgeRuntime {
    /// Makes an instance of the runtime. The imports of the module are bound
    /// first. Where one instance is to serve every call, the instance takes
    /// over what the engine made of the module, `instantiated`, reads the heap
    /// base and takes the snapshot of the mutable globals; otherwise nothing is
    /// instantiated before the first call.
    pub fn new_instance(&self, instantiated: Option<InstantiatedModule>) -> (r: Result<
        WasmEdgeInstance,
        Error,
    >)
        requires
            self.snapshot_data.is_some() ==> instantiated.is_some(),
            instantiated matches Some(module) ==> (module.memory matches Some(m) ==> m.wf()),
            self.snapshot_data.is_some() && instantiated.is_some() ==> all_exposed(
                instantiated.unwrap().instance.globals@,
                self.snapshot_data.unwrap().mutable_globals.names@,
            ),
        ensures
            !imports_resolve(
                self.imports@,
                self.host_functions@,
                self.config.allow_missing_func_imports,
            ) ==> (r matches Err(e) && e.is_construction(
                import_failure(
                    resolution(
                        self.imports@,
                        self.host_functions@,
                        self.config.allow_missing_func_imports,
                    )->Err_0,
                ),
            )),
            imports_resolve(
                self.imports@,
                self.host_functions@,
                self.config.allow_missing_func_imports,
            ) ==> match self.snapshot_data {
                None => r matches Ok(instance) && instance.wf() && (
                instance.strategy matches Strategy::RecreateInstance(creator)
                    && creator.instance_wrapper.spec_instance().is_none()
                    && creator.instance_wrapper.spec_host_state().is_none() && is_bound(
                    &creator.instance_wrapper,
                    self,
                )),
                Some(data) => {
                    let module = instantiated.unwrap();
                    match module.memory {
                        None => r matches Err(e) && e.is_construction(
                            "fail to get WASM memory named 'memory'"@,
                        ),
                        Some(memory) => {
                            let globals = module.instance.globals@;
                            if !has_global(globals, heap_base_name()) {
                                r matches Err(e) && e.is_construction(
                                    "failed to get WASM global named '__heap_base'"@,
                                )
                            } else {
                                match global_value(globals, heap_base_name()) {
                                    Val::I32(v) => r matches Ok(instance) && instance.wf() && (
                                    instance.strategy matches Strategy::FastInstanceReuse {
                                        instance_wrapper,
                                        globals_snapshot,
                                        data_segments_snapshot,
                                        heap_base,
                                    } && heap_base == v as u32 && data_segments_snapshot
                                        == data.data_segments_snapshot
                                        && instance_wrapper.spec_instance() == Some(module.instance)
                                        && instance_wrapper.spec_memory() == Some(memory)
                                        && instance_wrapper.spec_host_state().is_none() && is_bound(
                                        &instance_wrapper,
                                        self,
                                    ) && globals_snapshot.entries@.len()
                                        == data.mutable_globals.names@.len() && taken_from(
                                        globals_snapshot.entries@,
                                        globals,
                                        globals_snapshot.entries@.len(),
                                    )),
                                    _ => r matches Err(e) && e.is_other(
                                        "the type of WASM global named '__heap_base' is not i32"@,
                                    ),
                                }
                            }
                        },
                    }
                },
            },
    {
        let mut instance_wrapper = InstanceWrapper::new();
        match prepare_imports(
            &self.imports,
            &self.host_functions,
            self.config.allow_missing_func_imports,
        ) {
            Err(e) => {
                let mut text = "fail to register imports: ".to_owned();
                let mut inner = "Other error happened while constructing the runtime: ".to_owned();
                inner.append(e.message().as_str());
                text.append(inner.as_str());
                let error = Error::RuntimeConstruction(WasmError::Other(text));
                assert(error.is_construction(import_failure(e.text())));
                return Err(error);
            },
            Ok(bindings) => {
                instance_wrapper.register_import(bindings);
            },
        }
        match &self.snapshot_data {
            Some(snapshot_data) => {
                let module = match instantiated {
                    Some(module) => module,
                    None => {
                        proof {
                            assert(false);
                        }
                        return Err(Error::NoTable);
                    },
                };
                match instance_wrapper.instantiate(module.instance, module.memory) {
                    Err(e) => {
                        return Err(e);
                    },
                    Ok(()) => {},
                }
                let heap_base = match instance_wrapper.extract_heap_base() {
                    Err(e) => {
                        return Err(e);
                    },
                    Ok(heap_base) => heap_base,
                };
                let globals_snapshot = GlobalsSnapshot::take(
                    &snapshot_data.mutable_globals,
                    &instance_wrapper,
                );
                Ok(
                    WasmEdgeInstance {
                        strategy: Strategy::FastInstanceReuse {
                            instance_wrapper,
                            globals_snapshot,
                            data_segments_snapshot: snapshot_data.data_segments_snapshot.clone(),
                            heap_base,
                        },
                    },
                )
            },
            None => Ok(
                WasmEdgeInstance {
                    strategy: Strategy::RecreateInstance(InstanceCreator { instance_wrapper }),
                },
            ),
        }
    }
}

/// Whether `instance_wrapper` holds the bindings of the imports of `runtime`.
pub open spec fn is_bound(instance_wrapper: &InstanceWrapper, runtime: &WasmEdgeRuntime) -> bool {
    instance_wrapper.spec_import() matches Some(bindings) && resolves_to(
        runtime.imports@,
        runtime.host_functions@,
        runtime.config.allow_missing_func_imports,
        Ok(binding_views(bindings@)),
    )
}

/// The allocator for a heap that starts at `heap_base`. There is none for a
/// heap base so close to the end of the address space that it cannot be
/// aligned: such a heap has no room.
pub fn new_allocator(heap_base: u32) -> (r: Result<HeapAllocator, Error>)
    ensures
        r.is_ok() == (heap_base <= MAX_HEAP_BASE),
        r matches Ok(allocator) ==> allocator == HeapAllocator::spec_new(heap_base)
            && allocator.spec_heap_base() == heap_base,
        r matches Err(e) ==> e matches Error::Allocator(AllocatorError::AllocatorOutOfSpace),
{
    match HeapAllocator::new(heap_base) {
        Some(allocator) => Ok(allocator),
        None => Err(Error::Allocator(AllocatorError::AllocatorOutOfSpace)),
    }
}

/// Whether the memory `after` is the memory `before` with `data` put on the
/// heap at `ptr`: the memory has not shrunk, `data` lies at `ptr`, and of the
/// bytes that were there before only those of `data` and the 8 in front of
/// them, which the allocator uses, may differ.
pub open spec fn injected(before: Seq<u8>, after: Seq<u8>, ptr: u32, data: Seq<u8>) -> bool {
    &&& before.len() <= after.len()
    &&& ALLOCATION_HEADER_SIZE <= ptr
    &&& ptr + data.len() <= after.len()
    &&& after.subrange(ptr as int, ptr + data.len()) == data
    &&& forall|i: int|
        0 <= i < before.len() && !(ptr - ALLOCATION_HEADER_SIZE <= i < ptr + data.len())
            ==> after[i] == before[i]
}

/// Puts the input of a call on the heap of the instance: allocates room for
/// `data`, copies `data` there and returns where it lies and how long it is.
/// Fails, leaving the bytes of the memory as they are, where the allocator
/// gives no room or `data` is longer than 32 bits can tell.
pub fn inject_input_data(
    instance_wrapper: &mut InstanceWrapper,
    allocator: &mut HeapAllocator,
    data: &[u8],
) -> (r: Result<(u32, u32), Error>)
    requires
        old(instance_wrapper).wf(),
        old(instance_wrapper).spec_memory().is_some(),
    ensures
        final(allocator).spec_heap_base() == old(allocator).spec_heap_base(),
        r.is_ok() == (data@.len() <= u32::MAX && old(allocator).allocation(
            old(instance_wrapper).spec_memory().unwrap().state(),
            data@.len() as u32,
        ).is_some()),
        r matches Ok((ptr, len)) ==> old(allocator).allocation(
            old(instance_wrapper).spec_memory().unwrap().state(),
            data@.len() as u32,
        ) == Some(ptr),
        final(instance_wrapper).wf(),
        final(instance_wrapper).spec_instance() == old(instance_wrapper).spec_instance(),
        final(instance_wrapper).spec_host_state() == old(instance_wrapper).spec_host_state(),
        final(instance_wrapper).spec_import() == old(instance_wrapper).spec_import(),
        final(instance_wrapper).spec_memory() matches Some(after)
            && after.spec_maximum()
            == old(instance_wrapper).spec_memory().unwrap().spec_maximum() && match r {
            Ok((ptr, len)) => len == data@.len() && injected(
                old(instance_wrapper).spec_memory().unwrap()@,
                after@,
                ptr,
                data@,
            ),
            Err(e) => extends(old(instance_wrapper).spec_memory().unwrap()@, after@)
                && if data@.len()
                > u32::MAX {
                e.is_other(util::write_out_of_bounds())
            } else {
                e is Allocator
            },
        },
{
    if data.len() > u32::MAX as usize {
        proof {
            let before = instance_wrapper.spec_memory().unwrap()@;
            assert(before.subrange(0, before.len() as int) =~= before);
        }
        return Err(Error::Other("memory write is out of bounds".to_owned()));
    }
    let data_len: u32 = data.len() as u32;
    match &mut instance_wrapper.memory {
        Some(memory) => {
            let ghost before = memory@;
            let data_ptr = match allocator.allocate(memory, data_len) {
                Err(e) => {
                    return Err(Error::Allocator(e));
                },
                Ok(data_ptr) => data_ptr,
            };
            let ghost allocated = memory@;
            match memory.write_from(data_ptr, data) {
                Err(e) => Err(e),
                Ok(()) => {
                    assert(memory@.subrange(data_ptr as int, data_ptr + data@.len()) =~= data@);
                    Ok((data_ptr, data_len))
                },
            }
        },
        None => {
            proof {
                assert(false);
            }
            Err(Error::NoTable)
        },
    }
}

/// Reads the output of a call from the memory of the instance.
pub fn extract_output_data(instance_wrapper: &InstanceWrapper, output_ptr: u32, output_len: u32) -> (r:
    Result<Vec<u8>, Error>)
    requires
        instance_wrapper.wf(),
        instance_wrapper.spec_memory().is_some(),
    ensures
        ({
            let memory = instance_wrapper.spec_memory().unwrap()@;
            &&& r.is_ok() == (output_ptr + output_len <= memory.len())
            &&& r matches Ok(output) ==> output@ == memory.subrange(
                output_ptr as int,
                output_ptr + output_len,
            )
            &&& r matches Err(e) ==> e.is_other(util::read_out_of_bounds())
        }),
{
    match &instance_wrapper.memory {
        Some(memory) => memory.read(output_ptr, output_len as usize),
        None => {
            proof {
                assert(false);
            }
            Ok(Vec::new())
        },
    }
}

/// Starts a call on an instance: puts the input on the heap of `allocator`,
/// installs the state of the call around this allocator, and says which
/// function the engine has to run with which arguments. The call starts where
/// the input is not longer than 32 bits can tell, the allocator gives room
/// for it, and the method names an entry point. Where that fails the
/// state of the call is removed again, and the counters of the allocator come
/// back with the error if the state had been installed.
pub fn perform_call(
    data: &[u8],
    instance_wrapper: &mut InstanceWrapper,
    method: &InvokeMethod,
    allocator: HeapAllocator,
) -> (r: (Result<GuestCall, Error>, Option<AllocationStats>))
    requires
        old(instance_wrapper).wf(),
        old(instance_wrapper).spec_instance().is_some(),
        old(instance_wrapper).spec_host_state().is_none(),
    ensures
        final(instance_wrapper).wf(),
        final(instance_wrapper).spec_instance() == old(instance_wrapper).spec_instance(),
        final(instance_wrapper).spec_import() == old(instance_wrapper).spec_import(),
        final(instance_wrapper).spec_memory() matches Some(after)
            && after.spec_maximum()
            == old(instance_wrapper).spec_memory().unwrap().spec_maximum()
            && old(instance_wrapper).spec_memory().unwrap()@.len()
            <= after@.len(),
        r.0.is_ok() == final(instance_wrapper).spec_host_state().is_some(),
        final(instance_wrapper).spec_host_state() matches Some(state) ==> state.message().is_none()
            && state.store().instances().len() == 0 && state.store().memories().len() == 0
            && state.allocator.spec_heap_base() == allocator.spec_heap_base(),
        r.0.is_ok() ==> r.1.is_none(),
        ({
            let before = old(instance_wrapper).spec_memory().unwrap();
            let after = final(instance_wrapper).spec_memory().unwrap()@;
            let instance = old(instance_wrapper).spec_instance().unwrap();
            let placed = allocator.allocation(before.state(), data@.len() as u32);
            &&& r.0.is_ok() == (data@.len() <= u32::MAX && placed.is_some() && dispatches(
                &instance,
                method,
            ))
            &&& if data@.len() > u32::MAX {
                extends(before@, after) && r.1.is_none() && (r.0 matches Err(e) && e.is_other(
                    util::write_out_of_bounds(),
                ))
            } else {
                match placed {
                    None => extends(before@, after) && r.1.is_none() && (r.0 matches Err(e)
                        && e is Allocator),
                    Some(ptr) => injected(before@, after, ptr, data@) && call_outcome(
                        &instance,
                        method,
                        ptr,
                        data@.len() as u32,
                        r.0,
                    ) && (r.0.is_err() ==> r.1.is_some()),
                }
            }
        }),
{
    let mut allocator = allocator;
    let (data_ptr, data_len) = match inject_input_data(instance_wrapper, &mut allocator, data) {
        Err(e) => {
            return (Err(e), None);
        },
        Ok(place) => place,
    };
    let host_state = HostState::new(allocator);
    instance_wrapper.set_host_state(Some(host_state));
    match instance_wrapper.call(method, data_ptr, data_len) {
        Ok(call) => (Ok(call), None),
        Err(e) => {
            let stats = match instance_wrapper.take_host_state() {
                Some(host_state) => Some(host_state.allocation_stats()),
                None => None,
            };
            (Err(e), stats)
        },
    }
}

/// Finishes a call on an instance, given what the engine returned: the
/// results of the function, or the text of the trap that ended it. Removes the
/// state of the call. After a trap the error is a panic, where host code has
/// recorded a fatal message, or a trap. Otherwise the first result is the
/// packed pointer and length of the output, which is read from the memory.
pub fn perform_call_result(
    instance_wrapper: &mut InstanceWrapper,
    outcome: Result<Vec<WasmValue>, String>,
) -> (r: (Result<Vec<u8>, Error>, Option<AllocationStats>))
    requires
        old(instance_wrapper).wf(),
        old(instance_wrapper).spec_memory().is_some(),
        old(instance_wrapper).spec_host_state().is_some(),
        outcome matches Ok(results) ==> results@.len() > 0,
    ensures
        final(instance_wrapper).wf(),
        final(instance_wrapper).spec_instance() == old(instance_wrapper).spec_instance(),
        final(instance_wrapper).spec_import() == old(instance_wrapper).spec_import(),
        final(instance_wrapper).spec_memory() == old(instance_wrapper).spec_memory(),
        final(instance_wrapper).spec_host_state().is_none(),
        r.1 == Some(old(instance_wrapper).spec_host_state().unwrap().allocator.spec_stats()),
        call_output(
            old(instance_wrapper).spec_memory().unwrap()@,
            old(instance_wrapper).spec_host_state().unwrap().message(),
            outcome,
            r.0,
        ),
{
    let returned = instance_wrapper.call_result(outcome);
    let stats = match instance_wrapper.take_host_state() {
        Some(host_state) => Some(host_state.allocation_stats()),
        None => None,
    };
    match returned {
        Err(e) => (Err(e), stats),
        Ok(packed) => {
            let (output_ptr, output_len) = unpack_ptr_and_len(packed);
            (extract_output_data(instance_wrapper, output_ptr, output_len), stats)
        },
    }
}

/// Whether `r` is the result of a call, given the memory at its end, the
/// fatal message that host code has recorded, if any, and what the engine
/// returned.
pub open spec fn call_output(
    memory: Seq<u8>,
    recorded: Option<String>,
    outcome: Result<Vec<WasmValue>, String>,
    r: Result<Vec<u8>, Error>,
) -> bool {
    match outcome {
        Err(trap) => r matches Err(e) && crate::instance_wrapper::is_abort(&e, trap@, recorded),
        Ok(results) => {
            let packed = results@[0].spec_bits();
            let ptr = unpacked_ptr(packed);
            let len = unpacked_len(packed);
            if ptr + len <= memory.len() {
                r matches Ok(output) && output@ == memory.subrange(ptr as int, ptr + len)
            } else {
                r matches Err(e) && e.is_other(util::read_out_of_bounds())
            }
        },
    }
}

/// Whether two runs of a guest function came to the same end: both returned
/// the same packed pointer and length and left the same bytes there, or none
/// that lie within the memory; or both trapped with the same text. Any two
/// runs of a function that depends on its input alone, on the same input, do.
pub open spec fn runs_agree(
    memory: Seq<u8>,
    outcome: Result<Vec<WasmValue>, String>,
    other_memory: Seq<u8>,
    other_outcome: Result<Vec<WasmValue>, String>,
) -> bool {
    match (outcome, other_outcome) {
        (Ok(results), Ok(other_results)) => {
            let packed = results@[0].spec_bits();
            let ptr = unpacked_ptr(packed);
            let len = unpacked_len(packed);
            &&& other_results@[0].spec_bits() == packed
            &&& (ptr + len <= memory.len()) == (ptr + len <= other_memory.len())
            &&& ptr + len <= memory.len() ==> memory.subrange(ptr as int, ptr + len)
                == other_memory.subrange(ptr as int, ptr + len)
        },
        (Err(trap), Err(other_trap)) => trap@ == other_trap@,
        _ => false,
    }
}

/// Whether two calls gave the same: the same output, byte for byte, or the
/// same kind of error with the same message and backtrace.
pub open spec fn results_agree(r: Result<Vec<u8>, Error>, other: Result<Vec<u8>, Error>) -> bool {
    match (r, other) {
        (Ok(output), Ok(other_output)) => output@ == other_output@,
        (Err(Error::Other(m)), Err(Error::Other(n))) => m@ == n@,
        (Err(Error::AbortedDueToTrap(m)), Err(Error::AbortedDueToTrap(n))) => m.message@
            == n.message@ && (m.backtrace matches Some(b) && n.backtrace matches Some(c)
            && b.backtrace_string@ == c.backtrace_string@),
        _ => false,
    }
}

/// Calls of a guest function that depends on its input alone give the same
/// result whenever they get the same input: on an instance that is used again
/// and again, and on instances made anew. The result of a call is made of
/// what the engine returned and of the bytes that the guest left at the place
/// that it returned, and of nothing else: neither an earlier call nor the
/// strategy comes into it. Host code has recorded no fatal message in either
/// call.
pub proof fn lemma_pure_calls_agree(
    memory: Seq<u8>,
    outcome: Result<Vec<WasmValue>, String>,
    r: Result<Vec<u8>, Error>,
    other_memory: Seq<u8>,
    other_outcome: Result<Vec<WasmValue>, String>,
    other: Result<Vec<u8>, Error>,
)
    requires
        outcome matches Ok(results) ==> results@.len() > 0,
        other_outcome matches Ok(results) ==> results@.len() > 0,
        runs_agree(memory, outcome, other_memory, other_outcome),
        call_output(memory, None, outcome, r),
        call_output(other_memory, None, other_outcome, other),
    ensures
        results_agree(r, other),
{
}

impl InstanceCreator {
    /// Takes over the instance that the engine has made for the next call.
    pub fn instantiate(&mut self, module: InstantiatedModule) -> (r: Result<(), Error>)
        requires
            old(self).instance_wrapper.wf(),
            module.memory matches Some(m) ==> m.wf(),
        ensures
            final(self).instance_wrapper.wf(),
            final(self).instance_wrapper.spec_host_state()
                == old(self).instance_wrapper.spec_host_state(),
            final(self).instance_wrapper.spec_import() == old(self).instance_wrapper.spec_import(),
            r.is_ok() == module.memory.is_some(),
            r.is_ok() ==> final(self).instance_wrapper.spec_instance() == Some(module.instance)
                && final(self).instance_wrapper.spec_memory() == module.memory,
            r matches Err(e) ==> e.is_construction("fail to get WASM memory named 'memory'"@)
                && final(self).instance_wrapper.spec_instance()
                    == old(self).instance_wrapper.spec_instance()
                    && final(self).instance_wrapper.spec_memory()
                    == old(self).instance_wrapper.spec_memory(),
    {
        self.instance_wrapper.instantiate(module.instance, module.memory)
    }
}

impl WasmEdgeInstance {
    /// Under fast reuse the instance is there with its memory, and the
    /// snapshot of the globals names globals of the instance.
    pub open spec fn wf(&self) -> bool {
        match self.strategy {
            Strategy::FastInstanceReuse {
                instance_wrapper,
                globals_snapshot,
                data_segments_snapshot,
                heap_base,
            } => {
                &&& instance_wrapper.wf()
                &&& instance_wrapper.spec_instance().is_some()
                &&& entries_fit(
                    globals_snapshot.entries@,
                    instance_wrapper.spec_instance().unwrap().globals@.len(),
                    globals_snapshot.entries@.len(),
                )
            },
            Strategy::RecreateInstance(creator) => creator.instance_wrapper.wf(),
        }
    }

    /// The instance on which the call is made, once there is one.
    pub open spec fn wrapper(&self) -> InstanceWrapper {
        match self.strategy {
            Strategy::FastInstanceReuse { instance_wrapper, .. } => instance_wrapper,
            Strategy::RecreateInstance(creator) => creator.instance_wrapper,
        }
    }

    /// Whether one instance serves every call.
    pub open spec fn reuses(&self) -> bool {
        self.strategy is FastInstanceReuse
    }

    /// Whether the strategy is the same as that of `other`, and, under fast
    /// reuse, the snapshots and the heap base are too.
    pub open spec fn same_strategy(&self, other: &WasmEdgeInstance) -> bool {
        match (self.strategy, other.strategy) {
            (
                Strategy::FastInstanceReuse {
                    globals_snapshot: g1,
                    data_segments_snapshot: d1,
                    heap_base: h1,
                    ..
                },
                Strategy::FastInstanceReuse {
                    globals_snapshot: g2,
                    data_segments_snapshot: d2,
                    heap_base: h2,
                    ..
                },
            ) => g1 == g2 && d1 == d2 && h1 == h2,
            (Strategy::RecreateInstance(_), Strategy::RecreateInstance(_)) => true,
            _ => false,
        }
    }

    /// The memory and the globals with which a call starts, before its input
    /// is put on the heap. Under fast reuse: the memory of the instance with
    /// the static image written anew, and its globals with the snapshot written
    /// back. Otherwise: those of the new instance `fresh`.
    pub open spec fn start_of_call(&self, fresh: Option<InstantiatedModule>) -> (Seq<u8>, Seq<Global>) {
        match self.strategy {
            Strategy::FastInstanceReuse {
                instance_wrapper,
                globals_snapshot,
                data_segments_snapshot,
                heap_base,
            } => (
                applied(
                    data_segments_snapshot.data_segments@,
                    instance_wrapper.spec_memory().unwrap()@,
                    data_segments_snapshot.data_segments@.len(),
                ),
                restored(
                    instance_wrapper.spec_instance().unwrap().globals@,
                    globals_snapshot.entries@,
                    globals_snapshot.entries@.len(),
                ),
            ),
            Strategy::RecreateInstance(_) => (
                fresh.unwrap().memory.unwrap()@,
                fresh.unwrap().instance.globals@,
            ),
        }
    }

    /// What the memory with which a call starts is to the heap allocator,
    /// before the input is put on the heap. Under fast reuse: the memory of the
    /// instance with the static image written anew. Otherwise: the memory of the
    /// new instance `fresh`.
    pub open spec fn start_memory(&self, fresh: Option<InstantiatedModule>) -> MemoryState {
        match self.strategy {
            Strategy::FastInstanceReuse { instance_wrapper, data_segments_snapshot, .. } => {
                applied_state(
                    data_segments_snapshot.data_segments@,
                    instance_wrapper.spec_memory().unwrap().state(),
                    data_segments_snapshot.data_segments@.len(),
                )
            },
            Strategy::RecreateInstance(_) => fresh.unwrap().memory.unwrap().state(),
        }
    }

    /// The instance whose exports and function table decide which function a
    /// call reaches: the one that is reused, or the new instance `fresh`.
    pub open spec fn dispatch_instance(&self, fresh: Option<InstantiatedModule>) -> Instance {
        match self.strategy {
            Strategy::FastInstanceReuse { instance_wrapper, .. } => {
                instance_wrapper.spec_instance().unwrap()
            },
            Strategy::RecreateInstance(_) => fresh.unwrap().instance,
        }
    }

    /// Where a new allocator at the heap base of the call puts an input of
    /// `len` bytes in the memory with which the call starts; nothing where it
    /// gives no room.
    pub open spec fn placed(&self, fresh: Option<InstantiatedModule>, len: u32) -> Option<u32> {
        HeapAllocator::spec_new(self.heap_base_of_call(fresh).unwrap()).allocation(
            self.start_memory(fresh),
            len,
        )
    }

    /// Whether a call of `method` with an input of `len` bytes starts: the
    /// instance is there with its memory and heap base, the heap base can be
    /// aligned, the input is not longer than 32 bits can tell, the allocator
    /// gives room for it, and `method` names an entry point.
    pub open spec fn starts(
        &self,
        method: &InvokeMethod,
        len: nat,
        fresh: Option<InstantiatedModule>,
    ) -> bool {
        &&& self.can_start(fresh)
        &&& self.heap_base_of_call(fresh).unwrap() <= MAX_HEAP_BASE
        &&& len <= u32::MAX
        &&& self.placed(fresh, len as u32).is_some()
        &&& dispatches(&self.dispatch_instance(fresh), method)
    }

    /// The heap base with which a call starts, if it can be had.
    pub open spec fn heap_base_of_call(&self, fresh: Option<InstantiatedModule>) -> Option<u32> {
        match self.strategy {
            Strategy::FastInstanceReuse { heap_base, .. } => Some(heap_base),
            Strategy::RecreateInstance(_) => {
                let globals = fresh.unwrap().instance.globals@;
                if has_global(globals, heap_base_name()) && global_value(
                    globals,
                    heap_base_name(),
                ) is I32 {
                    Some(global_value(globals, heap_base_name())->I32_0 as u32)
                } else {
                    None
                }
            },
        }
    }

    /// Whether the call can be started at all: under fast reuse the static
    /// image has to lie within the memory; otherwise the new instance has to
    /// have a memory and a heap base.
    pub open spec fn can_start(&self, fresh: Option<InstantiatedModule>) -> bool {
        match self.strategy {
            Strategy::FastInstanceReuse { instance_wrapper, data_segments_snapshot, .. } => {
                segments_fit(
                    data_segments_snapshot.data_segments@,
                    instance_wrapper.spec_memory().unwrap()@.len(),
                    data_segments_snapshot.data_segments@.len(),
                )
            },
            Strategy::RecreateInstance(_) => fresh.unwrap().memory.is_some()
                && self.heap_base_of_call(fresh).is_some(),
        }
    }

    /// Whether `e` is the error of a call that cannot be started.
    pub open spec fn is_start_error(&self, fresh: Option<InstantiatedModule>, e: &Error) -> bool {
        match self.strategy {
            Strategy::FastInstanceReuse { .. } => e.is_other(util::write_out_of_bounds()),
            Strategy::RecreateInstance(_) => {
                let module = fresh.unwrap();
                if module.memory.is_none() {
                    e.is_construction("fail to get WASM memory named 'memory'"@)
                } else if !has_global(module.instance.globals@, heap_base_name()) {
                    e.is_construction("failed to get WASM global named '__heap_base'"@)
                } else {
                    e.is_other("the type of WASM global named '__heap_base' is not i32"@)
                }
            },
        }
    }

    /// Starts a call, exactly where `starts` says so. Under fast reuse the
    /// static image of the memory is
    /// written anew and the mutable globals are reset; otherwise the instance
    /// takes over `fresh`, which the engine has made for this call. Then the
    /// input is put on a new heap, the state of the call is installed, and the
    /// result says which function the engine has to run with which arguments.
    /// Where the call cannot be started, the state of the call is not there
    /// afterwards; under fast reuse the memory has then been given back, unless
    /// the static image did not lie within it.
    pub fn call_impl(
        &mut self,
        method: &InvokeMethod,
        data: &[u8],
        fresh: Option<InstantiatedModule>,
    ) -> (r: (Result<GuestCall, Error>, Option<AllocationStats>))
        requires
            old(self).wf(),
            old(self).wrapper().spec_host_state().is_none(),
            !old(self).reuses() ==> fresh.is_some(),
            fresh matches Some(module) ==> (module.memory matches Some(m) ==> m.wf()),
        ensures
            final(self).wf(),
            final(self).same_strategy(old(self)),
            final(self).wrapper().spec_import() == old(self).wrapper().spec_import(),
            r.0.is_ok() == final(self).wrapper().spec_host_state().is_some(),
            r.0.is_ok() == old(self).starts(method, data@.len(), fresh),
            r.0.is_ok() ==> r.1.is_none(),
            r.0 matches Ok(call) ==> {
                let start = old(self).start_of_call(fresh);
                let now = final(self).wrapper();
                &&& now.spec_instance() matches Some(instance) && instance.globals@ == start.1
                &&& now.spec_host_state().unwrap().message().is_none()
                &&& now.spec_host_state().unwrap().store().instances().len() == 0
                &&& now.spec_host_state().unwrap().store().memories().len() == 0
                &&& now.spec_host_state().unwrap().allocator.spec_heap_base()
                    == old(self).heap_base_of_call(fresh).unwrap()
                &&& old(self).placed(fresh, data@.len() as u32) matches Some(ptr) && injected(
                    start.0,
                    now.spec_memory().unwrap()@,
                    ptr,
                    data@,
                ) && call_outcome(
                    &now.spec_instance().unwrap(),
                    method,
                    ptr,
                    data@.len() as u32,
                    r.0,
                )
            },
            (old(self).reuses() && old(self).can_start(fresh)
                && r.0.is_err()) ==> final(self).wrapper().spec_memory().unwrap()@
                == crate::memory::zeros(
                final(self).wrapper().spec_memory().unwrap()@.len(),
            ),
            !old(self).can_start(fresh) ==> r.1.is_none() && (r.0 matches Err(e)
                && old(self).is_start_error(fresh, &e)),
            old(self).can_start(fresh) && old(self).heap_base_of_call(fresh).unwrap()
                > MAX_HEAP_BASE ==> r.1.is_none() && (
            r.0 matches Err(Error::Allocator(AllocatorError::AllocatorOutOfSpace))),
            old(self).can_start(fresh) && old(self).heap_base_of_call(fresh).unwrap()
                <= MAX_HEAP_BASE && data@.len() > u32::MAX ==> r.1.is_none() && (r.0 matches Err(e)
                && e.is_other(util::write_out_of_bounds())),
            old(self).can_start(fresh) && old(self).heap_base_of_call(fresh).unwrap()
                <= MAX_HEAP_BASE && data@.len() <= u32::MAX && r.0.is_err() ==> {
                match old(self).placed(fresh, data@.len() as u32) {
                    None => r.1.is_none() && (r.0 matches Err(e) && e is Allocator),
                    Some(ptr) => r.1.is_some() && call_outcome(
                        &final(self).wrapper().spec_instance().unwrap(),
                        method,
                        ptr,
                        data@.len() as u32,
                        r.0,
                    ),
                }
            },
    {
        match &mut self.strategy {
            Strategy::FastInstanceReuse {
                instance_wrapper,
                globals_snapshot,
                data_segments_snapshot,
                heap_base,
            } => {
                match &mut instance_wrapper.memory {
                    Some(memory) => match data_segments_snapshot.apply(memory) {
                        Err(e) => {
                            return (Err(e), None);
                        },
                        Ok(()) => {},
                    },
                    None => {
                        proof {
                            assert(false);
                        }
                    },
                }
                proof {
                    lemma_restored_shape(
                        instance_wrapper.spec_instance().unwrap().globals@,
                        globals_snapshot.entries@,
                        globals_snapshot.entries@.len(),
                    );
                }
                globals_snapshot.apply(instance_wrapper);
                let allocator = match new_allocator(*heap_base) {
                    Err(e) => {
                        instance_wrapper.decommit();
                        return (Err(e), None);
                    },
                    Ok(allocator) => allocator,
                };
                let ghost before = instance_wrapper.spec_memory().unwrap()@;
                let ghost start_state = instance_wrapper.spec_memory().unwrap().state();
                let ghost instance = instance_wrapper.spec_instance().unwrap();
                let result = perform_call(data, instance_wrapper, method, allocator);
                if result.0.is_err() {
                    instance_wrapper.decommit();
                }
                proof {
                    assert(before == old(self).start_of_call(fresh).0);
                    assert(start_state == old(self).start_memory(fresh));
                    assert(dispatches(&instance, method) == dispatches(
                        &old(self).dispatch_instance(fresh),
                        method,
                    ));
                }
                result
            },
            Strategy::RecreateInstance(instance_creator) => {
                let module = match fresh {
                    Some(module) => module,
                    None => {
                        proof {
                            assert(false);
                        }
                        return (Err(Error::NoTable), None);
                    },
                };
                match instance_creator.instantiate(module) {
                    Err(e) => {
                        return (Err(e), None);
                    },
                    Ok(()) => {},
                }
                let heap_base = match instance_creator.instance_wrapper.extract_heap_base() {
                    Err(e) => {
                        return (Err(e), None);
                    },
                    Ok(heap_base) => heap_base,
                };
                let allocator = match new_allocator(heap_base) {
                    Err(e) => {
                        return (Err(e), None);
                    },
                    Ok(allocator) => allocator,
                };
                let ghost before = instance_creator.instance_wrapper.spec_memory().unwrap()@;
                let ghost start_state =
                    instance_creator.instance_wrapper.spec_memory().unwrap().state();
                let ghost instance = instance_creator.instance_wrapper.spec_instance().unwrap();
                let result = perform_call(
                    data,
                    &mut instance_creator.instance_wrapper,
                    method,
                    allocator,
                );
                proof {
                    assert(before == old(self).start_of_call(fresh).0);
                    assert(start_state == old(self).start_memory(fresh));
                }
                result
            },
        }
    }

    /// Finishes a call, given what the engine returned: the results of the
    /// function, or the text of the trap that ended it. Gives the output of
    /// the call, or its error, and the counters of the allocator. Under fast
    /// reuse the memory is given back afterwards: every byte of it then reads
    /// as zero.
    pub fn call_impl_result(&mut self, outcome: Result<Vec<WasmValue>, String>) -> (r: (
        Result<Vec<u8>, Error>,
        Option<AllocationStats>,
    ))
        requires
            old(self).wf(),
            old(self).wrapper().spec_instance().is_some(),
            old(self).wrapper().spec_host_state().is_some(),
            outcome matches Ok(results) ==> results@.len() > 0,
        ensures
            final(self).wf(),
            final(self).same_strategy(old(self)),
            final(self).wrapper().spec_instance() == old(self).wrapper().spec_instance(),
            final(self).wrapper().spec_import() == old(self).wrapper().spec_import(),
            final(self).wrapper().spec_host_state().is_none(),
            r.1 == Some(old(self).wrapper().spec_host_state().unwrap().allocator.spec_stats()),
            call_output(
                old(self).wrapper().spec_memory().unwrap()@,
                old(self).wrapper().spec_host_state().unwrap().message(),
                outcome,
                r.0,
            ),
            final(self).wrapper().spec_memory() matches Some(after)
                && after.spec_maximum()
                == old(self).wrapper().spec_memory().unwrap().spec_maximum()
                && after@ == if old(self).reuses() {
                crate::memory::zeros(old(self).wrapper().spec_memory().unwrap()@.len())
            } else {
                old(self).wrapper().spec_memory().unwrap()@
            },
    {
        match &mut self.strategy {
            Strategy::FastInstanceReuse { instance_wrapper, .. } => {
                let result = perform_call_result(instance_wrapper, outcome);
                instance_wrapper.decommit();
                result
            },
            Strategy::RecreateInstance(instance_creator) => {
                perform_call_result(&mut instance_creator.instance_wrapper, outcome)
            },
        }
    }

    /// The value of the global called `name`. Where each call gets an
    /// instance of its own, the instance takes over `fresh`, which the engine
    /// has made for this.
    pub fn get_global_const(&mut self, name: &str, fresh: Option<InstantiatedModule>) -> (r: Result<
        Option<Value>,
        Error,
    >)
        requires
            old(self).wf(),
            !old(self).reuses() ==> fresh.is_some(),
            fresh matches Some(module) ==> (module.memory matches Some(m) ==> m.wf()),
        ensures
            final(self).wf(),
            final(self).same_strategy(old(self)),
            ({
                let globals = if old(self).reuses() {
                    old(self).wrapper().spec_instance().unwrap().globals@
                } else {
                    fresh.unwrap().instance.globals@
                };
                if !old(self).reuses() && fresh.unwrap().memory.is_none() {
                    r matches Err(e) && e.is_construction("fail to get WASM memory named 'memory'"@)
                } else if !has_global(globals, name@) {
                    r matches Err(e) && e.is_other("failed to get WASM global"@)
                } else {
                    let val = global_value(globals, name@);
                    if is_numeric_val(val) {
                        r == Ok::<_, Error>(Some(value_of_val(val)))
                    } else {
                        r matches Err(e) && e.is_other("Unknown value type"@)
                    }
                }
            }),
    {
        match &mut self.strategy {
            Strategy::FastInstanceReuse { instance_wrapper, .. } => {
                instance_wrapper.get_global_val(name)
            },
            Strategy::RecreateInstance(instance_creator) => {
                let module = match fresh {
                    Some(module) => module,
                    None => {
                        proof {
                            assert(false);
                        }
                        return Ok(None);
                    },
                };
                match instance_creator.instantiate(module) {
                    Err(e) => {
                        return Err(e);
                    },
                    Ok(()) => {},
                }
                instance_creator.instance_wrapper.get_global_val(name)
            },
        }
    }
}

} // verus!
